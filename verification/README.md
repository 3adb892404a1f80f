# heyreach

A command-line client for the HeyReach LinkedIn outreach API, with its logic verified by Verus.

- `src/` is the library, verified: the command tree (`cli`), the request each command sends
  (`commands`), what a reply or an HTTP status means (`client`, `error`), account resolution
  and the configured accounts (`account`, `config`), the login steps (`commands::login`), the
  agent manual (`readme`), and a plain JSON model (`json`) with the text helpers (`text`).
  JSON parsing is done by `serde_json`, behind trusted wrappers in `json`.
- `app/` is the program around it: argument parsing with `clap`, HTTP with `ureq`, the masked
  key prompt with `rpassword`, files and printing.
- `tests/` runs the library on concrete inputs.

Errors are printed as an envelope (`error`, `code`, `detail`, `remediation`) on stderr, and the
process exits with the code of the error's class:

| Exit code | Name |
|:---|:---|
| 1 | `error` |
| 2 | `network` |
| 3 | `auth_required` |
| 4 | `not_found` |
| 5 | `rate_limited` |
| 6 | `invalid_input` |
| 7 | `no_account` |
