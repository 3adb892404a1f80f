//! The manual an agent reads before its first call. Markdown by default so it can be pasted
//! into a system prompt; as data, the same rules with the exit codes.

use vstd::prelude::*;
use crate::json::{Json, JsonV, fields_view, push_field, obj, json_seq_view, lemma_json_seq_view_push};
use crate::error::{ErrorCode, exit_status, code_name};
use crate::text::decimal;
use crate::commands::new_fields;

verus! {

/// HeyReach API version this build targets.
pub const API_VERSION: &'static str = "1.0.0";

/// The operating manual, in Markdown.
pub const MANUAL: &'static str = r#"# heyreach - agent operating manual

A native CLI for the HeyReach LinkedIn outreach API: campaigns, lead lists, leads, sender accounts,
conversations, stats, webhooks, and tags. Results are YAML on stdout, errors are YAML on stderr,
and `--json` switches both to JSON.

## Authentication & Accounts

You can authenticate in three ways:

1. **Named Accounts (Keystore)**:
   Store your API key securely in the native OS keystore:
   ```bash
   heyreach login [<name>] [--api-key <key>]
   heyreach accounts add <name> --api-key <key> [--force]
   printf %s "$KEY" | heyreach accounts add <name> --api-key-stdin
   heyreach accounts list [--check]
   heyreach accounts test <name>
   heyreach accounts remove <name> --yes
   ```
   When accounts are configured, pass `-a, --account <name>` to execute against that account.

2. **Environment Variable**:
   Set `HEYREACH_API_KEY`:
   ```bash
   export HEYREACH_API_KEY="your-api-key"
   heyreach auth check
   ```

3. **Direct Flag**:
   Pass `--api-key <key>` directly on any command.

## Commands Overview

### Authentication
- `heyreach auth check`: Validate the active API key with HeyReach.

### Campaigns
- `heyreach campaigns list [--limit <int>] [--offset <int>] [--status <active|paused|draft|completed>]`: List campaigns.
- `heyreach campaigns get <id>`: Get campaign details.
- `heyreach campaigns pause <id>`: Pause a campaign.
- `heyreach campaigns resume <id>`: Resume a paused campaign.
- `heyreach campaigns add-leads <id> [--file <path>]`: Add an array of leads from file or stdin.
- `heyreach campaigns stop-lead <campaign-id> --lead <lead-id>`: Stop a lead in a campaign.

### Lead Lists
- `heyreach lists list [--limit <int>] [--offset <int>]`: List lead lists.
- `heyreach lists get <id>`: Get list details.
- `heyreach lists create --name <name> [--type <user|company>]`: Create an empty list.
- `heyreach lists leads <id> [--limit <int>] [--offset <int>] [--keyword <string>]`: Get leads in list.
- `heyreach lists add-lead <id> --linkedin-url <url>`: Add a lead to a list.
- `heyreach lists remove-lead <id> --lead <lead-id>`: Remove a lead from a list.
- `heyreach lists companies <id> [--limit <int>] [--offset <int>]`: Get companies in a list.

### Leads
- `heyreach leads get --linkedin-url <url>`: Get lead by LinkedIn profile URL.
- `heyreach leads lists --linkedin-url <url>`: Get all lists containing a lead.
- `heyreach leads update-status --lead <lead-id> --status <status>`: Update lead status.

### LinkedIn Sender Accounts
- `heyreach senders list [--limit <int>] [--offset <int>]`: List connected LinkedIn senders.
- `heyreach senders get <id>`: Get sender details.
- `heyreach senders network <id> [--limit <int>] [--offset <int>]`: Get sender connections.

### Conversations
- `heyreach conversations list [--limit <int>] [--offset <int>] [--campaign-id <id>] [--sender-id <id>]`: List conversations.
- `heyreach conversations send --lead <lead-id> --message <text> [--sender-id <id>]`: Send a message.

### Analytics & Stats
- `heyreach stats get [--from <YYYY-MM-DD>] [--to <YYYY-MM-DD>] [--campaign-id <id>] [--sender-id <id>]`: Get overall metrics.

### Webhooks
- `heyreach webhooks list [--limit <int>] [--offset <int>]`: List webhooks.
- `heyreach webhooks get <id>`: Get webhook details.
- `heyreach webhooks create --name <name> --url <url> --event <event> [--campaign-id <id>]`: Create webhook.
- `heyreach webhooks update <id> [--name <name>] [--url <url>] [--event <event>] [--active <true|false>]`: Update webhook.
- `heyreach webhooks delete <id>`: Delete webhook.

### Tags
- `heyreach tags create --name <name> [--color <hex>]`: Create workspace tag.

## Exit Codes

- `0`: Success
- `1`: Error (generic/unclassified)
- `2`: Network failure (connection lost, timeout, 5xx server error)
- `3`: Auth required (missing, rejected, or invalid API key)
- `4`: Not found (requested resource does not exist)
- `5`: Rate limited (HTTP 429; retry after backing off)
- `6`: Invalid input (malformed JSON, bad arguments)
- `7`: No account specified (pass --account <name>, --api-key <key>, or set HEYREACH_API_KEY)
"#;

/// The rules an agent follows, in order.
pub open spec fn rules_view() -> Seq<Seq<char>> {
    seq![
        "Pass --account <name>, --api-key <key>, or set HEYREACH_API_KEY for API authentication."@,
        "Run 'heyreach accounts list' first if you do not know which accounts exist."@,
        "On code auth_required, stop and surface the remediation string. Do not retry blindly."@,
        "HeyReach rate limits to 300 requests per minute. On code rate_limited (429), back off."@,
        "List endpoints support --limit and --offset pagination."@,
        "Campaigns add-leads accepts JSON arrays of leads via --file or standard input."@,
        "Output is YAML by default for readability; use --json when piping into jq or agent loops."@,
    ]
}

/// What each exit status means, by its decimal text.
pub open spec fn exit_codes_view() -> Seq<(Seq<char>, JsonV)> {
    seq![
        ("0"@, JsonV::Str("ok"@)),
        ("1"@, JsonV::Str("error - unclassified, report and stop"@)),
        ("2"@, JsonV::Str("network - retry once, then stop"@)),
        ("3"@, JsonV::Str("auth_required - stop, surface the remediation to a human"@)),
        ("4"@, JsonV::Str("not_found - do not retry"@)),
        ("5"@, JsonV::Str("rate_limited - back off before retrying"@)),
        ("6"@, JsonV::Str("invalid_input - fix the call"@)),
        ("7"@, JsonV::Str("no_account - run heyreach accounts list"@)),
    ]
}

/// The manual as data.
pub open spec fn manual_view() -> JsonV {
    obj(seq![
        ("tool"@, JsonV::Str("heyreach"@)),
        ("apiVersion"@, JsonV::Str(API_VERSION@)),
        ("rules"@, JsonV::Array(rules_view().map_values(|r: Seq<char>| JsonV::Str(r)))),
        ("exitCodes"@, obj(exit_codes_view())),
    ])
}

fn push_str_item(items: &mut Vec<Json>, s: &str)
    ensures
        json_seq_view(final(items)@) == json_seq_view(old(items)@).push(JsonV::Str(s@)),
{
    let j = Json::string(s);
    proof {
        lemma_json_seq_view_push(items@, j);
    }
    items.push(j);
}

/// The manual as data: tool, API version, rules and exit codes.
pub fn manual() -> (r: Json)
    ensures
        r@ == manual_view(),
{
    let mut rules: Vec<Json> = Vec::new();
    proof {
        assert(json_seq_view(rules@) =~= Seq::<JsonV>::empty());
    }
    push_str_item(&mut rules, "Pass --account <name>, --api-key <key>, or set HEYREACH_API_KEY for API authentication.");
    push_str_item(&mut rules, "Run 'heyreach accounts list' first if you do not know which accounts exist.");
    push_str_item(&mut rules, "On code auth_required, stop and surface the remediation string. Do not retry blindly.");
    push_str_item(&mut rules, "HeyReach rate limits to 300 requests per minute. On code rate_limited (429), back off.");
    push_str_item(&mut rules, "List endpoints support --limit and --offset pagination.");
    push_str_item(&mut rules, "Campaigns add-leads accepts JSON arrays of leads via --file or standard input.");
    push_str_item(&mut rules, "Output is YAML by default for readability; use --json when piping into jq or agent loops.");
    assert(json_seq_view(rules@) =~= rules_view().map_values(|r: Seq<char>| JsonV::Str(r)));
    let mut codes = new_fields();
    push_field(&mut codes, "0", Json::string("ok"));
    push_field(&mut codes, "1", Json::string("error - unclassified, report and stop"));
    push_field(&mut codes, "2", Json::string("network - retry once, then stop"));
    push_field(&mut codes, "3", Json::string("auth_required - stop, surface the remediation to a human"));
    push_field(&mut codes, "4", Json::string("not_found - do not retry"));
    push_field(&mut codes, "5", Json::string("rate_limited - back off before retrying"));
    push_field(&mut codes, "6", Json::string("invalid_input - fix the call"));
    push_field(&mut codes, "7", Json::string("no_account - run heyreach accounts list"));
    assert(fields_view(codes@) =~= exit_codes_view());
    let mut f = new_fields();
    push_field(&mut f, "tool", Json::string("heyreach"));
    push_field(&mut f, "apiVersion", Json::string(API_VERSION));
    push_field(&mut f, "rules", Json::Array(rules));
    push_field(&mut f, "exitCodes", Json::Object(codes));
    assert(fields_view(f@) =~= seq![
        ("tool"@, JsonV::Str("heyreach"@)),
        ("apiVersion"@, JsonV::Str(API_VERSION@)),
        ("rules"@, JsonV::Array(rules_view().map_values(|r: Seq<char>| JsonV::Str(r)))),
        ("exitCodes"@, obj(exit_codes_view())),
    ]);
    Json::Object(f)
}

/// The manual's table of exit statuses agrees with the errors the program reports: the entry
/// for each error class's exit status starts with that class's code name, and status 0 is `ok`.
pub proof fn manual_matches_error_codes(c: ErrorCode)
    ensures
        exit_codes_view()[exit_status(c)].0 == decimal(exit_status(c) as nat),
        exit_codes_view()[exit_status(c)].1 matches JsonV::Str(t) && t.subrange(0, code_name(c).len() as int) == code_name(c),
        exit_codes_view()[0].1 == JsonV::Str("ok"@),
{
    reveal_strlit("0");
    reveal_strlit("ok");
    reveal_strlit("1");
    reveal_strlit("error - unclassified, report and stop");
    reveal_strlit("2");
    reveal_strlit("network - retry once, then stop");
    reveal_strlit("3");
    reveal_strlit("auth_required - stop, surface the remediation to a human");
    reveal_strlit("4");
    reveal_strlit("not_found - do not retry");
    reveal_strlit("5");
    reveal_strlit("rate_limited - back off before retrying");
    reveal_strlit("6");
    reveal_strlit("invalid_input - fix the call");
    reveal_strlit("7");
    reveal_strlit("no_account - run heyreach accounts list");
    reveal_strlit("error");
    reveal_strlit("network");
    reveal_strlit("auth_required");
    reveal_strlit("not_found");
    reveal_strlit("rate_limited");
    reveal_strlit("invalid_input");
    reveal_strlit("no_account");
    let e = exit_codes_view()[exit_status(c)];
    assert(e.0 == decimal(exit_status(c) as nat));
    match e.1 {
        JsonV::Str(t) => {
            assert(t.subrange(0, code_name(c).len() as int) =~= code_name(c));
        },
        _ => {},
    }
}

} // verus!
