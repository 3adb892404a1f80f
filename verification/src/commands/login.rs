//! `heyreach login`: the decisions of a login. The program reads the key (flag, stdin or a
//! masked prompt), checks it against `auth/CheckApiKey` unless told not to, stores it in the
//! keystore and records the account; what each step means is decided here.

use vstd::prelude::*;
use vstd::string::StringExecFns;
use crate::cli::Login;
use crate::config::{Config, AccountConfig, AccountV, find_entry};
use crate::error::{Error, ErrorCode, ErrorV, err, with_fix, with_detail, opt_view};
use crate::json::{Json, JsonV, fields_view, push_field, obj};
use crate::text::{is_blank, blank, trim, trim_str};
use super::new_fields;

verus! {

/// Where the settings page for API keys is.
pub const API_SETTINGS_URL: &'static str = "https://app.heyreach.io/settings/api";

/// The account name a login is for: the argument trimmed, which must not be empty.
pub open spec fn login_name_view(arg: Seq<char>) -> Result<Seq<char>, ErrorV> {
    if trim(arg).len() == 0 {
        Err(err(ErrorCode::InvalidInput, "An account name is required."@))
    } else {
        Ok(trim(arg))
    }
}

pub fn login_name(arg: &str) -> (r: Result<String, Error>)
    ensures
        match r {
            Ok(n) => login_name_view(arg@) == Ok::<Seq<char>, ErrorV>(n@),
            Err(e) => login_name_view(arg@) == Err::<Seq<char>, ErrorV>(e@),
        },
{
    let n = trim_str(arg);
    if n.as_str().is_empty() {
        return Err(Error::invalid(String::from_str("An account name is required.")));
    }
    Ok(n)
}

/// The name the key is stored under: an account the name already designates is refused
/// unless `--force` is given, in which case that account's own name is used.
pub open spec fn login_target_view(name: Seq<char>, s: Seq<(Seq<char>, AccountV)>, force: bool) -> Result<Seq<char>, ErrorV> {
    match find_entry(s, name) {
        Some(e) => if force {
            Ok(e.0)
        } else {
            Err(with_fix(
                err(ErrorCode::InvalidInput, "An account named '"@ + e.0 + "' already exists."@),
                "Use --force to replace its key: heyreach login "@ + e.0 + " --force"@,
            ))
        },
        None => Ok(name),
    }
}

pub fn login_target(name: String, config: &Config, force: bool) -> (r: Result<String, Error>)
    ensures
        match r {
            Ok(n) => login_target_view(name@, config@, force) == Ok::<Seq<char>, ErrorV>(n@),
            Err(e) => login_target_view(name@, config@, force) == Err::<Seq<char>, ErrorV>(e@),
        },
{
    match config.find(name.as_str()) {
        Some((existing, _)) => {
            if force {
                Ok(existing)
            } else {
                let mut m = String::from_str("An account named '");
                m.append(existing.as_str());
                m.append("' already exists.");
                let mut fix = String::from_str("Use --force to replace its key: heyreach login ");
                fix.append(existing.as_str());
                fix.append(" --force");
                Err(Error::invalid(m).fix(fix))
            }
        },
        None => Ok(name),
    }
}

/// Where the API key of a login comes from.
#[derive(Debug)]
pub enum KeySource {
    /// One line of standard input.
    Stdin,
    /// The `--api-key` flag, trimmed.
    Given(String),
    /// A masked prompt on the terminal.
    Prompt,
}

/// `--api-key-stdin` first, then a non-blank `--api-key`, else a prompt.
pub open spec fn key_source_view(api_key_stdin: bool, api_key: Option<Seq<char>>) -> Option<Seq<char>> {
    if !api_key_stdin && (api_key matches Some(k) && !is_blank(k)) {
        Some(trim(api_key->0))
    } else {
        None
    }
}

pub fn key_source(api_key_stdin: bool, api_key: Option<String>) -> (r: KeySource)
    ensures
        api_key_stdin ==> r is Stdin,
        !api_key_stdin ==> match r {
            KeySource::Given(k) => key_source_view(api_key_stdin, opt_view(api_key)) == Some(k@),
            KeySource::Prompt => key_source_view(api_key_stdin, opt_view(api_key)) is None,
            KeySource::Stdin => false,
        },
{
    if api_key_stdin {
        return KeySource::Stdin;
    }
    match api_key {
        Some(k) => if blank(k.as_str()) {
            KeySource::Prompt
        } else {
            KeySource::Given(trim_str(k.as_str()))
        },
        None => KeySource::Prompt,
    }
}

/// The key read from one line of standard input: trimmed, and not empty.
pub open spec fn stdin_key_view(line: Result<Seq<char>, Seq<char>>) -> Result<Seq<char>, ErrorV> {
    match line {
        Err(e) => Err(err(ErrorCode::InvalidInput, "Could not read stdin: "@ + e)),
        Ok(l) => if trim(l).len() == 0 {
            Err(err(ErrorCode::InvalidInput, "--api-key-stdin was given but stdin was empty."@))
        } else {
            Ok(trim(l))
        },
    }
}

pub fn stdin_key(line: Result<String, String>) -> (r: Result<String, Error>)
    ensures
        match r {
            Ok(k) => stdin_key_view(match line { Ok(l) => Ok(l@), Err(e) => Err(e@) }) == Ok::<Seq<char>, ErrorV>(k@),
            Err(e) => stdin_key_view(match line { Ok(l) => Ok(l@), Err(e) => Err(e@) }) == Err::<Seq<char>, ErrorV>(e@),
        },
{
    match line {
        Err(e) => {
            let mut m = String::from_str("Could not read stdin: ");
            m.append(e.as_str());
            Err(Error::invalid(m))
        },
        Ok(l) => {
            let k = trim_str(l.as_str());
            if k.as_str().is_empty() {
                Err(Error::invalid(String::from_str("--api-key-stdin was given but stdin was empty.")))
            } else {
                Ok(k)
            }
        },
    }
}

/// The error when a key is needed and there is no terminal to prompt on.
pub open spec fn no_terminal_view(name: Seq<char>) -> ErrorV {
    with_fix(
        err(ErrorCode::InvalidInput, "No API key given and no terminal to prompt on."@),
        "pbpaste | heyreach login "@ + name + " --api-key-stdin"@,
    )
}

pub fn no_terminal_error(name: &str) -> (r: Error)
    ensures
        r@ == no_terminal_view(name@),
{
    let mut fix = String::from_str("pbpaste | heyreach login ");
    fix.append(name);
    fix.append(" --api-key-stdin");
    Error::invalid(String::from_str("No API key given and no terminal to prompt on.")).fix(fix)
}

/// What one answer to the key prompt means: a failed read is an error, a blank answer asks
/// again (`None`), anything else is the key, trimmed.
pub open spec fn prompted_key_view(answer: Result<Seq<char>, Seq<char>>) -> Result<Option<Seq<char>>, ErrorV> {
    match answer {
        Err(e) => Err(with_detail(err(ErrorCode::Error, "Could not read the API key."@), e)),
        Ok(a) => if trim(a).len() == 0 {
            Ok(None)
        } else {
            Ok(Some(trim(a)))
        },
    }
}

pub fn prompted_key(answer: Result<String, String>) -> (r: Result<Option<String>, Error>)
    ensures
        match r {
            Ok(k) => prompted_key_view(match answer { Ok(a) => Ok(a@), Err(e) => Err(e@) }) == Ok::<Option<Seq<char>>, ErrorV>(opt_view(k)),
            Err(e) => prompted_key_view(match answer { Ok(a) => Ok(a@), Err(e) => Err(e@) }) == Err::<Option<Seq<char>>, ErrorV>(e@),
        },
{
    match answer {
        Err(e) => Err(Error::other(String::from_str("Could not read the API key.")).detail(e)),
        Ok(a) => {
            let k = trim_str(a.as_str());
            if k.as_str().is_empty() {
                Ok(None)
            } else {
                Ok(Some(k))
            }
        },
    }
}

/// What is recorded for a logged-in account: `valid` as identity once the key was checked,
/// else the account's name.
pub open spec fn login_account_view(name: Seq<char>, checked: bool, now: Seq<char>) -> AccountV {
    AccountV { identity: if checked { "valid"@ } else { name }, added_at: now }
}

pub fn login_account(name: &str, checked: bool, now: &str) -> (r: AccountConfig)
    ensures
        r@ == login_account_view(name@, checked, now@),
{
    AccountConfig {
        identity: if checked { String::from_str("valid") } else { name.to_owned() },
        added_at: now.to_owned(),
    }
}

/// The report printed after a login.
pub open spec fn login_report_view(name: Seq<char>, verified: bool, store: Seq<char>, config_dir: Seq<char>) -> JsonV {
    obj(seq![
        ("status"@, JsonV::Str("logged_in"@)),
        ("name"@, JsonV::Str(name)),
        ("verified"@, JsonV::Bool(verified)),
        ("secretStore"@, JsonV::Str(store)),
        ("configDir"@, JsonV::Str(config_dir)),
        ("nextStep"@, JsonV::Str("heyreach campaigns list -a "@ + name)),
    ])
}

pub fn login_report(name: &str, verified: bool, store: &str, config_dir: &str) -> (r: Json)
    ensures
        r@ == login_report_view(name@, verified, store@, config_dir@),
{
    let mut next = String::from_str("heyreach campaigns list -a ");
    next.append(name);
    let mut f = new_fields();
    push_field(&mut f, "status", Json::string("logged_in"));
    push_field(&mut f, "name", Json::string(name));
    push_field(&mut f, "verified", Json::Bool(verified));
    push_field(&mut f, "secretStore", Json::string(store));
    push_field(&mut f, "configDir", Json::string(config_dir));
    let ghost nv = next@;
    push_field(&mut f, "nextStep", Json::Str(next));
    assert(fields_view(f@) =~= seq![
        ("status"@, JsonV::Str("logged_in"@)),
        ("name"@, JsonV::Str(name@)),
        ("verified"@, JsonV::Bool(verified)),
        ("secretStore"@, JsonV::Str(store@)),
        ("configDir"@, JsonV::Str(config_dir@)),
        ("nextStep"@, JsonV::Str(nv)),
    ]);
    Json::Object(f)
}


/// Where a login stands while the program does the outside work that the last action asked
/// for.
#[derive(Debug)]
pub enum LoginState {
    /// The keystore is being opened and the configuration read.
    Loading {
        name: String,
        api_key: Option<String>,
        api_key_stdin: bool,
        force: bool,
        open_browser: bool,
        check: bool,
        terminal: bool,
    },
    /// A line of standard input is being read for the key.
    ReadingKey { name: String, check: bool },
    /// The user is being asked for the key on the terminal.
    Prompting { name: String, check: bool },
    /// The API is being asked whether the key is valid.
    Checking { name: String, key: String },
    /// The key is being stored and the account recorded.
    Storing { name: String, verified: bool },
    /// The login is over.
    Done,
}

/// The view of a [`LoginState`].
pub enum LoginStateV {
    Loading {
        name: Seq<char>,
        api_key: Option<Seq<char>>,
        api_key_stdin: bool,
        force: bool,
        open_browser: bool,
        check: bool,
        terminal: bool,
    },
    ReadingKey { name: Seq<char>, check: bool },
    Prompting { name: Seq<char>, check: bool },
    Checking { name: Seq<char>, key: Seq<char> },
    Storing { name: Seq<char>, verified: bool },
    Done,
}

impl View for LoginState {
    type V = LoginStateV;

    open spec fn view(&self) -> LoginStateV {
        match self {
            LoginState::Loading { name, api_key, api_key_stdin, force, open_browser, check, terminal } => {
                LoginStateV::Loading {
                    name: name@,
                    api_key: opt_view(*api_key),
                    api_key_stdin: *api_key_stdin,
                    force: *force,
                    open_browser: *open_browser,
                    check: *check,
                    terminal: *terminal,
                }
            },
            LoginState::ReadingKey { name, check } => LoginStateV::ReadingKey { name: name@, check: *check },
            LoginState::Prompting { name, check } => LoginStateV::Prompting { name: name@, check: *check },
            LoginState::Checking { name, key } => LoginStateV::Checking { name: name@, key: key@ },
            LoginState::Storing { name, verified } => LoginStateV::Storing { name: name@, verified: *verified },
            LoginState::Done => LoginStateV::Done,
        }
    }
}

/// What the outside work that an action asked for came to.
pub enum LoginEvent {
    /// The configuration, or why the keystore or the configuration could not be read.
    ConfigLoaded(Result<Config, Error>),
    /// The line read from standard input, or why it could not be read.
    KeyLine(Result<String, String>),
    /// The answer to the key prompt, or why it could not be read.
    Answer(Result<String, String>),
    /// Whether the API accepted the key.
    Checked(Result<(), Error>),
    /// Whether the key and the account were stored.
    Stored(Result<(), Error>),
}

/// The view of a [`LoginEvent`].
pub enum LoginEventV {
    ConfigLoaded(Result<Seq<(Seq<char>, AccountV)>, ErrorV>),
    KeyLine(Result<Seq<char>, Seq<char>>),
    Answer(Result<Seq<char>, Seq<char>>),
    Checked(Result<(), ErrorV>),
    Stored(Result<(), ErrorV>),
}

/// The view of a text or a failure described by text.
pub open spec fn text_result(r: Result<String, String>) -> Result<Seq<char>, Seq<char>> {
    match r {
        Ok(t) => Ok(t@),
        Err(e) => Err(e@),
    }
}

/// The view of a success or an error.
pub open spec fn done_result(r: Result<(), Error>) -> Result<(), ErrorV> {
    match r {
        Ok(()) => Ok(()),
        Err(e) => Err(e@),
    }
}

impl View for LoginEvent {
    type V = LoginEventV;

    open spec fn view(&self) -> LoginEventV {
        match self {
            LoginEvent::ConfigLoaded(r) => LoginEventV::ConfigLoaded(
                match r {
                    Ok(c) => Ok(c@),
                    Err(e) => Err(e@),
                },
            ),
            LoginEvent::KeyLine(r) => LoginEventV::KeyLine(text_result(*r)),
            LoginEvent::Answer(r) => LoginEventV::Answer(text_result(*r)),
            LoginEvent::Checked(r) => LoginEventV::Checked(done_result(*r)),
            LoginEvent::Stored(r) => LoginEventV::Stored(done_result(*r)),
        }
    }
}

/// The outside work a login asks the program for next.
#[derive(Debug)]
pub enum LoginAction {
    /// Open the keystore and read the configuration; answer with `ConfigLoaded`.
    LoadConfig,
    /// Read one line of standard input; answer with `KeyLine`.
    ReadKeyLine,
    /// Ask for the key of account `name` on the terminal, without echo; answer with `Answer`.
    /// The first time, first say where keys are found ([`API_SETTINGS_URL`]) and, when
    /// `open_browser`, open that page; after a blank answer, first say that the key cannot
    /// be empty.
    Prompt { name: String, first: bool, open_browser: bool },
    /// Ask the API whether `key` is valid (`auth check`); answer with `Checked`.
    CheckKey { key: String },
    /// Store `key` for account `name` and record the account as [`login_account`] makes it;
    /// answer with `Stored`.
    Store { name: String, key: String, verified: bool },
    /// Report the login of account `name` ([`login_report`]); the login succeeded.
    Report { name: String, verified: bool },
    /// The login failed with this error.
    Fail(Error),
}

/// The view of a [`LoginAction`].
pub enum LoginActionV {
    LoadConfig,
    ReadKeyLine,
    Prompt { name: Seq<char>, first: bool, open_browser: bool },
    CheckKey { key: Seq<char> },
    Store { name: Seq<char>, key: Seq<char>, verified: bool },
    Report { name: Seq<char>, verified: bool },
    Fail(ErrorV),
}

impl View for LoginAction {
    type V = LoginActionV;

    open spec fn view(&self) -> LoginActionV {
        match self {
            LoginAction::LoadConfig => LoginActionV::LoadConfig,
            LoginAction::ReadKeyLine => LoginActionV::ReadKeyLine,
            LoginAction::Prompt { name, first, open_browser } => LoginActionV::Prompt {
                name: name@,
                first: *first,
                open_browser: *open_browser,
            },
            LoginAction::CheckKey { key } => LoginActionV::CheckKey { key: key@ },
            LoginAction::Store { name, key, verified } => LoginActionV::Store {
                name: name@,
                key: key@,
                verified: *verified,
            },
            LoginAction::Report { name, verified } => LoginActionV::Report { name: name@, verified: *verified },
            LoginAction::Fail(e) => LoginActionV::Fail(e@),
        }
    }
}

/// The login ends with an error.
pub open spec fn failed(e: ErrorV) -> (LoginStateV, LoginActionV) {
    (LoginStateV::Done, LoginActionV::Fail(e))
}

/// Once the key is known: check it with the API first, unless told not to.
pub open spec fn key_known(name: Seq<char>, key: Seq<char>, check: bool) -> (LoginStateV, LoginActionV) {
    if check {
        (LoginStateV::Checking { name, key }, LoginActionV::CheckKey { key })
    } else {
        (LoginStateV::Storing { name, verified: false }, LoginActionV::Store { name, key, verified: false })
    }
}

/// How a login begins: a blank account name is refused, any other is trimmed and the
/// configuration is read.
pub open spec fn login_start_view(args: Login, terminal: bool) -> (LoginStateV, LoginActionV) {
    match login_name_view(args.name@) {
        Err(e) => failed(e),
        Ok(name) => (
            LoginStateV::Loading {
                name,
                api_key: opt_view(args.api_key),
                api_key_stdin: args.api_key_stdin,
                force: args.force,
                open_browser: !args.no_browser,
                check: !args.skip_key_check,
                terminal,
            },
            LoginActionV::LoadConfig,
        ),
    }
}

/// The event each state waits for.
pub open spec fn event_fits(s: LoginStateV, e: LoginEventV) -> bool {
    match s {
        LoginStateV::Loading { .. } => e is ConfigLoaded,
        LoginStateV::ReadingKey { .. } => e is KeyLine,
        LoginStateV::Prompting { .. } => e is Answer,
        LoginStateV::Checking { .. } => e is Checked,
        LoginStateV::Storing { .. } => e is Stored,
        LoginStateV::Done => false,
    }
}

/// One step of a login: from where it stands and what the outside work came to, where it
/// stands next and what it asks for.
pub open spec fn login_step_view(s: LoginStateV, e: LoginEventV) -> (LoginStateV, LoginActionV) {
    match (s, e) {
        (
            LoginStateV::Loading { name, api_key, api_key_stdin, force, open_browser, check, terminal },
            LoginEventV::ConfigLoaded(loaded),
        ) => match loaded {
            Err(err) => failed(err),
            Ok(accounts) => match login_target_view(name, accounts, force) {
                Err(err) => failed(err),
                Ok(target) => if api_key_stdin {
                    (LoginStateV::ReadingKey { name: target, check }, LoginActionV::ReadKeyLine)
                } else {
                    match key_source_view(false, api_key) {
                        Some(k) => key_known(target, k, check),
                        None => if terminal {
                            (
                                LoginStateV::Prompting { name: target, check },
                                LoginActionV::Prompt { name: target, first: true, open_browser },
                            )
                        } else {
                            failed(no_terminal_view(target))
                        },
                    }
                },
            },
        },
        (LoginStateV::ReadingKey { name, check }, LoginEventV::KeyLine(line)) => match stdin_key_view(line) {
            Err(err) => failed(err),
            Ok(k) => key_known(name, k, check),
        },
        (LoginStateV::Prompting { name, check }, LoginEventV::Answer(answer)) => match prompted_key_view(answer) {
            Err(err) => failed(err),
            Ok(None) => (
                LoginStateV::Prompting { name, check },
                LoginActionV::Prompt { name, first: false, open_browser: false },
            ),
            Ok(Some(k)) => key_known(name, k, check),
        },
        (LoginStateV::Checking { name, key }, LoginEventV::Checked(verdict)) => match verdict {
            Err(err) => failed(err),
            Ok(()) => (LoginStateV::Storing { name, verified: true }, LoginActionV::Store { name, key, verified: true }),
        },
        (LoginStateV::Storing { name, verified }, LoginEventV::Stored(stored)) => match stored {
            Err(err) => failed(err),
            Ok(()) => (LoginStateV::Done, LoginActionV::Report { name, verified }),
        },
        _ => (s, LoginActionV::LoadConfig),
    }
}

fn key_known_step(name: String, key: String, check: bool) -> (r: (LoginState, LoginAction))
    ensures
        (r.0@, r.1@) == key_known(name@, key@, check),
{
    if check {
        let k = key.clone();
        (LoginState::Checking { name, key }, LoginAction::CheckKey { key: k })
    } else {
        let n = name.clone();
        (LoginState::Storing { name, verified: false }, LoginAction::Store { name: n, key, verified: false })
    }
}

/// Begins a login from its arguments and whether standard input is a terminal.
pub fn login_start(args: Login, terminal: bool) -> (r: (LoginState, LoginAction))
    ensures
        (r.0@, r.1@) == login_start_view(args, terminal),
{
    let Login { name, api_key, api_key_stdin, no_browser, force, skip_key_check } = args;
    match login_name(name.as_str()) {
        Err(e) => (LoginState::Done, LoginAction::Fail(e)),
        Ok(n) => (
            LoginState::Loading {
                name: n,
                api_key,
                api_key_stdin,
                force,
                open_browser: !no_browser,
                check: !skip_key_check,
                terminal,
            },
            LoginAction::LoadConfig,
        ),
    }
}

impl LoginState {
    /// Whether this is the event the login waits for.
    pub fn expects(&self, event: &LoginEvent) -> (r: bool)
        ensures
            r == event_fits(self@, event@),
    {
        match self {
            LoginState::Loading { .. } => matches!(event, LoginEvent::ConfigLoaded(_)),
            LoginState::ReadingKey { .. } => matches!(event, LoginEvent::KeyLine(_)),
            LoginState::Prompting { .. } => matches!(event, LoginEvent::Answer(_)),
            LoginState::Checking { .. } => matches!(event, LoginEvent::Checked(_)),
            LoginState::Storing { .. } => matches!(event, LoginEvent::Stored(_)),
            LoginState::Done => false,
        }
    }
}

/// Takes one step of a login (see [`login_step_view`]).
pub fn login_step(state: LoginState, event: LoginEvent) -> (r: (LoginState, LoginAction))
    requires
        event_fits(state@, event@),
    ensures
        (r.0@, r.1@) == login_step_view(state@, event@),
{
    match (state, event) {
        (
            LoginState::Loading { name, api_key, api_key_stdin, force, open_browser, check, terminal },
            LoginEvent::ConfigLoaded(loaded),
        ) => match loaded {
            Err(err) => (LoginState::Done, LoginAction::Fail(err)),
            Ok(config) => match login_target(name, &config, force) {
                Err(err) => (LoginState::Done, LoginAction::Fail(err)),
                Ok(target) => if api_key_stdin {
                    (LoginState::ReadingKey { name: target, check }, LoginAction::ReadKeyLine)
                } else {
                    match key_source(false, api_key) {
                        KeySource::Given(k) => key_known_step(target, k, check),
                        _ => if terminal {
                            let n = target.clone();
                            (
                                LoginState::Prompting { name: target, check },
                                LoginAction::Prompt { name: n, first: true, open_browser },
                            )
                        } else {
                            let e = no_terminal_error(target.as_str());
                            (LoginState::Done, LoginAction::Fail(e))
                        },
                    }
                },
            },
        },
        (LoginState::ReadingKey { name, check }, LoginEvent::KeyLine(line)) => match stdin_key(line) {
            Err(err) => (LoginState::Done, LoginAction::Fail(err)),
            Ok(k) => key_known_step(name, k, check),
        },
        (LoginState::Prompting { name, check }, LoginEvent::Answer(answer)) => match prompted_key(answer) {
            Err(err) => (LoginState::Done, LoginAction::Fail(err)),
            Ok(None) => {
                let n = name.clone();
                (LoginState::Prompting { name, check }, LoginAction::Prompt { name: n, first: false, open_browser: false })
            },
            Ok(Some(k)) => key_known_step(name, k, check),
        },
        (LoginState::Checking { name, key }, LoginEvent::Checked(verdict)) => match verdict {
            Err(err) => (LoginState::Done, LoginAction::Fail(err)),
            Ok(()) => {
                let n = name.clone();
                (LoginState::Storing { name, verified: true }, LoginAction::Store { name: n, key, verified: true })
            },
        },
        (LoginState::Storing { name, verified }, LoginEvent::Stored(stored)) => match stored {
            Err(err) => (LoginState::Done, LoginAction::Fail(err)),
            Ok(()) => (LoginState::Done, LoginAction::Report { name, verified }),
        },
        (s, _) => (s, LoginAction::LoadConfig),
    }
}

/// Whether the login is to have the API check the key before it is stored.
pub open spec fn checks_key(s: LoginStateV) -> bool {
    match s {
        LoginStateV::Loading { check, .. } => check,
        LoginStateV::ReadingKey { check, .. } => check,
        LoginStateV::Prompting { check, .. } => check,
        LoginStateV::Checking { .. } => true,
        LoginStateV::Storing { verified, .. } => verified,
        LoginStateV::Done => false,
    }
}

/// A key is stored as verified only in the step right after the API accepted that very key,
/// and stored unverified only by a login that was told not to check it.
pub proof fn stored_key_was_checked(s: LoginStateV, e: LoginEventV)
    requires
        event_fits(s, e),
    ensures
        login_step_view(s, e).1 matches LoginActionV::Store { key, verified, .. } ==> (verified ==> (s
            matches LoginStateV::Checking { key: k, .. } && k == key && e matches LoginEventV::Checked(
            Ok(_),
        ))) && (!verified ==> !checks_key(s)),
{
}

/// A key the API refused is not stored: the login ends with the API's error.
pub proof fn refused_key_is_not_stored(name: Seq<char>, key: Seq<char>, e: ErrorV)
    ensures
        login_step_view(LoginStateV::Checking { name, key }, LoginEventV::Checked(Err(e))) == failed(e),
{
}

/// Without `--force`, a login for a name that already designates an account stores nothing
/// and fails with `invalid_input`.
pub proof fn existing_account_needs_force(
    name: Seq<char>,
    api_key: Option<Seq<char>>,
    api_key_stdin: bool,
    open_browser: bool,
    check: bool,
    terminal: bool,
    accounts: Seq<(Seq<char>, AccountV)>,
)
    requires
        find_entry(accounts, name) is Some,
    ensures
        login_step_view(
            LoginStateV::Loading { name, api_key, api_key_stdin, force: false, open_browser, check, terminal },
            LoginEventV::ConfigLoaded(Ok(accounts)),
        ) matches (LoginStateV::Done, LoginActionV::Fail(err)) && err.code == ErrorCode::InvalidInput,
{
}

/// A blank answer to the key prompt asks again, and changes nothing else.
pub proof fn blank_answer_asks_again(name: Seq<char>, check: bool, answer: Seq<char>)
    requires
        trim(answer).len() == 0,
    ensures
        login_step_view(LoginStateV::Prompting { name, check }, LoginEventV::Answer(Ok(answer))) == (
            LoginStateV::Prompting { name, check },
            LoginActionV::Prompt { name, first: false, open_browser: false },
        ),
{
}


/// Once the key is stored, the report carries exactly the flag the storing was done with:
/// whether the API checked the key.
pub proof fn report_says_whether_checked(name: Seq<char>, verified: bool)
    ensures
        login_step_view(LoginStateV::Storing { name, verified }, LoginEventV::Stored(Ok(()))) == (
            LoginStateV::Done,
            LoginActionV::Report { name, verified },
        ),
{
}

/// A login told not to check the key (`--no-verify`) whose key comes from `--api-key` stores
/// it unverified and, once stored, reports `verified: false`; one that checks the key and has
/// it accepted reports `verified: true`.
pub proof fn unchecked_login_reports_unverified(
    name: Seq<char>,
    key: Seq<char>,
    force: bool,
    open_browser: bool,
    terminal: bool,
    accounts: Seq<(Seq<char>, AccountV)>,
)
    requires
        !is_blank(key),
        find_entry(accounts, name) is None,
    ensures
        ({
            let start = LoginStateV::Loading {
                name,
                api_key: Some(key),
                api_key_stdin: false,
                force,
                open_browser,
                check: false,
                terminal,
            };
            let (s1, a1) = login_step_view(start, LoginEventV::ConfigLoaded(Ok(accounts)));
            &&& a1 == LoginActionV::Store { name, key: trim(key), verified: false }
            &&& login_step_view(s1, LoginEventV::Stored(Ok(()))).1 == LoginActionV::Report { name, verified: false }
        }),
        ({
            let start = LoginStateV::Loading {
                name,
                api_key: Some(key),
                api_key_stdin: false,
                force,
                open_browser,
                check: true,
                terminal,
            };
            let (s1, a1) = login_step_view(start, LoginEventV::ConfigLoaded(Ok(accounts)));
            let (s2, a2) = login_step_view(s1, LoginEventV::Checked(Ok(())));
            &&& a1 == LoginActionV::CheckKey { key: trim(key) }
            &&& a2 == LoginActionV::Store { name, key: trim(key), verified: true }
            &&& login_step_view(s2, LoginEventV::Stored(Ok(()))).1 == LoginActionV::Report { name, verified: true }
        }),
{
}

} // verus!
