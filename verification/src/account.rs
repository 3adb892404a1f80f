//! Account resolution for HeyReach.
//!
//! Keys can come from a named account (`--account <name>`), a direct `--api-key <key>` flag,
//! or the `HEYREACH_API_KEY` environment variable. When named accounts are configured,
//! `--account` ensures multi-account isolation.

use vstd::prelude::*;
use vstd::string::StringExecFns;
use crate::config::{Config, AccountConfig, AccountV, entries_view, find_entry};
use crate::error::{Error, ErrorCode, ErrorV, err, with_detail, with_fix, opt_view};
use crate::text::{is_blank, blank, trim, trim_str, join, strings_view, join_strings};

verus! {

/// The account a command runs against, with its API key.
#[derive(Debug)]
pub struct Resolved {
    pub name: String,
    pub config: AccountConfig,
    pub api_key: String,
}

/// The view of a [`Resolved`].
pub struct ResolvedV {
    pub name: Seq<char>,
    pub config: AccountV,
    pub api_key: Seq<char>,
}

impl View for Resolved {
    type V = ResolvedV;

    open spec fn view(&self) -> ResolvedV {
        ResolvedV { name: self.name@, config: self.config@, api_key: self.api_key@ }
    }
}

/// What is said when no account is configured.
pub open spec fn no_accounts_text() -> Seq<char> {
    "No accounts are configured yet. Run 'heyreach accounts add <name> --api-key <key>' or 'heyreach login <name>'."@
}

/// One account as listed: its name, and its identity in parentheses when it has one.
pub open spec fn account_label(e: (Seq<char>, AccountV)) -> Seq<char> {
    if is_blank(e.1.identity) {
        e.0
    } else {
        e.0 + " ("@ + e.1.identity + ")"@
    }
}

/// The sentence naming the configured accounts, in name order.
pub open spec fn describe_view(s: Seq<(Seq<char>, AccountV)>) -> Seq<char> {
    if s.len() == 0 {
        no_accounts_text()
    } else {
        "Configured accounts: "@ + join(s.map_values(|e: (Seq<char>, AccountV)| account_label(e)), ", "@)
    }
}

/// Names the configured accounts, for error details.
pub fn describe(config: &Config) -> (r: String)
    ensures
        r@ == describe_view(config@),
{
    if config.is_empty() {
        return String::from_str(
            "No accounts are configured yet. Run 'heyreach accounts add <name> --api-key <key>' or 'heyreach login <name>'.",
        );
    }
    let entries = config.sorted();
    let ghost s = config@;
    let mut labels: Vec<String> = Vec::new();
    let mut i: usize = 0;
    while i < entries.len()
        invariant
            i <= entries@.len(),
            entries_view(entries@) == s,
            labels@.len() == i,
            strings_view(labels@) =~= s.map_values(|e: (Seq<char>, AccountV)| account_label(e)).take(i as int),
        decreases entries@.len() - i,
    {
        let (k, v) = &entries[i];
        let mut label = k.clone();
        if !blank(v.identity.as_str()) {
            label.append(" (");
            label.append(v.identity.as_str());
            label.append(")");
        }
        proof {
            assert(s[i as int] == (k@, v@));
            assert(label@ == account_label(s[i as int]));
        }
        let ghost prev = labels@;
        let ghost lv = label@;
        labels.push(label);
        proof {
            assert(labels@ == prev.push(label));
            assert forall|j: int| 0 <= j < i + 1 implies #[trigger] strings_view(labels@)[j]
                == s.map_values(|e: (Seq<char>, AccountV)| account_label(e)).take(i + 1)[j] by {
                if j < i {
                    assert(strings_view(labels@)[j] == strings_view(prev)[j]);
                }
            }
            assert(strings_view(labels@) =~= s.map_values(|e: (Seq<char>, AccountV)| account_label(e)).take(i + 1));
        }
        i = i + 1;
    }
    proof {
        assert(s.map_values(|e: (Seq<char>, AccountV)| account_label(e)).take(i as int) =~= s.map_values(
            |e: (Seq<char>, AccountV)| account_label(e),
        ));
    }
    let mut out = String::from_str("Configured accounts: ");
    out.append(join_strings(&labels, ", ").as_str());
    out
}

/// The account a direct key or the environment gives, before any configuration is read: a
/// non-blank `--api-key` first; then, unless a non-blank `--account` asks for a configured
/// account, a non-blank `HEYREACH_API_KEY`; each key trimmed.
pub open spec fn flags_view(
    requested: Option<Seq<char>>,
    direct: Option<Seq<char>>,
    env: Option<Seq<char>>,
    now: Seq<char>,
) -> Option<ResolvedV> {
    if direct matches Some(d) && !is_blank(d) {
        Some(ResolvedV {
            name: "direct"@,
            config: AccountV { identity: "flag"@, added_at: now },
            api_key: trim(direct->0),
        })
    } else if requested matches Some(r) && !is_blank(r) {
        None
    } else if env matches Some(e) && !is_blank(e) {
        Some(ResolvedV {
            name: "env"@,
            config: AccountV { identity: "HEYREACH_API_KEY"@, added_at: now },
            api_key: trim(env->0),
        })
    } else {
        None
    }
}

pub open spec fn opt_str_view(o: Option<&str>) -> Option<Seq<char>> {
    match o {
        Some(s) => Some(s@),
        None => None,
    }
}

pub open spec fn opt_resolved_view(o: Option<Resolved>) -> Option<ResolvedV> {
    match o {
        Some(r) => Some(r@),
        None => None,
    }
}

/// Resolves from the `--account` and `--api-key` flags and the value of `HEYREACH_API_KEY`,
/// stamped with `now`; `None` when a configured account is to be used.
pub fn resolve_from_flags(requested_account: Option<&str>, direct_key: Option<&str>, env_key: Option<&str>, now: &str) -> (r: Option<Resolved>)
    ensures
        opt_resolved_view(r) == flags_view(
            opt_str_view(requested_account),
            opt_str_view(direct_key),
            opt_str_view(env_key),
            now@,
        ),
{
    if let Some(k) = direct_key {
        if !blank(k) {
            return Some(Resolved {
                name: String::from_str("direct"),
                config: AccountConfig { identity: String::from_str("flag"), added_at: now.to_owned() },
                api_key: trim_str(k),
            });
        }
    }
    if let Some(r) = requested_account {
        if !blank(r) {
            return None;
        }
    }
    if let Some(k) = env_key {
        if !blank(k) {
            return Some(Resolved {
                name: String::from_str("env"),
                config: AccountConfig { identity: String::from_str("HEYREACH_API_KEY"), added_at: now.to_owned() },
                api_key: trim_str(k),
            });
        }
    }
    None
}

/// The configured account a command runs against, or why there is none: a non-blank
/// `--account` must designate a configured account; without one, no account is chosen on
/// the caller's behalf.
pub open spec fn account_view(requested: Option<Seq<char>>, s: Seq<(Seq<char>, AccountV)>) -> Result<(Seq<char>, AccountV), ErrorV> {
    if requested matches Some(r) && !is_blank(r) {
        let rq = trim(requested->0);
        match find_entry(s, rq) {
            Some(e) => Ok(e),
            None => Err(with_fix(
                with_detail(err(ErrorCode::NoAccount, "No account named '"@ + rq + "'."@), describe_view(s)),
                "heyreach accounts list"@,
            )),
        }
    } else if s.len() == 0 {
        Err(with_fix(
            err(
                ErrorCode::AuthRequired,
                "HEYREACH_API_KEY not set. Provide --api-key, set HEYREACH_API_KEY, or run 'heyreach login <name>'."@,
            ),
            "heyreach login"@,
        ))
    } else {
        Err(with_fix(
            with_detail(
                err(
                    ErrorCode::NoAccount,
                    "No account specified. Pass --account <name> (or --api-key <key>, or set HEYREACH_API_KEY)."@,
                ),
                describe_view(s),
            ),
            "heyreach accounts list"@,
        ))
    }
}

/// Picks the configured account named by `--account`.
pub fn resolve_account(requested: Option<&str>, config: &Config) -> (r: Result<(String, AccountConfig), Error>)
    ensures
        match r {
            Ok((n, a)) => account_view(opt_str_view(requested), config@) == Ok::<(Seq<char>, AccountV), ErrorV>((n@, a@)),
            Err(e) => account_view(opt_str_view(requested), config@) == Err::<(Seq<char>, AccountV), ErrorV>(e@),
        },
{
    if let Some(r) = requested {
        if !blank(r) {
            let rq = trim_str(r);
            match config.find(rq.as_str()) {
                Some(found) => return Ok(found),
                None => {
                    let mut m = String::from_str("No account named '");
                    m.append(rq.as_str());
                    m.append("'.");
                    return Err(Error::new(ErrorCode::NoAccount, m).detail(describe(config)).fix(
                        String::from_str("heyreach accounts list"),
                    ));
                },
            }
        }
    }
    if config.is_empty() {
        Err(Error::new(
            ErrorCode::AuthRequired,
            String::from_str(
                "HEYREACH_API_KEY not set. Provide --api-key, set HEYREACH_API_KEY, or run 'heyreach login <name>'.",
            ),
        ).fix(String::from_str("heyreach login")))
    } else {
        Err(Error::new(
            ErrorCode::NoAccount,
            String::from_str(
                "No account specified. Pass --account <name> (or --api-key <key>, or set HEYREACH_API_KEY).",
            ),
        ).detail(describe(config)).fix(String::from_str("heyreach accounts list")))
    }
}

/// The resolved account once the keystore was asked for its key: a blank or missing key is
/// an error that says how to store one.
pub open spec fn stored_key_view(name: Seq<char>, account: AccountV, stored: Option<Seq<char>>) -> Result<ResolvedV, ErrorV> {
    if stored matches Some(k) && !is_blank(k) {
        Ok(ResolvedV { name, config: account, api_key: stored->0 })
    } else {
        Err(with_fix(
            with_detail(
                err(ErrorCode::AuthRequired, "Account '"@ + name + "' has no stored API key."@),
                "The config entry exists but the keystore has nothing under it."@,
            ),
            "heyreach accounts add "@ + name + " --api-key <key>"@,
        ))
    }
}

/// Completes a configured account with the key the keystore holds for it.
pub fn resolve_with_key(name: String, account: AccountConfig, stored: Option<String>) -> (r: Result<Resolved, Error>)
    ensures
        match r {
            Ok(res) => stored_key_view(name@, account@, opt_view(stored)) == Ok::<ResolvedV, ErrorV>(res@),
            Err(e) => stored_key_view(name@, account@, opt_view(stored)) == Err::<ResolvedV, ErrorV>(e@),
        },
{
    if let Some(k) = stored {
        if !blank(k.as_str()) {
            return Ok(Resolved { name, config: account, api_key: k });
        }
    }
    let mut m = String::from_str("Account '");
    m.append(name.as_str());
    m.append("' has no stored API key.");
    let mut fix = String::from_str("heyreach accounts add ");
    fix.append(name.as_str());
    fix.append(" --api-key <key>");
    Err(Error::new(ErrorCode::AuthRequired, m).detail(
        String::from_str("The config entry exists but the keystore has nothing under it."),
    ).fix(fix))
}

/// A key given on the command line is the one used, whatever the environment holds or the
/// account asked for.
pub proof fn direct_key_wins(requested: Option<Seq<char>>, d: Seq<char>, env: Option<Seq<char>>, now: Seq<char>)
    requires
        !is_blank(d),
    ensures
        flags_view(requested, Some(d), env, now) matches Some(r) && r.name == "direct"@ && r.api_key == trim(d),
{
}

/// An account asked for with `--account` is never replaced by the key in the environment:
/// without a key on the command line, resolution goes on to the configured accounts.
pub proof fn requested_account_beats_environment(r: Seq<char>, direct: Option<Seq<char>>, env: Option<Seq<char>>, now: Seq<char>)
    requires
        !is_blank(r),
        direct is None || is_blank(direct->0),
    ensures
        flags_view(Some(r), direct, env, now) is None,
{
}

/// With accounts configured and no `--account` (nor a key from the flag or the
/// environment), no account is picked: the command fails with `no_account`.
pub proof fn no_account_is_chosen_silently(s: Seq<(Seq<char>, AccountV)>, requested: Option<Seq<char>>)
    requires
        s.len() > 0,
        requested is None || is_blank(requested->0),
    ensures
        account_view(requested, s) matches Err(e) && e.code == ErrorCode::NoAccount,
{
}

/// A name given with `--account` runs against the account it designates, or against none.
pub proof fn requested_account_is_the_one_used(s: Seq<(Seq<char>, AccountV)>, r: Seq<char>)
    requires
        !is_blank(r),
    ensures
        match account_view(Some(r), s) {
            Ok(e) => find_entry(s, trim(r)) == Some(e),
            Err(e) => e.code == ErrorCode::NoAccount && find_entry(s, trim(r)) is None,
        },
{
}


/// Where a resolution stands while the program reads what the last action asked for.
/// Resolution only ever reads: the environment and the clock, the configuration, the
/// keystore.
#[derive(Debug)]
pub enum ResolveState {
    /// The environment's key and the time are being read.
    ReadingEnv { requested: Option<String>, direct: Option<String> },
    /// The configuration is being read.
    LoadingConfig { requested: Option<String> },
    /// The keystore is being asked for the key of the chosen account.
    ReadingKey { name: String, account: AccountConfig },
    /// The resolution is over.
    Done,
}

/// The view of a [`ResolveState`].
pub enum ResolveStateV {
    ReadingEnv { requested: Option<Seq<char>>, direct: Option<Seq<char>> },
    LoadingConfig { requested: Option<Seq<char>> },
    ReadingKey { name: Seq<char>, account: AccountV },
    Done,
}

impl View for ResolveState {
    type V = ResolveStateV;

    open spec fn view(&self) -> ResolveStateV {
        match self {
            ResolveState::ReadingEnv { requested, direct } => ResolveStateV::ReadingEnv {
                requested: opt_view(*requested),
                direct: opt_view(*direct),
            },
            ResolveState::LoadingConfig { requested } => ResolveStateV::LoadingConfig { requested: opt_view(*requested) },
            ResolveState::ReadingKey { name, account } => ResolveStateV::ReadingKey { name: name@, account: account@ },
            ResolveState::Done => ResolveStateV::Done,
        }
    }
}

/// What a read that a resolution asked for gave.
pub enum ResolveEvent {
    /// The value of `HEYREACH_API_KEY`, when it is set, and the current time.
    Env { key: Option<String>, now: String },
    /// The configuration, or why it could not be read.
    ConfigLoaded(Result<Config, Error>),
    /// The key the keystore holds for the account, or why the keystore could not be read.
    KeyRead(Result<Option<String>, Error>),
}

/// The view of a [`ResolveEvent`].
pub enum ResolveEventV {
    Env { key: Option<Seq<char>>, now: Seq<char> },
    ConfigLoaded(Result<Seq<(Seq<char>, AccountV)>, ErrorV>),
    KeyRead(Result<Option<Seq<char>>, ErrorV>),
}

impl View for ResolveEvent {
    type V = ResolveEventV;

    open spec fn view(&self) -> ResolveEventV {
        match self {
            ResolveEvent::Env { key, now } => ResolveEventV::Env { key: opt_view(*key), now: now@ },
            ResolveEvent::ConfigLoaded(r) => ResolveEventV::ConfigLoaded(
                match r {
                    Ok(c) => Ok(c@),
                    Err(e) => Err(e@),
                },
            ),
            ResolveEvent::KeyRead(r) => ResolveEventV::KeyRead(
                match r {
                    Ok(k) => Ok(opt_view(*k)),
                    Err(e) => Err(e@),
                },
            ),
        }
    }
}

/// What a resolution asks for next: a read, or its outcome. No action writes anything.
#[derive(Debug)]
pub enum ResolveAction {
    /// Read `HEYREACH_API_KEY` and the clock; answer with `Env`.
    ReadEnv,
    /// Read the configuration; answer with `ConfigLoaded`.
    LoadConfig,
    /// Read the key stored for account `name`; answer with `KeyRead`.
    ReadKey { name: String },
    /// The resolution is over: the account to run against, or why there is none.
    Finish(Result<Resolved, Error>),
}

/// The view of a [`ResolveAction`].
pub enum ResolveActionV {
    ReadEnv,
    LoadConfig,
    ReadKey { name: Seq<char> },
    Finish(Result<ResolvedV, ErrorV>),
}

/// The view of a resolution's outcome.
pub open spec fn resolved_result(r: Result<Resolved, Error>) -> Result<ResolvedV, ErrorV> {
    match r {
        Ok(v) => Ok(v@),
        Err(e) => Err(e@),
    }
}

impl View for ResolveAction {
    type V = ResolveActionV;

    open spec fn view(&self) -> ResolveActionV {
        match self {
            ResolveAction::ReadEnv => ResolveActionV::ReadEnv,
            ResolveAction::LoadConfig => ResolveActionV::LoadConfig,
            ResolveAction::ReadKey { name } => ResolveActionV::ReadKey { name: name@ },
            ResolveAction::Finish(r) => ResolveActionV::Finish(resolved_result(*r)),
        }
    }
}

/// The event each resolution state waits for.
pub open spec fn resolve_event_fits(s: ResolveStateV, e: ResolveEventV) -> bool {
    match s {
        ResolveStateV::ReadingEnv { .. } => e is Env,
        ResolveStateV::LoadingConfig { .. } => e is ConfigLoaded,
        ResolveStateV::ReadingKey { .. } => e is KeyRead,
        ResolveStateV::Done => false,
    }
}

/// How a resolution begins: with the `--account` and `--api-key` flags, by reading the
/// environment.
pub open spec fn resolve_start_view(requested: Option<Seq<char>>, direct: Option<Seq<char>>) -> (ResolveStateV, ResolveActionV) {
    (ResolveStateV::ReadingEnv { requested, direct }, ResolveActionV::ReadEnv)
}

/// The resolution ends with this outcome.
pub open spec fn finished(r: Result<ResolvedV, ErrorV>) -> (ResolveStateV, ResolveActionV) {
    (ResolveStateV::Done, ResolveActionV::Finish(r))
}

/// One step of a resolution: a direct key, then (without `--account`) the environment's key;
/// else the configured account that `--account` designates, completed with its stored key.
pub open spec fn resolve_step_view(s: ResolveStateV, e: ResolveEventV) -> (ResolveStateV, ResolveActionV) {
    match (s, e) {
        (ResolveStateV::ReadingEnv { requested, direct }, ResolveEventV::Env { key, now }) => match flags_view(
            requested,
            direct,
            key,
            now,
        ) {
            Some(r) => finished(Ok(r)),
            None => (ResolveStateV::LoadingConfig { requested }, ResolveActionV::LoadConfig),
        },
        (ResolveStateV::LoadingConfig { requested }, ResolveEventV::ConfigLoaded(loaded)) => match loaded {
            Err(err) => finished(Err(err)),
            Ok(accounts) => match account_view(requested, accounts) {
                Err(err) => finished(Err(err)),
                Ok(found) => (
                    ResolveStateV::ReadingKey { name: found.0, account: found.1 },
                    ResolveActionV::ReadKey { name: found.0 },
                ),
            },
        },
        (ResolveStateV::ReadingKey { name, account }, ResolveEventV::KeyRead(read)) => match read {
            Err(err) => finished(Err(err)),
            Ok(stored) => finished(stored_key_view(name, account, stored)),
        },
        _ => (s, ResolveActionV::ReadEnv),
    }
}

/// Begins resolving the account a command runs against.
pub fn resolve_start(requested_account: Option<String>, direct_key: Option<String>) -> (r: (ResolveState, ResolveAction))
    ensures
        (r.0@, r.1@) == resolve_start_view(opt_view(requested_account), opt_view(direct_key)),
{
    (ResolveState::ReadingEnv { requested: requested_account, direct: direct_key }, ResolveAction::ReadEnv)
}

impl ResolveState {
    /// Whether this is the event the resolution waits for.
    pub fn expects(&self, event: &ResolveEvent) -> (r: bool)
        ensures
            r == resolve_event_fits(self@, event@),
    {
        match self {
            ResolveState::ReadingEnv { .. } => matches!(event, ResolveEvent::Env { .. }),
            ResolveState::LoadingConfig { .. } => matches!(event, ResolveEvent::ConfigLoaded(_)),
            ResolveState::ReadingKey { .. } => matches!(event, ResolveEvent::KeyRead(_)),
            ResolveState::Done => false,
        }
    }
}

fn as_str_opt(o: &Option<String>) -> (r: Option<&str>)
    ensures
        opt_str_view(r) == opt_view(*o),
{
    match o {
        Some(s) => Some(s.as_str()),
        None => None,
    }
}

/// Takes one step of a resolution (see [`resolve_step_view`]).
pub fn resolve_step(state: ResolveState, event: ResolveEvent) -> (r: (ResolveState, ResolveAction))
    requires
        resolve_event_fits(state@, event@),
    ensures
        (r.0@, r.1@) == resolve_step_view(state@, event@),
{
    match (state, event) {
        (ResolveState::ReadingEnv { requested, direct }, ResolveEvent::Env { key, now }) => {
            match resolve_from_flags(as_str_opt(&requested), as_str_opt(&direct), as_str_opt(&key), now.as_str()) {
                Some(r) => (ResolveState::Done, ResolveAction::Finish(Ok(r))),
                None => (ResolveState::LoadingConfig { requested }, ResolveAction::LoadConfig),
            }
        },
        (ResolveState::LoadingConfig { requested }, ResolveEvent::ConfigLoaded(loaded)) => match loaded {
            Err(err) => (ResolveState::Done, ResolveAction::Finish(Err(err))),
            Ok(config) => match resolve_account(as_str_opt(&requested), &config) {
                Err(err) => (ResolveState::Done, ResolveAction::Finish(Err(err))),
                Ok((name, account)) => {
                    let n = name.clone();
                    (ResolveState::ReadingKey { name, account }, ResolveAction::ReadKey { name: n })
                },
            },
        },
        (ResolveState::ReadingKey { name, account }, ResolveEvent::KeyRead(read)) => match read {
            Err(err) => (ResolveState::Done, ResolveAction::Finish(Err(err))),
            Ok(stored) => (ResolveState::Done, ResolveAction::Finish(resolve_with_key(name, account, stored))),
        },
        (s, _) => (s, ResolveAction::ReadEnv),
    }
}

/// How many reads a resolution may still ask for.
pub open spec fn reads_left(s: ResolveStateV) -> nat {
    match s {
        ResolveStateV::ReadingEnv { .. } => 3,
        ResolveStateV::LoadingConfig { .. } => 2,
        ResolveStateV::ReadingKey { .. } => 1,
        ResolveStateV::Done => 0,
    }
}

/// Resolving writes nothing and ends: each step asks for one of the three reads or ends with
/// the outcome, and every step leaves fewer reads to come, so a resolution is over after at
/// most three reads.
pub proof fn resolution_only_reads(s: ResolveStateV, e: ResolveEventV)
    requires
        resolve_event_fits(s, e),
    ensures
        ({
            let (next, action) = resolve_step_view(s, e);
            &&& action is ReadEnv || action is LoadConfig || action is ReadKey || action is Finish
            &&& reads_left(next) < reads_left(s)
            &&& (action is Finish <==> next is Done)
        }),
{
}


/// The description of the configured accounts: a fixed sentence when there are none; else
/// `Configured accounts: ` and each name, followed by its identity in parentheses when that is
/// not blank, in name order and joined by `, `.
pub proof fn description_names_the_accounts(name: Seq<char>, account: AccountV, rest: Seq<(Seq<char>, AccountV)>)
    ensures
        describe_view(Seq::empty()) == "No accounts are configured yet. Run 'heyreach accounts add <name> --api-key <key>' or 'heyreach login <name>'."@,
        describe_view(seq![(name, account)]) == "Configured accounts: "@ + (if is_blank(account.identity) {
            name
        } else {
            name + " ("@ + account.identity + ")"@
        }),
{
    let s = seq![(name, account)];
    let labels = s.map_values(|e: (Seq<char>, AccountV)| account_label(e));
    assert(labels.len() == 1);
    assert(labels[0] == account_label((name, account)));
}

} // verus!
