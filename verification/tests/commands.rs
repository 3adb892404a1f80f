use heyreach::account::{
    describe, resolve_account, resolve_from_flags, resolve_start, resolve_step, resolve_with_key, ResolveAction,
    ResolveEvent, ResolveState, Resolved,
};
use heyreach::cli::{Auth, Campaigns, Command, Leads, Lists, Stats, Webhooks};
use heyreach::client::{read, Method, Request};
use heyreach::commands::campaigns::LeadsInput;
use heyreach::commands::login::{
    key_source, login_account, login_name, login_report, login_start, login_step, login_target, no_terminal_error,
    prompted_key, stdin_key, KeySource, LoginAction, LoginEvent, LoginState,
};
use heyreach::cli::Login;
use heyreach::error::Error;
use heyreach::commands::stats::validate_date;
use heyreach::commands::{
    auth, campaigns, command_start, command_step, conversations, finish, leads, lists, run, senders, stats, tags,
    webhooks, CommandAction, CommandEvent, CommandState, Dispatch, Pending, Reply,
};
use heyreach::config::{AccountConfig, Config};
use heyreach::error::ErrorCode;
use heyreach::json::Json;
use heyreach::readme::{manual, MANUAL};

fn field<'a>(j: &'a Json, key: &str) -> Option<&'a Json> {
    match j {
        Json::Object(fs) => fs.iter().find(|(k, _)| k == key).map(|(_, v)| v),
        _ => None,
    }
}

fn text(j: Option<&Json>) -> Option<&str> {
    match j {
        Some(Json::Str(s)) => Some(s.as_str()),
        Some(Json::Number(s)) => Some(s.as_str()),
        _ => None,
    }
}

fn keys(j: &Json) -> Vec<String> {
    match j {
        Json::Object(fs) => fs.iter().map(|(k, _)| k.clone()).collect(),
        _ => vec![],
    }
}

fn body(r: &Request) -> &Json {
    r.body.as_ref().expect("a body")
}

fn account(identity: &str) -> AccountConfig {
    AccountConfig { identity: identity.to_string(), added_at: "2026-01-01T00:00:00Z".to_string() }
}

#[test]
fn test_agent_readme() {
    let out = manual();
    assert_eq!(text(field(&out, "tool")), Some("heyreach"));
    assert_eq!(text(field(&out, "apiVersion")), Some("1.0.0"));
    assert!(matches!(field(&out, "rules"), Some(Json::Array(r)) if r.len() == 7));
    let codes = field(&out, "exitCodes").unwrap();
    assert_eq!(text(field(codes, "0")), Some("ok"));
    assert_eq!(text(field(codes, "3")), Some("auth_required - stop, surface the remediation to a human"));
    assert!(MANUAL.contains("# heyreach - agent operating manual"));
}

#[test]
fn test_auth_check() {
    let call = auth::check();
    assert_eq!(call.request.method, Method::Get);
    assert_eq!(call.request.path, "auth/CheckApiKey");
    assert!(call.request.body.is_none());
    let reply = read(200, None, br#"{"valid": true, "message": "API key is valid"}"#).unwrap();
    let out = finish(call.reply, reply);
    assert!(matches!(field(&out, "valid"), Some(Json::Bool(true))));
    assert_eq!(text(field(&out, "message")), Some("API key is valid"));
}

#[test]
fn test_accounts_lifecycle() {
    let mut config = Config::new();
    config.insert("prod".to_string(), account("stored"));
    assert_eq!(config.len(), 1);
    let entries = config.sorted();
    assert_eq!(entries[0].0, "prod");
    let (name, acct) = config.find("prod").unwrap();
    assert_eq!(name, "prod");
    assert_eq!(acct.identity, "stored");
    let removed = config.remove("prod").unwrap();
    assert_eq!(removed.identity, "stored");
    assert_eq!(config.len(), 0);
    assert!(config.find("prod").is_none());
}

#[test]
fn test_campaigns_commands() {
    let call = campaigns::list(5, 0, Some("active".into()));
    assert_eq!(call.request.method, Method::Post);
    assert_eq!(call.request.path, "campaign/GetAll");
    assert_eq!(text(field(body(&call.request), "limit")), Some("5"));
    assert_eq!(text(field(body(&call.request), "status")), Some("active"));
    let out = finish(call.reply, read(200, None, br#"{"total": 1, "items": []}"#).unwrap());
    assert_eq!(text(field(&out, "total")), Some("1"));

    let call = campaigns::get(100);
    assert_eq!(call.request.method, Method::Get);
    assert_eq!(call.request.path, "campaign/GetById?campaignId=100");

    let call = campaigns::pause(100);
    assert_eq!(call.request.path, "campaign/Pause");
    assert_eq!(text(field(body(&call.request), "campaignId")), Some("100"));
    let call = campaigns::resume(100);
    assert_eq!(call.request.path, "campaign/Resume");

    let input = LeadsInput::File {
        path: "leads.json".into(),
        content: Ok(r#"[{"linkedinUrl": "https://linkedin.com/in/testuser"}]"#.into()),
    };
    let call = campaigns::add_leads(100, input).unwrap();
    assert_eq!(call.request.path, "campaign/AddLeadsToCampaign");
    assert!(matches!(field(body(&call.request), "leads"), Some(Json::Array(a)) if a.len() == 1));

    let call = campaigns::stop_lead(100, 555);
    assert_eq!(call.request.path, "campaign/StopLeadInCampaign");
    assert_eq!(text(field(body(&call.request), "leadId")), Some("555"));
}

#[test]
fn test_lists_commands() {
    let call = lists::list(10, 0);
    assert_eq!(call.request.path, "list/GetAll");
    assert_eq!(keys(body(&call.request)), vec!["offset", "limit"]);
    assert_eq!(lists::get(200).request.path, "list/GetById?listId=200");
    let call = lists::create("Engineers".into(), "user".into());
    assert_eq!(text(field(body(&call.request), "type")), Some("USER_LIST"));
    let call = lists::create("Engineers".into(), "Company".into());
    assert_eq!(text(field(body(&call.request), "type")), Some("COMPANY_LIST"));
    let call = lists::leads(200, 50, 0, None);
    assert_eq!(call.request.path, "list/GetLeadsFromList");
    assert_eq!(keys(body(&call.request)), vec!["listId", "offset", "limit"]);
    let call = lists::add_lead(200, "https://linkedin.com/in/alice".into());
    assert_eq!(call.request.path, "list/AddLeadsToListV2");
    match field(body(&call.request), "leads") {
        Some(Json::Array(items)) => assert_eq!(text(field(&items[0], "linkedinUrl")), Some("https://linkedin.com/in/alice")),
        other => panic!("unexpected {other:?}"),
    }
    assert_eq!(lists::remove_lead(200, 1).request.path, "list/DeleteLeadFromList");
    assert_eq!(lists::companies(200, 50, 0).request.path, "list/GetCompaniesFromList");
}

#[test]
fn test_leads_commands() {
    let call = leads::get("https://linkedin.com/in/alice".into());
    assert_eq!(call.request.path, "lead/GetLead");
    assert_eq!(text(field(body(&call.request), "profileUrl")), Some("https://linkedin.com/in/alice"));
    assert_eq!(leads::lists("u".into()).request.path, "list/GetListsForLead");
    let call = leads::update_status(1, "contacted".into()).unwrap();
    assert_eq!(call.request.path, "lead/UpdateStatus");
    assert_eq!(text(field(body(&call.request), "status")), Some("contacted"));

    let err = leads::update_status(1, "unknown_status".into()).unwrap_err();
    assert_eq!(err.code.exit_code(), 6);
    assert!(err.message.contains("Invalid status 'unknown_status'"));
    let env = err.envelope();
    assert!(text(field(&env, "error")).unwrap().contains("Invalid status 'unknown_status'"));
    assert_eq!(text(field(&env, "code")), Some("invalid_input"));
}

#[test]
fn test_webhooks_and_tags() {
    assert_eq!(webhooks::list(10, 0).request.path, "webhook/GetAll");
    assert_eq!(webhooks::get(50).request.path, "webhook/GetById?webhookId=50");
    let call = webhooks::create("Hook2".into(), "https://example.com/h2".into(), "message_reply".into(), None);
    assert_eq!(call.request.path, "webhook/Create");
    assert_eq!(keys(body(&call.request)), vec!["name", "url", "eventType"]);
    let call = webhooks::update(50, Some("HookRenamed".into()), None, None, None);
    assert_eq!(call.request.method, Method::Put);
    assert_eq!(keys(body(&call.request)), vec!["webhookId", "name"]);
    let call = webhooks::delete(50);
    assert_eq!(call.request.method, Method::Delete);
    assert_eq!(call.request.path, "webhook/Delete?webhookId=50");
    let out = finish(call.reply, read(200, None, b"{}").unwrap());
    assert_eq!(text(field(&out, "status")), Some("ok"));
    assert_eq!(text(field(&out, "id")), Some("50"));
    let call = tags::create("VIP".into(), None);
    assert_eq!(call.request.path, "tag/Create");
    assert_eq!(text(field(body(&call.request), "displayName")), Some("VIP"));
}

#[test]
fn test_error_status_mappings() {
    let e = read(401, None, br#"{"message": "Invalid API key"}"#).unwrap_err();
    assert_eq!(e.code.exit_code(), 3);
    assert_eq!(e.code.as_str(), "auth_required");
    let e = read(404, None, br#"{"message": "Campaign not found"}"#).unwrap_err();
    assert_eq!(e.code.exit_code(), 4);
    assert_eq!(e.code.as_str(), "not_found");
    let e = read(429, None, br#"{"message": "Too many requests"}"#).unwrap_err();
    assert_eq!(e.code.exit_code(), 5);
    assert_eq!(e.code.as_str(), "rate_limited");
    let e = read(500, None, br#"{"message": "Internal server error"}"#).unwrap_err();
    assert_eq!(e.code.exit_code(), 2);
    assert_eq!(e.code.as_str(), "network");
}

#[test]
fn add_leads_refusals() {
    let e = campaigns::add_leads(7, LeadsInput::Terminal).unwrap_err();
    assert_eq!(e.message, "Provide leads via stdin or --file");
    assert_eq!(e.remediation.as_deref(), Some(r#"echo '[{"linkedinUrl": "..."}]' | heyreach campaigns add-leads 7"#));
    let e = campaigns::add_leads(7, LeadsInput::Stdin(Ok(r#"{"a": 1}"#.into()))).unwrap_err();
    assert_eq!(e.message, "Input must be a JSON array of lead objects");
    let e = campaigns::add_leads(7, LeadsInput::Stdin(Ok("[oops".into()))).unwrap_err();
    assert!(e.message.starts_with("Failed to parse JSON leads: "));
    let e = campaigns::add_leads(7, LeadsInput::File { path: "x.json".into(), content: Err("gone".into()) }).unwrap_err();
    assert_eq!(e.message, "Failed to read file 'x.json': gone");
    let e = campaigns::add_leads(7, LeadsInput::Stdin(Err("closed".into()))).unwrap_err();
    assert_eq!(e.message, "Failed to read stdin: closed");
    assert_eq!(e.code, ErrorCode::InvalidInput);
}

#[test]
fn list_filters_ignore_blank_values() {
    let call = campaigns::list(10, 0, Some("   ".into()));
    assert_eq!(keys(body(&call.request)), vec!["offset", "limit"]);
    let call = lists::leads(1, 50, 0, Some(" alice ".into()));
    assert_eq!(text(field(body(&call.request), "keyword")), Some(" alice "));
    let call = conversations::list(20, 0, Some(3), None);
    assert_eq!(keys(body(&call.request)), vec!["offset", "limit", "campaignId"]);
    let call = conversations::send(1, "hi".into(), Some(9));
    assert_eq!(keys(body(&call.request)), vec!["leadId", "message", "senderId"]);
    let call = senders::network(4, 50, 10);
    assert_eq!(keys(body(&call.request)), vec!["senderId", "offset", "limit"]);
    assert_eq!(senders::get(-4).request.path, "linkedInAccount/GetById?senderId=-4");
}

#[test]
fn update_status_ignores_case_and_keeps_the_given_text() {
    let call = leads::update_status(1, "NOT_Interested".into()).unwrap();
    assert_eq!(text(field(body(&call.request), "status")), Some("NOT_Interested"));
    assert!(leads::update_status(1, " pending".into()).is_err());
}

#[test]
fn stats_dates() {
    assert!(validate_date("2024-01-31", "--from").is_ok());
    for bad in ["2024-1-31", "2024/01/31", "24-01-31", "2024-01-3a", "2024-01-31-", ""] {
        let e = validate_date(bad, "--from").unwrap_err();
        assert_eq!(e.message, "--from must be in yyyy-MM-dd format");
    }
    let call = stats::get(Some("2024-01-01".into()), Some(" ".into()), None, Some(5)).unwrap();
    assert_eq!(keys(body(&call.request)), vec!["accountIds", "campaignIds", "from"]);
    match field(body(&call.request), "accountIds") {
        Some(Json::Array(a)) => assert_eq!(text(a.first()), Some("5")),
        other => panic!("unexpected {other:?}"),
    }
    assert!(matches!(field(body(&call.request), "campaignIds"), Some(Json::Array(a)) if a.is_empty()));
    let e = stats::get(None, Some("tomorrow".into()), None, None).unwrap_err();
    assert_eq!(e.message, "--to must be in yyyy-MM-dd format");
    let e = stats::get(Some("x".into()), Some("y".into()), None, None).unwrap_err();
    assert_eq!(e.message, "--from must be in yyyy-MM-dd format");
}

#[test]
fn run_dispatches_commands() {
    match run(Command::AgentReadme) {
        Dispatch::AgentReadme => {}
        other => panic!("unexpected {other:?}"),
    }
    match run(Command::Auth(Auth::Check)) {
        Dispatch::Api(Ok(call)) => {
            assert_eq!(call.request.path, "auth/CheckApiKey");
            assert_eq!(call.reply, Reply::KeyValid);
        }
        other => panic!("unexpected {other:?}"),
    }
    match run(Command::Campaigns(Campaigns::AddLeads { id: 3, file: None })) {
        Dispatch::AddLeads { id, file } => assert_eq!((id, file), (3, None)),
        other => panic!("unexpected {other:?}"),
    }
    match run(Command::Leads(Leads::UpdateStatus { lead: 1, status: "nope".into() })) {
        Dispatch::Api(Err(e)) => assert_eq!(e.code, ErrorCode::InvalidInput),
        other => panic!("unexpected {other:?}"),
    }
    match run(Command::Lists(Lists::Create { name: "a".into(), list_type: "user".into() })) {
        Dispatch::Api(Ok(call)) => assert_eq!(call.request.path, "list/CreateEmptyList"),
        other => panic!("unexpected {other:?}"),
    }
    match run(Command::Stats(Stats::Get { from: None, to: None, campaign_id: None, sender_id: None })) {
        Dispatch::Api(Ok(call)) => assert_eq!(call.request.path, "stats/GetOverallStats"),
        other => panic!("unexpected {other:?}"),
    }
    match run(Command::Webhooks(Webhooks::Delete { id: 2 })) {
        Dispatch::Api(Ok(call)) => assert_eq!(call.reply, Reply::WebhookDeleted(2)),
        other => panic!("unexpected {other:?}"),
    }
}

#[test]
fn webhook_delete_keeps_a_non_empty_reply() {
    let out = finish(Reply::WebhookDeleted(5), read(200, None, br#"{"deleted": true}"#).unwrap());
    assert_eq!(keys(&out), vec!["deleted"]);
}

#[test]
fn resolution_order() {
    let r = resolve_from_flags(Some("prod"), Some("  k1 "), Some("k2"), "now").unwrap();
    assert_eq!((r.name.as_str(), r.api_key.as_str(), r.config.identity.as_str()), ("direct", "k1", "flag"));
    let r = resolve_from_flags(None, Some("  "), Some(" k2 "), "now").unwrap();
    assert_eq!((r.name.as_str(), r.api_key.as_str(), r.config.identity.as_str()), ("env", "k2", "HEYREACH_API_KEY"));
    assert_eq!(r.config.added_at, "now");
    let r = resolve_from_flags(Some(" "), None, Some("k2"), "now").unwrap();
    assert_eq!(r.name, "env");
    assert!(resolve_from_flags(None, None, Some(""), "now").is_none());
    assert!(resolve_from_flags(Some("prod"), None, Some("k2"), "now").is_none());
}

#[test]
fn configured_accounts_resolution() {
    let empty = Config::new();
    let e = resolve_account(None, &empty).unwrap_err();
    assert_eq!(e.code, ErrorCode::AuthRequired);
    assert_eq!(e.remediation.as_deref(), Some("heyreach login"));
    assert_eq!(
        describe(&empty),
        "No accounts are configured yet. Run 'heyreach accounts add <name> --api-key <key>' or 'heyreach login <name>'."
    );

    let mut config = Config::new();
    config.insert("zeta".into(), account(""));
    config.insert("Prod".into(), account("valid"));
    assert_eq!(describe(&config), "Configured accounts: Prod (valid), zeta");

    let e = resolve_account(None, &config).unwrap_err();
    assert_eq!(e.code, ErrorCode::NoAccount);
    assert_eq!(e.detail.as_deref(), Some("Configured accounts: Prod (valid), zeta"));
    let e = resolve_account(Some(" nobody "), &config).unwrap_err();
    assert_eq!(e.message, "No account named 'nobody'.");
    let (name, _) = resolve_account(Some("prod"), &config).unwrap();
    assert_eq!(name, "Prod");

    let r = resolve_with_key("Prod".into(), account("valid"), Some("secret".into())).unwrap();
    assert_eq!(r.api_key, "secret");
    let e = resolve_with_key("Prod".into(), account("valid"), Some("  ".into())).unwrap_err();
    assert_eq!(e.message, "Account 'Prod' has no stored API key.");
    assert_eq!(e.remediation.as_deref(), Some("heyreach accounts add Prod --api-key <key>"));
}

#[test]
fn config_keeps_name_order_and_replaces() {
    let mut config = Config::new();
    for n in ["b", "a", "c", "ab"] {
        config.insert(n.into(), account(n));
    }
    config.insert("b".into(), account("again"));
    let names: Vec<String> = config.sorted().into_iter().map(|(k, _)| k).collect();
    assert_eq!(names, vec!["a", "ab", "b", "c"]);
    assert_eq!(config.find("b").unwrap().1.identity, "again");
    assert_eq!(config.find("B").unwrap().0, "b");
    assert!(config.remove("B").is_none());
    assert!(config.remove("b").is_some());
    assert_eq!(config.len(), 3);
}

#[test]
fn login_decisions() {
    assert_eq!(login_name("  work ").unwrap(), "work");
    assert_eq!(login_name("   ").unwrap_err().message, "An account name is required.");
    let mut config = Config::new();
    config.insert("Work".into(), account("valid"));
    let e = login_target("work".into(), &config, false).unwrap_err();
    assert_eq!(e.message, "An account named 'Work' already exists.");
    assert_eq!(e.remediation.as_deref(), Some("Use --force to replace its key: heyreach login Work --force"));
    assert_eq!(login_target("work".into(), &config, true).unwrap(), "Work");
    assert_eq!(login_target("home".into(), &config, false).unwrap(), "home");

    assert!(matches!(key_source(true, Some("k".into())), KeySource::Stdin));
    assert!(matches!(key_source(false, Some(" k ".into())), KeySource::Given(k) if k == "k"));
    assert!(matches!(key_source(false, Some(" ".into())), KeySource::Prompt));
    assert_eq!(stdin_key(Ok(" key\n".into())).unwrap(), "key");
    assert_eq!(stdin_key(Ok("\n".into())).unwrap_err().message, "--api-key-stdin was given but stdin was empty.");
    assert_eq!(prompted_key(Ok("  ".into())).unwrap(), None);
    assert_eq!(prompted_key(Ok(" abc ".into())).unwrap().as_deref(), Some("abc"));
    let e = prompted_key(Err("eof".into())).unwrap_err();
    assert_eq!((e.code, e.detail.as_deref()), (ErrorCode::Error, Some("eof")));
    assert_eq!(no_terminal_error("w").remediation.as_deref(), Some("pbpaste | heyreach login w --api-key-stdin"));
    assert_eq!(login_account("w", true, "t").identity, "valid");
    assert_eq!(login_account("w", false, "t").identity, "w");
    let report = login_report("w", true, "keychain", "/tmp/x");
    assert_eq!(keys(&report), vec!["status", "name", "verified", "secretStore", "configDir", "nextStep"]);
    assert_eq!(text(field(&report, "nextStep")), Some("heyreach campaigns list -a w"));
}

#[test]
fn error_envelope_fields() {
    let e = read(401, None, b"").unwrap_err();
    let env = e.envelope();
    assert_eq!(keys(&env), vec!["error", "code", "detail", "remediation"]);
    assert_eq!(text(field(&env, "detail")), Some("HTTP 401"));
    let codes = [
        ErrorCode::Error,
        ErrorCode::Network,
        ErrorCode::AuthRequired,
        ErrorCode::NotFound,
        ErrorCode::RateLimited,
        ErrorCode::InvalidInput,
        ErrorCode::NoAccount,
    ];
    let statuses: Vec<i32> = codes.iter().map(|c| c.exit_code()).collect();
    assert_eq!(statuses, vec![1, 2, 3, 4, 5, 6, 7]);
}

fn login_args(name: &str, api_key: Option<&str>, skip_key_check: bool) -> Login {
    Login {
        name: name.to_string(),
        api_key: api_key.map(str::to_string),
        api_key_stdin: false,
        no_browser: false,
        force: false,
        skip_key_check,
    }
}

#[test]
fn login_steps_check_then_store() {
    let (state, action) = login_start(login_args(" work ", Some(" k1 "), false), true);
    assert!(matches!(action, LoginAction::LoadConfig));
    assert!(matches!(&state, LoginState::Loading { name, .. } if name == "work"));
    let (state, action) = login_step(state, LoginEvent::ConfigLoaded(Ok(Config::new())));
    assert!(matches!(&action, LoginAction::CheckKey { key } if key == "k1"));
    let (state, action) = login_step(state, LoginEvent::Checked(Ok(())));
    assert!(matches!(&action, LoginAction::Store { name, key, verified: true } if name == "work" && key == "k1"));
    let (state, action) = login_step(state, LoginEvent::Stored(Ok(())));
    assert!(matches!(&action, LoginAction::Report { name, verified: true } if name == "work"));
    assert!(matches!(state, LoginState::Done));
}

#[test]
fn login_steps_refused_key_is_not_stored() {
    let (state, _) = login_start(login_args("work", Some("bad"), false), true);
    let (state, _) = login_step(state, LoginEvent::ConfigLoaded(Ok(Config::new())));
    let refused = Error::new(ErrorCode::AuthRequired, "Invalid API key".to_string());
    let (state, action) = login_step(state, LoginEvent::Checked(Err(refused)));
    assert!(matches!(&action, LoginAction::Fail(e) if e.code == ErrorCode::AuthRequired && e.message == "Invalid API key"));
    assert!(matches!(state, LoginState::Done));
}

#[test]
fn login_steps_without_check_store_at_once() {
    let (state, _) = login_start(login_args("work", Some("k"), true), true);
    let (_, action) = login_step(state, LoginEvent::ConfigLoaded(Ok(Config::new())));
    assert!(matches!(&action, LoginAction::Store { key, verified: false, .. } if key == "k"));
}

#[test]
fn login_steps_refusals() {
    let (state, action) = login_start(login_args("  ", None, false), true);
    assert!(matches!(&action, LoginAction::Fail(e) if e.code == ErrorCode::InvalidInput));
    assert!(matches!(state, LoginState::Done));

    let mut config = Config::new();
    config.insert("Work".into(), account("valid"));
    let (state, _) = login_start(login_args("work", Some("k"), false), true);
    let (_, action) = login_step(state, LoginEvent::ConfigLoaded(Ok(config)));
    assert!(matches!(&action, LoginAction::Fail(e) if e.message == "An account named 'Work' already exists."));

    let (state, _) = login_start(login_args("work", None, false), false);
    let (_, action) = login_step(state, LoginEvent::ConfigLoaded(Ok(Config::new())));
    assert!(matches!(&action, LoginAction::Fail(e)
        if e.remediation.as_deref() == Some("pbpaste | heyreach login work --api-key-stdin")));

    let (state, _) = login_start(login_args("work", None, false), true);
    let broken = Error::other("Could not read the configuration.".to_string());
    let (_, action) = login_step(state, LoginEvent::ConfigLoaded(Err(broken)));
    assert!(matches!(&action, LoginAction::Fail(e) if e.message == "Could not read the configuration."));
}

#[test]
fn login_steps_prompt_until_a_key_is_given() {
    let (state, _) = login_start(login_args("work", None, false), true);
    let (state, action) = login_step(state, LoginEvent::ConfigLoaded(Ok(Config::new())));
    assert!(matches!(&action, LoginAction::Prompt { name, first: true, open_browser: true } if name == "work"));
    let (state, action) = login_step(state, LoginEvent::Answer(Ok("   ".into())));
    assert!(matches!(&action, LoginAction::Prompt { first: false, open_browser: false, .. }));
    assert!(state.expects(&LoginEvent::Answer(Ok(String::new()))));
    assert!(!state.expects(&LoginEvent::Checked(Ok(()))));
    let (_, action) = login_step(state, LoginEvent::Answer(Ok(" k2 ".into())));
    assert!(matches!(&action, LoginAction::CheckKey { key } if key == "k2"));

    let mut args = login_args("work", None, false);
    args.api_key_stdin = true;
    let (state, _) = login_start(args, false);
    let (state, action) = login_step(state, LoginEvent::ConfigLoaded(Ok(Config::new())));
    assert!(matches!(action, LoginAction::ReadKeyLine));
    let (_, action) = login_step(state, LoginEvent::KeyLine(Ok("\n".into())));
    assert!(matches!(&action, LoginAction::Fail(e) if e.message == "--api-key-stdin was given but stdin was empty."));
}

fn resolved(key: &str) -> Resolved {
    Resolved { name: "prod".to_string(), config: account("valid"), api_key: key.to_string() }
}

#[test]
fn command_resolution_error_sends_nothing() {
    let call = leads::update_status(1, "unknown_status".into());
    assert!(call.is_err());
    let (state, action) = command_start(Pending::Call(call));
    assert!(matches!(action, CommandAction::Resolve));
    let no_account = resolve_account(None, &{
        let mut c = Config::new();
        c.insert("prod".into(), account("valid"));
        c
    })
    .unwrap_err();
    let (state, action) = command_step(state, CommandEvent::Resolved(Err(no_account)));
    assert!(matches!(&action, CommandAction::Fail(e) if e.code == ErrorCode::NoAccount));
    assert!(matches!(state, CommandState::Done));
}

#[test]
fn command_steps_send_with_the_resolved_key() {
    let (state, _) = command_start(Pending::Call(Ok(campaigns::get(100))));
    let (state, action) = command_step(state, CommandEvent::Resolved(Ok(resolved("k9"))));
    match &action {
        CommandAction::Send { api_key, request } => {
            assert_eq!(api_key, "k9");
            assert_eq!(request.method, Method::Get);
            assert_eq!(request.path, "campaign/GetById?campaignId=100");
        }
        other => panic!("unexpected {other:?}"),
    }
    assert!(state.expects(&CommandEvent::Replied(Ok(Json::Null))));
    let reply = read(200, None, br#"{"name": "Q1 Outreach"}"#);
    let (state, action) = command_step(state, CommandEvent::Replied(reply));
    assert!(matches!(&action, CommandAction::Print(j) if text(field(j, "name")) == Some("Q1 Outreach")));
    assert!(matches!(state, CommandState::Done));

    let (state, _) = command_start(Pending::Call(Err(leads::update_status(1, "x".into()).unwrap_err())));
    let (_, action) = command_step(state, CommandEvent::Resolved(Ok(resolved("k"))));
    assert!(matches!(&action, CommandAction::Fail(e) if e.code == ErrorCode::InvalidInput));

    let (state, _) = command_start(Pending::Call(Ok(auth::check())));
    let (state, _) = command_step(state, CommandEvent::Resolved(Ok(resolved("k"))));
    let (_, action) = command_step(state, CommandEvent::Replied(read(401, None, b"")));
    assert!(matches!(&action, CommandAction::Fail(e) if e.code == ErrorCode::AuthRequired));
}

#[test]
fn command_steps_read_leads_after_resolution() {
    let (state, _) = command_start(Pending::AddLeads { id: 7, file: None });
    let (state, action) = command_step(state, CommandEvent::Resolved(Ok(resolved("k"))));
    assert!(matches!(action, CommandAction::ReadLeads { file: None }));
    let (_, action) = command_step(state, CommandEvent::LeadsRead(LeadsInput::Terminal));
    assert!(matches!(&action, CommandAction::Fail(e) if e.message == "Provide leads via stdin or --file"));

    let (state, _) = command_start(Pending::AddLeads { id: 7, file: None });
    let (state, _) = command_step(state, CommandEvent::Resolved(Ok(resolved("k3"))));
    let input = LeadsInput::Stdin(Ok(r#"[{"linkedinUrl": "u"}]"#.to_string()));
    let (_, action) = command_step(state, CommandEvent::LeadsRead(input));
    assert!(matches!(&action, CommandAction::Send { api_key, request }
        if api_key == "k3" && request.path == "campaign/AddLeadsToCampaign"));
}

#[test]
fn resolution_steps() {
    let mut config = Config::new();
    config.insert("prod".into(), account("valid"));

    let (state, action) = resolve_start(Some("PROD".into()), None);
    assert!(matches!(action, ResolveAction::ReadEnv));
    let (state, action) = resolve_step(state, ResolveEvent::Env { key: Some("envkey".into()), now: "t".into() });
    assert!(matches!(action, ResolveAction::LoadConfig));
    let (state, action) = resolve_step(state, ResolveEvent::ConfigLoaded(Ok(config)));
    assert!(matches!(&action, ResolveAction::ReadKey { name } if name == "prod"));
    assert!(matches!(&state, ResolveState::ReadingKey { name, .. } if name == "prod"));
    let (state, action) = resolve_step(state, ResolveEvent::KeyRead(Ok(Some("stored".into()))));
    assert!(matches!(&action, ResolveAction::Finish(Ok(r)) if r.name == "prod" && r.api_key == "stored"));
    assert!(matches!(state, ResolveState::Done));

    let (state, _) = resolve_start(None, None);
    let (_, action) = resolve_step(state, ResolveEvent::Env { key: Some(" envkey ".into()), now: "t".into() });
    assert!(matches!(&action, ResolveAction::Finish(Ok(r)) if r.name == "env" && r.api_key == "envkey"));

    let (state, _) = resolve_start(Some("prod".into()), Some("direct".into()));
    let (_, action) = resolve_step(state, ResolveEvent::Env { key: None, now: "t".into() });
    assert!(matches!(&action, ResolveAction::Finish(Ok(r)) if r.name == "direct" && r.api_key == "direct"));

    let (state, _) = resolve_start(None, None);
    let (state, _) = resolve_step(state, ResolveEvent::Env { key: None, now: "t".into() });
    let (_, action) = resolve_step(state, ResolveEvent::ConfigLoaded(Ok(Config::new())));
    assert!(matches!(&action, ResolveAction::Finish(Err(e)) if e.code == ErrorCode::AuthRequired));

    let mut config = Config::new();
    config.insert("prod".into(), account("valid"));
    let (state, _) = resolve_start(Some("prod".into()), None);
    let (state, _) = resolve_step(state, ResolveEvent::Env { key: None, now: "t".into() });
    let (state, _) = resolve_step(state, ResolveEvent::ConfigLoaded(Ok(config)));
    assert!(!state.expects(&ResolveEvent::Env { key: None, now: String::new() }));
    let (_, action) = resolve_step(state, ResolveEvent::KeyRead(Ok(None)));
    assert!(matches!(&action, ResolveAction::Finish(Err(e))
        if e.code == ErrorCode::AuthRequired && e.message == "Account 'prod' has no stored API key."));
}
