//! The commands of the CLI. Each API command becomes an [`ApiCall`]: the request to send and
//! how to shape the reply; [`run`] decides what a parsed command line asks for.

pub mod auth;
pub mod campaigns;
pub mod conversations;
pub mod leads;
pub mod lists;
pub mod login;
pub mod stats;
pub mod tags;
pub mod webhooks;
pub mod senders;

use vstd::prelude::*;
use crate::client::{Request, RequestV};
use crate::json::{Json, JsonV, fields_view, push_field, obj, num};
use crate::text::{int_text, i64_text, string_from_chars};
use vstd::string::StringExecFns;
use crate::cli::{Command, Login, Accounts, Auth, Campaigns, Lists, Leads, Senders, Conversations, Stats, Webhooks, Tags};
use crate::error::{Error, ErrorV, opt_view};
use self::campaigns::{call_result_view, add_leads, add_leads_call, LeadsInput};
use crate::account::{Resolved, ResolvedV, resolved_result};

verus! {

/// How the reply of an API call is turned into the command's output.
#[derive(Clone, Copy, Debug, PartialEq, Eq, Structural)]
pub enum Reply {
    /// The reply as it came.
    Raw,
    /// A fixed confirmation that the API key is valid.
    KeyValid,
    /// The deleted webhook's id when the API answered with an empty object.
    WebhookDeleted(i64),
}

/// A request and the way its reply becomes output.
#[derive(Debug)]
pub struct ApiCall {
    pub request: Request,
    pub reply: Reply,
}

/// The view of an [`ApiCall`].
pub struct ApiCallV {
    pub request: RequestV,
    pub reply: Reply,
}

impl View for ApiCall {
    type V = ApiCallV;

    open spec fn view(&self) -> ApiCallV {
        ApiCallV { request: self.request@, reply: self.reply }
    }
}

/// A call whose reply is printed as it came.
pub open spec fn raw(request: RequestV) -> ApiCallV {
    ApiCallV { request, reply: Reply::Raw }
}

/// What `auth check` prints once the key was accepted.
pub open spec fn key_valid_view() -> JsonV {
    obj(seq![("valid"@, JsonV::Bool(true)), ("message"@, JsonV::Str("API key is valid"@))])
}

/// The output of a call, from the reply the API gave.
pub open spec fn finish_view(reply: Reply, response: JsonV) -> JsonV {
    match reply {
        Reply::Raw => response,
        Reply::KeyValid => key_valid_view(),
        Reply::WebhookDeleted(id) => match response {
            JsonV::Object(fs) => if fs.len() == 0 {
                obj(seq![("status"@, JsonV::Str("ok"@)), ("id"@, num(id as int))])
            } else {
                response
            },
            _ => response,
        },
    }
}

/// An empty list of object members.
pub fn new_fields() -> (r: Vec<(String, Json)>)
    ensures
        fields_view(r@) == Seq::<(Seq<char>, JsonV)>::empty(),
{
    let r: Vec<(String, Json)> = Vec::new();
    assert(fields_view(r@) =~= Seq::<(Seq<char>, JsonV)>::empty());
    r
}

/// Shapes the reply of an API call into the command's output.
pub fn finish(reply: Reply, response: Json) -> (r: Json)
    ensures
        r@ == finish_view(reply, response@),
{
    match reply {
        Reply::Raw => response,
        Reply::KeyValid => {
            let mut f = new_fields();
            push_field(&mut f, "valid", Json::Bool(true));
            push_field(&mut f, "message", Json::string("API key is valid"));
            assert(fields_view(f@) =~= seq![("valid"@, JsonV::Bool(true)), ("message"@, JsonV::Str("API key is valid"@))]);
            let r = Json::Object(f);
            r
        },
        Reply::WebhookDeleted(id) => {
            let empty = match &response {
                Json::Object(fs) => {
                    proof {
                        crate::json::lemma_fields_view(fs@);
                    }
                    fs.len() == 0
                },
                _ => false,
            };
            if empty {
                let mut f = new_fields();
                push_field(&mut f, "status", Json::string("ok"));
                push_field(&mut f, "id", Json::from_i64(id));
                assert(fields_view(f@) =~= seq![("status"@, JsonV::Str("ok"@)), ("id"@, num(id as int))]);
                let r = Json::Object(f);
                r
            } else {
                response
            }
        },
    }
}

/// A path ending in a decimal id, as `format!("{prefix}{id}")` writes it.
pub fn path_with_id(prefix: &str, id: i64) -> (r: String)
    ensures
        r@ == prefix@ + int_text(id as int),
{
    let mut p = prefix.to_owned();
    let digits = i64_text(id);
    p.append(string_from_chars(digits.as_slice()).as_str());
    p
}

/// What a command line asks the program to do.
#[derive(Debug)]
pub enum Dispatch {
    /// Print the agent manual.
    AgentReadme,
    /// Log in.
    Login(Login),
    /// Manage the configured accounts.
    Accounts(Accounts),
    /// Resolve the account, then make this call (or report why it cannot be made).
    Api(Result<ApiCall, Error>),
    /// Resolve the account, read the leads from the file or standard input, then call
    /// [`campaigns::add_leads`].
    AddLeads { id: i64, file: Option<String> },
}

/// The call an API command makes, or the error it ends in before any request; nothing for
/// the commands that are not plain API calls.
pub open spec fn api_call_of(command: Command) -> Option<Result<ApiCallV, ErrorV>> {
    match command {
        Command::Auth(Auth::Check) => Some(Ok(auth::check_call())),
        Command::Campaigns(c) => match c {
            Campaigns::List { limit, offset, status } => Some(Ok(campaigns::list_call(limit, offset, opt_view(status)))),
            Campaigns::Get { id } => Some(Ok(campaigns::get_call(id))),
            Campaigns::Pause { id } => Some(Ok(campaigns::pause_call(id))),
            Campaigns::Resume { id } => Some(Ok(campaigns::resume_call(id))),
            Campaigns::AddLeads { .. } => None,
            Campaigns::StopLead { campaign_id, lead } => Some(Ok(campaigns::stop_lead_call(campaign_id, lead))),
        },
        Command::Lists(l) => match l {
            Lists::List { limit, offset } => Some(Ok(lists::list_call(limit, offset))),
            Lists::Get { id } => Some(Ok(lists::get_call(id))),
            Lists::Create { name, list_type } => Some(Ok(lists::create_call(name@, list_type@))),
            Lists::Leads { id, limit, offset, keyword } => Some(Ok(lists::leads_call(id, limit, offset, opt_view(keyword)))),
            Lists::AddLead { id, linkedin_url } => Some(Ok(lists::add_lead_call(id, linkedin_url@))),
            Lists::RemoveLead { id, lead } => Some(Ok(lists::remove_lead_call(id, lead))),
            Lists::Companies { id, limit, offset } => Some(Ok(lists::companies_call(id, limit, offset))),
        },
        Command::Leads(l) => match l {
            Leads::Get { linkedin_url } => Some(Ok(leads::get_call(linkedin_url@))),
            Leads::Lists { linkedin_url } => Some(Ok(leads::lists_call(linkedin_url@))),
            Leads::UpdateStatus { lead, status } => Some(leads::update_status_call(lead, status@)),
        },
        Command::Senders(s) => match s {
            Senders::List { limit, offset } => Some(Ok(senders::list_call(limit, offset))),
            Senders::Get { id } => Some(Ok(senders::get_call(id))),
            Senders::Network { id, limit, offset } => Some(Ok(senders::network_call(id, limit, offset))),
        },
        Command::Conversations(c) => match c {
            Conversations::List { limit, offset, campaign_id, sender_id } => Some(
                Ok(conversations::list_call(limit, offset, campaign_id, sender_id)),
            ),
            Conversations::Send { lead, message, sender_id } => Some(
                Ok(conversations::send_call(lead, message@, sender_id)),
            ),
        },
        Command::Stats(Stats::Get { from, to, campaign_id, sender_id }) => Some(
            stats::get_call(opt_view(from), opt_view(to), campaign_id, sender_id),
        ),
        Command::Webhooks(w) => match w {
            Webhooks::List { limit, offset } => Some(Ok(webhooks::list_call(limit, offset))),
            Webhooks::Get { id } => Some(Ok(webhooks::get_call(id))),
            Webhooks::Create { name, url, event, campaign_id } => Some(
                Ok(webhooks::create_call(name@, url@, event@, campaign_id)),
            ),
            Webhooks::Update { id, name, url, event, active } => Some(
                Ok(webhooks::update_call(id, opt_view(name), opt_view(url), opt_view(event), active)),
            ),
            Webhooks::Delete { id } => Some(Ok(webhooks::delete_call(id))),
        },
        Command::Tags(Tags::Create { name, color }) => Some(Ok(tags::create_call(name@, opt_view(color)))),
        _ => None,
    }
}

/// Decides what a command asks for: the manual, a login, account management, leads to read
/// for `campaigns add-leads`, or for every other command the API call it makes.
pub fn run(command: Command) -> (r: Dispatch)
    ensures
        match command {
            Command::AgentReadme => r is AgentReadme,
            Command::Login(l) => r == Dispatch::Login(l),
            Command::Accounts(a) => r == Dispatch::Accounts(a),
            Command::Campaigns(Campaigns::AddLeads { id, file }) => r == Dispatch::AddLeads { id, file },
            _ => r matches Dispatch::Api(c) && api_call_of(command) == Some(call_result_view(c)),
        },
{
    match command {
        Command::AgentReadme => Dispatch::AgentReadme,
        Command::Login(l) => Dispatch::Login(l),
        Command::Accounts(a) => Dispatch::Accounts(a),
        Command::Auth(Auth::Check) => Dispatch::Api(Ok(auth::check())),
        Command::Campaigns(c) => match c {
            Campaigns::List { limit, offset, status } => Dispatch::Api(Ok(campaigns::list(limit, offset, status))),
            Campaigns::Get { id } => Dispatch::Api(Ok(campaigns::get(id))),
            Campaigns::Pause { id } => Dispatch::Api(Ok(campaigns::pause(id))),
            Campaigns::Resume { id } => Dispatch::Api(Ok(campaigns::resume(id))),
            Campaigns::AddLeads { id, file } => Dispatch::AddLeads { id, file },
            Campaigns::StopLead { campaign_id, lead } => Dispatch::Api(Ok(campaigns::stop_lead(campaign_id, lead))),
        },
        Command::Lists(l) => match l {
            Lists::List { limit, offset } => Dispatch::Api(Ok(lists::list(limit, offset))),
            Lists::Get { id } => Dispatch::Api(Ok(lists::get(id))),
            Lists::Create { name, list_type } => Dispatch::Api(Ok(lists::create(name, list_type))),
            Lists::Leads { id, limit, offset, keyword } => Dispatch::Api(Ok(lists::leads(id, limit, offset, keyword))),
            Lists::AddLead { id, linkedin_url } => Dispatch::Api(Ok(lists::add_lead(id, linkedin_url))),
            Lists::RemoveLead { id, lead } => Dispatch::Api(Ok(lists::remove_lead(id, lead))),
            Lists::Companies { id, limit, offset } => Dispatch::Api(Ok(lists::companies(id, limit, offset))),
        },
        Command::Leads(l) => match l {
            Leads::Get { linkedin_url } => Dispatch::Api(Ok(leads::get(linkedin_url))),
            Leads::Lists { linkedin_url } => Dispatch::Api(Ok(leads::lists(linkedin_url))),
            Leads::UpdateStatus { lead, status } => Dispatch::Api(leads::update_status(lead, status)),
        },
        Command::Senders(s) => match s {
            Senders::List { limit, offset } => Dispatch::Api(Ok(senders::list(limit, offset))),
            Senders::Get { id } => Dispatch::Api(Ok(senders::get(id))),
            Senders::Network { id, limit, offset } => Dispatch::Api(Ok(senders::network(id, limit, offset))),
        },
        Command::Conversations(c) => match c {
            Conversations::List { limit, offset, campaign_id, sender_id } => Dispatch::Api(
                Ok(conversations::list(limit, offset, campaign_id, sender_id)),
            ),
            Conversations::Send { lead, message, sender_id } => Dispatch::Api(
                Ok(conversations::send(lead, message, sender_id)),
            ),
        },
        Command::Stats(Stats::Get { from, to, campaign_id, sender_id }) => Dispatch::Api(
            stats::get(from, to, campaign_id, sender_id),
        ),
        Command::Webhooks(w) => match w {
            Webhooks::List { limit, offset } => Dispatch::Api(Ok(webhooks::list(limit, offset))),
            Webhooks::Get { id } => Dispatch::Api(Ok(webhooks::get(id))),
            Webhooks::Create { name, url, event, campaign_id } => Dispatch::Api(
                Ok(webhooks::create(name, url, event, campaign_id)),
            ),
            Webhooks::Update { id, name, url, event, active } => Dispatch::Api(
                Ok(webhooks::update(id, name, url, event, active)),
            ),
            Webhooks::Delete { id } => Dispatch::Api(Ok(webhooks::delete(id))),
        },
        Command::Tags(Tags::Create { name, color }) => Dispatch::Api(Ok(tags::create(name, color))),
    }
}


/// An API command waiting for its account to be resolved.
#[derive(Debug)]
pub enum Pending {
    /// A call, or the error the command line ended in before any request.
    Call(Result<ApiCall, Error>),
    /// `campaigns add-leads`: the campaign and the file to read the leads from, if any.
    AddLeads { id: i64, file: Option<String> },
}

/// The view of a [`Pending`].
pub enum PendingV {
    Call(Result<ApiCallV, ErrorV>),
    AddLeads { id: i64, file: Option<Seq<char>> },
}

impl View for Pending {
    type V = PendingV;

    open spec fn view(&self) -> PendingV {
        match self {
            Pending::Call(c) => PendingV::Call(call_result_view(*c)),
            Pending::AddLeads { id, file } => PendingV::AddLeads { id: *id, file: opt_view(*file) },
        }
    }
}

/// Where an API command stands while the program does the outside work it asked for.
#[derive(Debug)]
pub enum CommandState {
    /// The account is being resolved.
    Resolving { pending: Pending },
    /// The leads of `campaigns add-leads` are being read.
    ReadingLeads { api_key: String, id: i64 },
    /// The request was sent with the resolved key; its reply is awaited.
    Sending { reply: Reply },
    /// The command is over.
    Done,
}

/// The view of a [`CommandState`].
pub enum CommandStateV {
    Resolving { pending: PendingV },
    ReadingLeads { api_key: Seq<char>, id: i64 },
    Sending { reply: Reply },
    Done,
}

impl View for CommandState {
    type V = CommandStateV;

    open spec fn view(&self) -> CommandStateV {
        match self {
            CommandState::Resolving { pending } => CommandStateV::Resolving { pending: pending@ },
            CommandState::ReadingLeads { api_key, id } => CommandStateV::ReadingLeads { api_key: api_key@, id: *id },
            CommandState::Sending { reply } => CommandStateV::Sending { reply: *reply },
            CommandState::Done => CommandStateV::Done,
        }
    }
}

/// What the outside work an API command asked for came to.
pub enum CommandEvent {
    /// The account to run against, or why there is none.
    Resolved(Result<Resolved, Error>),
    /// Where the leads came from and what reading them gave.
    LeadsRead(LeadsInput),
    /// The interpreted reply of the API, or the error the request ended in.
    Replied(Result<Json, Error>),
}

/// The view of a [`CommandEvent`].
pub enum CommandEventV {
    Resolved(Result<ResolvedV, ErrorV>),
    LeadsRead(LeadsInput),
    Replied(Result<JsonV, ErrorV>),
}

impl View for CommandEvent {
    type V = CommandEventV;

    open spec fn view(&self) -> CommandEventV {
        match self {
            CommandEvent::Resolved(r) => CommandEventV::Resolved(resolved_result(*r)),
            CommandEvent::LeadsRead(input) => CommandEventV::LeadsRead(*input),
            CommandEvent::Replied(r) => CommandEventV::Replied(
                match r {
                    Ok(j) => Ok(j@),
                    Err(e) => Err(e@),
                },
            ),
        }
    }
}

/// What an API command asks the program for next.
#[derive(Debug)]
pub enum CommandAction {
    /// Resolve the account; answer with `Resolved`.
    Resolve,
    /// Read the leads from the file, or from standard input when there is none and it is not
    /// a terminal; answer with `LeadsRead`.
    ReadLeads { file: Option<String> },
    /// Send the request with this API key; answer with `Replied`.
    Send { api_key: String, request: Request },
    /// Print the command's output on standard output; the command succeeded.
    Print(Json),
    /// The command failed with this error.
    Fail(Error),
}

/// The view of a [`CommandAction`].
pub enum CommandActionV {
    Resolve,
    ReadLeads { file: Option<Seq<char>> },
    Send { api_key: Seq<char>, request: RequestV },
    Print(JsonV),
    Fail(ErrorV),
}

impl View for CommandAction {
    type V = CommandActionV;

    open spec fn view(&self) -> CommandActionV {
        match self {
            CommandAction::Resolve => CommandActionV::Resolve,
            CommandAction::ReadLeads { file } => CommandActionV::ReadLeads { file: opt_view(*file) },
            CommandAction::Send { api_key, request } => CommandActionV::Send { api_key: api_key@, request: request@ },
            CommandAction::Print(j) => CommandActionV::Print(j@),
            CommandAction::Fail(e) => CommandActionV::Fail(e@),
        }
    }
}

/// The command ends with an error, having printed nothing.
pub open spec fn command_failed(e: ErrorV) -> (CommandStateV, CommandActionV) {
    (CommandStateV::Done, CommandActionV::Fail(e))
}

/// The call is sent with the resolved key.
pub open spec fn send_call(api_key: Seq<char>, call: ApiCallV) -> (CommandStateV, CommandActionV) {
    (CommandStateV::Sending { reply: call.reply }, CommandActionV::Send { api_key, request: call.request })
}

/// How an API command begins: by resolving the account, before anything else.
pub open spec fn command_start_view(pending: PendingV) -> (CommandStateV, CommandActionV) {
    (CommandStateV::Resolving { pending }, CommandActionV::Resolve)
}

/// The event each command state waits for.
pub open spec fn command_event_fits(s: CommandStateV, e: CommandEventV) -> bool {
    match s {
        CommandStateV::Resolving { .. } => e is Resolved,
        CommandStateV::ReadingLeads { .. } => e is LeadsRead,
        CommandStateV::Sending { .. } => e is Replied,
        CommandStateV::Done => false,
    }
}

/// One step of an API command: a resolution error ends it at once; otherwise the command's
/// own error ends it, or its request goes out with the resolved key (for `add-leads`, once the
/// leads were read), and the reply, shaped by [`finish_view`], is printed.
pub open spec fn command_step_view(s: CommandStateV, e: CommandEventV) -> (CommandStateV, CommandActionV) {
    match (s, e) {
        (CommandStateV::Resolving { pending }, CommandEventV::Resolved(resolved)) => match resolved {
            Err(err) => command_failed(err),
            Ok(account) => match pending {
                PendingV::Call(Err(err)) => command_failed(err),
                PendingV::Call(Ok(call)) => send_call(account.api_key, call),
                PendingV::AddLeads { id, file } => (
                    CommandStateV::ReadingLeads { api_key: account.api_key, id },
                    CommandActionV::ReadLeads { file },
                ),
            },
        },
        (CommandStateV::ReadingLeads { api_key, id }, CommandEventV::LeadsRead(input)) => match add_leads_call(id, input) {
            Err(err) => command_failed(err),
            Ok(call) => send_call(api_key, call),
        },
        (CommandStateV::Sending { reply }, CommandEventV::Replied(answer)) => match answer {
            Err(err) => command_failed(err),
            Ok(response) => (CommandStateV::Done, CommandActionV::Print(finish_view(reply, response))),
        },
        _ => (s, CommandActionV::Resolve),
    }
}

/// Begins an API command.
pub fn command_start(pending: Pending) -> (r: (CommandState, CommandAction))
    ensures
        (r.0@, r.1@) == command_start_view(pending@),
{
    (CommandState::Resolving { pending }, CommandAction::Resolve)
}

impl CommandState {
    /// Whether this is the event the command waits for.
    pub fn expects(&self, event: &CommandEvent) -> (r: bool)
        ensures
            r == command_event_fits(self@, event@),
    {
        match self {
            CommandState::Resolving { .. } => matches!(event, CommandEvent::Resolved(_)),
            CommandState::ReadingLeads { .. } => matches!(event, CommandEvent::LeadsRead(_)),
            CommandState::Sending { .. } => matches!(event, CommandEvent::Replied(_)),
            CommandState::Done => false,
        }
    }
}

fn send_step(api_key: String, call: ApiCall) -> (r: (CommandState, CommandAction))
    ensures
        (r.0@, r.1@) == send_call(api_key@, call@),
{
    let ApiCall { request, reply } = call;
    (CommandState::Sending { reply }, CommandAction::Send { api_key, request })
}

/// Takes one step of an API command (see [`command_step_view`]).
pub fn command_step(state: CommandState, event: CommandEvent) -> (r: (CommandState, CommandAction))
    requires
        command_event_fits(state@, event@),
    ensures
        (r.0@, r.1@) == command_step_view(state@, event@),
{
    match (state, event) {
        (CommandState::Resolving { pending }, CommandEvent::Resolved(resolved)) => match resolved {
            Err(err) => (CommandState::Done, CommandAction::Fail(err)),
            Ok(account) => match pending {
                Pending::Call(Err(err)) => (CommandState::Done, CommandAction::Fail(err)),
                Pending::Call(Ok(call)) => send_step(account.api_key, call),
                Pending::AddLeads { id, file } => (
                    CommandState::ReadingLeads { api_key: account.api_key, id },
                    CommandAction::ReadLeads { file },
                ),
            },
        },
        (CommandState::ReadingLeads { api_key, id }, CommandEvent::LeadsRead(input)) => match add_leads(id, input) {
            Err(err) => (CommandState::Done, CommandAction::Fail(err)),
            Ok(call) => send_step(api_key, call),
        },
        (CommandState::Sending { reply }, CommandEvent::Replied(answer)) => match answer {
            Err(err) => (CommandState::Done, CommandAction::Fail(err)),
            Ok(response) => (CommandState::Done, CommandAction::Print(finish(reply, response))),
        },
        (s, _) => (s, CommandAction::Resolve),
    }
}

/// When the account cannot be resolved, an API command ends with that very error: no request
/// is sent and nothing is printed, whatever the command line asked for.
pub proof fn resolution_error_ends_command(pending: PendingV, e: ErrorV)
    ensures
        command_step_view(CommandStateV::Resolving { pending }, CommandEventV::Resolved(Err(e))) == command_failed(e),
{
}

/// A request goes out only with the key of a resolved account, and output is printed only
/// from the API's reply.
pub proof fn requests_only_after_resolution(s: CommandStateV, e: CommandEventV)
    requires
        command_event_fits(s, e),
    ensures
        command_step_view(s, e).1 matches CommandActionV::Send { api_key, .. } ==> (s is Resolving && (
        e matches CommandEventV::Resolved(Ok(a)) && a.api_key == api_key)) || (s matches CommandStateV::ReadingLeads {
            api_key: k,
            ..
        } && k == api_key),
        command_step_view(s, e).1 is Print ==> (s is Sending && e matches CommandEventV::Replied(Ok(_))),
{
}


/// How a reply becomes output: as it came for most commands; for `auth check` the fixed
/// `{"valid": true, "message": "API key is valid"}`; for `webhooks delete` an empty object is
/// confirmed as `{"status": "ok", "id": <id>}` and any other reply is kept.
pub proof fn reply_shaping(id: i64, response: JsonV)
    ensures
        finish_view(Reply::Raw, response) == response,
        finish_view(Reply::KeyValid, response) == JsonV::Object(
            seq![("valid"@, JsonV::Bool(true)), ("message"@, JsonV::Str("API key is valid"@))],
        ),
        finish_view(Reply::WebhookDeleted(id), response) == (if response == JsonV::Object(
            Seq::<(Seq<char>, JsonV)>::empty(),
        ) {
            JsonV::Object(seq![("status"@, JsonV::Str("ok"@)), ("id"@, JsonV::Number(int_text(id as int)))])
        } else {
            response
        }),
{
    if let JsonV::Object(fs) = response {
        if fs.len() == 0 {
            assert(fs =~= Seq::<(Seq<char>, JsonV)>::empty());
        }
    }
}

} // verus!
