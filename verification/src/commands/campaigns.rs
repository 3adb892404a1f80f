//! `campaigns`: list, inspect, pause and resume campaigns, and feed them leads.

use vstd::prelude::*;
use vstd::string::StringExecFns;
use crate::client::{Request, RequestV, Method, get_req, post_req};
use crate::error::{Error, ErrorV, err, with_fix, ErrorCode};
use crate::json::{Json, JsonV, fields_view, push_field, obj, num, parse_json_text, json_from_str};
use crate::text::{int_text, is_blank, blank, i64_text, string_from_chars};
use super::{ApiCall, ApiCallV, Reply, raw, new_fields, path_with_id};

verus! {

pub open spec fn list_call(limit: u32, offset: u32, status: Option<Seq<char>>) -> ApiCallV {
    let base = seq![("offset"@, num(offset as int)), ("limit"@, num(limit as int))];
    let fs = match status {
        Some(s) => if is_blank(s) { base } else { base.push(("status"@, JsonV::Str(s))) },
        None => base,
    };
    raw(post_req("campaign/GetAll"@, obj(fs)))
}

pub open spec fn get_call(id: i64) -> ApiCallV {
    raw(get_req("campaign/GetById?campaignId="@ + int_text(id as int)))
}

pub open spec fn pause_call(id: i64) -> ApiCallV {
    raw(post_req("campaign/Pause"@, obj(seq![("campaignId"@, num(id as int))])))
}

pub open spec fn resume_call(id: i64) -> ApiCallV {
    raw(post_req("campaign/Resume"@, obj(seq![("campaignId"@, num(id as int))])))
}

pub open spec fn stop_lead_call(campaign_id: i64, lead_id: i64) -> ApiCallV {
    raw(post_req(
        "campaign/StopLeadInCampaign"@,
        obj(seq![("campaignId"@, num(campaign_id as int)), ("leadId"@, num(lead_id as int))]),
    ))
}

/// Lists campaigns, filtered by status when a non-blank status is given.
pub fn list(limit: u32, offset: u32, status: Option<String>) -> (r: ApiCall)
    ensures
        r@ == list_call(limit, offset, crate::error::opt_view(status)),
{
    let mut f = new_fields();
    push_field(&mut f, "offset", Json::from_u64(offset as u64));
    push_field(&mut f, "limit", Json::from_u64(limit as u64));
    let ghost base = seq![("offset"@, num(offset as int)), ("limit"@, num(limit as int))];
    assert(fields_view(f@) =~= base);
    match status {
        Some(s) => {
            if !blank(s.as_str()) {
                push_field(&mut f, "status", Json::Str(s));
            }
        },
        None => {},
    }
    ApiCall { request: Request::post("campaign/GetAll".to_owned(), Json::Object(f)), reply: Reply::Raw }
}

/// Fetches one campaign.
pub fn get(id: i64) -> (r: ApiCall)
    ensures
        r@ == get_call(id),
{
    ApiCall { request: Request::get(path_with_id("campaign/GetById?campaignId=", id)), reply: Reply::Raw }
}

fn campaign_body(id: i64) -> (r: Json)
    ensures
        r@ == obj(seq![("campaignId"@, num(id as int))]),
{
    let mut f = new_fields();
    push_field(&mut f, "campaignId", Json::from_i64(id));
    assert(fields_view(f@) =~= seq![("campaignId"@, num(id as int))]);
    Json::Object(f)
}

/// Pauses a running campaign.
pub fn pause(id: i64) -> (r: ApiCall)
    ensures
        r@ == pause_call(id),
{
    ApiCall { request: Request::post("campaign/Pause".to_owned(), campaign_body(id)), reply: Reply::Raw }
}

/// Resumes a paused campaign.
pub fn resume(id: i64) -> (r: ApiCall)
    ensures
        r@ == resume_call(id),
{
    ApiCall { request: Request::post("campaign/Resume".to_owned(), campaign_body(id)), reply: Reply::Raw }
}

/// Stops one lead in a campaign.
pub fn stop_lead(campaign_id: i64, lead_id: i64) -> (r: ApiCall)
    ensures
        r@ == stop_lead_call(campaign_id, lead_id),
{
    let mut f = new_fields();
    push_field(&mut f, "campaignId", Json::from_i64(campaign_id));
    push_field(&mut f, "leadId", Json::from_i64(lead_id));
    assert(fields_view(f@) =~= seq![("campaignId"@, num(campaign_id as int)), ("leadId"@, num(lead_id as int))]);
    ApiCall {
        request: Request::post("campaign/StopLeadInCampaign".to_owned(), Json::Object(f)),
        reply: Reply::Raw,
    }
}

/// Where the leads for `add-leads` came from, and what reading them gave.
pub enum LeadsInput {
    /// `--file` was given: its path, and its text or the description of the read failure.
    File { path: String, content: Result<String, String> },
    /// Standard input is not a terminal: its text or the description of the read failure.
    Stdin(Result<String, String>),
    /// Neither a file nor piped input.
    Terminal,
}

/// The text of the leads, or the error that reading them ended in.
pub open spec fn leads_text(id: i64, input: LeadsInput) -> Result<Seq<char>, ErrorV> {
    match input {
        LeadsInput::File { path, content } => match content {
            Ok(t) => Ok(t@),
            Err(e) => Err(err(ErrorCode::InvalidInput, "Failed to read file '"@ + path@ + "': "@ + e@)),
        },
        LeadsInput::Stdin(content) => match content {
            Ok(t) => Ok(t@),
            Err(e) => Err(err(ErrorCode::InvalidInput, "Failed to read stdin: "@ + e@)),
        },
        LeadsInput::Terminal => Err(with_fix(
            err(ErrorCode::InvalidInput, "Provide leads via stdin or --file"@),
            "echo '[{\"linkedinUrl\": \"...\"}]' | heyreach campaigns add-leads "@ + int_text(id as int),
        )),
    }
}

/// `add-leads`: the leads must be a JSON array, which is sent as it is.
pub open spec fn add_leads_call(id: i64, input: LeadsInput) -> Result<ApiCallV, ErrorV> {
    match leads_text(id, input) {
        Err(e) => Err(e),
        Ok(text) => parsed_leads_call(id, parse_json_text(text)),
    }
}

/// The view of a command that may fail before any request is made.
pub open spec fn call_result_view(r: Result<ApiCall, Error>) -> Result<ApiCallV, ErrorV> {
    match r {
        Ok(c) => Ok(c@),
        Err(e) => Err(e@),
    }
}

/// Adds the leads of a JSON array, read from a file or standard input, to a campaign.
pub fn add_leads(id: i64, input: LeadsInput) -> (r: Result<ApiCall, Error>)
    ensures
        call_result_view(r) == add_leads_call(id, input),
{
    let text = match input {
        LeadsInput::File { path, content } => match content {
            Ok(t) => t,
            Err(e) => {
                let mut m = String::from_str("Failed to read file '");
                m.append(path.as_str());
                m.append("': ");
                m.append(e.as_str());
                return Err(Error::invalid(m));
            },
        },
        LeadsInput::Stdin(content) => match content {
            Ok(t) => t,
            Err(e) => {
                let mut m = String::from_str("Failed to read stdin: ");
                m.append(e.as_str());
                return Err(Error::invalid(m));
            },
        },
        LeadsInput::Terminal => {
            let mut fix = String::from_str("echo '[{\"linkedinUrl\": \"...\"}]' | heyreach campaigns add-leads ");
            let digits = i64_text(id);
            fix.append(string_from_chars(digits.as_slice()).as_str());
            return Err(Error::invalid(String::from_str("Provide leads via stdin or --file")).fix(fix));
        },
    };
    add_parsed_leads(id, json_from_str(text.as_str()))
}

/// What parsing the leads text gave, as [`parse_json_text`] names it.
pub open spec fn parsed_view(parsed: Result<Json, String>) -> Result<JsonV, Seq<char>> {
    match parsed {
        Ok(j) => Ok(j@),
        Err(e) => Err(e@),
    }
}

/// `add-leads` once the leads text was parsed: a parse failure or anything but an array is
/// refused, an array is sent as it is.
pub open spec fn parsed_leads_call(id: i64, parsed: Result<JsonV, Seq<char>>) -> Result<ApiCallV, ErrorV> {
    match parsed {
        Err(e) => Err(err(ErrorCode::InvalidInput, "Failed to parse JSON leads: "@ + e)),
        Ok(leads) => match leads {
            JsonV::Array(_) => Ok(raw(post_req(
                "campaign/AddLeadsToCampaign"@,
                obj(seq![("campaignId"@, num(id as int)), ("leads"@, leads)]),
            ))),
            _ => Err(err(ErrorCode::InvalidInput, "Input must be a JSON array of lead objects"@)),
        },
    }
}

/// Builds the `add-leads` call from the parsed leads.
pub fn add_parsed_leads(id: i64, parsed: Result<Json, String>) -> (r: Result<ApiCall, Error>)
    ensures
        call_result_view(r) == parsed_leads_call(id, parsed_view(parsed)),
{
    let leads = match parsed {
        Ok(v) => v,
        Err(e) => {
            let mut m = String::from_str("Failed to parse JSON leads: ");
            m.append(e.as_str());
            return Err(Error::invalid(m));
        },
    };
    let is_array = match &leads {
        Json::Array(_) => true,
        _ => false,
    };
    if !is_array {
        return Err(Error::invalid(String::from_str("Input must be a JSON array of lead objects")));
    }
    let mut f = new_fields();
    push_field(&mut f, "campaignId", Json::from_i64(id));
    let ghost lv = leads@;
    push_field(&mut f, "leads", leads);
    assert(fields_view(f@) =~= seq![("campaignId"@, num(id as int)), ("leads"@, lv)]);
    Ok(ApiCall {
        request: Request::post("campaign/AddLeadsToCampaign".to_owned(), Json::Object(f)),
        reply: Reply::Raw,
    })
}


/// What each campaign command sends: `list` posts the page and, when it is not blank, the
/// status filter to `campaign/GetAll`; `get` reads `campaign/GetById` for the id; `pause`,
/// `resume` and `stop-lead` post the campaign's id (and the lead's) to their endpoints.
pub proof fn campaign_requests(limit: u32, offset: u32, status: Option<Seq<char>>, id: i64, lead_id: i64)
    ensures
        list_call(limit, offset, status) == (ApiCallV { request: RequestV { method: Method::Post, path: "campaign/GetAll"@, body: Some(JsonV::Object(seq![("offset"@, JsonV::Number(int_text(offset as int))), ("limit"@, JsonV::Number(int_text(limit as int)))] + match status { Some(s) => if is_blank(s) { Seq::empty() } else { seq![("status"@, JsonV::Str(s))] }, None => Seq::empty() })) }, reply: Reply::Raw }),
        get_call(id) == (ApiCallV { request: RequestV { method: Method::Get, path: "campaign/GetById?campaignId="@ + int_text(id as int), body: None }, reply: Reply::Raw }),
        pause_call(id) == (ApiCallV { request: RequestV { method: Method::Post, path: "campaign/Pause"@, body: Some(JsonV::Object(seq![("campaignId"@, JsonV::Number(int_text(id as int)))])) }, reply: Reply::Raw }),
        resume_call(id) == (ApiCallV { request: RequestV { method: Method::Post, path: "campaign/Resume"@, body: Some(JsonV::Object(seq![("campaignId"@, JsonV::Number(int_text(id as int)))])) }, reply: Reply::Raw }),
        stop_lead_call(id, lead_id) == (ApiCallV { request: RequestV { method: Method::Post, path: "campaign/StopLeadInCampaign"@, body: Some(JsonV::Object(seq![("campaignId"@, JsonV::Number(int_text(id as int))), ("leadId"@, JsonV::Number(int_text(lead_id as int)))])) }, reply: Reply::Raw }),
{
    let base = seq![("offset"@, num(offset as int)), ("limit"@, num(limit as int))];
    match status {
        Some(s) => if !is_blank(s) {
            assert(base.push(("status"@, JsonV::Str(s))) =~= base + seq![("status"@, JsonV::Str(s))]);
        } else {
            assert(base =~= base + Seq::<(Seq<char>, JsonV)>::empty());
        },
        None => {
            assert(base =~= base + Seq::<(Seq<char>, JsonV)>::empty());
        },
    }
}


/// `add-leads` sends a JSON array of leads exactly as it was given, with the campaign's id, to
/// `campaign/AddLeadsToCampaign`; text that is not JSON, or JSON that is not an array, is
/// refused with `invalid_input` before any request.
pub proof fn leads_array_is_sent_as_given(id: i64, parsed: Result<JsonV, Seq<char>>)
    ensures
        parsed_leads_call(id, parsed) is Ok <==> (parsed matches Ok(v) && v is Array),
        parsed_leads_call(id, parsed) matches Ok(call) ==> call == (ApiCallV { request: RequestV { method: Method::Post, path: "campaign/AddLeadsToCampaign"@, body: Some(JsonV::Object(seq![("campaignId"@, JsonV::Number(int_text(id as int))), ("leads"@, parsed->Ok_0)])) }, reply: Reply::Raw }),
        parsed_leads_call(id, parsed) matches Err(e) ==> e.code == ErrorCode::InvalidInput,
{
}

} // verus!
