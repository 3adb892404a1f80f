//! `leads`: look up leads by profile URL and update their status.

use vstd::prelude::*;
use vstd::string::StringExecFns;
use crate::client::{Request, RequestV, Method, post_req};
use crate::error::{Error, ErrorV, ErrorCode, err};
use crate::json::{Json, JsonV, fields_view, push_field, obj, num};
use crate::text::{eq_ignore_ascii_case, eq_ascii_nocase, chars_of, int_text};
use super::{ApiCall, ApiCallV, Reply, raw, new_fields};
use super::campaigns::call_result_view;

verus! {

pub open spec fn get_call(linkedin_url: Seq<char>) -> ApiCallV {
    raw(post_req("lead/GetLead"@, obj(seq![("profileUrl"@, JsonV::Str(linkedin_url))])))
}

pub open spec fn lists_call(linkedin_url: Seq<char>) -> ApiCallV {
    raw(post_req("list/GetListsForLead"@, obj(seq![("profileUrl"@, JsonV::Str(linkedin_url))])))
}

/// A status the API accepts, in any letter case. (`str::to_lowercase` folds no character
/// outside ASCII onto a letter of these words, so ASCII folding decides it.)
pub open spec fn valid_status(s: Seq<char>) -> bool {
    ||| eq_ignore_ascii_case(s, "pending"@)
    ||| eq_ignore_ascii_case(s, "contacted"@)
    ||| eq_ignore_ascii_case(s, "replied"@)
    ||| eq_ignore_ascii_case(s, "connected"@)
    ||| eq_ignore_ascii_case(s, "not_interested"@)
    ||| eq_ignore_ascii_case(s, "bounced"@)
}

/// `update-status`: an unknown status is refused before any request; a known one is sent as
/// it was given.
pub open spec fn update_status_call(lead_id: i64, status: Seq<char>) -> Result<ApiCallV, ErrorV> {
    if valid_status(status) {
        Ok(raw(post_req(
            "lead/UpdateStatus"@,
            obj(seq![("leadId"@, num(lead_id as int)), ("status"@, JsonV::Str(status))]),
        )))
    } else {
        Err(err(
            ErrorCode::InvalidInput,
            "Invalid status '"@ + status
                + "'. Must be one of: pending, contacted, replied, connected, not_interested, bounced"@,
        ))
    }
}

fn profile_body(url: String) -> (r: Json)
    ensures
        r@ == obj(seq![("profileUrl"@, JsonV::Str(url@))]),
{
    let ghost u = url@;
    let mut f = new_fields();
    push_field(&mut f, "profileUrl", Json::Str(url));
    assert(fields_view(f@) =~= seq![("profileUrl"@, JsonV::Str(u))]);
    Json::Object(f)
}

/// Fetches a lead by its LinkedIn profile URL.
pub fn get(linkedin_url: String) -> (r: ApiCall)
    ensures
        r@ == get_call(linkedin_url@),
{
    ApiCall { request: Request::post("lead/GetLead".to_owned(), profile_body(linkedin_url)), reply: Reply::Raw }
}

/// Fetches the lists that hold a lead.
pub fn lists(linkedin_url: String) -> (r: ApiCall)
    ensures
        r@ == lists_call(linkedin_url@),
{
    ApiCall {
        request: Request::post("list/GetListsForLead".to_owned(), profile_body(linkedin_url)),
        reply: Reply::Raw,
    }
}

/// Sets the status of a lead.
pub fn update_status(lead_id: i64, status: String) -> (r: Result<ApiCall, Error>)
    ensures
        call_result_view(r) == update_status_call(lead_id, status@),
{
    let cs = chars_of(status.as_str());
    let ok = eq_ascii_nocase(cs.as_slice(), "pending") || eq_ascii_nocase(cs.as_slice(), "contacted")
        || eq_ascii_nocase(cs.as_slice(), "replied") || eq_ascii_nocase(cs.as_slice(), "connected")
        || eq_ascii_nocase(cs.as_slice(), "not_interested") || eq_ascii_nocase(cs.as_slice(), "bounced");
    if !ok {
        let mut m = String::from_str("Invalid status '");
        m.append(status.as_str());
        m.append("'. Must be one of: pending, contacted, replied, connected, not_interested, bounced");
        return Err(Error::invalid(m));
    }
    let ghost sv = status@;
    let mut f = new_fields();
    push_field(&mut f, "leadId", Json::from_i64(lead_id));
    push_field(&mut f, "status", Json::Str(status));
    assert(fields_view(f@) =~= seq![("leadId"@, num(lead_id as int)), ("status"@, JsonV::Str(sv))]);
    Ok(ApiCall { request: Request::post("lead/UpdateStatus".to_owned(), Json::Object(f)), reply: Reply::Raw })
}


/// `update-status` accepts exactly the six documented statuses, in any ASCII letter case, and
/// sends an accepted one to `lead/UpdateStatus` as it was given, with the lead's id; any other
/// status is refused with `invalid_input` before any request.
pub proof fn documented_statuses_are_sent(lead_id: i64, status: Seq<char>)
    ensures
        update_status_call(lead_id, status) is Ok <==> ({
            ||| eq_ignore_ascii_case(status, "pending"@)
            ||| eq_ignore_ascii_case(status, "contacted"@)
            ||| eq_ignore_ascii_case(status, "replied"@)
            ||| eq_ignore_ascii_case(status, "connected"@)
            ||| eq_ignore_ascii_case(status, "not_interested"@)
            ||| eq_ignore_ascii_case(status, "bounced"@)
        }),
        update_status_call(lead_id, status) matches Ok(call) ==> call == (ApiCallV {
            request: RequestV {
                method: Method::Post,
                path: "lead/UpdateStatus"@,
                body: Some(JsonV::Object(seq![
                    ("leadId"@, JsonV::Number(int_text(lead_id as int))),
                    ("status"@, JsonV::Str(status)),
                ])),
            },
            reply: Reply::Raw,
        }),
        update_status_call(lead_id, status) matches Err(e) ==> e.code == ErrorCode::InvalidInput,
{
}


/// `leads get` and `leads lists` post the profile URL to `lead/GetLead` and
/// `list/GetListsForLead`.
pub proof fn lead_lookup_requests(linkedin_url: Seq<char>)
    ensures
        get_call(linkedin_url) == (ApiCallV { request: RequestV { method: Method::Post, path: "lead/GetLead"@, body: Some(JsonV::Object(seq![("profileUrl"@, JsonV::Str(linkedin_url))])) }, reply: Reply::Raw }),
        lists_call(linkedin_url) == (ApiCallV { request: RequestV { method: Method::Post, path: "list/GetListsForLead"@, body: Some(JsonV::Object(seq![("profileUrl"@, JsonV::Str(linkedin_url))])) }, reply: Reply::Raw }),
{
}

} // verus!
