//! `conversations`: list conversations and send messages.

use vstd::prelude::*;
use crate::client::{Request, RequestV, Method, post_req};
use crate::json::{Json, JsonV, fields_view, push_field, obj, num};
use crate::text::int_text;
use super::{ApiCall, ApiCallV, Reply, raw, new_fields};

verus! {

/// Members `base` followed by `key: id` when the id is given.
pub open spec fn with_opt_id(base: Seq<(Seq<char>, JsonV)>, key: Seq<char>, id: Option<i64>) -> Seq<(Seq<char>, JsonV)> {
    match id {
        Some(i) => base.push((key, num(i as int))),
        None => base,
    }
}

pub open spec fn list_call(limit: u32, offset: u32, campaign_id: Option<i64>, sender_id: Option<i64>) -> ApiCallV {
    let base = seq![("offset"@, num(offset as int)), ("limit"@, num(limit as int))];
    raw(post_req(
        "conversation/GetConversationsV2"@,
        obj(with_opt_id(with_opt_id(base, "campaignId"@, campaign_id), "senderId"@, sender_id)),
    ))
}

pub open spec fn send_call(lead_id: i64, message: Seq<char>, sender_id: Option<i64>) -> ApiCallV {
    let base = seq![("leadId"@, num(lead_id as int)), ("message"@, JsonV::Str(message))];
    raw(post_req("conversation/SendMessage"@, obj(with_opt_id(base, "senderId"@, sender_id))))
}

/// Appends `key: id` when the id is given.
pub fn push_opt_id(fields: &mut Vec<(String, Json)>, key: &str, id: Option<i64>)
    ensures
        fields_view(final(fields)@) == with_opt_id(fields_view(old(fields)@), key@, id),
{
    match id {
        Some(i) => push_field(fields, key, Json::from_i64(i)),
        None => {},
    }
}

/// Lists conversations, optionally of one campaign and one sender.
pub fn list(limit: u32, offset: u32, campaign_id: Option<i64>, sender_id: Option<i64>) -> (r: ApiCall)
    ensures
        r@ == list_call(limit, offset, campaign_id, sender_id),
{
    let mut f = new_fields();
    push_field(&mut f, "offset", Json::from_u64(offset as u64));
    push_field(&mut f, "limit", Json::from_u64(limit as u64));
    assert(fields_view(f@) =~= seq![("offset"@, num(offset as int)), ("limit"@, num(limit as int))]);
    push_opt_id(&mut f, "campaignId", campaign_id);
    push_opt_id(&mut f, "senderId", sender_id);
    ApiCall {
        request: Request::post("conversation/GetConversationsV2".to_owned(), Json::Object(f)),
        reply: Reply::Raw,
    }
}

/// Sends a message to a lead, optionally from a given sender account.
pub fn send(lead_id: i64, message: String, sender_id: Option<i64>) -> (r: ApiCall)
    ensures
        r@ == send_call(lead_id, message@, sender_id),
{
    let ghost m = message@;
    let mut f = new_fields();
    push_field(&mut f, "leadId", Json::from_i64(lead_id));
    push_field(&mut f, "message", Json::Str(message));
    assert(fields_view(f@) =~= seq![("leadId"@, num(lead_id as int)), ("message"@, JsonV::Str(m))]);
    push_opt_id(&mut f, "senderId", sender_id);
    ApiCall { request: Request::post("conversation/SendMessage".to_owned(), Json::Object(f)), reply: Reply::Raw }
}


/// What each conversation command sends: the page, then the campaign and the sender filters
/// when given, to `conversation/GetConversationsV2`; the lead, the message and the sender when
/// given to `conversation/SendMessage`.
pub proof fn conversation_requests(
    limit: u32,
    offset: u32,
    campaign_id: Option<i64>,
    sender_id: Option<i64>,
    lead_id: i64,
    message: Seq<char>,
)
    ensures
        list_call(limit, offset, campaign_id, sender_id) == (ApiCallV { request: RequestV { method: Method::Post, path: "conversation/GetConversationsV2"@, body: Some(JsonV::Object(seq![("offset"@, JsonV::Number(int_text(offset as int))), ("limit"@, JsonV::Number(int_text(limit as int)))] + match campaign_id { Some(i) => seq![("campaignId"@, JsonV::Number(int_text(i as int)))], None => Seq::empty() } + match sender_id { Some(i) => seq![("senderId"@, JsonV::Number(int_text(i as int)))], None => Seq::empty() })) }, reply: Reply::Raw }),
        send_call(lead_id, message, sender_id) == (ApiCallV { request: RequestV { method: Method::Post, path: "conversation/SendMessage"@, body: Some(JsonV::Object(seq![("leadId"@, JsonV::Number(int_text(lead_id as int))), ("message"@, JsonV::Str(message))] + match sender_id { Some(i) => seq![("senderId"@, JsonV::Number(int_text(i as int)))], None => Seq::empty() })) }, reply: Reply::Raw }),
{
    let base = seq![("offset"@, num(offset as int)), ("limit"@, num(limit as int))];
    let c = match campaign_id { Some(i) => seq![("campaignId"@, JsonV::Number(int_text(i as int)))], None => Seq::empty() };
    let s = match sender_id { Some(i) => seq![("senderId"@, JsonV::Number(int_text(i as int)))], None => Seq::empty() };
    assert(with_opt_id(base, "campaignId"@, campaign_id) =~= base + c);
    assert(with_opt_id(base + c, "senderId"@, sender_id) =~= base + c + s);
    let b2 = seq![("leadId"@, num(lead_id as int)), ("message"@, JsonV::Str(message))];
    assert(with_opt_id(b2, "senderId"@, sender_id) =~= b2 + s);
}

} // verus!
