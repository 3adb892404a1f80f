//! `senders`: the LinkedIn sender accounts.

use vstd::prelude::*;
use crate::client::{Request, RequestV, Method, get_req, post_req};
use crate::json::{Json, JsonV, fields_view, push_field, obj, num};
use crate::text::int_text;
use super::{ApiCall, ApiCallV, Reply, raw, new_fields, path_with_id};

verus! {

pub open spec fn list_call(limit: u32, offset: u32) -> ApiCallV {
    raw(post_req(
        "linkedInAccount/GetAll"@,
        obj(seq![("offset"@, num(offset as int)), ("limit"@, num(limit as int))]),
    ))
}

pub open spec fn get_call(id: i64) -> ApiCallV {
    raw(get_req("linkedInAccount/GetById?senderId="@ + int_text(id as int)))
}

pub open spec fn network_call(id: i64, limit: u32, offset: u32) -> ApiCallV {
    raw(post_req(
        "myNetwork/GetMyNetworkForSender"@,
        obj(seq![("senderId"@, num(id as int)), ("offset"@, num(offset as int)), ("limit"@, num(limit as int))]),
    ))
}

/// Lists the connected LinkedIn sender accounts.
pub fn list(limit: u32, offset: u32) -> (r: ApiCall)
    ensures
        r@ == list_call(limit, offset),
{
    let mut f = new_fields();
    push_field(&mut f, "offset", Json::from_u64(offset as u64));
    push_field(&mut f, "limit", Json::from_u64(limit as u64));
    assert(fields_view(f@) =~= seq![("offset"@, num(offset as int)), ("limit"@, num(limit as int))]);
    ApiCall { request: Request::post("linkedInAccount/GetAll".to_owned(), Json::Object(f)), reply: Reply::Raw }
}

/// Fetches one sender account.
pub fn get(id: i64) -> (r: ApiCall)
    ensures
        r@ == get_call(id),
{
    ApiCall { request: Request::get(path_with_id("linkedInAccount/GetById?senderId=", id)), reply: Reply::Raw }
}

/// Fetches the network connections of a sender account.
pub fn network(id: i64, limit: u32, offset: u32) -> (r: ApiCall)
    ensures
        r@ == network_call(id, limit, offset),
{
    let mut f = new_fields();
    push_field(&mut f, "senderId", Json::from_i64(id));
    push_field(&mut f, "offset", Json::from_u64(offset as u64));
    push_field(&mut f, "limit", Json::from_u64(limit as u64));
    assert(fields_view(f@) =~= seq![("senderId"@, num(id as int)), ("offset"@, num(offset as int)), ("limit"@, num(limit as int))]);
    ApiCall {
        request: Request::post("myNetwork/GetMyNetworkForSender".to_owned(), Json::Object(f)),
        reply: Reply::Raw,
    }
}


/// What each sender command sends: the page to `linkedInAccount/GetAll`, a read of
/// `linkedInAccount/GetById` for the id, and the sender with the page to
/// `myNetwork/GetMyNetworkForSender`.
pub proof fn sender_requests(limit: u32, offset: u32, id: i64)
    ensures
        list_call(limit, offset) == (ApiCallV { request: RequestV { method: Method::Post, path: "linkedInAccount/GetAll"@, body: Some(JsonV::Object(seq![("offset"@, JsonV::Number(int_text(offset as int))), ("limit"@, JsonV::Number(int_text(limit as int)))])) }, reply: Reply::Raw }),
        get_call(id) == (ApiCallV { request: RequestV { method: Method::Get, path: "linkedInAccount/GetById?senderId="@ + int_text(id as int), body: None }, reply: Reply::Raw }),
        network_call(id, limit, offset) == (ApiCallV { request: RequestV { method: Method::Post, path: "myNetwork/GetMyNetworkForSender"@, body: Some(JsonV::Object(seq![("senderId"@, JsonV::Number(int_text(id as int))), ("offset"@, JsonV::Number(int_text(offset as int))), ("limit"@, JsonV::Number(int_text(limit as int)))])) }, reply: Reply::Raw }),
{
}

} // verus!
