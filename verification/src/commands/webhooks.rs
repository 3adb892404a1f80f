//! `webhooks`: list, inspect, create, update and delete webhooks.

use vstd::prelude::*;
use crate::client::{Request, RequestV, Method, get_req, post_req, put_req, delete_req};
use crate::json::{Json, JsonV, fields_view, push_field, obj, num};
use crate::text::int_text;
use crate::error::opt_view;
use super::{ApiCall, ApiCallV, Reply, raw, new_fields, path_with_id};
use super::conversations::{with_opt_id, push_opt_id};

verus! {

pub open spec fn list_call(limit: u32, offset: u32) -> ApiCallV {
    raw(post_req("webhook/GetAll"@, obj(seq![("offset"@, num(offset as int)), ("limit"@, num(limit as int))])))
}

pub open spec fn get_call(id: i64) -> ApiCallV {
    raw(get_req("webhook/GetById?webhookId="@ + int_text(id as int)))
}

pub open spec fn create_call(name: Seq<char>, url: Seq<char>, event: Seq<char>, campaign_id: Option<i64>) -> ApiCallV {
    let base = seq![("name"@, JsonV::Str(name)), ("url"@, JsonV::Str(url)), ("eventType"@, JsonV::Str(event))];
    raw(post_req("webhook/Create"@, obj(with_opt_id(base, "campaignId"@, campaign_id))))
}

/// Members `base` followed by `key: text` when the text is given.
pub open spec fn with_opt_str(base: Seq<(Seq<char>, JsonV)>, key: Seq<char>, v: Option<Seq<char>>) -> Seq<(Seq<char>, JsonV)> {
    match v {
        Some(s) => base.push((key, JsonV::Str(s))),
        None => base,
    }
}

/// `webhooks update`: the id, then each change that was asked for.
pub open spec fn update_call(
    id: i64,
    name: Option<Seq<char>>,
    url: Option<Seq<char>>,
    event: Option<Seq<char>>,
    active: Option<bool>,
) -> ApiCallV {
    let fs = with_opt_str(
        with_opt_str(with_opt_str(seq![("webhookId"@, num(id as int))], "name"@, name), "url"@, url),
        "eventType"@,
        event,
    );
    let fs2 = match active {
        Some(a) => fs.push(("isActive"@, JsonV::Bool(a))),
        None => fs,
    };
    raw(put_req("webhook/Update"@, obj(fs2)))
}

/// `webhooks delete`: an empty reply is confirmed with the id.
pub open spec fn delete_call(id: i64) -> ApiCallV {
    ApiCallV { request: delete_req("webhook/Delete?webhookId="@ + int_text(id as int)), reply: Reply::WebhookDeleted(id) }
}

fn push_opt_str(fields: &mut Vec<(String, Json)>, key: &str, v: Option<String>)
    ensures
        fields_view(final(fields)@) == with_opt_str(fields_view(old(fields)@), key@, opt_view(v)),
{
    match v {
        Some(s) => push_field(fields, key, Json::Str(s)),
        None => {},
    }
}

/// Lists the webhooks.
pub fn list(limit: u32, offset: u32) -> (r: ApiCall)
    ensures
        r@ == list_call(limit, offset),
{
    let mut f = new_fields();
    push_field(&mut f, "offset", Json::from_u64(offset as u64));
    push_field(&mut f, "limit", Json::from_u64(limit as u64));
    assert(fields_view(f@) =~= seq![("offset"@, num(offset as int)), ("limit"@, num(limit as int))]);
    ApiCall { request: Request::post("webhook/GetAll".to_owned(), Json::Object(f)), reply: Reply::Raw }
}

/// Fetches one webhook.
pub fn get(id: i64) -> (r: ApiCall)
    ensures
        r@ == get_call(id),
{
    ApiCall { request: Request::get(path_with_id("webhook/GetById?webhookId=", id)), reply: Reply::Raw }
}

/// Creates a webhook, optionally scoped to one campaign.
pub fn create(name: String, url: String, event: String, campaign_id: Option<i64>) -> (r: ApiCall)
    ensures
        r@ == create_call(name@, url@, event@, campaign_id),
{
    let ghost (n, u, e) = (name@, url@, event@);
    let mut f = new_fields();
    push_field(&mut f, "name", Json::Str(name));
    push_field(&mut f, "url", Json::Str(url));
    push_field(&mut f, "eventType", Json::Str(event));
    assert(fields_view(f@) =~= seq![("name"@, JsonV::Str(n)), ("url"@, JsonV::Str(u)), ("eventType"@, JsonV::Str(e))]);
    push_opt_id(&mut f, "campaignId", campaign_id);
    ApiCall { request: Request::post("webhook/Create".to_owned(), Json::Object(f)), reply: Reply::Raw }
}

/// Changes a webhook's name, URL, event or activation.
pub fn update(
    id: i64,
    name: Option<String>,
    url: Option<String>,
    event: Option<String>,
    active: Option<bool>,
) -> (r: ApiCall)
    ensures
        r@ == update_call(id, opt_view(name), opt_view(url), opt_view(event), active),
{
    let mut f = new_fields();
    push_field(&mut f, "webhookId", Json::from_i64(id));
    assert(fields_view(f@) =~= seq![("webhookId"@, num(id as int))]);
    push_opt_str(&mut f, "name", name);
    push_opt_str(&mut f, "url", url);
    push_opt_str(&mut f, "eventType", event);
    match active {
        Some(a) => push_field(&mut f, "isActive", Json::Bool(a)),
        None => {},
    }
    ApiCall { request: Request::put("webhook/Update".to_owned(), Json::Object(f)), reply: Reply::Raw }
}

/// Deletes a webhook.
pub fn delete(id: i64) -> (r: ApiCall)
    ensures
        r@ == delete_call(id),
{
    ApiCall {
        request: Request::delete(path_with_id("webhook/Delete?webhookId=", id)),
        reply: Reply::WebhookDeleted(id),
    }
}


/// `webhooks update` puts to `webhook/Update` a body that starts with the webhook's id,
/// holds each requested change under its own name, and ends with `isActive` set to exactly
/// the requested activation when one is given; with none, the body has no `isActive`.
pub proof fn webhook_update_sends_changes(
    id: i64,
    name: Option<Seq<char>>,
    url: Option<Seq<char>>,
    event: Option<Seq<char>>,
    active: Option<bool>,
)
    ensures
        ({
            let c = update_call(id, name, url, event, active);
            &&& c.request.method == Method::Put
            &&& c.request.path == "webhook/Update"@
            &&& c.reply == Reply::Raw
            &&& c.request.body matches Some(JsonV::Object(fs))
            &&& fs.len() >= 1
            &&& fs[0] == ("webhookId"@, JsonV::Number(int_text(id as int)))
            &&& (active matches Some(a) ==> fs.last() == ("isActive"@, JsonV::Bool(a)))
            &&& (active is None ==> forall|i: int| 0 <= i < fs.len() ==> (#[trigger] fs[i]).0 != "isActive"@)
            &&& (name matches Some(n) ==> fs.contains(("name"@, JsonV::Str(n))))
            &&& (url matches Some(u) ==> fs.contains(("url"@, JsonV::Str(u))))
            &&& (event matches Some(v) ==> fs.contains(("eventType"@, JsonV::Str(v))))
        }),
{
    reveal_strlit("isActive");
    reveal_strlit("webhookId");
    reveal_strlit("name");
    reveal_strlit("url");
    reveal_strlit("eventType");
    let f0 = seq![("webhookId"@, num(id as int))];
    let f1 = with_opt_str(f0, "name"@, name);
    let f2 = with_opt_str(f1, "url"@, url);
    let f3 = with_opt_str(f2, "eventType"@, event);
    let fs = update_call(id, name, url, event, active).request.body->0->Object_0;
    assert(f3[0] == f0[0]);
    assert(fs[0] == f0[0]);
    if let Some(n) = name {
        assert(f1[f1.len() - 1] == ("name"@, JsonV::Str(n)));
        assert(f3[f1.len() - 1] == ("name"@, JsonV::Str(n)));
        assert(fs[f1.len() - 1] == ("name"@, JsonV::Str(n)));
    }
    if let Some(u) = url {
        assert(f3[f2.len() - 1] == ("url"@, JsonV::Str(u)));
        assert(fs[f2.len() - 1] == ("url"@, JsonV::Str(u)));
    }
    if let Some(v) = event {
        assert(fs[f3.len() - 1] == ("eventType"@, JsonV::Str(v)));
    }
    if active is None {
        assert forall|i: int| 0 <= i < fs.len() implies (#[trigger] fs[i]).0 != "isActive"@ by {
            let k = fs[i].0;
            assert(k == "webhookId"@ || k == "name"@ || k == "url"@ || k == "eventType"@);
            assert(k.len() != "isActive"@.len());
        }
    }
}


/// What the other webhook commands send: the page to `webhook/GetAll`; a read of
/// `webhook/GetById` for the id; the name, URL, event type and, when given, the campaign to
/// `webhook/Create`; a `DELETE` of `webhook/Delete` for the id, whose empty reply is confirmed
/// with that id.
pub proof fn webhook_requests(
    limit: u32,
    offset: u32,
    id: i64,
    name: Seq<char>,
    url: Seq<char>,
    event: Seq<char>,
    campaign_id: Option<i64>,
)
    ensures
        list_call(limit, offset) == (ApiCallV { request: RequestV { method: Method::Post, path: "webhook/GetAll"@, body: Some(JsonV::Object(seq![("offset"@, JsonV::Number(int_text(offset as int))), ("limit"@, JsonV::Number(int_text(limit as int)))])) }, reply: Reply::Raw }),
        get_call(id) == (ApiCallV { request: RequestV { method: Method::Get, path: "webhook/GetById?webhookId="@ + int_text(id as int), body: None }, reply: Reply::Raw }),
        create_call(name, url, event, campaign_id) == (ApiCallV { request: RequestV { method: Method::Post, path: "webhook/Create"@, body: Some(JsonV::Object(seq![("name"@, JsonV::Str(name)), ("url"@, JsonV::Str(url)), ("eventType"@, JsonV::Str(event))] + match campaign_id { Some(i) => seq![("campaignId"@, JsonV::Number(int_text(i as int)))], None => Seq::empty() })) }, reply: Reply::Raw }),
        delete_call(id) == (ApiCallV {
            request: RequestV { method: Method::Delete, path: "webhook/Delete?webhookId="@ + int_text(id as int), body: None },
            reply: Reply::WebhookDeleted(id),
        }),
{
    let base = seq![("name"@, JsonV::Str(name)), ("url"@, JsonV::Str(url)), ("eventType"@, JsonV::Str(event))];
    match campaign_id {
        Some(i) => {
            assert(with_opt_id(base, "campaignId"@, campaign_id) =~= base + seq![("campaignId"@, num(i as int))]);
        },
        None => {
            assert(with_opt_id(base, "campaignId"@, campaign_id) =~= base + Seq::<(Seq<char>, JsonV)>::empty());
        },
    }
}

} // verus!
