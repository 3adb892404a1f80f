//! `lists`: lead lists and the leads and companies in them.

use vstd::prelude::*;
use crate::client::{Request, RequestV, Method, get_req, post_req};
use crate::json::{Json, JsonV, fields_view, push_field, obj, num, json_seq_view, lemma_json_seq_view_push};
use crate::text::{int_text, is_blank, blank, eq_ignore_ascii_case, eq_ascii_nocase, chars_of};
use super::{ApiCall, ApiCallV, Reply, raw, new_fields, path_with_id};

verus! {

pub open spec fn list_call(limit: u32, offset: u32) -> ApiCallV {
    raw(post_req("list/GetAll"@, obj(seq![("offset"@, num(offset as int)), ("limit"@, num(limit as int))])))
}

pub open spec fn get_call(id: i64) -> ApiCallV {
    raw(get_req("list/GetById?listId="@ + int_text(id as int)))
}

/// The API's name for a list type: `company` in any letter case makes a company list, anything
/// else a user list.
pub open spec fn list_type(t: Seq<char>) -> Seq<char> {
    if eq_ignore_ascii_case(t, "company"@) {
        "COMPANY_LIST"@
    } else {
        "USER_LIST"@
    }
}

pub open spec fn create_call(name: Seq<char>, list_type_arg: Seq<char>) -> ApiCallV {
    raw(post_req(
        "list/CreateEmptyList"@,
        obj(seq![("name"@, JsonV::Str(name)), ("type"@, JsonV::Str(list_type(list_type_arg)))]),
    ))
}

pub open spec fn leads_call(id: i64, limit: u32, offset: u32, keyword: Option<Seq<char>>) -> ApiCallV {
    let base = seq![("listId"@, num(id as int)), ("offset"@, num(offset as int)), ("limit"@, num(limit as int))];
    let fs = match keyword {
        Some(k) => if is_blank(k) { base } else { base.push(("keyword"@, JsonV::Str(k))) },
        None => base,
    };
    raw(post_req("list/GetLeadsFromList"@, obj(fs)))
}

pub open spec fn add_lead_call(id: i64, linkedin_url: Seq<char>) -> ApiCallV {
    raw(post_req(
        "list/AddLeadsToListV2"@,
        obj(seq![
            ("listId"@, num(id as int)),
            ("leads"@, JsonV::Array(seq![obj(seq![("linkedinUrl"@, JsonV::Str(linkedin_url))])])),
        ]),
    ))
}

pub open spec fn remove_lead_call(id: i64, lead_id: i64) -> ApiCallV {
    raw(post_req(
        "list/DeleteLeadFromList"@,
        obj(seq![("listId"@, num(id as int)), ("leadId"@, num(lead_id as int))]),
    ))
}

pub open spec fn companies_call(id: i64, limit: u32, offset: u32) -> ApiCallV {
    raw(post_req(
        "list/GetCompaniesFromList"@,
        obj(seq![("listId"@, num(id as int)), ("offset"@, num(offset as int)), ("limit"@, num(limit as int))]),
    ))
}

/// Lists the lead lists.
pub fn list(limit: u32, offset: u32) -> (r: ApiCall)
    ensures
        r@ == list_call(limit, offset),
{
    let mut f = new_fields();
    push_field(&mut f, "offset", Json::from_u64(offset as u64));
    push_field(&mut f, "limit", Json::from_u64(limit as u64));
    assert(fields_view(f@) =~= seq![("offset"@, num(offset as int)), ("limit"@, num(limit as int))]);
    ApiCall { request: Request::post("list/GetAll".to_owned(), Json::Object(f)), reply: Reply::Raw }
}

/// Fetches one list.
pub fn get(id: i64) -> (r: ApiCall)
    ensures
        r@ == get_call(id),
{
    ApiCall { request: Request::get(path_with_id("list/GetById?listId=", id)), reply: Reply::Raw }
}

/// Creates an empty list of users or of companies.
pub fn create(name: String, list_type_arg: String) -> (r: ApiCall)
    ensures
        r@ == create_call(name@, list_type_arg@),
{
    let cs = chars_of(list_type_arg.as_str());
    let t = if eq_ascii_nocase(cs.as_slice(), "company") {
        "COMPANY_LIST"
    } else {
        "USER_LIST"
    };
    let ghost n = name@;
    let mut f = new_fields();
    push_field(&mut f, "name", Json::Str(name));
    push_field(&mut f, "type", Json::string(t));
    assert(fields_view(f@) =~= seq![("name"@, JsonV::Str(n)), ("type"@, JsonV::Str(list_type(list_type_arg@)))]);
    ApiCall { request: Request::post("list/CreateEmptyList".to_owned(), Json::Object(f)), reply: Reply::Raw }
}

/// Fetches the leads of a list, filtered by a keyword when a non-blank one is given.
pub fn leads(id: i64, limit: u32, offset: u32, keyword: Option<String>) -> (r: ApiCall)
    ensures
        r@ == leads_call(id, limit, offset, crate::error::opt_view(keyword)),
{
    let mut f = new_fields();
    push_field(&mut f, "listId", Json::from_i64(id));
    push_field(&mut f, "offset", Json::from_u64(offset as u64));
    push_field(&mut f, "limit", Json::from_u64(limit as u64));
    assert(fields_view(f@) =~= seq![("listId"@, num(id as int)), ("offset"@, num(offset as int)), ("limit"@, num(limit as int))]);
    match keyword {
        Some(k) => {
            if !blank(k.as_str()) {
                push_field(&mut f, "keyword", Json::Str(k));
            }
        },
        None => {},
    }
    ApiCall { request: Request::post("list/GetLeadsFromList".to_owned(), Json::Object(f)), reply: Reply::Raw }
}

/// Adds one lead, by its LinkedIn profile URL, to a list.
pub fn add_lead(id: i64, linkedin_url: String) -> (r: ApiCall)
    ensures
        r@ == add_lead_call(id, linkedin_url@),
{
    let ghost u = linkedin_url@;
    let mut lead = new_fields();
    push_field(&mut lead, "linkedinUrl", Json::Str(linkedin_url));
    assert(fields_view(lead@) =~= seq![("linkedinUrl"@, JsonV::Str(u))]);
    let lead_obj = Json::Object(lead);
    let mut items: Vec<Json> = Vec::new();
    proof {
        assert(json_seq_view(items@) =~= Seq::<JsonV>::empty());
        lemma_json_seq_view_push(items@, lead_obj);
    }
    items.push(lead_obj);
    assert(json_seq_view(items@) =~= seq![obj(seq![("linkedinUrl"@, JsonV::Str(u))])]);
    let mut f = new_fields();
    push_field(&mut f, "listId", Json::from_i64(id));
    push_field(&mut f, "leads", Json::Array(items));
    assert(fields_view(f@) =~= seq![
        ("listId"@, num(id as int)),
        ("leads"@, JsonV::Array(seq![obj(seq![("linkedinUrl"@, JsonV::Str(u))])])),
    ]);
    ApiCall { request: Request::post("list/AddLeadsToListV2".to_owned(), Json::Object(f)), reply: Reply::Raw }
}

/// Removes one lead from a list.
pub fn remove_lead(id: i64, lead_id: i64) -> (r: ApiCall)
    ensures
        r@ == remove_lead_call(id, lead_id),
{
    let mut f = new_fields();
    push_field(&mut f, "listId", Json::from_i64(id));
    push_field(&mut f, "leadId", Json::from_i64(lead_id));
    assert(fields_view(f@) =~= seq![("listId"@, num(id as int)), ("leadId"@, num(lead_id as int))]);
    ApiCall { request: Request::post("list/DeleteLeadFromList".to_owned(), Json::Object(f)), reply: Reply::Raw }
}

/// Fetches the companies of a company list.
pub fn companies(id: i64, limit: u32, offset: u32) -> (r: ApiCall)
    ensures
        r@ == companies_call(id, limit, offset),
{
    let mut f = new_fields();
    push_field(&mut f, "listId", Json::from_i64(id));
    push_field(&mut f, "offset", Json::from_u64(offset as u64));
    push_field(&mut f, "limit", Json::from_u64(limit as u64));
    assert(fields_view(f@) =~= seq![("listId"@, num(id as int)), ("offset"@, num(offset as int)), ("limit"@, num(limit as int))]);
    ApiCall {
        request: Request::post("list/GetCompaniesFromList".to_owned(), Json::Object(f)),
        reply: Reply::Raw,
    }
}


/// What each list command sends: the page to `list/GetAll`; `get` reads `list/GetById`;
/// `create` posts the name and `COMPANY_LIST` for `company` in any ASCII case, else
/// `USER_LIST`; `leads` posts the list, the page and a non-blank keyword; `add-lead` posts one
/// lead with its profile URL; `remove-lead` and `companies` post the list with the lead or the
/// page.
pub proof fn list_requests(
    limit: u32,
    offset: u32,
    id: i64,
    lead_id: i64,
    name: Seq<char>,
    kind: Seq<char>,
    keyword: Option<Seq<char>>,
    linkedin_url: Seq<char>,
)
    ensures
        list_call(limit, offset) == (ApiCallV { request: RequestV { method: Method::Post, path: "list/GetAll"@, body: Some(JsonV::Object(seq![("offset"@, JsonV::Number(int_text(offset as int))), ("limit"@, JsonV::Number(int_text(limit as int)))])) }, reply: Reply::Raw }),
        get_call(id) == (ApiCallV { request: RequestV { method: Method::Get, path: "list/GetById?listId="@ + int_text(id as int), body: None }, reply: Reply::Raw }),
        create_call(name, kind) == (ApiCallV { request: RequestV { method: Method::Post, path: "list/CreateEmptyList"@, body: Some(JsonV::Object(seq![("name"@, JsonV::Str(name)), ("type"@, JsonV::Str(if eq_ignore_ascii_case(kind, "company"@) { "COMPANY_LIST"@ } else { "USER_LIST"@ }))])) }, reply: Reply::Raw }),
        leads_call(id, limit, offset, keyword) == (ApiCallV { request: RequestV { method: Method::Post, path: "list/GetLeadsFromList"@, body: Some(JsonV::Object(seq![("listId"@, JsonV::Number(int_text(id as int))), ("offset"@, JsonV::Number(int_text(offset as int))), ("limit"@, JsonV::Number(int_text(limit as int)))] + match keyword { Some(k) => if is_blank(k) { Seq::empty() } else { seq![("keyword"@, JsonV::Str(k))] }, None => Seq::empty() })) }, reply: Reply::Raw }),
        add_lead_call(id, linkedin_url) == (ApiCallV { request: RequestV { method: Method::Post, path: "list/AddLeadsToListV2"@, body: Some(JsonV::Object(seq![("listId"@, JsonV::Number(int_text(id as int))), ("leads"@, JsonV::Array(seq![JsonV::Object(seq![("linkedinUrl"@, JsonV::Str(linkedin_url))])]))])) }, reply: Reply::Raw }),
        remove_lead_call(id, lead_id) == (ApiCallV { request: RequestV { method: Method::Post, path: "list/DeleteLeadFromList"@, body: Some(JsonV::Object(seq![("listId"@, JsonV::Number(int_text(id as int))), ("leadId"@, JsonV::Number(int_text(lead_id as int)))])) }, reply: Reply::Raw }),
        companies_call(id, limit, offset) == (ApiCallV { request: RequestV { method: Method::Post, path: "list/GetCompaniesFromList"@, body: Some(JsonV::Object(seq![("listId"@, JsonV::Number(int_text(id as int))), ("offset"@, JsonV::Number(int_text(offset as int))), ("limit"@, JsonV::Number(int_text(limit as int)))])) }, reply: Reply::Raw }),
{
    let base = seq![("listId"@, num(id as int)), ("offset"@, num(offset as int)), ("limit"@, num(limit as int))];
    match keyword {
        Some(k) => if !is_blank(k) {
            assert(base.push(("keyword"@, JsonV::Str(k))) =~= base + seq![("keyword"@, JsonV::Str(k))]);
        } else {
            assert(base =~= base + Seq::<(Seq<char>, JsonV)>::empty());
        },
        None => {
            assert(base =~= base + Seq::<(Seq<char>, JsonV)>::empty());
        },
    }
}

} // verus!
