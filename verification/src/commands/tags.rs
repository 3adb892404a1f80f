//! `tags`: workspace tags.

use vstd::prelude::*;
use crate::client::{Request, RequestV, Method, post_req};
use crate::json::{Json, JsonV, fields_view, push_field, obj};
use super::{ApiCall, ApiCallV, Reply, raw, new_fields};

verus! {

pub open spec fn create_call(name: Seq<char>, color: Option<Seq<char>>) -> ApiCallV {
    let base = seq![("displayName"@, JsonV::Str(name))];
    let fs = match color {
        Some(c) => base.push(("color"@, JsonV::Str(c))),
        None => base,
    };
    raw(post_req("tag/Create"@, obj(fs)))
}

/// Creates a tag with an optional color.
pub fn create(name: String, color: Option<String>) -> (r: ApiCall)
    ensures
        r@ == create_call(name@, crate::error::opt_view(color)),
{
    let ghost n = name@;
    let mut f = new_fields();
    push_field(&mut f, "displayName", Json::Str(name));
    assert(fields_view(f@) =~= seq![("displayName"@, JsonV::Str(n))]);
    match color {
        Some(c) => push_field(&mut f, "color", Json::Str(c)),
        None => {},
    }
    ApiCall { request: Request::post("tag/Create".to_owned(), Json::Object(f)), reply: Reply::Raw }
}


/// `tags create` posts the display name, and the color when one is given, to `tag/Create`.
pub proof fn tag_request(name: Seq<char>, color: Option<Seq<char>>)
    ensures
        create_call(name, color) == (ApiCallV { request: RequestV { method: Method::Post, path: "tag/Create"@, body: Some(JsonV::Object(seq![("displayName"@, JsonV::Str(name))] + match color { Some(c) => seq![("color"@, JsonV::Str(c))], None => Seq::empty() })) }, reply: Reply::Raw }),
{
    let base = seq![("displayName"@, JsonV::Str(name))];
    match color {
        Some(c) => {
            assert(base.push(("color"@, JsonV::Str(c))) =~= base + seq![("color"@, JsonV::Str(c))]);
        },
        None => {
            assert(base =~= base + Seq::<(Seq<char>, JsonV)>::empty());
        },
    }
}

} // verus!
