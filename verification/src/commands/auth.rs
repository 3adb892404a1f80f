//! `auth check`: validate the active API key.

use vstd::prelude::*;
use crate::client::{Request, RequestV, Method, get_req};
use crate::json::JsonV;
use super::{ApiCall, ApiCallV, Reply};

verus! {

/// `GET auth/CheckApiKey`, answered with a fixed confirmation once it succeeds.
pub open spec fn check_call() -> ApiCallV {
    ApiCallV { request: get_req("auth/CheckApiKey"@), reply: Reply::KeyValid }
}

/// Validates the active API key.
pub fn check() -> (r: ApiCall)
    ensures
        r@ == check_call(),
{
    ApiCall { request: Request::get("auth/CheckApiKey".to_owned()), reply: Reply::KeyValid }
}


/// `auth check` reads `auth/CheckApiKey`, and once the key is accepted prints
/// `{"valid": true, "message": "API key is valid"}` whatever the API answered.
pub proof fn key_check_request(response: JsonV)
    ensures
        check_call() == (ApiCallV {
            request: RequestV { method: Method::Get, path: "auth/CheckApiKey"@, body: None },
            reply: Reply::KeyValid,
        }),
        super::finish_view(check_call().reply, response) == JsonV::Object(
            seq![("valid"@, JsonV::Bool(true)), ("message"@, JsonV::Str("API key is valid"@))],
        ),
{
}

} // verus!
