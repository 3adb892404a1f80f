use heyreach::client::{api_base, parse_u64_text, query, read, request_url, seg, status_error, transport_error, Method};
use heyreach::error::ErrorCode;
use heyreach::json::Json;

fn field<'a>(j: &'a Json, key: &str) -> Option<&'a Json> {
    match j {
        Json::Object(fs) => fs.iter().find(|(k, _)| k == key).map(|(_, v)| v),
        _ => None,
    }
}

fn text(j: Option<&Json>) -> Option<&str> {
    match j {
        Some(Json::Str(s)) => Some(s.as_str()),
        Some(Json::Number(s)) => Some(s.as_str()),
        _ => None,
    }
}

#[test]
fn seg_escapes_reserved() {
    assert_eq!(seg("campaign_123"), "campaign_123");
    assert_eq!(seg("John Doe"), "John%20Doe");
}

#[test]
fn query_skips_missing() {
    assert_eq!(query(&[("a", None), ("b", Some("1".into()))]), "?b=1");
    assert_eq!(query(&[("a", None)]), "");
}

#[test]
fn status_maps_to_codes() {
    assert_eq!(status_error(401, "").code, ErrorCode::AuthRequired);
    assert_eq!(status_error(404, "").code, ErrorCode::NotFound);
    assert_eq!(status_error(429, "").code, ErrorCode::RateLimited);
    assert_eq!(status_error(400, "").code, ErrorCode::InvalidInput);
    assert_eq!(status_error(500, "").code, ErrorCode::Network);
}

#[test]
fn seg_escapes_every_reserved_byte() {
    assert_eq!(seg("a/b?c=d&e#f"), "a%2Fb%3Fc%3Dd%26e%23f");
    assert_eq!(seg("-_.~"), "-_.~");
    assert_eq!(seg("é"), "%C3%A9");
    assert_eq!(seg(""), "");
}

#[test]
fn query_joins_present_pairs_in_order() {
    let q = query(&[("a", Some("1".into())), ("x", None), ("b", Some("two words".into()))]);
    assert_eq!(q, "?a=1&b=two%20words");
}

#[test]
fn status_error_messages_and_details() {
    let e = status_error(403, "");
    assert_eq!(e.message, "The API key was rejected or invalid.");
    assert_eq!(e.detail.as_deref(), Some("HTTP 403"));
    assert_eq!(
        e.remediation.as_deref(),
        Some("heyreach auth check (or run 'heyreach login <name>')")
    );
    let e = status_error(404, r#"{"message":"Campaign not found"}"#);
    assert_eq!(e.message, "Campaign not found");
    assert_eq!(e.detail.as_deref(), Some(r#"HTTP 404: {"message":"Campaign not found"}"#));
    assert_eq!(e.remediation, None);
    let e = status_error(422, "not json");
    assert_eq!(e.code, ErrorCode::InvalidInput);
    assert_eq!(e.message, "The API refused the request.");
    let e = status_error(429, r#"{"message":"slow down"}"#);
    assert_eq!(e.message, "Rate limited by the HeyReach API.");
    assert_eq!(e.remediation.as_deref(), Some("Back off before retrying."));
    let e = status_error(503, "");
    assert_eq!(e.code, ErrorCode::Network);
    assert_eq!(e.message, "The HeyReach API returned a server error.");
    let e = status_error(418, "");
    assert_eq!(e.code, ErrorCode::Error);
    assert_eq!(e.message, "The request failed.");
}

#[test]
fn status_error_prefers_message_then_error_message_then_error() {
    let e = status_error(400, r#"{"errorMessage":"bad","error":"worse"}"#);
    assert_eq!(e.message, "bad");
    let e = status_error(400, r#"{"error":"worse","message":7}"#);
    assert_eq!(e.message, "worse");
}

#[test]
fn status_error_title_with_validation_details() {
    let body = r#"{"title":"One or more validation errors occurred.","errors":{"Limit":["must be positive","too big"],"Name":["required"],"Other":"x"}}"#;
    let e = status_error(400, body);
    assert_eq!(
        e.message,
        "One or more validation errors occurred. - Limit: must be positive; Limit: too big; Name: required"
    );
    let e = status_error(400, r#"{"title":"Bad","errors":{}}"#);
    assert_eq!(e.message, "Bad");
}

#[test]
fn read_blank_body_is_ok() {
    let v = read(200, None, b" \n\t").unwrap();
    assert_eq!(text(field(&v, "status")), Some("ok"));
    let v = read(204, None, b"").unwrap();
    assert_eq!(text(field(&v, "status")), Some("ok"));
}

#[test]
fn read_json_and_text_bodies() {
    let v = read(200, None, br#"{"total": 1}"#).unwrap();
    assert_eq!(text(field(&v, "total")), Some("1"));
    let v = read(200, None, b"plain words").unwrap();
    match v {
        Json::Str(s) => assert_eq!(s, "plain words"),
        other => panic!("unexpected {other:?}"),
    }
}

#[test]
fn read_rate_limit_uses_retry_after() {
    let e = read(429, Some("30"), b" too many ").unwrap_err();
    assert_eq!(e.code, ErrorCode::RateLimited);
    assert_eq!(e.message, "Rate limited (429). Retry after 30s");
    assert_eq!(e.detail.as_deref(), Some("too many"));
    assert_eq!(e.remediation.as_deref(), Some("Back off before retrying."));
    let e = read(429, Some("soon"), b"").unwrap_err();
    assert_eq!(e.message, "Rate limited (429). Retry after 60s");
    let e = read(429, None, b"").unwrap_err();
    assert_eq!(e.message, "Rate limited (429). Retry after 60s");
}

#[test]
fn read_error_status_trims_body() {
    let e = read(500, None, b"  {\"message\":\"Internal server error\"}\n").unwrap_err();
    assert_eq!(e.code, ErrorCode::Network);
    assert_eq!(e.message, "Internal server error");
    assert_eq!(e.detail.as_deref(), Some("HTTP 500: {\"message\":\"Internal server error\"}"));
}

#[test]
fn parse_u64_like_std() {
    for s in ["0", "42", "+7", "18446744073709551615", "", "+", "-1", "18446744073709551616", "1a", " 1"] {
        assert_eq!(parse_u64_text(s), s.parse::<u64>().ok(), "{s}");
    }
}

#[test]
fn transport_errors() {
    let e = transport_error(true, "ignored".into());
    assert_eq!(e.code, ErrorCode::Network);
    assert_eq!(e.message, "The request timed out.");
    assert_eq!(e.detail, None);
    assert_eq!(e.remediation.as_deref(), Some("Retry once, then stop."));
    let e = transport_error(false, "dns failure".into());
    assert_eq!(e.message, "Could not reach the HeyReach API.");
    assert_eq!(e.detail.as_deref(), Some("dns failure"));
}

#[test]
fn base_and_url() {
    assert_eq!(api_base(None), "https://api.heyreach.io/api/public/");
    assert_eq!(api_base(Some("   ")), "https://api.heyreach.io/api/public/");
    assert_eq!(api_base(Some("http://127.0.0.1:9/api/public")), "http://127.0.0.1:9/api/public/");
    assert_eq!(api_base(Some("http://h/x/")), "http://h/x/");
    assert_eq!(request_url("http://h/", "//campaign/GetAll"), "http://h/campaign/GetAll");
    assert_eq!(request_url("http://h/", "auth/CheckApiKey"), "http://h/auth/CheckApiKey");
    assert_eq!(Method::Delete.as_str(), "DELETE");
}

#[test]
fn documented_auth_envelope() {
    let e = read(401, None, b"Unauthorized").unwrap_err();
    let env = e.envelope();
    let expected = [
        ("error", "The API key was rejected or invalid."),
        ("code", "auth_required"),
        ("detail", "HTTP 401: Unauthorized"),
        ("remediation", "heyreach auth check (or run 'heyreach login <name>')"),
    ];
    match env {
        Json::Object(fields) => {
            assert_eq!(fields.len(), expected.len());
            for ((k, v), (ek, ev)) in fields.iter().zip(expected.iter()) {
                assert_eq!(k, ek);
                assert_eq!(text(Some(v)), Some(*ev));
            }
        }
        other => panic!("unexpected {other:?}"),
    }
    assert_eq!(e.code.exit_code(), 3);
}

#[test]
fn seg_distinguishes_distinct_values() {
    assert_ne!(seg("a b"), seg("a%20b"));
    assert_eq!(seg("a%20b"), "a%2520b");
    assert!(seg("../x?y#z").chars().all(|c| c.is_ascii_alphanumeric() || "-_.~%".contains(c)));
}

#[test]
fn reply_class_follows_status_only() {
    for body in [&b""[..], br#"{"message":"x"}"#, b"oops"] {
        assert_eq!(read(403, None, body).unwrap_err().code, ErrorCode::AuthRequired);
        assert_eq!(read(502, None, body).unwrap_err().code, ErrorCode::Network);
        assert_eq!(read(302, None, body).unwrap_err().code, ErrorCode::Error);
        assert!(read(201, None, body).is_ok());
    }
}
