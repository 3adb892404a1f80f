//! Requests to the HeyReach API, and what HTTP outcomes mean as [`ErrorCode`]s.
//! The HTTP exchange itself is the program's; this module decides what is sent and what a
//! reply means.

use vstd::prelude::*;
use vstd::utf8::{encode_utf8, decode_utf8, encode_utf8_decode_utf8, valid_utf8};
use vstd::string::StringExecFns;
use crate::text::{string_from_chars, join, lemma_join_push, strings_view, join_strings};
use crate::json::{Json, JsonV, get, get_str, parse_json_text, json_from_str, fields_view, json_seq_view, lemma_fields_view, lemma_json_seq_view};
use crate::error::{opt_view, Error, ErrorCode, ErrorV, err, with_detail, with_fix, exit_status};
use crate::text::{decimal, u64_text, trim, trim_str, is_ascii_digit, is_blank, blank, chars_of};
use crate::json::{obj, push_field, parse_json_bytes, json_from_bytes, opt_json_view, fields_view as fv};

verus! {

/// The bytes that may stand in a URL as they are.
pub open spec fn is_unreserved(b: u8) -> bool {
    ||| 65 <= b <= 90
    ||| 97 <= b <= 122
    ||| 48 <= b <= 57
    ||| b == 45
    ||| b == 95
    ||| b == 46
    ||| b == 126
}

/// The uppercase hexadecimal digit for `n < 16`.
pub open spec fn hex_upper(n: u8) -> char {
    if n < 10 {
        (48 + n) as char
    } else {
        (55 + n) as char
    }
}

/// How one byte is written in a path segment.
pub open spec fn seg_byte(b: u8) -> Seq<char> {
    if is_unreserved(b) {
        seq![b as char]
    } else {
        seq!['%', hex_upper(b / 16), hex_upper(b % 16)]
    }
}

/// Percent-encoding of a byte string: unreserved bytes as they are, every other byte as `%XX`.
pub open spec fn seg_bytes(bs: Seq<u8>) -> Seq<char>
    decreases bs.len(),
{
    if bs.len() == 0 {
        Seq::empty()
    } else {
        seg_byte(bs[0]) + seg_bytes(bs.drop_first())
    }
}

/// Percent-encoding of a string's UTF-8 bytes.
pub open spec fn seg_text(s: Seq<char>) -> Seq<char> {
    seg_bytes(encode_utf8(s))
}

/// The characters an encoded segment is made of: ASCII letters, digits, `-`, `_`, `.`, `~`
/// and `%`. None of `/`, `?`, `&`, `=`, `#` or a space is among them.
pub open spec fn segment_char(c: char) -> bool {
    ||| 'A' <= c <= 'Z'
    ||| 'a' <= c <= 'z'
    ||| '0' <= c <= '9'
    ||| c == '-'
    ||| c == '_'
    ||| c == '.'
    ||| c == '~'
    ||| c == '%'
}

pub proof fn lemma_seg_bytes_push(bs: Seq<u8>, b: u8)
    ensures
        seg_bytes(bs.push(b)) == seg_bytes(bs) + seg_byte(b),
    decreases bs.len(),
{
    if bs.len() == 0 {
        assert(bs.push(b).drop_first() =~= Seq::<u8>::empty());
        assert(seg_bytes(Seq::<u8>::empty()) =~= Seq::<char>::empty());
        assert(bs.push(b)[0] == b);
        assert(seg_bytes(bs.push(b)) =~= seg_byte(b) + seg_bytes(Seq::<u8>::empty()));
        assert(seg_bytes(bs) =~= Seq::<char>::empty());
    } else {
        assert(bs.push(b).drop_first() =~= bs.drop_first().push(b));
        lemma_seg_bytes_push(bs.drop_first(), b);
        assert(seg_bytes(bs.push(b)) =~= seg_bytes(bs) + seg_byte(b));
    }
}

proof fn lemma_seg_byte_chars(b: u8)
    ensures
        forall|i: int| 0 <= i < seg_byte(b).len() ==> segment_char(#[trigger] seg_byte(b)[i]),
        seg_byte(b).len() >= 1,
{
}

pub proof fn lemma_seg_bytes_chars(bs: Seq<u8>)
    ensures
        forall|i: int| 0 <= i < seg_bytes(bs).len() ==> segment_char(#[trigger] seg_bytes(bs)[i]),
    decreases bs.len(),
{
    if bs.len() > 0 {
        lemma_seg_byte_chars(bs[0]);
        lemma_seg_bytes_chars(bs.drop_first());
        let a = seg_byte(bs[0]);
        let r = seg_bytes(bs.drop_first());
        assert forall|i: int| 0 <= i < seg_bytes(bs).len() implies segment_char(
            #[trigger] seg_bytes(bs)[i],
        ) by {
            if i < a.len() {
                assert(seg_bytes(bs)[i] == a[i]);
            } else {
                assert(seg_bytes(bs)[i] == r[i - a.len()]);
            }
        }
    }
}

/// An uppercase hexadecimal digit.
pub open spec fn is_upper_hex(c: char) -> bool {
    ||| '0' <= c <= '9'
    ||| 'A' <= c <= 'F'
}

/// Every `%` is followed by two uppercase hexadecimal digits.
pub open spec fn escapes_well_formed(r: Seq<char>) -> bool {
    forall|i: int|
        0 <= i < r.len() && #[trigger] r[i] == '%' ==> i + 2 < r.len() && is_upper_hex(r[i + 1])
            && is_upper_hex(r[i + 2])
}

proof fn lemma_seg_byte_escape(b: u8)
    ensures
        is_unreserved(b) ==> seg_byte(b).len() == 1 && seg_byte(b)[0] != '%',
        !is_unreserved(b) ==> seg_byte(b).len() == 3 && seg_byte(b)[0] == '%' && is_upper_hex(
            seg_byte(b)[1],
        ) && is_upper_hex(seg_byte(b)[2]) && seg_byte(b)[1] != '%' && seg_byte(b)[2] != '%',
{
}

/// In an encoded byte string every `%` starts a complete escape.
pub proof fn lemma_seg_bytes_escapes(bs: Seq<u8>)
    ensures
        escapes_well_formed(seg_bytes(bs)),
    decreases bs.len(),
{
    if bs.len() > 0 {
        lemma_seg_byte_escape(bs[0]);
        lemma_seg_bytes_escapes(bs.drop_first());
        let a = seg_byte(bs[0]);
        let r = seg_bytes(bs.drop_first());
        let full = seg_bytes(bs);
        assert(full == a + r);
        assert forall|i: int| 0 <= i < full.len() && #[trigger] full[i] == '%' implies i + 2 < full.len()
            && is_upper_hex(full[i + 1]) && is_upper_hex(full[i + 2]) by {
            if i < a.len() {
                assert(full[i] == a[i]);
                assert(i == 0);
                assert(full[1] == a[1]);
                assert(full[2] == a[2]);
            } else {
                let j = i - a.len();
                assert(full[i] == r[j]);
                assert(r[j] == '%');
                assert(full[i + 1] == r[j + 1]);
                assert(full[i + 2] == r[j + 2]);
            }
        }
    } else {
        assert(seg_bytes(bs) =~= Seq::<char>::empty());
    }
}

/// The value of a hexadecimal digit character.
pub open spec fn hex_value(c: char) -> int {
    if '0' <= c <= '9' {
        (c as int) - 48
    } else {
        (c as int) - 55
    }
}

/// Percent-decoding: `%XX` gives back the byte `XX`, any other character its own code.
pub open spec fn pct_decode(s: Seq<char>) -> Seq<u8>
    decreases s.len(),
{
    if s.len() == 0 {
        Seq::empty()
    } else if s[0] == '%' && s.len() >= 3 {
        seq![(hex_value(s[1]) * 16 + hex_value(s[2])) as u8] + pct_decode(s.skip(3))
    } else {
        seq![s[0] as u8] + pct_decode(s.skip(1))
    }
}

proof fn lemma_decode_seg_byte(b: u8, rest: Seq<char>)
    ensures
        pct_decode(seg_byte(b) + rest) == seq![b] + pct_decode(rest),
{
    let s = seg_byte(b) + rest;
    if is_unreserved(b) {
        assert(s[0] == b as char);
        assert(s.skip(1) =~= rest);
        assert((b as char) as u8 == b);
    } else {
        assert(s[0] == '%');
        assert(s.skip(3) =~= rest);
        let hi = b / 16;
        let lo = b % 16;
        assert(hex_value(hex_upper(hi)) == hi);
        assert(hex_value(hex_upper(lo)) == lo);
        assert(hi * 16 + lo == b);
    }
}

/// Percent-decoding an encoded byte string gives the bytes back.
pub proof fn lemma_decode_seg_bytes(bs: Seq<u8>)
    ensures
        pct_decode(seg_bytes(bs)) == bs,
    decreases bs.len(),
{
    if bs.len() == 0 {
        assert(seg_bytes(bs) =~= Seq::<char>::empty());
    } else {
        lemma_decode_seg_bytes(bs.drop_first());
        lemma_decode_seg_byte(bs[0], seg_bytes(bs.drop_first()));
        assert(seq![bs[0]] + bs.drop_first() =~= bs);
    }
}

/// Encoding a path segment loses nothing: two strings that encode alike are the same string,
/// so an encoded id or parameter always stands for exactly the value it was made from.
pub proof fn seg_is_lossless(a: Seq<char>, b: Seq<char>)
    ensures
        seg_text(a) == seg_text(b) ==> a == b,
{
    lemma_decode_seg_bytes(encode_utf8(a));
    lemma_decode_seg_bytes(encode_utf8(b));
    encode_utf8_decode_utf8(a);
    encode_utf8_decode_utf8(b);
}

fn hex_digit(n: u8) -> (r: char)
    requires
        n < 16,
    ensures
        r == hex_upper(n),
{
    if n < 10 {
        (48 + n) as char
    } else {
        (55 + n) as char
    }
}

/// Percent-encodes one path segment, so an id or query param can never escape its place in
/// the URL: the result holds only unreserved characters and `%`, and every `%` is followed by
/// two uppercase hexadecimal digits.
pub fn seg(s: &str) -> (r: String)
    ensures
        r@ == seg_text(s@),
        forall|i: int| 0 <= i < r@.len() ==> segment_char(#[trigger] r@[i]),
        escapes_well_formed(r@),
{
    let bytes = s.as_bytes();
    let mut out: Vec<char> = Vec::new();
    let mut i: usize = 0;
    proof {
        assert(bytes@.take(0) =~= Seq::<u8>::empty());
    }
    while i < bytes.len()
        invariant
            i <= bytes@.len(),
            bytes@ == encode_utf8(s@),
            out@ == seg_bytes(bytes@.take(i as int)),
        decreases bytes@.len() - i,
    {
        let b = bytes[i];
        let is_plain = (65 <= b && b <= 90) || (97 <= b && b <= 122) || (48 <= b && b <= 57) || b
            == 45 || b == 95 || b == 46 || b == 126;
        if is_plain {
            out.push(b as char);
        } else {
            out.push('%');
            out.push(hex_digit(b / 16));
            out.push(hex_digit(b % 16));
        }
        proof {
            assert(bytes@.take(i + 1) =~= bytes@.take(i as int).push(b));
            lemma_seg_bytes_push(bytes@.take(i as int), b);
            assert(out@ =~= seg_bytes(bytes@.take(i as int)) + seg_byte(b));
        }
        i = i + 1;
    }
    proof {
        assert(bytes@.take(bytes@.len() as int) =~= bytes@);
        lemma_seg_bytes_chars(bytes@);
        lemma_seg_bytes_escapes(bytes@);
    }
    string_from_chars(out.as_slice())
}

/// A query parameter's name and optional value, as plain text.
pub open spec fn param_view(p: (&str, Option<String>)) -> (Seq<char>, Option<Seq<char>>) {
    (p.0@, opt_view(p.1))
}

/// `name=value` for each parameter that has a value, the value percent-encoded.
pub open spec fn query_parts(ps: Seq<(Seq<char>, Option<Seq<char>>)>) -> Seq<Seq<char>>
    decreases ps.len(),
{
    if ps.len() == 0 {
        Seq::empty()
    } else {
        let rest = query_parts(ps.drop_last());
        match ps.last().1 {
            Some(v) => rest.push(ps.last().0 + "="@ + seg_text(v)),
            None => rest,
        }
    }
}

/// A query string: `?` and the parts joined by `&`, or nothing at all when no parameter has a
/// value.
pub open spec fn query_text(ps: Seq<(Seq<char>, Option<Seq<char>>)>) -> Seq<char> {
    let parts = query_parts(ps);
    if parts.len() == 0 {
        Seq::empty()
    } else {
        "?"@ + join(parts, "&"@)
    }
}

/// Builds `?a=1&b=2` from the pairs that have a value.
pub fn query(pairs: &[(&str, Option<String>)]) -> (r: String)
    ensures
        r@ == query_text(pairs@.map_values(|p: (&str, Option<String>)| param_view(p))),
{
    let ghost ps = pairs@.map_values(|p: (&str, Option<String>)| param_view(p));
    let mut out = String::new();
    let mut count: usize = 0;
    let mut i: usize = 0;
    proof {
        assert(ps.take(0) =~= Seq::<(Seq<char>, Option<Seq<char>>)>::empty());
    }
    while i < pairs.len()
        invariant
            i <= pairs@.len(),
            ps == pairs@.map_values(|p: (&str, Option<String>)| param_view(p)),
            count == query_parts(ps.take(i as int)).len(),
            count <= i,
            out@ == join(query_parts(ps.take(i as int)), "&"@),
        decreases pairs@.len() - i,
    {
        let ghost before = query_parts(ps.take(i as int));
        proof {
            assert(ps.take(i + 1).drop_last() =~= ps.take(i as int));
            assert(ps.take(i + 1).last() == param_view(pairs@[i as int]));
        }
        match &pairs[i].1 {
            Some(v) => {
                let e = seg(v.as_str());
                let ghost part = pairs@[i as int].0@ + "="@ + seg_text(v@);
                if count > 0 {
                    out.append("&");
                }
                out.append(pairs[i].0);
                out.append("=");
                out.append(e.as_str());
                proof {
                    lemma_join_push(before, "&"@, part);
                    assert(query_parts(ps.take(i + 1)) == before.push(part));
                    if count > 0 {
                        assert(out@ =~= join(before, "&"@) + "&"@ + part);
                    } else {
                        assert(out@ =~= part);
                    }
                }
                count = count + 1;
            },
            None => {
                assert(query_parts(ps.take(i + 1)) == before);
            },
        }
        i = i + 1;
    }
    proof {
        assert(ps.take(pairs@.len() as int) =~= ps);
    }
    if count == 0 {
        String::new()
    } else {
        let mut q = String::from_str("?");
        q.append(out.as_str());
        q
    }
}

/// `key: item` for each string among the items of an array stored under `key`.
pub open spec fn string_items(key: Seq<char>, items: Seq<JsonV>) -> Seq<Seq<char>>
    decreases items.len(),
{
    if items.len() == 0 {
        Seq::empty()
    } else {
        let rest = string_items(key, items.drop_last());
        match items.last() {
            JsonV::Str(s) => rest.push(key + ": "@ + s),
            _ => rest,
        }
    }
}

/// The validation details of an `errors` object: for each member whose value is an array, one
/// `key: message` line per string in it, in member order.
pub open spec fn error_details(fs: Seq<(Seq<char>, JsonV)>) -> Seq<Seq<char>>
    decreases fs.len(),
{
    if fs.len() == 0 {
        Seq::empty()
    } else {
        error_details(fs.drop_last()) + match fs.last().1 {
            JsonV::Array(a) => string_items(fs.last().0, a),
            _ => Seq::empty(),
        }
    }
}

/// A validation-problem title, followed by ` - ` and its details joined by `; ` when there
/// are any.
pub open spec fn titled_message(title: Seq<char>, errors: Option<JsonV>) -> Seq<char> {
    let details = match errors {
        Some(JsonV::Object(fs)) => error_details(fs),
        _ => Seq::empty(),
    };
    if details.len() == 0 {
        title
    } else {
        title + " - "@ + join(details, "; "@)
    }
}

/// The human message an error body carries: its `message`, `errorMessage` or `error` string,
/// in that order of preference, or else its `title` with the validation details.
pub open spec fn error_message_of(v: JsonV) -> Option<Seq<char>> {
    if get_str(v, "message"@) is Some {
        get_str(v, "message"@)
    } else if get_str(v, "errorMessage"@) is Some {
        get_str(v, "errorMessage"@)
    } else if get_str(v, "error"@) is Some {
        get_str(v, "error"@)
    } else if get_str(v, "title"@) is Some {
        Some(titled_message(get_str(v, "title"@)->0, get(v, "errors"@)))
    } else {
        None
    }
}

/// The message of an error body given as text: nothing when the text is not JSON.
pub open spec fn body_error_message(body: Seq<char>) -> Option<Seq<char>> {
    match parse_json_text(body) {
        Ok(v) => error_message_of(v),
        Err(_) => None,
    }
}

fn collect_string_items(key: &String, items: &Vec<Json>, out: &mut Vec<String>)
    ensures
        strings_view(final(out)@) == strings_view(old(out)@) + string_items(key@, json_seq_view(items@)),
{
    let ghost start = strings_view(out@);
    let ghost iv = json_seq_view(items@);
    proof {
        lemma_json_seq_view(items@);
        assert(iv.take(0) =~= Seq::<JsonV>::empty());
        assert(start + string_items(key@, iv.take(0)) =~= start);
    }
    let mut j: usize = 0;
    while j < items.len()
        invariant
            j <= items@.len(),
            iv == json_seq_view(items@),
            iv.len() == items@.len(),
            forall|k: int| 0 <= k < items@.len() ==> #[trigger] iv[k] == items@[k]@,
            strings_view(out@) == start + string_items(key@, iv.take(j as int)),
        decreases items@.len() - j,
    {
        proof {
            assert(iv.take(j + 1).drop_last() =~= iv.take(j as int));
            assert(iv.take(j + 1).last() == items@[j as int]@);
        }
        match &items[j] {
            Json::Str(s) => {
                let ghost prev = out@;
                let mut line = key.clone();
                line.append(": ");
                line.append(s.as_str());
                out.push(line);
                proof {
                    assert(items@[j as int] == Json::Str(*s));
                    assert(iv[j as int] == JsonV::Str(s@));
                    assert(strings_view(out@) =~= strings_view(prev).push(line@));
                    assert(strings_view(out@) =~= start + string_items(key@, iv.take(j + 1)));
                }
            },
            _ => {},
        }
        j = j + 1;
    }
    proof {
        assert(iv.take(items@.len() as int) =~= iv);
    }
}

fn collect_details(fs: &Vec<(String, Json)>) -> (r: Vec<String>)
    ensures
        strings_view(r@) == error_details(fields_view(fs@)),
{
    let ghost fv = fields_view(fs@);
    proof {
        lemma_fields_view(fs@);
        assert(fv.take(0) =~= Seq::<(Seq<char>, JsonV)>::empty());
    }
    let mut out: Vec<String> = Vec::new();
    proof {
        assert(strings_view(out@) =~= Seq::<Seq<char>>::empty());
    }
    let mut i: usize = 0;
    while i < fs.len()
        invariant
            i <= fs@.len(),
            fv == fields_view(fs@),
            fv.len() == fs@.len(),
            forall|k: int| 0 <= k < fs@.len() ==> #[trigger] fv[k] == (fs@[k].0@, fs@[k].1@),
            strings_view(out@) == error_details(fv.take(i as int)),
        decreases fs@.len() - i,
    {
        proof {
            assert(fv.take(i + 1).drop_last() =~= fv.take(i as int));
            assert(fv.take(i + 1).last() == fv[i as int]);
        }
        let (k, v) = &fs[i];
        match v {
            Json::Array(items) => {
                collect_string_items(k, items, &mut out);
            },
            _ => {
                assert(strings_view(out@) =~= error_details(fv.take(i + 1)));
            },
        }
        i = i + 1;
    }
    proof {
        assert(fv.take(fs@.len() as int) =~= fv);
    }
    out
}

/// The human message an error body carries (see [`error_message_of`]).
pub fn error_message(v: &Json) -> (r: Option<String>)
    ensures
        opt_view(r) == error_message_of(v@),
{
    if let Some(m) = v.get_str("message") {
        return Some(m);
    }
    if let Some(m) = v.get_str("errorMessage") {
        return Some(m);
    }
    if let Some(m) = v.get_str("error") {
        return Some(m);
    }
    if let Some(title) = v.get_str("title") {
        let details = match v.get("errors") {
            Some(Json::Object(fs)) => collect_details(fs),
            _ => Vec::new(),
        };
        proof {
            if !(get(v@, "errors"@) matches Some(JsonV::Object(_))) {
                assert(strings_view(details@) =~= Seq::<Seq<char>>::empty());
            }
        }
        if details.len() == 0 {
            return Some(title);
        }
        let mut text = title;
        text.append(" - ");
        let joined = join_strings(&details, "; ");
        text.append(joined.as_str());
        return Some(text);
    }
    None
}

/// Reads the message out of an error body, when the body is JSON.
pub fn try_extract_error_message(body: &str) -> (r: Option<String>)
    ensures
        opt_view(r) == body_error_message(body@),
{
    match json_from_str(body) {
        Ok(v) => error_message(&v),
        Err(_) => None,
    }
}

/// The message an error body gave, or the given default.
pub open spec fn or_default(parsed: Option<Seq<char>>, default: Seq<char>) -> Seq<char> {
    match parsed {
        Some(m) => m,
        None => default,
    }
}

/// The error class an unsuccessful HTTP status falls into.
pub open spec fn status_class(status: u16) -> ErrorCode {
    if status == 401 || status == 403 {
        ErrorCode::AuthRequired
    } else if status == 404 {
        ErrorCode::NotFound
    } else if status == 429 {
        ErrorCode::RateLimited
    } else if status == 400 || status == 422 {
        ErrorCode::InvalidInput
    } else if status >= 500 {
        ErrorCode::Network
    } else {
        ErrorCode::Error
    }
}

/// `HTTP <status>`, followed by `: <body>` when the body is not empty.
pub open spec fn http_detail(status: u16, body: Seq<char>) -> Seq<char> {
    if body.len() == 0 {
        "HTTP "@ + decimal(status as nat)
    } else {
        "HTTP "@ + decimal(status as nat) + ": "@ + body
    }
}

/// The error an unsuccessful HTTP status stands for, given the message its body carried.
pub open spec fn status_error_view(status: u16, body: Seq<char>, parsed: Option<Seq<char>>) -> ErrorV {
    let e = if status == 401 || status == 403 {
        with_fix(
            err(ErrorCode::AuthRequired, or_default(parsed, "The API key was rejected or invalid."@)),
            "heyreach auth check (or run 'heyreach login <name>')"@,
        )
    } else if status == 404 {
        err(ErrorCode::NotFound, or_default(parsed, "The requested resource does not exist."@))
    } else if status == 429 {
        with_fix(err(ErrorCode::RateLimited, "Rate limited by the HeyReach API."@), "Back off before retrying."@)
    } else if status == 400 || status == 422 {
        err(ErrorCode::InvalidInput, or_default(parsed, "The API refused the request."@))
    } else if status >= 500 {
        with_fix(
            err(ErrorCode::Network, or_default(parsed, "The HeyReach API returned a server error."@)),
            "Retry; if it persists the platform is having trouble."@,
        )
    } else {
        err(ErrorCode::Error, or_default(parsed, "The request failed."@))
    };
    with_detail(e, http_detail(status, body))
}

fn text_or(parsed: Option<String>, default: &str) -> (r: String)
    ensures
        r@ == or_default(opt_view(parsed), default@),
{
    match parsed {
        Some(m) => m,
        None => default.to_owned(),
    }
}

/// The error for an unsuccessful HTTP status, given the body and the message already read
/// out of it.
pub fn status_error_with(status: u16, body: &str, parsed: Option<String>) -> (r: Error)
    ensures
        r@ == status_error_view(status, body@, opt_view(parsed)),
        r.code == status_class(status),
{
    let mut detail = String::from_str("HTTP ");
    let digits = u64_text(status as u64);
    detail.append(string_from_chars(digits.as_slice()).as_str());
    if !body.is_empty() {
        detail.append(": ");
        detail.append(body);
    }
    proof {
        assert(detail@ =~= http_detail(status, body@));
    }
    let e = if status == 401 || status == 403 {
        Error::new(ErrorCode::AuthRequired, text_or(parsed, "The API key was rejected or invalid.")).fix(
            String::from_str("heyreach auth check (or run 'heyreach login <name>')"),
        )
    } else if status == 404 {
        Error::new(ErrorCode::NotFound, text_or(parsed, "The requested resource does not exist."))
    } else if status == 429 {
        Error::new(ErrorCode::RateLimited, String::from_str("Rate limited by the HeyReach API.")).fix(
            String::from_str("Back off before retrying."),
        )
    } else if status == 400 || status == 422 {
        Error::new(ErrorCode::InvalidInput, text_or(parsed, "The API refused the request."))
    } else if status >= 500 {
        Error::new(ErrorCode::Network, text_or(parsed, "The HeyReach API returned a server error.")).fix(
            String::from_str("Retry; if it persists the platform is having trouble."),
        )
    } else {
        Error::new(ErrorCode::Error, text_or(parsed, "The request failed."))
    };
    e.detail(detail)
}

/// The error for an unsuccessful HTTP status: the class follows the status alone, the message
/// comes from the body when it carries one, and the detail quotes status and body.
pub fn status_error(status: u16, body: &str) -> (r: Error)
    ensures
        r@ == status_error_view(status, body@, body_error_message(body@)),
        r.code == status_class(status),
{
    let parsed = try_extract_error_message(body);
    status_error_with(status, body, parsed)
}

/// `u8::is_ascii_whitespace`: space, tab, line feed, form feed and carriage return.
pub open spec fn ascii_ws_byte(b: u8) -> bool {
    b == 32 || b == 9 || b == 10 || b == 12 || b == 13
}

/// A number's text without its optional leading `+`.
pub open spec fn unsigned_digits(s: Seq<char>) -> Seq<char> {
    if s.len() > 0 && s[0] == '+' {
        s.drop_first()
    } else {
        s
    }
}

/// Every character is an ASCII digit.
pub open spec fn all_digits(d: Seq<char>) -> bool {
    forall|i: int| 0 <= i < d.len() ==> is_ascii_digit(#[trigger] d[i])
}

/// The value of a string of decimal digits.
pub open spec fn digits_value(s: Seq<char>) -> int
    decreases s.len(),
{
    if s.len() == 0 {
        0
    } else {
        digits_value(s.drop_last()) * 10 + ((s.last() as int) - 48)
    }
}

/// What `str::parse::<u64>` accepts: an optional `+`, then one or more ASCII digits whose
/// value fits in 64 bits.
pub open spec fn parse_u64(s: Seq<char>) -> Option<u64> {
    let d = unsigned_digits(s);
    if d.len() > 0 && all_digits(d) && digits_value(d) <= u64::MAX {
        Some(digits_value(d) as u64)
    } else {
        None
    }
}

proof fn lemma_digits_value_grows(s: Seq<char>, i: int)
    requires
        0 <= i <= s.len(),
        forall|k: int| 0 <= k < s.len() ==> is_ascii_digit(#[trigger] s[k]),
    ensures
        digits_value(s.take(i)) <= digits_value(s),
        digits_value(s) >= 0,
    decreases s.len() - i,
{
    if i == s.len() {
        assert(s.take(i) =~= s);
        lemma_digits_value_nonneg(s);
    } else {
        lemma_digits_value_grows(s, i + 1);
        assert(s.take(i + 1).drop_last() =~= s.take(i));
        lemma_digits_value_nonneg(s.take(i));
        assert(is_ascii_digit(s.take(i + 1).last()));
    }
}

proof fn lemma_digits_value_nonneg(s: Seq<char>)
    requires
        forall|k: int| 0 <= k < s.len() ==> is_ascii_digit(#[trigger] s[k]),
    ensures
        digits_value(s) >= 0,
    decreases s.len(),
{
    if s.len() > 0 {
        assert forall|k: int| 0 <= k < s.drop_last().len() implies is_ascii_digit(
            #[trigger] s.drop_last()[k],
        ) by {
            assert(s.drop_last()[k] == s[k]);
        }
        lemma_digits_value_nonneg(s.drop_last());
        assert(is_ascii_digit(s.last()));
    }
}

/// Parses a decimal `u64` the way `str::parse::<u64>` does.
pub fn parse_u64_text(s: &str) -> (r: Option<u64>)
    ensures
        r == parse_u64(s@),
{
    let cs = crate::text::chars_of(s);
    let start: usize = if cs.len() > 0 && cs[0] == '+' { 1 } else { 0 };
    let ghost d = unsigned_digits(s@);
    proof {
        assert(d =~= cs@.skip(start as int));
    }
    if start >= cs.len() {
        return None;
    }
    let mut value: u64 = 0;
    let mut i: usize = start;
    proof {
        assert(d.take(0) =~= Seq::<char>::empty());
    }
    while i < cs.len()
        invariant
            start <= i <= cs@.len(),
            cs@ == s@,
            d == unsigned_digits(s@),
            d =~= cs@.skip(start as int),
            forall|k: int| 0 <= k < i - start ==> is_ascii_digit(#[trigger] d[k]),
            value == digits_value(d.take(i - start)),
        decreases cs@.len() - i,
    {
        let c = cs[i];
        if !('0' <= c && c <= '9') {
            proof {
                assert(d[i - start] == c);
                assert(!is_ascii_digit(d[i - start]));
                assert(!all_digits(d));
                assert(parse_u64(s@) is None);
            }
            return None;
        }
        let digit = (c as u32 - 48) as u64;
        proof {
            assert(d.take(i - start + 1).drop_last() =~= d.take(i - start));
            assert(d.take(i - start + 1).last() == c);
            assert(d[i - start] == c);
            assert(digits_value(d.take(i - start + 1)) == value * 10 + digit);
        }
        match value.checked_mul(10) {
            Some(m) => match m.checked_add(digit) {
                Some(v) => {
                    value = v;
                },
                None => {
                    proof {
                        assert(m + digit > u64::MAX);
                        lemma_prefix_value(d, i - start + 1);
                        assert(parse_u64(s@) is None);
                    }
                    return None;
                },
            },
            None => {
                proof {
                    assert(value * 10 > u64::MAX);
                    lemma_prefix_value(d, i - start + 1);
                }
                return None;
            },
        }
        i = i + 1;
    }
    proof {
        assert(d.take(i - start) =~= d);
    }
    Some(value)
}

/// Once a digit prefix exceeds 64 bits, so does the whole digit string, and then either the
/// digits run out of range or a non-digit follows; either way nothing is parsed.
proof fn lemma_prefix_value(d: Seq<char>, n: int)
    requires
        0 < n <= d.len(),
        forall|k: int| 0 <= k < n ==> is_ascii_digit(#[trigger] d[k]),
        digits_value(d.take(n)) > u64::MAX,
    ensures
        !(all_digits(d) && digits_value(d) <= u64::MAX),
{
    if all_digits(d) {
        lemma_digits_value_grows(d, n);
    }
}

/// What `String::from_utf8_lossy` makes of a byte string.
pub uninterp spec fn lossy_text(bytes: Seq<u8>) -> Seq<char>;

/// Decodes bytes as UTF-8 with `String::from_utf8_lossy`, invalid sequences replaced by
/// U+FFFD. The contract names the result with [`lossy_text`] and states that valid UTF-8 is
/// decoded as it is; how invalid sequences are replaced is left unsaid.
#[verifier::external_body]
pub(crate) fn utf8_lossy(bytes: &[u8]) -> (r: String)
    ensures
        r@ == lossy_text(bytes@),
        valid_utf8(bytes@) ==> r@ == decode_utf8(bytes@),
{
    String::from_utf8_lossy(bytes).into_owned()
}

/// How long a rate-limited caller is told to wait: the `Retry-After` header when it is a whole
/// number of seconds, else a minute.
pub open spec fn retry_after_secs(header: Option<Seq<char>>) -> u64 {
    match header {
        Some(h) => match parse_u64(h) {
            Some(n) => n,
            None => 60,
        },
        None => 60,
    }
}

/// The body of a reply with no content.
pub open spec fn status_ok() -> JsonV {
    obj(seq![("status"@, JsonV::Str("ok"@))])
}

/// What a reply means: a 429 is a rate-limit error, any other status outside 200..300 the error
/// of that status, an empty or blank body `{"status": "ok"}`, and any other body its JSON
/// document, or the body as a string when it is not JSON.
pub open spec fn reply_view(status: u16, retry_after: Option<Seq<char>>, bytes: Seq<u8>) -> Result<JsonV, ErrorV> {
    reply_from(status, retry_after, bytes, lossy_text(bytes), parse_json_bytes(bytes))
}

/// A reply fails exactly when its status is outside 200..300, and then its error class
/// follows from the status alone, whatever the body says.
pub proof fn reply_outcome_follows_status(status: u16, retry_after: Option<Seq<char>>, bytes: Seq<u8>)
    ensures
        (200 <= status < 300) <==> reply_view(status, retry_after, bytes) is Ok,
        !(200 <= status < 300) ==> (reply_view(status, retry_after, bytes) matches Err(e) && e.code
            == status_class(status)),
{
}

/// The view of a result that carries JSON or an error.
pub open spec fn result_view(r: Result<Json, Error>) -> Result<JsonV, ErrorV> {
    match r {
        Ok(j) => Ok(j@),
        Err(e) => Err(e@),
    }
}

/// What a reply means once its body was decoded and parsed: `text` is the body decoded as
/// UTF-8 (lossily) and `parsed` the body's JSON document, if it is one.
pub open spec fn reply_from(
    status: u16,
    retry_after: Option<Seq<char>>,
    bytes: Seq<u8>,
    text: Seq<char>,
    parsed: Option<JsonV>,
) -> Result<JsonV, ErrorV> {
    if status == 429 {
        Err(with_fix(
            with_detail(
                err(
                    ErrorCode::RateLimited,
                    "Rate limited (429). Retry after "@ + decimal(retry_after_secs(retry_after) as nat) + "s"@,
                ),
                trim(text),
            ),
            "Back off before retrying."@,
        ))
    } else if !(200 <= status < 300) {
        Err(status_error_view(status, trim(text), body_error_message(trim(text))))
    } else if forall|i: int| 0 <= i < bytes.len() ==> ascii_ws_byte(#[trigger] bytes[i]) {
        Ok(status_ok())
    } else {
        match parsed {
            Some(v) => Ok(v),
            None => Ok(JsonV::Str(text)),
        }
    }
}

/// Interprets a reply from its status, its `Retry-After` header, its body, the body decoded
/// as text and the body's JSON document if it has one.
pub fn interpret(status: u16, retry_after: Option<&str>, bytes: &[u8], text: String, parsed: Option<Json>) -> (r: Result<Json, Error>)
    ensures
        result_view(r) == reply_from(
            status,
            match retry_after {
                Some(h) => Some(h@),
                None => None,
            },
            bytes@,
            text@,
            opt_json_view(parsed),
        ),
{
    if status == 429 {
        let secs: u64 = match retry_after {
            Some(h) => match parse_u64_text(h) {
                Some(n) => n,
                None => 60,
            },
            None => 60,
        };
        let mut message = String::from_str("Rate limited (429). Retry after ");
        let digits = u64_text(secs);
        message.append(string_from_chars(digits.as_slice()).as_str());
        message.append("s");
        let detail = trim_str(text.as_str());
        return Err(
            Error::new(ErrorCode::RateLimited, message).detail(detail).fix(
                String::from_str("Back off before retrying."),
            ),
        );
    }
    if !(200 <= status && status < 300) {
        let trimmed = trim_str(text.as_str());
        return Err(status_error(status, trimmed.as_str()));
    }
    let mut blank = true;
    let mut i: usize = 0;
    while i < bytes.len()
        invariant
            i <= bytes@.len(),
            blank == (forall|k: int| 0 <= k < i ==> ascii_ws_byte(#[trigger] bytes@[k])),
        decreases bytes@.len() - i,
    {
        let b = bytes[i];
        if !(b == 32 || b == 9 || b == 10 || b == 12 || b == 13) {
            blank = false;
        }
        i = i + 1;
    }
    if blank {
        let mut fields: Vec<(String, Json)> = Vec::new();
        proof {
            assert(fv(fields@) =~= Seq::<(Seq<char>, JsonV)>::empty());
        }
        push_field(&mut fields, "status", Json::string("ok"));
        let r = Json::Object(fields);
        assert(r@ =~= status_ok());
        return Ok(r);
    }
    match parsed {
        Some(v) => Ok(v),
        None => Ok(Json::Str(text)),
    }
}

/// Interprets a reply of the HeyReach API from its status, its `Retry-After` header and its
/// body.
pub fn read(status: u16, retry_after: Option<&str>, bytes: &[u8]) -> (r: Result<Json, Error>)
    ensures
        result_view(r) == reply_view(
            status,
            match retry_after {
                Some(h) => Some(h@),
                None => None,
            },
            bytes@,
        ),
{
    let text = utf8_lossy(bytes);
    let parsed = json_from_bytes(bytes);
    interpret(status, retry_after, bytes, text, parsed)
}

/// The error for a request that never got a reply.
pub open spec fn transport_error_view(timed_out: bool, detail: Seq<char>) -> ErrorV {
    if timed_out {
        with_fix(err(ErrorCode::Network, "The request timed out."@), "Retry once, then stop."@)
    } else {
        with_fix(
            with_detail(err(ErrorCode::Network, "Could not reach the HeyReach API."@), detail),
            "Retry once, then stop."@,
        )
    }
}

/// The error for a request that failed in transport: a timeout, or any other failure with
/// its description as detail.
pub fn transport_error(timed_out: bool, detail: String) -> (r: Error)
    ensures
        r@ == transport_error_view(timed_out, detail@),
{
    if timed_out {
        Error::new(ErrorCode::Network, String::from_str("The request timed out.")).fix(
            String::from_str("Retry once, then stop."),
        )
    } else {
        Error::new(ErrorCode::Network, String::from_str("Could not reach the HeyReach API.")).detail(
            detail,
        ).fix(String::from_str("Retry once, then stop."))
    }
}

/// Where the HeyReach public API lives unless `HEYREACH_API_URL` says otherwise.
pub const DEFAULT_BASE: &'static str = "https://api.heyreach.io/api/public/";

/// The base URL requests go to: the override when it is not blank, else the default, and in
/// either case ending in `/`.
pub open spec fn base_view(override_url: Option<Seq<char>>) -> Seq<char> {
    let b = match override_url {
        Some(u) => if is_blank(u) { DEFAULT_BASE@ } else { u },
        None => DEFAULT_BASE@,
    };
    if b.len() > 0 && b.last() == '/' {
        b
    } else {
        b.push('/')
    }
}

/// The base URL for requests, from the value of `HEYREACH_API_URL` when it is set.
pub fn api_base(override_url: Option<&str>) -> (r: String)
    ensures
        r@ == base_view(
            match override_url {
                Some(u) => Some(u@),
                None => None,
            },
        ),
{
    let mut base = match override_url {
        Some(u) => if blank(u) {
            DEFAULT_BASE.to_owned()
        } else {
            u.to_owned()
        },
        None => DEFAULT_BASE.to_owned(),
    };
    let cs = chars_of(base.as_str());
    if cs.len() > 0 && cs[cs.len() - 1] == '/' {
        base
    } else {
        base.append("/");
        proof {
            reveal_strlit("/");
        }
        base
    }
}

/// A path without its leading slashes.
pub open spec fn trim_leading_slashes(s: Seq<char>) -> Seq<char>
    decreases s.len(),
{
    if s.len() > 0 && s[0] == '/' {
        trim_leading_slashes(s.drop_first())
    } else {
        s
    }
}

/// The full URL of a request: the base followed by the path without its leading slashes.
pub fn request_url(base: &str, path: &str) -> (r: String)
    ensures
        r@ == base@ + trim_leading_slashes(path@),
{
    let cs = chars_of(path);
    let mut i: usize = 0;
    proof {
        assert(cs@.skip(0) =~= cs@);
    }
    while i < cs.len() && cs[i] == '/'
        invariant
            i <= cs@.len(),
            cs@ == path@,
            trim_leading_slashes(path@) == trim_leading_slashes(cs@.skip(i as int)),
        decreases cs@.len() - i,
    {
        proof {
            assert(cs@.skip(i as int).drop_first() =~= cs@.skip(i + 1));
        }
        i = i + 1;
    }
    proof {
        assert(trim_leading_slashes(cs@.skip(i as int)) == cs@.skip(i as int));
        assert(cs@.skip(i as int) =~= cs@.subrange(i as int, cs@.len() as int));
    }
    let mut url = base.to_owned();
    let rest = string_from_chars(vstd::slice::slice_subrange(cs.as_slice(), i, cs.len()));
    url.append(rest.as_str());
    url
}

/// The HTTP methods the API is called with.
#[derive(Clone, Copy, Debug, PartialEq, Eq, Structural)]
pub enum Method {
    Get,
    Post,
    Put,
    Delete,
}

pub open spec fn method_name(m: Method) -> Seq<char> {
    match m {
        Method::Get => "GET"@,
        Method::Post => "POST"@,
        Method::Put => "PUT"@,
        Method::Delete => "DELETE"@,
    }
}

impl Method {
    /// The method's name on the wire.
    pub fn as_str(&self) -> (r: &'static str)
        ensures
            r@ == method_name(*self),
    {
        match self {
            Method::Get => "GET",
            Method::Post => "POST",
            Method::Put => "PUT",
            Method::Delete => "DELETE",
        }
    }
}

/// One call of the API: method, path below the base URL, and the JSON body if any.
#[derive(Debug)]
pub struct Request {
    pub method: Method,
    pub path: String,
    pub body: Option<Json>,
}

/// The view of a [`Request`].
pub struct RequestV {
    pub method: Method,
    pub path: Seq<char>,
    pub body: Option<JsonV>,
}

impl View for Request {
    type V = RequestV;

    open spec fn view(&self) -> RequestV {
        RequestV { method: self.method, path: self.path@, body: opt_json_view(self.body) }
    }
}

/// A `GET` of a path.
pub open spec fn get_req(path: Seq<char>) -> RequestV {
    RequestV { method: Method::Get, path, body: None }
}

/// A `POST` of a JSON body to a path.
pub open spec fn post_req(path: Seq<char>, body: JsonV) -> RequestV {
    RequestV { method: Method::Post, path, body: Some(body) }
}

/// A `PUT` of a JSON body to a path.
pub open spec fn put_req(path: Seq<char>, body: JsonV) -> RequestV {
    RequestV { method: Method::Put, path, body: Some(body) }
}

/// A `DELETE` of a path.
pub open spec fn delete_req(path: Seq<char>) -> RequestV {
    RequestV { method: Method::Delete, path, body: None }
}

impl Request {
    pub fn get(path: String) -> (r: Request)
        ensures
            r@ == get_req(path@),
    {
        Request { method: Method::Get, path, body: None }
    }

    pub fn post(path: String, body: Json) -> (r: Request)
        ensures
            r@ == post_req(path@, body@),
    {
        Request { method: Method::Post, path, body: Some(body) }
    }

    pub fn put(path: String, body: Json) -> (r: Request)
        ensures
            r@ == put_req(path@, body@),
    {
        Request { method: Method::Put, path, body: Some(body) }
    }

    pub fn delete(path: String) -> (r: Request)
        ensures
            r@ == delete_req(path@),
    {
        Request { method: Method::Delete, path, body: None }
    }
}


/// Every status from 500 up is a server error, whichever one it is: class `network` (exit
/// status 2), the body's message or else "The HeyReach API returned a server error.", the
/// advice to retry, and `HTTP <status>` (with `: <body>` when there is a body) as detail. A
/// reply with such a status fails with that class, whatever its body.
pub proof fn server_errors_are_network(
    status: u16,
    body: Seq<char>,
    parsed: Option<Seq<char>>,
    retry_after: Option<Seq<char>>,
    bytes: Seq<u8>,
)
    requires
        status >= 500,
    ensures
        status_class(status) == ErrorCode::Network,
        exit_status(status_class(status)) == 2,
        status_error_view(status, body, parsed) == (ErrorV {
            code: ErrorCode::Network,
            message: match parsed {
                Some(m) => m,
                None => "The HeyReach API returned a server error."@,
            },
            detail: Some(
                if body.len() == 0 {
                    "HTTP "@ + decimal(status as nat)
                } else {
                    "HTTP "@ + decimal(status as nat) + ": "@ + body
                },
            ),
            remediation: Some("Retry; if it persists the platform is having trouble."@),
        }),
        reply_view(status, retry_after, bytes) matches Err(e) && e.code == ErrorCode::Network && e.remediation
            == Some("Retry; if it persists the platform is having trouble."@),
{
}


/// The error of each unsuccessful status, by class: 401 and 403 `auth_required` (exit status
/// 3) with the advice to check the key; 404 `not_found` (4); 429 `rate_limited` (5) with a
/// fixed message and the advice to back off; 400 and 422 `invalid_input` (6); 500 and up
/// `network` (2); any other `error` (1). Except for a 429, the message is the one the body
/// carried when it carried one; the detail always quotes the status and the body.
pub proof fn status_classes(status: u16, body: Seq<char>, parsed: Option<Seq<char>>)
    ensures
        ({
            let e = status_error_view(status, body, parsed);
            &&& e.code == status_class(status)
            &&& (status == 401 || status == 403) ==> e.code == ErrorCode::AuthRequired && exit_status(e.code) == 3
                && e.remediation == Some("heyreach auth check (or run 'heyreach login <name>')"@)
            &&& status == 404 ==> e.code == ErrorCode::NotFound && exit_status(e.code) == 4 && e.remediation is None
            &&& status == 429 ==> e.code == ErrorCode::RateLimited && exit_status(e.code) == 5 && e.message
                == "Rate limited by the HeyReach API."@ && e.remediation == Some("Back off before retrying."@)
            &&& (status == 400 || status == 422) ==> e.code == ErrorCode::InvalidInput && exit_status(e.code) == 6
                && e.remediation is None
            &&& (status != 401 && status != 403 && status != 404 && status != 429 && status != 400 && status != 422
                && status < 500) ==> e.code == ErrorCode::Error && exit_status(e.code) == 1 && e.remediation is None
                && (parsed is None ==> e.message == "The request failed."@)
            &&& (status != 429 && parsed is Some) ==> e.message == parsed->0
            &&& e.detail == Some(
                if body.len() == 0 {
                    "HTTP "@ + decimal(status as nat)
                } else {
                    "HTTP "@ + decimal(status as nat) + ": "@ + body
                },
            )
        }),
{
}

/// What a reply reads as. A successful reply whose body is empty or only ASCII whitespace
/// reads as `{"status": "ok"}`; any other successful body as its JSON document, or as a string
/// of its text when it is not JSON. A 429 is a rate-limit error that says how long to wait: the
/// `Retry-After` seconds when the header is a whole number, else 60.
pub proof fn reply_bodies(status: u16, retry_after: Option<Seq<char>>, bytes: Seq<u8>)
    ensures
        (200 <= status < 300 && forall|i: int| 0 <= i < bytes.len() ==> (#[trigger] bytes[i] == 32 || bytes[i] == 9
            || bytes[i] == 10 || bytes[i] == 12 || bytes[i] == 13)) ==> reply_view(status, retry_after, bytes) == Ok::<
            JsonV,
            ErrorV,
        >(JsonV::Object(seq![("status"@, JsonV::Str("ok"@))])),
        (200 <= status < 300 && exists|i: int| 0 <= i < bytes.len() && !(#[trigger] bytes[i] == 32 || bytes[i] == 9
            || bytes[i] == 10 || bytes[i] == 12 || bytes[i] == 13)) ==> reply_view(status, retry_after, bytes) == Ok::<
            JsonV,
            ErrorV,
        >(
            match parse_json_bytes(bytes) {
                Some(v) => v,
                None => JsonV::Str(lossy_text(bytes)),
            },
        ),
        status == 429 ==> reply_view(status, retry_after, bytes) == Err::<JsonV, ErrorV>(
            ErrorV {
                code: ErrorCode::RateLimited,
                message: "Rate limited (429). Retry after "@ + decimal(
                    (match retry_after {
                        Some(h) => match parse_u64(h) {
                            Some(n) => n,
                            None => 60u64,
                        },
                        None => 60u64,
                    }) as nat,
                ) + "s"@,
                detail: Some(trim(lossy_text(bytes))),
                remediation: Some("Back off before retrying."@),
            },
        ),
{
    assert(obj(seq![("status"@, JsonV::Str("ok"@))]) == JsonV::Object(seq![("status"@, JsonV::Str("ok"@))]));
}

/// The query string holds `name=value` for each parameter that has a value, in order and joined
/// by `&`, after a `?`: a lone parameter gives `?name=value`, and a parameter without a value
/// changes nothing.
pub proof fn query_skips_parameters_without_value(
    ps: Seq<(Seq<char>, Option<Seq<char>>)>,
    name: Seq<char>,
    value: Seq<char>,
)
    ensures
        query_text(ps.push((name, None))) == query_text(ps),
        query_text(seq![(name, Some(value))]) == "?"@ + name + "="@ + seg_text(value),
        query_text(Seq::<(Seq<char>, Option<Seq<char>>)>::empty()) == Seq::<char>::empty(),
{
    assert(ps.push((name, None)).drop_last() =~= ps);
    let one = seq![(name, Some(value))];
    assert(one.drop_last() =~= Seq::<(Seq<char>, Option<Seq<char>>)>::empty());
    assert(one.last() == (name, Some(value)));
    assert(query_parts(Seq::<(Seq<char>, Option<Seq<char>>)>::empty()) =~= Seq::<Seq<char>>::empty());
    assert(query_parts(one) =~= seq![name + "="@ + seg_text(value)]);
}

} // verus!
