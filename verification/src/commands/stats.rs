//! `stats get`: overall outreach statistics.

use vstd::prelude::*;
use vstd::string::StringExecFns;
use crate::client::{Request, Method, post_req};
use crate::error::{Error, ErrorV, ErrorCode, err};
use crate::json::{Json, JsonV, fields_view, push_field, obj, num, json_seq_view, lemma_json_seq_view_push};
use crate::text::{is_blank, blank, is_ascii_digit, chars_of, int_text};
use super::{ApiCall, ApiCallV, Reply, raw, new_fields};
use super::campaigns::call_result_view;

verus! {

/// A date written `yyyy-MM-dd`: four digits, `-`, two digits, `-`, two digits.
pub open spec fn date_shaped(s: Seq<char>) -> bool {
    &&& s.len() == 10
    &&& s[4] == '-'
    &&& s[7] == '-'
    &&& forall|i: int| 0 <= i < 10 && i != 4 && i != 7 ==> is_ascii_digit(#[trigger] s[i])
}

/// The error for a date flag that is not `yyyy-MM-dd`.
pub open spec fn date_error(field: Seq<char>) -> ErrorV {
    err(ErrorCode::InvalidInput, field + " must be in yyyy-MM-dd format"@)
}

/// Checks that a date has the `yyyy-MM-dd` shape: three `-`-separated parts of four, two and
/// two ASCII digits.
pub fn validate_date(date_str: &str, field: &str) -> (r: Result<(), Error>)
    ensures
        match r {
            Ok(()) => date_shaped(date_str@),
            Err(e) => !date_shaped(date_str@) && e@ == date_error(field@),
        },
{
    let cs = chars_of(date_str);
    let mut ok = cs.len() == 10;
    if ok {
        ok = cs[4] == '-' && cs[7] == '-';
    }
    let mut i: usize = 0;
    while ok && i < 10
        invariant
            i <= 10,
            cs@ == date_str@,
            ok ==> cs@.len() == 10 && cs@[4] == '-' && cs@[7] == '-',
            ok ==> forall|k: int| 0 <= k < i && k != 4 && k != 7 ==> is_ascii_digit(#[trigger] cs@[k]),
            !ok ==> !date_shaped(date_str@),
        decreases 10 - i,
    {
        if i != 4 && i != 7 && !('0' <= cs[i] && cs[i] <= '9') {
            ok = false;
        }
        i = i + 1;
    }
    if ok {
        Ok(())
    } else {
        let mut m = field.to_owned();
        m.append(" must be in yyyy-MM-dd format");
        Err(Error::invalid(m))
    }
}

/// A JSON array holding the id when there is one.
pub open spec fn id_list(id: Option<i64>) -> JsonV {
    match id {
        Some(i) => JsonV::Array(seq![num(i as int)]),
        None => JsonV::Array(Seq::empty()),
    }
}

/// A date flag that is set and not blank.
pub open spec fn given(d: Option<Seq<char>>) -> bool {
    d matches Some(s) && !is_blank(s)
}

/// Members `base` followed by `key: date` when the date is given.
pub open spec fn with_date(base: Seq<(Seq<char>, JsonV)>, key: Seq<char>, d: Option<Seq<char>>) -> Seq<(Seq<char>, JsonV)> {
    if given(d) {
        base.push((key, JsonV::Str(d->0)))
    } else {
        base
    }
}

/// `stats get`: the sender and campaign ids as one-element or empty arrays, then each given
/// date once it has the `yyyy-MM-dd` shape; the first misshapen date is refused.
pub open spec fn get_call(
    from: Option<Seq<char>>,
    to: Option<Seq<char>>,
    campaign_id: Option<i64>,
    sender_id: Option<i64>,
) -> Result<ApiCallV, ErrorV> {
    let base = seq![("accountIds"@, id_list(sender_id)), ("campaignIds"@, id_list(campaign_id))];
    if given(from) && !date_shaped(from->0) {
        Err(date_error("--from"@))
    } else if given(to) && !date_shaped(to->0) {
        Err(date_error("--to"@))
    } else {
        Ok(raw(post_req("stats/GetOverallStats"@, obj(with_date(with_date(base, "from"@, from), "to"@, to)))))
    }
}

fn id_array(id: Option<i64>) -> (r: Json)
    ensures
        r@ == id_list(id),
{
    let mut items: Vec<Json> = Vec::new();
    proof {
        assert(json_seq_view(items@) =~= Seq::<JsonV>::empty());
    }
    match id {
        Some(i) => {
            let n = Json::from_i64(i);
            proof {
                lemma_json_seq_view_push(items@, n);
            }
            items.push(n);
            assert(json_seq_view(items@) =~= seq![num(i as int)]);
        },
        None => {},
    }
    Json::Array(items)
}

/// Checks and appends one date flag.
fn push_date(fields: &mut Vec<(String, Json)>, key: &str, flag: &str, d: Option<String>) -> (r: Result<(), Error>)
    ensures
        match r {
            Ok(()) => !(given(crate::error::opt_view(d)) && !date_shaped(crate::error::opt_view(d)->0))
                && fields_view(final(fields)@) == with_date(fields_view(old(fields)@), key@, crate::error::opt_view(d)),
            Err(e) => given(crate::error::opt_view(d)) && !date_shaped(crate::error::opt_view(d)->0)
                && e@ == date_error(flag@),
        },
{
    match d {
        Some(s) => {
            if !blank(s.as_str()) {
                validate_date(s.as_str(), flag)?;
                push_field(fields, key, Json::Str(s));
            }
            Ok(())
        },
        None => Ok(()),
    }
}

/// Fetches the overall statistics, optionally for a date range, a campaign and a sender.
pub fn get(from: Option<String>, to: Option<String>, campaign_id: Option<i64>, sender_id: Option<i64>) -> (r: Result<ApiCall, Error>)
    ensures
        call_result_view(r) == get_call(
            crate::error::opt_view(from),
            crate::error::opt_view(to),
            campaign_id,
            sender_id,
        ),
{
    let mut f = new_fields();
    push_field(&mut f, "accountIds", id_array(sender_id));
    push_field(&mut f, "campaignIds", id_array(campaign_id));
    assert(fields_view(f@) =~= seq![("accountIds"@, id_list(sender_id)), ("campaignIds"@, id_list(campaign_id))]);
    match push_date(&mut f, "from", "--from", from) {
        Ok(()) => {},
        Err(e) => return Err(e),
    }
    match push_date(&mut f, "to", "--to", to) {
        Ok(()) => {},
        Err(e) => return Err(e),
    }
    Ok(ApiCall { request: Request::post("stats/GetOverallStats".to_owned(), Json::Object(f)), reply: Reply::Raw })
}


/// `stats get` is refused exactly when a given date is not `yyyy-MM-dd`; otherwise it posts to
/// `stats/GetOverallStats` a body whose first members are `accountIds` and `campaignIds`, each
/// `[id]` when that filter is given and `[]` when it is not.
pub proof fn stats_filters_are_sent(
    from: Option<Seq<char>>,
    to: Option<Seq<char>>,
    campaign_id: Option<i64>,
    sender_id: Option<i64>,
)
    ensures
        get_call(from, to, campaign_id, sender_id) is Ok <==> (!(from matches Some(f) && !is_blank(f)
            && !date_shaped(f)) && !(to matches Some(t) && !is_blank(t) && !date_shaped(t))),
        get_call(from, to, campaign_id, sender_id) matches Ok(call) ==> ({
            &&& call.request.method == Method::Post
            &&& call.request.path == "stats/GetOverallStats"@
            &&& call.reply == Reply::Raw
            &&& call.request.body matches Some(JsonV::Object(fs))
            &&& fs.len() >= 2
            &&& fs[0] == ("accountIds"@, JsonV::Array(
                match sender_id {
                    Some(i) => seq![JsonV::Number(int_text(i as int))],
                    None => Seq::<JsonV>::empty(),
                },
            ))
            &&& fs[1] == ("campaignIds"@, JsonV::Array(
                match campaign_id {
                    Some(i) => seq![JsonV::Number(int_text(i as int))],
                    None => Seq::<JsonV>::empty(),
                },
            ))
        }),
{
    let base = seq![("accountIds"@, id_list(sender_id)), ("campaignIds"@, id_list(campaign_id))];
    let fs = with_date(with_date(base, "from"@, from), "to"@, to);
    assert(fs.len() >= 2 && fs[0] == base[0] && fs[1] == base[1]);
}


/// A date passes exactly when it is ten characters long, with `-` fifth and eighth and an
/// ASCII digit everywhere else; a misshapen date is refused with `invalid_input`, naming the
/// flag.
pub proof fn date_check(s: Seq<char>, field: Seq<char>)
    ensures
        date_shaped(s) <==> (s.len() == 10 && s[4] == '-' && s[7] == '-' && forall|i: int|
            0 <= i < 10 && i != 4 && i != 7 ==> ('0' <= #[trigger] s[i] && s[i] <= '9')),
        date_error(field) == (ErrorV {
            code: ErrorCode::InvalidInput,
            message: field + " must be in yyyy-MM-dd format"@,
            detail: None,
            remediation: None,
        }),
{
}

} // verus!
