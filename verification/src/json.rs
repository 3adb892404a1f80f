//! A plain model of JSON documents. Request bodies are built in it, and what the HeyReach
//! API sends back is read into it; numbers are kept as their decimal text.

use vstd::prelude::*;
use crate::text::{int_text, i64_text, u64_text, string_from_chars, str_eq};

verus! {

/// A JSON value. Object members keep the order in which they were inserted.
#[derive(Debug)]
pub enum Json {
    Null,
    Bool(bool),
    Number(String),
    Str(String),
    Array(Vec<Json>),
    Object(Vec<(String, Json)>),
}

/// The mathematical view of a [`Json`] value.
pub enum JsonV {
    Null,
    Bool(bool),
    Number(Seq<char>),
    Str(Seq<char>),
    Array(Seq<JsonV>),
    Object(Seq<(Seq<char>, JsonV)>),
}

pub open spec fn json_view(j: Json) -> JsonV
    decreases j,
{
    match j {
        Json::Null => JsonV::Null,
        Json::Bool(b) => JsonV::Bool(b),
        Json::Number(n) => JsonV::Number(n@),
        Json::Str(s) => JsonV::Str(s@),
        Json::Array(v) => JsonV::Array(json_seq_view(v@)),
        Json::Object(f) => JsonV::Object(fields_view(f@)),
    }
}

pub open spec fn json_seq_view(s: Seq<Json>) -> Seq<JsonV>
    decreases s,
{
    if s.len() == 0 {
        Seq::empty()
    } else {
        json_seq_view(s.subrange(0, s.len() - 1)).push(json_view(s[s.len() - 1]))
    }
}

pub open spec fn fields_view(s: Seq<(String, Json)>) -> Seq<(Seq<char>, JsonV)>
    decreases s,
{
    if s.len() == 0 {
        Seq::empty()
    } else {
        fields_view(s.subrange(0, s.len() - 1)).push(
            (s[s.len() - 1].0@, json_view(s[s.len() - 1].1)),
        )
    }
}

impl View for Json {
    type V = JsonV;

    open spec fn view(&self) -> JsonV {
        json_view(*self)
    }
}

pub proof fn lemma_fields_view(s: Seq<(String, Json)>)
    ensures
        fields_view(s).len() == s.len(),
        forall|i: int|
            0 <= i < s.len() ==> #[trigger] fields_view(s)[i] == (s[i].0@, json_view(s[i].1)),
    decreases s.len(),
{
    if s.len() > 0 {
        lemma_fields_view(s.subrange(0, s.len() - 1));
    }
}

pub proof fn lemma_json_seq_view(s: Seq<Json>)
    ensures
        json_seq_view(s).len() == s.len(),
        forall|i: int| 0 <= i < s.len() ==> #[trigger] json_seq_view(s)[i] == json_view(s[i]),
    decreases s.len(),
{
    if s.len() > 0 {
        lemma_json_seq_view(s.subrange(0, s.len() - 1));
    }
}

pub proof fn lemma_fields_view_push(s: Seq<(String, Json)>, k: String, v: Json)
    ensures
        fields_view(s.push((k, v))) == fields_view(s).push((k@, json_view(v))),
{
    assert(s.push((k, v)).subrange(0, s.len() as int) =~= s);
}

pub proof fn lemma_json_seq_view_push(s: Seq<Json>, v: Json)
    ensures
        json_seq_view(s.push(v)) == json_seq_view(s).push(json_view(v)),
{
    assert(s.push(v).subrange(0, s.len() as int) =~= s);
}

/// The value stored under `key` in a list of members: the first member with that name.
pub open spec fn field_get(fs: Seq<(Seq<char>, JsonV)>, key: Seq<char>) -> Option<JsonV>
    decreases fs.len(),
{
    if fs.len() == 0 {
        None
    } else if fs[0].0 == key {
        Some(fs[0].1)
    } else {
        field_get(fs.drop_first(), key)
    }
}

/// `Value::get` with a string key: a member of an object, and nothing for any other value.
pub open spec fn get(v: JsonV, key: Seq<char>) -> Option<JsonV> {
    match v {
        JsonV::Object(fs) => field_get(fs, key),
        _ => None,
    }
}

/// `value.get(key).and_then(Value::as_str)`.
pub open spec fn get_str(v: JsonV, key: Seq<char>) -> Option<Seq<char>> {
    match get(v, key) {
        Some(JsonV::Str(s)) => Some(s),
        _ => None,
    }
}

/// An object of members in the given order.
pub open spec fn obj(fs: Seq<(Seq<char>, JsonV)>) -> JsonV {
    JsonV::Object(fs)
}

/// A JSON number holding an integer.
pub open spec fn num(i: int) -> JsonV {
    JsonV::Number(int_text(i))
}

/// The view of an optional JSON value.
pub open spec fn opt_json_view(o: Option<Json>) -> Option<JsonV> {
    match o {
        Some(j) => Some(json_view(j)),
        None => None,
    }
}

/// The view of an optional borrowed JSON value.
pub open spec fn opt_ref_view(o: Option<&Json>) -> Option<JsonV> {
    match o {
        Some(j) => Some(json_view(*j)),
        None => None,
    }
}

impl Json {
    /// A JSON string.
    pub fn string(s: &str) -> (r: Json)
        ensures
            r@ == JsonV::Str(s@),
    {
        Json::Str(s.to_owned())
    }

    /// A JSON number from a signed integer.
    pub fn from_i64(x: i64) -> (r: Json)
        ensures
            r@ == num(x as int),
    {
        let t = i64_text(x);
        Json::Number(string_from_chars(t.as_slice()))
    }

    /// A JSON number from an unsigned integer.
    pub fn from_u64(x: u64) -> (r: Json)
        ensures
            r@ == num(x as int),
    {
        let t = u64_text(x);
        Json::Number(string_from_chars(t.as_slice()))
    }

    /// The member stored under `key`, when this is an object.
    pub fn get(&self, key: &str) -> (r: Option<&Json>)
        ensures
            opt_ref_view(r) == get(self@, key@),
    {
        match self {
            Json::Object(fs) => {
                let mut i: usize = 0;
                proof {
                    assert(*self == Json::Object(*fs));
                    assert(json_view(Json::Object(*fs)) == JsonV::Object(fields_view(fs@)));
                    lemma_fields_view(fs@);
                    assert(fields_view(fs@).skip(0) =~= fields_view(fs@));
                }
                while i < fs.len()
                    invariant
                        i <= fs@.len(),
                        self@ == JsonV::Object(fields_view(fs@)),
                        fields_view(fs@).len() == fs@.len(),
                        forall|j: int|
                            0 <= j < fs@.len() ==> #[trigger] fields_view(fs@)[j] == (
                                fs@[j].0@,
                                json_view(fs@[j].1),
                            ),
                        field_get(fields_view(fs@), key@) == field_get(
                            fields_view(fs@).skip(i as int),
                            key@,
                        ),
                    decreases fs@.len() - i,
                {
                    let (k, v) = &fs[i];
                    proof {
                        let rest = fields_view(fs@).skip(i as int);
                        assert(rest[0] == fields_view(fs@)[i as int]);
                        assert(rest.drop_first() =~= fields_view(fs@).skip(i + 1));
                    }
                    if str_eq(k.as_str(), key) {
                        proof {
                            let rest = fields_view(fs@).skip(i as int);
                            assert(rest.len() > 0);
                            assert(rest[0].0 == key@);
                            assert(field_get(rest, key@) == Some(rest[0].1));
                            assert(rest[0].1 == json_view(fs@[i as int].1));
                            assert(*v == fs@[i as int].1);
                            assert(self@ == JsonV::Object(fields_view(fs@)));
                        }
                        return Some(v);
                    }
                    i = i + 1;
                }
                None
            },
            _ => None,
        }
    }

    /// The string stored under `key`, when this is an object and the member is a string.
    pub fn get_str(&self, key: &str) -> (r: Option<String>)
        ensures
            match r {
                Some(s) => get_str(self@, key@) == Some(s@),
                None => get_str(self@, key@) is None,
            },
    {
        match self.get(key) {
            Some(Json::Str(s)) => Some(s.clone()),
            _ => None,
        }
    }
}

/// Appends a member to a list of object members.
pub fn push_field(fields: &mut Vec<(String, Json)>, key: &str, value: Json)
    ensures
        fields_view(final(fields)@) == fields_view(old(fields)@).push((key@, value@)),
{
    let k = key.to_owned();
    proof {
        lemma_fields_view_push(fields@, k, value);
    }
    fields.push((k, value));
}

/// `serde_json::Value`, carried through the conversion into [`Json`].
#[verifier::external_type_specification]
#[verifier::external_body]
pub struct ExValue(serde_json::Value);

/// What `serde_json::from_str::<serde_json::Value>` makes of a text: the document read into
/// [`JsonV`], or the text of the parser's error.
pub uninterp spec fn parse_json_text(text: Seq<char>) -> Result<JsonV, Seq<char>>;

/// What `serde_json::from_slice::<serde_json::Value>` makes of a byte string: the document
/// read into [`JsonV`], or nothing when it is not a JSON document.
pub uninterp spec fn parse_json_bytes(bytes: Seq<u8>) -> Option<JsonV>;

/// Parses a JSON text with `serde_json::from_str` into a `serde_json::Value`, then carries the
/// value over into [`Json`] variant by variant (numbers as their `Display` text, object members
/// in the map's order). The contract only ties the result to the name [`parse_json_text`];
/// what serde_json accepts and how it words its errors is left unsaid.
#[verifier::external_body]
pub(crate) fn json_from_str(text: &str) -> (r: Result<Json, String>)
    ensures
        match r {
            Ok(j) => parse_json_text(text@) == Ok::<JsonV, Seq<char>>(j@),
            Err(e) => parse_json_text(text@) == Err::<JsonV, Seq<char>>(e@),
        },
{
    match serde_json::from_str::<serde_json::Value>(text) {
        Ok(v) => Ok(from_value(v)),
        Err(e) => Err(e.to_string()),
    }
}

/// Parses a byte string with `serde_json::from_slice` into a `serde_json::Value` and carries it
/// over into [`Json`]; a parse failure gives `None`. The contract only ties the result to the
/// name [`parse_json_bytes`].
#[verifier::external_body]
pub(crate) fn json_from_bytes(bytes: &[u8]) -> (r: Option<Json>)
    ensures
        opt_json_view(r) == parse_json_bytes(bytes@),
{
    serde_json::from_slice::<serde_json::Value>(bytes).ok().map(from_value)
}

/// Moves a `serde_json::Value` into [`Json`], one variant onto the other: the conversion of
/// the results of [`json_from_str`] and [`json_from_bytes`], and used by nothing else.
#[verifier::external_body]
fn from_value(v: serde_json::Value) -> Json {
    match v {
        serde_json::Value::Null => Json::Null,
        serde_json::Value::Bool(b) => Json::Bool(b),
        serde_json::Value::Number(n) => Json::Number(n.to_string()),
        serde_json::Value::String(s) => Json::Str(s),
        serde_json::Value::Array(a) => Json::Array(a.into_iter().map(from_value).collect()),
        serde_json::Value::Object(m) => Json::Object(
            m.into_iter().map(|(k, x)| (k, from_value(x))).collect(),
        ),
    }
}

} // verus!
