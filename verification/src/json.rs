//! A plain model of JSON trees, and the trusted boundary to the
//! serde_json parser that produces them.  A number is kept as the
//! canonical text serde_json renders for it — plain digits for a
//! non-negative integer, a leading `-` for a negative one, and a `.`
//! or exponent for a float — which is exactly what the tolerant
//! decoder needs to inspect.
use vstd::prelude::*;

verus! {

/// A parsed JSON tree over plain values.
#[derive(Debug)]
pub enum JsonValue {
    Null,
    Bool(bool),
    /// A number, as its canonical serde_json text.
    Number(String),
    /// A string literal.
    Text(String),
    Array(Vec<JsonValue>),
    /// Object members, in the order serde_json's map yields them, with
    /// duplicate keys already collapsed by the parser.
    Object(Vec<(String, JsonValue)>),
}

/// The first member of `fields` named `key`, if any.
pub open spec fn obj_lookup(fields: Seq<(String, JsonValue)>, key: Seq<char>) -> Option<
    JsonValue,
>
    decreases fields.len(),
{
    if fields.len() == 0 {
        None
    } else if fields[0].0@ == key {
        Some(fields[0].1)
    } else {
        obj_lookup(fields.drop_first(), key)
    }
}

/// Finds the first member of `fields` named `key`.
pub fn lookup_field<'a>(fields: &'a Vec<(String, JsonValue)>, key: &str) -> (r: Option<
    &'a JsonValue,
>)
    ensures
        match r {
            Some(v) => obj_lookup(fields@, key@) == Some(*v),
            None => obj_lookup(fields@, key@) is None,
        },
{
    let mut i: usize = 0;
    proof {
        assert(fields@.subrange(0, fields@.len() as int) =~= fields@);
    }
    while i < fields.len()
        invariant
            i <= fields.len(),
            obj_lookup(fields@, key@) == obj_lookup(fields@.subrange(i as int, fields@.len() as int), key@),
        decreases fields.len() - i,
    {
        let ghost rest = fields@.subrange(i as int, fields@.len() as int);
        proof {
            assert(rest[0] == fields@[i as int]);
            assert(rest.drop_first() =~= fields@.subrange(i + 1, fields@.len() as int));
        }
        if str_eq(fields[i].0.as_str(), key) {
            return Some(&fields[i].1);
        }
        i = i + 1;
    }
    proof {
        assert(fields@.subrange(fields@.len() as int, fields@.len() as int)
            =~= Seq::<(String, JsonValue)>::empty());
    }
    None
}

/// Relies on `str`'s `PartialEq`: two string slices are equal exactly
/// when their characters are.
#[verifier::external_body]
pub(crate) fn str_eq(a: &str, b: &str) -> (r: bool)
    ensures
        r == (a@ == b@),
{
    a == b
}

#[verifier::external_type_specification]
#[verifier::external_body]
pub struct ExSerdeValue(serde_json::Value);

/// What parsing a body yields: a tree for valid JSON text, nothing for
/// the rest.  It is a function of the text alone.
pub uninterp spec fn json_of(s: Seq<char>) -> Option<JsonValue>;

/// Relies on serde_json's `Value` tree: each variant is carried over
/// one-for-one, a number as the canonical text of serde_json's own
/// display form.
#[verifier::external_body]
fn from_serde_value(v: serde_json::Value) -> JsonValue {
    match v {
        serde_json::Value::Null => JsonValue::Null,
        serde_json::Value::Bool(b) => JsonValue::Bool(b),
        serde_json::Value::Number(n) => JsonValue::Number(n.to_string()),
        serde_json::Value::String(s) => JsonValue::Text(s),
        serde_json::Value::Array(a) => JsonValue::Array(
            a.into_iter().map(from_serde_value).collect(),
        ),
        serde_json::Value::Object(m) => JsonValue::Object(
            m.into_iter().map(|(k, x)| (k, from_serde_value(x))).collect(),
        ),
    }
}

/// Relies on `serde_json::from_str`: yields a tree exactly for valid
/// JSON text, and the same tree for the same text.
#[verifier::external_body]
fn parse_json_text(s: &str) -> (r: Option<JsonValue>)
    ensures
        r == json_of(s@),
{
    serde_json::from_str::<serde_json::Value>(s).ok().map(from_serde_value)
}

/// Parses a response body into a JSON tree, if it is valid JSON.
pub fn parse_json(s: &str) -> (r: Option<JsonValue>)
    ensures
        r == json_of(s@),
{
    parse_json_text(s)
}

} // verus!
