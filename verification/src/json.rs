//! A plain-data model of parsed JSON payloads.
//!
//! The remote service answers every request with text.  Parsing that text is
//! left to `serde_json`; everything after the parse — classifying the
//! outcome, looking fields up, checking their types — is verified code over
//! the [`JsonValue`] tree that the trusted parser hands back.

use vstd::prelude::*;

verus! {

/// A parsed JSON document as plain data.
///
/// Numbers are kept only as far as the wire format needs them here: every
/// numeric field of the service is an unsigned integer, so a number that is
/// negative or fractional is recorded as [`JsonValue::NonUIntNum`] and fails
/// any typed extraction.
#[derive(Debug, PartialEq, Eq)]
pub enum JsonValue {
    Null,
    Bool(bool),
    /// A number representable as a `u64`.
    UInt(u64),
    /// Any other number (negative or fractional).
    NonUIntNum,
    Str(String),
    Arr(Vec<JsonValue>),
    /// An object's fields, with distinct keys, in the order the parser's
    /// map iterates them (sorted by key).
    Obj(Vec<(String, JsonValue)>),
}

/// How the parser judged a payload.
#[derive(Debug)]
pub enum ParseOutcome {
    /// Syntactically valid JSON, as a value tree.
    Json(JsonValue),
    /// Not JSON at all: the parser reports a syntax-level failure.
    SyntaxBroken,
    /// The parser failed for another reason (for instance a truncated
    /// document); the parser's message is kept.
    OtherBroken(String),
}

/// `serde_json`'s parsed-document type, declared so that the conversion
/// below may take it; the tree is opaque to the verifier.
#[verifier::external_type_specification]
#[verifier::external_body]
pub struct ExValue(serde_json::Value);

/// Names the outcome of `serde_json`'s parse of a payload: the same text
/// always parses the same way.
pub uninterp spec fn spec_parse_json(s: Seq<char>) -> ParseOutcome;

/// Relies on `serde_json::from_str::<Value>` to parse the text,
/// `serde_json::Error::classify` to separate syntax-level failures from the
/// rest, and `Number::as_u64` to read integers; the result is a function of
/// the text alone.
#[verifier::external_body]
pub fn parse_json(text: &str) -> (r: ParseOutcome)
    ensures
        r == spec_parse_json(text@),
{
    match serde_json::from_str::<serde_json::Value>(text) {
        Ok(v) => ParseOutcome::Json(convert_value(&v)),
        Err(e) => match e.classify() {
            serde_json::error::Category::Syntax => ParseOutcome::SyntaxBroken,
            _ => ParseOutcome::OtherBroken(format!("{e}")),
        },
    }
}

/// Relies on `serde_json::Value`'s variant accessors; converts the parsed
/// tree into the plain [`JsonValue`] form, one node for one node.
#[verifier::external_body]
fn convert_value(v: &serde_json::Value) -> JsonValue {
    match v {
        serde_json::Value::Null => JsonValue::Null,
        serde_json::Value::Bool(b) => JsonValue::Bool(*b),
        serde_json::Value::Number(n) => match n.as_u64() {
            Some(u) => JsonValue::UInt(u),
            None => JsonValue::NonUIntNum,
        },
        serde_json::Value::String(s) => JsonValue::Str(s.clone()),
        serde_json::Value::Array(items) => JsonValue::Arr(items.iter().map(convert_value).collect()),
        serde_json::Value::Object(fields) => JsonValue::Obj(
            fields.iter().map(|(k, x)| (k.clone(), convert_value(x))).collect(),
        ),
    }
}

/// Relies on `str`'s `PartialEq`: two string slices are equal exactly when
/// their characters are.
#[verifier::external_body]
pub fn str_eq(a: &str, b: &str) -> (r: bool)
    ensures
        r == (a@ == b@),
{
    a == b
}

/// The value under `key` in an object's field list, if any: the first
/// binding whose key reads `key`.
pub open spec fn spec_lookup(fields: Seq<(String, JsonValue)>, key: Seq<char>) -> Option<JsonValue>
    decreases fields.len(),
{
    if fields.len() == 0 {
        None
    } else if fields[0].0@ == key {
        Some(fields[0].1)
    } else {
        spec_lookup(fields.drop_first(), key)
    }
}

/// Finds the field named `key` in an object's field list.
pub fn lookup<'a>(fields: &'a Vec<(String, JsonValue)>, key: &str) -> (r: Option<&'a JsonValue>)
    ensures
        match r {
            Some(v) => spec_lookup(fields@, key@) == Some(*v),
            None => spec_lookup(fields@, key@) is None,
        },
{
    let n = fields.len();
    let mut i: usize = 0;
    assert(fields@.skip(0) =~= fields@);
    while i < n
        invariant
            n == fields@.len(),
            i <= n,
            spec_lookup(fields@, key@) == spec_lookup(fields@.skip(i as int), key@),
        decreases n - i,
    {
        assert(fields@.skip(i as int)[0] == fields@[i as int]);
        if str_eq(fields[i].0.as_str(), key) {
            return Some(&fields[i].1);
        }
        assert(fields@.skip(i as int).drop_first() =~= fields@.skip(i + 1));
        i = i + 1;
    }
    assert(fields@.skip(n as int) =~= Seq::<(String, JsonValue)>::empty());
    None
}

} // verus!
