//! Reading single string fields out of JSON response bodies. The lookups are
//! done by serde_json; their results are named here so that the extraction
//! logic can be given exact contracts.

use vstd::prelude::*;

verus! {

/// The string value at top-level key `key` of the JSON document `body`:
/// `Some` exactly when `body` parses as JSON, the document is an object with
/// that key, and the value there is a string. A function of the document
/// text and key alone.
pub uninterp spec fn json_str_field(body: Seq<char>, key: Seq<char>) -> Option<Seq<char>>;

/// The string value at `outer`.`inner` of the JSON document `body`: `Some`
/// exactly when `body` parses as JSON, holds an object at top-level key
/// `outer`, and that object holds a string at key `inner`. A function of the
/// document text and keys alone.
pub uninterp spec fn json_nested_str_field(
    body: Seq<char>,
    outer: Seq<char>,
    inner: Seq<char>,
) -> Option<Seq<char>>;

/// Relies on serde_json::from_str, serde_json::Value::get and
/// serde_json::Value::as_str: looks up the string value at a top-level key
/// of a JSON document, which depends on the document and key alone.
#[verifier::external_body]
pub(crate) fn lookup_str_field(body: &str, key: &str) -> (r: Option<String>)
    ensures
        (match r {
            Some(s) => json_str_field(body@, key@) == Some(s@),
            None => json_str_field(body@, key@) is None,
        }),
{
    let v: serde_json::Value = serde_json::from_str(body).ok()?;
    let s = v.get(key)?.as_str()?;
    Some(s.to_string())
}

/// Relies on serde_json::from_str, serde_json::Value::get and
/// serde_json::Value::as_str: looks up the string value one object level
/// down in a JSON document, which depends on the document and keys alone.
#[verifier::external_body]
pub(crate) fn lookup_nested_str_field(body: &str, outer: &str, inner: &str) -> (r: Option<
    String,
>)
    ensures
        (match r {
            Some(s) => json_nested_str_field(body@, outer@, inner@) == Some(s@),
            None => json_nested_str_field(body@, outer@, inner@) is None,
        }),
{
    let v: serde_json::Value = serde_json::from_str(body).ok()?;
    let s = v.get(outer)?.get(inner)?.as_str()?;
    Some(s.to_string())
}

} // verus!
