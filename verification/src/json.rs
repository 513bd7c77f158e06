//! Reading single string fields out of the gateway's JSON responses,
//! delegated to serde_json. The contracts name the extraction results so
//! the classifiers' own contracts can be exact.

use vstd::prelude::*;

verus! {

/// The string at top-level key `key` of the JSON document `body`: present
/// exactly when the body parses and holds a string there, a function of
/// the document and the key alone.
pub uninterp spec fn json_string_at(body: Seq<char>, key: Seq<char>) -> Option<Seq<char>>;

/// The string at the nested path `k1.k2.k3` of the JSON document `body`:
/// present exactly when the body parses and holds a string there, a
/// function of the document and the keys alone.
pub uninterp spec fn json_string_at_path(
    body: Seq<char>,
    k1: Seq<char>,
    k2: Seq<char>,
    k3: Seq<char>,
) -> Option<Seq<char>>;

/// Relies on serde_json::from_str together with serde_json::Value::get
/// and Value::as_str: parsing a document and reading the string at a
/// top-level key depends on the document and the key alone.
#[verifier::external_body]
pub(crate) fn json_top_string(body: &str, key: &str) -> (r: Option<String>)
    ensures
        match r {
            Some(s) => json_string_at(body@, key@) == Some(s@),
            None => json_string_at(body@, key@) is None,
        },
{
    match serde_json::from_str::<serde_json::Value>(body) {
        Ok(v) => v.get(key).and_then(|x| x.as_str()).map(|s| s.to_string()),
        Err(_) => None,
    }
}

/// Relies on serde_json::from_str together with serde_json::Value::get
/// and Value::as_str: parsing a document and reading the string three
/// keys deep depends on the document and the keys alone.
#[verifier::external_body]
pub(crate) fn json_nested_string(body: &str, k1: &str, k2: &str, k3: &str) -> (r: Option<String>)
    ensures
        match r {
            Some(s) => json_string_at_path(body@, k1@, k2@, k3@) == Some(s@),
            None => json_string_at_path(body@, k1@, k2@, k3@) is None,
        },
{
    match serde_json::from_str::<serde_json::Value>(body) {
        Ok(v) => v.get(k1).and_then(|a| a.get(k2)).and_then(|b| b.get(k3)).and_then(
            |c| c.as_str(),
        ).map(|s| s.to_string()),
        Err(_) => None,
    }
}

} // verus!
