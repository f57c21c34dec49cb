use vstd::prelude::*;

use crate::document::{distinct_keys, pairs_map, pairs_text};

verus! {

#[verifier::external_type_specification]
#[verifier::external_body]
pub struct ExJsonError(serde_json::Error);

/// The pairs of the JSON object that `text` holds, in ascending key order,
/// when `text` is a JSON object whose values are all strings.
pub uninterp spec fn parsed_object(text: Seq<char>) -> Option<Seq<(Seq<char>, Seq<char>)>>;

/// The pretty-printed JSON object that holds the mapping `m`.
pub uninterp spec fn pretty_json(m: Map<Seq<char>, Seq<char>>) -> Seq<char>;

/// Relies on `serde_json::from_str` into a `BTreeMap<String, String>`: the
/// outcome depends on the text alone.
#[verifier::external_body]
pub(crate) fn parse_object(text: &str) -> (r: Result<Vec<(String, String)>, serde_json::Error>)
    ensures
        match r {
            Ok(v) => parsed_object(text@) == Some(pairs_text(v@)),
            Err(_) => parsed_object(text@).is_none(),
        },
{
    match serde_json::from_str::<std::collections::BTreeMap<String, String>>(text) {
        Ok(m) => Ok(m.into_iter().collect()),
        Err(e) => Err(e),
    }
}

/// Relies on `serde_json::to_string_pretty` on a `BTreeMap<&String, &String>`:
/// the text depends on the mapping alone, and it cannot fail, since its keys
/// are strings and the `Serialize` impls of `BTreeMap` and `String` do not fail.
#[verifier::external_body]
pub(crate) fn render_object(pairs: &Vec<(String, String)>) -> (r: Result<String, serde_json::Error>)
    requires
        distinct_keys(pairs@),
    ensures
        r is Ok,
        r matches Ok(t) ==> t@ == pretty_json(pairs_map(pairs@)),
{
    let m: std::collections::BTreeMap<&String, &String> = pairs.iter().map(|e| (&e.0, &e.1)).collect();
    serde_json::to_string_pretty(&m)
}

/// Relies on the `Display` impl of `serde_json::Error`, for a diagnostic.
#[verifier::external_body]
pub(crate) fn error_text(e: &serde_json::Error) -> String {
    e.to_string()
}

} // verus!
