use vstd::prelude::*;

use crate::document::Document;

verus! {

/// Where a request for `/app` is sent: the URL stored under `app`, or the
/// root route when there is none.
pub open spec fn index_target_of(d: Map<Seq<char>, Seq<char>>, app: Seq<char>) -> Seq<char> {
    if d.contains_key(app) {
        d[app]
    } else {
        "/"@
    }
}

/// Where a request for the root is sent: the URL stored under `default`,
/// or a fixed fallback when there is none.
pub open spec fn home_target_of(d: Map<Seq<char>, Seq<char>>) -> Seq<char> {
    if d.contains_key("default"@) {
        d["default"@]
    } else {
        "https://example.com"@
    }
}

/// The URL stored under `key`, if any.
pub fn resolve(d: &Document, key: &str) -> (r: Option<String>)
    requires
        d.wf(),
    ensures
        match r {
            Some(u) => d@.contains_key(key@) && u@ == d@[key@],
            None => !d@.contains_key(key@),
        },
{
    d.get(key)
}

/// The redirect target of a request for `/app`.
pub fn index_target(d: &Document, app: &str) -> (r: String)
    requires
        d.wf(),
    ensures
        r@ == index_target_of(d@, app@),
{
    match resolve(d, app) {
        Some(u) => u,
        None => "/".to_owned(),
    }
}

/// The redirect target of a request for the root.
pub fn home_target(d: &Document) -> (r: String)
    requires
        d.wf(),
    ensures
        r@ == home_target_of(d@),
{
    match resolve(d, "default") {
        Some(u) => u,
        None => "https://example.com".to_owned(),
    }
}

} // verus!
