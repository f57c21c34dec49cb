use vstd::prelude::*;

use crate::error::InputProblem;

verus! {

/// Whether `p` is a prefix of `s`, character by character.
pub open spec fn is_prefix(p: Seq<char>, s: Seq<char>) -> bool {
    p.len() <= s.len() && s.subrange(0, p.len() as int) == p
}

/// Tests whether `s` begins with `p`.
pub fn starts_with(s: &str, p: &str) -> (r: bool)
    ensures
        r == is_prefix(p@, s@),
{
    let n = p.unicode_len();
    let m = s.unicode_len();
    if n > m {
        return false;
    }
    let mut i: usize = 0;
    while i < n
        invariant
            n == p@.len(),
            m == s@.len(),
            n <= m,
            i <= n,
            forall|j: int| 0 <= j < i ==> s@[j] == p@[j],
        decreases n - i,
    {
        if s.get_char(i) != p.get_char(i) {
            return false;
        }
        i = i + 1;
    }
    assert(s@.subrange(0, n as int) =~= p@);
    true
}

/// Tests whether `a` and `b` hold the same characters.
pub fn same_text(a: &str, b: &str) -> (r: bool)
    ensures
        r == (a@ == b@),
{
    if a.unicode_len() != b.unicode_len() {
        return false;
    }
    let r = starts_with(a, b);
    if r {
        assert(a@ =~= b@);
    } else {
        assert(a@.subrange(0, a@.len() as int) =~= a@);
    }
    r
}

/// The scheme prefix `http://`.
pub open spec fn http_prefix() -> Seq<char> {
    seq!['h', 't', 't', 'p', ':', '/', '/']
}

/// The scheme prefix `https://`.
pub open spec fn https_prefix() -> Seq<char> {
    seq!['h', 't', 't', 'p', 's', ':', '/', '/']
}

/// What is wrong with the entry (`name`, `url`), if anything: the name must be
/// non-empty, and the URL non-empty and start with `http://` or `https://`.
pub open spec fn entry_problem(name: Seq<char>, url: Seq<char>) -> Option<InputProblem> {
    if name.len() == 0 {
        Some(InputProblem::EmptyName)
    } else if url.len() == 0 {
        Some(InputProblem::EmptyUrl)
    } else if !(is_prefix(http_prefix(), url) || is_prefix(https_prefix(), url)) {
        Some(InputProblem::BadScheme)
    } else {
        None
    }
}

/// Checks a proposed (name, url) entry.
pub fn validate_entry(name: &str, url: &str) -> (r: Result<(), InputProblem>)
    ensures
        r == match entry_problem(name@, url@) {
            Some(p) => Err(p),
            None => Ok(()),
        },
{
    proof {
        reveal_strlit("http://");
        reveal_strlit("https://");
    }
    assert("http://"@ =~= http_prefix());
    assert("https://"@ =~= https_prefix());
    if name.unicode_len() == 0 {
        Err(InputProblem::EmptyName)
    } else if url.unicode_len() == 0 {
        Err(InputProblem::EmptyUrl)
    } else if !(starts_with(url, "http://") || starts_with(url, "https://")) {
        Err(InputProblem::BadScheme)
    } else {
        Ok(())
    }
}

} // verus!
