use vstd::prelude::*;

use crate::validate::same_text;

verus! {

/// The keys of `s` are pairwise distinct.
pub open spec fn distinct_keys(s: Seq<(String, String)>) -> bool {
    forall|i: int, j: int| 0 <= i < j < s.len() ==> s[i].0@ != s[j].0@
}

/// Some pair of `s` has key `k`.
pub open spec fn has_key(s: Seq<(String, String)>, k: Seq<char>) -> bool {
    exists|i: int| 0 <= i < s.len() && s[i].0@ == k
}

/// The mapping that a list of pairs with distinct keys denotes.
pub open spec fn pairs_map(s: Seq<(String, String)>) -> Map<Seq<char>, Seq<char>> {
    Map::new(
        |k: Seq<char>| has_key(s, k),
        |k: Seq<char>| s[choose|i: int| 0 <= i < s.len() && s[i].0@ == k].1@,
    )
}

/// The mapping built by inserting the pairs of `s` in order, a later pair
/// overriding an earlier one with the same key.
pub open spec fn fold_pairs(s: Seq<(Seq<char>, Seq<char>)>) -> Map<Seq<char>, Seq<char>>
    decreases s.len(),
{
    if s.len() == 0 {
        Map::empty()
    } else {
        fold_pairs(s.drop_last()).insert(s.last().0, s.last().1)
    }
}

/// The plain-text view of a list of pairs.
pub open spec fn pairs_text(s: Seq<(String, String)>) -> Seq<(Seq<char>, Seq<char>)> {
    s.map_values(|e: (String, String)| (e.0@, e.1@))
}

/// A list of pairs with distinct keys has as many keys as pairs.
proof fn lemma_pairs_map_len(s: Seq<(String, String)>)
    requires
        distinct_keys(s),
    ensures
        pairs_map(s).dom().finite(),
        pairs_map(s).len() == s.len(),
    decreases s.len(),
{
    if s.len() == 0 {
        assert(pairs_map(s).dom() =~= Set::empty());
    } else {
        let t = s.drop_last();
        lemma_pairs_map_len(t);
        let k = s.last().0@;
        assert(!has_key(t, k)) by {
            if has_key(t, k) {
                let j = choose|j: int| 0 <= j < t.len() && t[j].0@ == k;
                assert(s[j].0@ == s[s.len() - 1].0@);
            }
        }
        assert forall|q: Seq<char>| has_key(s, q) == (has_key(t, q) || q == k) by {
            if has_key(t, q) {
                let j = choose|j: int| 0 <= j < t.len() && t[j].0@ == q;
                assert(s[j].0@ == q);
            }
            if has_key(s, q) && q != k {
                let j = choose|j: int| 0 <= j < s.len() && s[j].0@ == q;
                assert(t[j].0@ == q);
            }
        }
        assert(pairs_map(s).dom() =~= pairs_map(t).dom().insert(k));
    }
}

/// The configuration document: a mapping from app key to target URL.
pub struct Document {
    entries: Vec<(String, String)>,
}

impl View for Document {
    type V = Map<Seq<char>, Seq<char>>;

    closed spec fn view(&self) -> Map<Seq<char>, Seq<char>> {
        pairs_map(self.entries@)
    }
}

impl Document {
    /// No key occurs twice in the stored pairs.
    pub closed spec fn wf(&self) -> bool {
        distinct_keys(self.entries@)
    }

    /// The document with no entries.
    pub fn new() -> (r: Document)
        ensures
            r.wf(),
            r@ == Map::<Seq<char>, Seq<char>>::empty(),
    {
        let r = Document { entries: Vec::new() };
        assert(r@ =~= Map::<Seq<char>, Seq<char>>::empty());
        r
    }

    /// The number of entries.
    pub fn len(&self) -> (r: usize)
        requires
            self.wf(),
        ensures
            r == self@.len(),
    {
        proof {
            lemma_pairs_map_len(self.entries@);
        }
        self.entries.len()
    }

    /// The stored pairs, each key once.
    pub fn pairs(&self) -> (r: &Vec<(String, String)>)
        ensures
            self.wf() ==> distinct_keys(r@),
            pairs_map(r@) == self@,
    {
        &self.entries
    }

    /// A copy of the document, independent of it.
    pub fn snapshot(&self) -> (r: Document)
        requires
            self.wf(),
        ensures
            r.wf(),
            r@ == self@,
    {
        let mut v: Vec<(String, String)> = Vec::new();
        let mut i: usize = 0;
        while i < self.entries.len()
            invariant
                i <= self.entries@.len(),
                v@ == self.entries@.take(i as int),
            decreases self.entries@.len() - i,
        {
            let e = &self.entries[i];
            v.push((e.0.clone(), e.1.clone()));
            assert(v@ =~= self.entries@.take(i + 1));
            i = i + 1;
        }
        assert(v@ =~= self.entries@);
        Document { entries: v }
    }

    /// The document that inserting the pairs of `v` in order builds.
    pub fn from_pairs(v: Vec<(String, String)>) -> (r: Document)
        ensures
            r.wf(),
            r@ == fold_pairs(pairs_text(v@)),
    {
        let mut d = Document::new();
        let mut i: usize = 0;
        let n = v.len();
        while i < n
            invariant
                n == v@.len(),
                i <= n,
                d.wf(),
                d@ == fold_pairs(pairs_text(v@.take(i as int))),
            decreases n - i,
        {
            let e = &v[i];
            d.set(e.0.clone(), e.1.clone());
            assert(pairs_text(v@.take(i + 1)).drop_last() =~= pairs_text(v@.take(i as int)));
            i = i + 1;
        }
        assert(v@.take(n as int) =~= v@);
        d
    }

    /// Position of `key` among the stored pairs, if present.
    fn find(&self, key: &str) -> (r: Option<usize>)
        requires
            self.wf(),
        ensures
            match r {
                Some(i) => i < self.entries@.len() && self.entries@[i as int].0@ == key@,
                None => !has_key(self.entries@, key@),
            },
    {
        let mut i: usize = 0;
        while i < self.entries.len()
            invariant
                i <= self.entries@.len(),
                forall|j: int| 0 <= j < i ==> self.entries@[j].0@ != key@,
            decreases self.entries@.len() - i,
        {
            if same_text(self.entries[i].0.as_str(), key) {
                return Some(i);
            }
            i = i + 1;
        }
        None
    }

    /// The URL stored under `key`.
    pub fn get(&self, key: &str) -> (r: Option<String>)
        requires
            self.wf(),
        ensures
            match r {
                Some(u) => self@.contains_key(key@) && u@ == self@[key@],
                None => !self@.contains_key(key@),
            },
    {
        match self.find(key) {
            Some(i) => {
                let ghost s = self.entries@;
                assert(s[i as int].0@ == key@);
                let ghost c = choose|j: int| 0 <= j < s.len() && s[j].0@ == key@;
                assert(c == i as int);
                Some(self.entries[i].1.clone())
            },
            None => None,
        }
    }

    /// Sets `key` to `url`, overwriting any earlier value of `key`.
    pub fn set(&mut self, key: String, url: String)
        requires
            old(self).wf(),
        ensures
            final(self).wf(),
            final(self)@ == old(self)@.insert(key@, url@),
    {
        let ghost s0 = self.entries@;
        match self.find(key.as_str()) {
            Some(i) => {
                let ghost k = key@;
                let ghost v = url@;
                self.entries.set(i, (key, url));
                let ghost s1 = self.entries@;
                assert(s1 == s0.update(i as int, s1[i as int]));
                assert(forall|j: int| 0 <= j < s1.len() ==> s1[j].0@ == s0[j].0@);
                assert(distinct_keys(s1));
                assert forall|q: Seq<char>| has_key(s1, q) == has_key(s0, q) by {
                    if has_key(s0, q) {
                        let j = choose|j: int| 0 <= j < s0.len() && s0[j].0@ == q;
                        assert(s1[j].0@ == q);
                    }
                    if has_key(s1, q) {
                        let j = choose|j: int| 0 <= j < s1.len() && s1[j].0@ == q;
                        assert(s0[j].0@ == q);
                    }
                }
                assert forall|q: Seq<char>| has_key(s1, q) implies pairs_map(s1)[q] == pairs_map(
                    s0,
                ).insert(k, v)[q] by {
                    let j1 = choose|j: int| 0 <= j < s1.len() && s1[j].0@ == q;
                    let j0 = choose|j: int| 0 <= j < s0.len() && s0[j].0@ == q;
                    assert(s1[j1].0@ == q);
                    assert(s0[j0].0@ == q);
                    assert(s1[j0].0@ == q);
                    assert(j1 == j0);
                    if q == k {
                        assert(j1 == i as int);
                    } else {
                        assert(j1 != i as int);
                        assert(s1[j1] == s0[j1]);
                    }
                }
                assert(pairs_map(s1) =~= pairs_map(s0).insert(k, v));
            },
            None => {
                let ghost k = key@;
                let ghost v = url@;
                self.entries.push((key, url));
                let ghost s1 = self.entries@;
                assert(s1 == s0.push(s1[s0.len() as int]));
                assert(distinct_keys(s1));
                assert forall|q: Seq<char>| has_key(s1, q) == (has_key(s0, q) || q == k) by {
                    if has_key(s0, q) {
                        let j = choose|j: int| 0 <= j < s0.len() && s0[j].0@ == q;
                        assert(s1[j].0@ == q);
                    }
                    if q == k {
                        assert(s1[s0.len() as int].0@ == q);
                    }
                    if has_key(s1, q) && q != k {
                        let j = choose|j: int| 0 <= j < s1.len() && s1[j].0@ == q;
                        assert(j < s0.len());
                        assert(s0[j].0@ == q);
                    }
                }
                assert forall|q: Seq<char>| has_key(s1, q) implies pairs_map(s1)[q] == pairs_map(
                    s0,
                ).insert(k, v)[q] by {
                    let j1 = choose|j: int| 0 <= j < s1.len() && s1[j].0@ == q;
                    assert(s1[j1].0@ == q);
                    if q == k {
                        assert(s1[s0.len() as int].0@ == q);
                        assert(j1 == s0.len() as int);
                    } else {
                        let j0 = choose|j: int| 0 <= j < s0.len() && s0[j].0@ == q;
                        assert(s0[j0].0@ == q);
                        assert(s1[j0].0@ == q);
                        assert(j1 == j0);
                    }
                }
                assert(pairs_map(s1) =~= pairs_map(s0).insert(k, v));
            },
        }
    }
}

} // verus!
