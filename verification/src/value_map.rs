//! Exact-match string-to-string tables.
//!
//! A trigger resolves raw (trimmed) file content to a semantic value through
//! such a table, and an action resolves a semantic value to the output
//! content it writes. Keys are expected to be unique; resolution takes the
//! first entry with a matching key, so on well-formed input the answer is the
//! unique match.

use vstd::prelude::*;
use crate::text::str_eq;

verus! {

/// The first entry of `entries` whose key equals `k`, if any.
pub open spec fn lookup_in(entries: Seq<(Seq<char>, Seq<char>)>, k: Seq<char>) -> Option<Seq<char>>
    decreases entries.len(),
{
    if entries.len() == 0 {
        None
    } else if entries[0].0 == k {
        Some(entries[0].1)
    } else {
        lookup_in(entries.drop_first(), k)
    }
}

/// Skipping past a non-matching entry does not change the lookup result.
proof fn lemma_lookup_skip_step(entries: Seq<(Seq<char>, Seq<char>)>, k: Seq<char>, i: int)
    requires
        0 <= i < entries.len(),
        entries[i].0 != k,
    ensures
        lookup_in(entries.skip(i), k) == lookup_in(entries.skip(i + 1), k),
{
    assert(entries.skip(i)[0] == entries[i]);
    assert(entries.skip(i).drop_first() =~= entries.skip(i + 1));
}

/// An exact-match mapping from a key string to a value string.
pub struct ValueMap {
    pairs: Vec<(String, String)>,
}

impl ValueMap {
    /// The entries as character sequences, in declaration order.
    pub closed spec fn entries(&self) -> Seq<(Seq<char>, Seq<char>)> {
        Seq::new(self.pairs@.len(), |i: int| (self.pairs@[i].0@, self.pairs@[i].1@))
    }

    /// The value the table resolves `k` to, if any.
    pub open spec fn spec_get(&self, k: Seq<char>) -> Option<Seq<char>> {
        lookup_in(self.entries(), k)
    }

    pub fn new(pairs: Vec<(String, String)>) -> (m: ValueMap)
        ensures
            m.entries().len() == pairs@.len(),
            forall|i: int| 0 <= i < pairs@.len() ==> m.entries()[i] == (pairs@[i].0@, pairs@[i].1@),
    {
        ValueMap { pairs }
    }

    /// Resolve `key` by exact match, returning a copy of the mapped value.
    pub fn get(&self, key: &str) -> (r: Option<String>)
        ensures
            match r {
                Some(v) => self.spec_get(key@) == Some(v@),
                None => self.spec_get(key@) is None,
            },
    {
        proof {
            assert(self.entries().skip(0) =~= self.entries());
        }
        let mut i: usize = 0;
        while i < self.pairs.len()
            invariant
                i <= self.pairs@.len(),
                self.pairs@.len() == self.entries().len(),
                lookup_in(self.entries().skip(i as int), key@) == lookup_in(self.entries(), key@),
            decreases self.pairs@.len() - i,
        {
            let p = &self.pairs[i];
            if str_eq(p.0.as_str(), key) {
                let v = p.1.clone();
                return Some(v);
            }
            proof {
                lemma_lookup_skip_step(self.entries(), key@, i as int);
            }
            i = i + 1;
        }
        None
    }
}

} // verus!
