//! A small table from names to values that keeps the order of entry.

use vstd::prelude::*;
use vstd::utf8::encode_utf8;
use crate::syntax::text::{
    bytes_less, is_less, lemma_bytes_less_total, lemma_bytes_less_transitive,
    lemma_encoding_injective,
};
use crate::utils::strings::{
    index_of, lemma_index_insert, lemma_index_of, lemma_index_push, position, strs,
};

verus! {

/// Whether the name `a` stands before the name `b`: by the bytes of their
/// UTF-8 encodings.
pub open spec fn name_less(a: Seq<char>, b: Seq<char>) -> bool {
    bytes_less(encode_utf8(a), encode_utf8(b))
}

/// Whether each of `keys` stands before those behind it.
pub open spec fn ascending(keys: Seq<Seq<char>>) -> bool {
    forall|i: int, j: int| 0 <= i < j < keys.len() ==> name_less(#[trigger] keys[i], #[trigger] keys[j])
}

/// A table from names to values. A name has at most one value that counts:
/// the one that was put last.
pub struct Table<V> {
    pub keys: Vec<String>,
    pub vals: Vec<V>,
}

impl<V> Table<V> {
    /// Every key has its value.
    pub open spec fn wf(&self) -> bool {
        self.keys@.len() == self.vals@.len()
    }

    /// The value of `key`, if it has one.
    pub open spec fn get(&self, key: Seq<char>) -> Option<V> {
        match index_of(strs(self.keys@), key, 0) {
            Some(i) => Some(self.vals@[i]),
            None => None,
        }
    }

    /// A table without entries.
    pub fn new() -> (t: Self)
        ensures
            t.wf(),
            t.keys@.len() == 0,
            t.vals@.len() == 0,
            forall|key: Seq<char>| #[trigger] t.get(key) is None,
    {
        Table { keys: Vec::new(), vals: Vec::new() }
    }

    /// The value of `key`, if it has one.
    pub fn find(&self, key: &str) -> (r: Option<&V>)
        requires
            self.wf(),
        ensures
            match r {
                Some(v) => self.get(key@) == Some(*v),
                None => self.get(key@) is None,
            },
    {
        match position(&self.keys, key) {
            Some(i) => Some(&self.vals[i]),
            None => None,
        }
    }

    /// Gives `key` the value `val` in place of the one it may have had.
    pub fn put(&mut self, key: &str, val: V)
        requires
            old(self).wf(),
        ensures
            final(self).wf(),
            forall|other: Seq<char>| #[trigger]
                final(self).get(other) == (if other == key@ {
                    Some(val)
                } else {
                    old(self).get(other)
                }),
    {
        let ghost before = strs(self.keys@);
        match position(&self.keys, key) {
            Some(i) => {
                self.vals[i] = val;
                assert forall|other: Seq<char>| true implies #[trigger] self.get(other) == (
                if other == key@ {
                    Some(val)
                } else {
                    old(self).get(other)
                }) by {
                    lemma_index_of(before, other, 0);
                    lemma_index_of(before, key@, 0);
                }
            },
            None => {
                self.keys.push(key.to_owned());
                self.vals.push(val);
                assert(strs(self.keys@) =~= before.push(key@));
                assert forall|other: Seq<char>| true implies #[trigger] self.get(other) == (
                if other == key@ {
                    Some(val)
                } else {
                    old(self).get(other)
                }) by {
                    lemma_index_push(before, key@, other);
                    lemma_index_of(before, other, 0);
                }
            },
        }
    }

    /// Gives `key` the value `val` in place of the one it may have had, and
    /// keeps the names in ascending order.
    pub fn put_sorted(&mut self, key: &str, val: V)
        requires
            old(self).wf(),
            ascending(strs(old(self).keys@)),
        ensures
            final(self).wf(),
            ascending(strs(final(self).keys@)),
            forall|other: Seq<char>| #[trigger]
                final(self).get(other) == (if other == key@ {
                    Some(val)
                } else {
                    old(self).get(other)
                }),
            match index_of(strs(old(self).keys@), key@, 0) {
                Some(i) => strs(final(self).keys@) == strs(old(self).keys@) && final(self).vals@
                    == old(self).vals@.update(i, val),
                None => exists|p: int|
                    0 <= p <= old(self).keys@.len() && strs(final(self).keys@) == (#[trigger] strs(
                        old(self).keys@,
                    ).insert(p, key@)) && final(self).vals@ == old(self).vals@.insert(p, val),
            },
    {
        let ghost before = strs(self.keys@);
        let ghost values = self.vals@;
        match position(&self.keys, key) {
            Some(i) => {
                self.vals[i] = val;
                assert forall|other: Seq<char>| true implies #[trigger] self.get(other) == (
                if other == key@ {
                    Some(val)
                } else {
                    old(self).get(other)
                }) by {
                    lemma_index_of(before, other, 0);
                    lemma_index_of(before, key@, 0);
                }
            },
            None => {
                let n: usize = self.keys.len();
                let mut p: usize = 0;
                proof {
                    lemma_index_of(before, key@, 0);
                }
                while p < n && !is_less(key.as_bytes(), self.keys[p].as_str().as_bytes())
                    invariant
                        p <= n,
                        n == self.keys@.len(),
                        before == strs(self.keys@),
                        forall|j: int| 0 <= j < n ==> before[j] != key@,
                        forall|j: int| 0 <= j < p ==> name_less(#[trigger] before[j], key@),
                    decreases n - p,
                {
                    proof {
                        let k = before[p as int];
                        lemma_bytes_less_total(encode_utf8(key@), encode_utf8(k));
                        if encode_utf8(key@) == encode_utf8(k) {
                            lemma_encoding_injective(key@, k);
                        }
                    }
                    p = p + 1;
                }
                self.keys.insert(p, key.to_owned());
                self.vals.insert(p, val);
                proof {
                    let after = strs(self.keys@);
                    assert(after =~= before.insert(p as int, key@));
                    assert forall|i: int, j: int| 0 <= i < j < after.len() implies name_less(
                        #[trigger] after[i],
                        #[trigger] after[j],
                    ) by {
                        let a = if i < p {
                            i
                        } else {
                            i - 1
                        };
                        let b = if j < p {
                            j
                        } else {
                            j - 1
                        };
                        if i == p {
                            if j > p + 1 {
                                lemma_bytes_less_transitive(
                                    encode_utf8(key@),
                                    encode_utf8(before[p as int]),
                                    encode_utf8(before[b]),
                                );
                            }
                        } else if j == p {
                        } else {
                            assert(after[i] == before[a] && after[j] == before[b]);
                        }
                    }
                    assert forall|other: Seq<char>| true implies #[trigger] self.get(other) == (
                    if other == key@ {
                        Some(val)
                    } else {
                        old(self).get(other)
                    }) by {
                        lemma_index_insert(before, p as int, key@, other);
                        lemma_index_of(before, other, 0);
                    }
                }
            },
        }
    }
}

} // verus!
