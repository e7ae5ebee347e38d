//! Cashier parameters: a map from parameter name to value whose entries are
//! kept in ascending name order, as a `BTreeMap<String, String>` iterates.

use vstd::prelude::*;
use vstd::string::*;
use crate::text::{lemma_seq_lt_asym, lemma_seq_lt_irreflexive, lemma_seq_lt_total, lemma_seq_lt_trans, seq_lt, str_eq, str_lt};

verus! {

/// Entries in strictly ascending key order (so each key occurs once).
pub open spec fn keys_ascending(s: Seq<(Seq<char>, Seq<char>)>) -> bool {
    forall|i: int, j: int| 0 <= i < j < s.len() ==> seq_lt(#[trigger] s[i].0, #[trigger] s[j].0)
}

pub open spec fn has_key(s: Seq<(Seq<char>, Seq<char>)>, k: Seq<char>) -> bool {
    exists|i: int| 0 <= i < s.len() && #[trigger] s[i].0 == k
}

/// The value stored under `k` (meaningful when `has_key(s, k)`).
pub open spec fn value_at(s: Seq<(Seq<char>, Seq<char>)>, k: Seq<char>) -> Seq<char> {
    s[choose|i: int| 0 <= i < s.len() && #[trigger] s[i].0 == k].1
}

/// The value under `k`, if any.
pub open spec fn lookup(s: Seq<(Seq<char>, Seq<char>)>, k: Seq<char>) -> Option<Seq<char>> {
    if has_key(s, k) {
        Some(value_at(s, k))
    } else {
        None
    }
}

pub open spec fn entry_view(e: (String, String)) -> (Seq<char>, Seq<char>) {
    (e.0@, e.1@)
}

/// The character sequences of a list of text pairs.
pub open spec fn pairs_view(v: Seq<(String, String)>) -> Seq<(Seq<char>, Seq<char>)> {
    v.map_values(|e: (String, String)| entry_view(e))
}

#[derive(Debug, PartialEq, Eq)]
pub struct PaymentParams {
    entries: Vec<(String, String)>,
}

impl View for PaymentParams {
    type V = Seq<(Seq<char>, Seq<char>)>;

    closed spec fn view(&self) -> Seq<(Seq<char>, Seq<char>)> {
        self.entries@.map_values(|e: (String, String)| entry_view(e))
    }
}

/// In an ascending entry list, the entry found at index `i` is the one `lookup` sees.
pub proof fn lemma_lookup_at(s: Seq<(Seq<char>, Seq<char>)>, i: int)
    requires
        keys_ascending(s),
        0 <= i < s.len(),
    ensures
        lookup(s, s[i].0) == Some(s[i].1),
{
    assert(has_key(s, s[i].0));
    let j = choose|j: int| 0 <= j < s.len() && #[trigger] s[j].0 == s[i].0;
    if j != i {
        if j < i {
            assert(seq_lt(s[j].0, s[i].0));
        } else {
            assert(seq_lt(s[i].0, s[j].0));
        }
        lemma_seq_lt_irreflexive(s[i].0);
    }
}

impl Clone for PaymentParams {
    fn clone(&self) -> (r: Self)
        ensures
            r@ == self@,
    {
        proof {
            use_type_invariant(self);
        }
        let mut entries: Vec<(String, String)> = Vec::new();
        let mut i: usize = 0;
        while i < self.entries.len()
            invariant
                0 <= i <= self.entries.len(),
                keys_ascending(self@),
                entries@.map_values(|e: (String, String)| entry_view(e)) =~= self@.subrange(0, i as int),
            decreases self.entries.len() - i,
        {
            let k = self.entries[i].0.clone();
            let v = self.entries[i].1.clone();
            proof {
                assert(self@[i as int] == entry_view(self.entries@[i as int]));
            }
            entries.push((k, v));
            proof {
                assert(self@.subrange(0, i + 1) =~= self@.subrange(0, i as int).push(self@[i as int]));
            }
            i = i + 1;
        }
        assert(self@.subrange(0, i as int) =~= self@);
        PaymentParams { entries }
    }
}

impl PaymentParams {
    #[verifier::type_invariant]
    closed spec fn ascending(self) -> bool {
        keys_ascending(self@)
    }

    /// An empty map.
    pub fn new() -> (r: Self)
        ensures
            r@.len() == 0,
    {
        PaymentParams { entries: Vec::new() }
    }

    /// The entries, in ascending name order.
    pub fn entries(&self) -> (r: &Vec<(String, String)>)
        ensures
            r@.map_values(|e: (String, String)| entry_view(e)) == self@,
            keys_ascending(self@),
    {
        proof {
            use_type_invariant(self);
        }
        &self.entries
    }

    pub fn len(&self) -> (r: usize)
        ensures
            r == self@.len(),
    {
        self.entries.len()
    }

    /// The value stored under `key`.
    pub fn get(&self, key: &str) -> (r: Option<String>)
        ensures
            match r {
                Some(v) => lookup(self@, key@) == Some(v@),
                None => lookup(self@, key@) is None,
            },
    {
        proof {
            use_type_invariant(self);
        }
        let mut i: usize = 0;
        while i < self.entries.len()
            invariant
                0 <= i <= self.entries.len(),
                keys_ascending(self@),
                self@.len() == self.entries.len(),
                forall|j: int| 0 <= j < i ==> self@[j].0 != key@,
            decreases self.entries.len() - i,
        {
            if str_eq(self.entries[i].0.as_str(), key) {
                proof {
                    assert(self@[i as int] == entry_view(self.entries@[i as int]));
                    lemma_lookup_at(self@, i as int);
                }
                return Some(self.entries[i].1.clone());
            }
            proof {
                assert(self@[i as int] == entry_view(self.entries@[i as int]));
            }
            i = i + 1;
        }
        None
    }

    /// Stores `value` under `key`, replacing any earlier value.
    pub fn insert(&mut self, key: String, value: String)
        ensures
            forall|k: Seq<char>| #[trigger] lookup(final(self)@, k) == if k == key@ {
                Some(value@)
            } else {
                lookup(old(self)@, k)
            },
    {
        proof {
            use_type_invariant(&*self);
        }
        let ghost s = self@;
        let n = self.entries.len();
        let mut p: usize = 0;
        while p < n && str_lt(self.entries[p].0.as_str(), key.as_str())
            invariant
                0 <= p <= n,
                n == self.entries.len(),
                s == self@,
                s.len() == n,
                keys_ascending(s),
                forall|j: int| 0 <= j < p ==> seq_lt(#[trigger] s[j].0, key@),
            decreases n - p,
        {
            proof {
                assert(s[p as int] == entry_view(self.entries@[p as int]));
            }
            p = p + 1;
        }
        if p < n && str_eq(self.entries[p].0.as_str(), key.as_str()) {
            proof {
                assert(s[p as int] == entry_view(self.entries@[p as int]));
            }
            let mut entries: Vec<(String, String)> = Vec::new();
            std::mem::swap(&mut entries, &mut self.entries);
            entries.set(p, (key, value));
            proof {
                let t = entries@.map_values(|e: (String, String)| entry_view(e));
                assert(t =~= s.update(p as int, (s[p as int].0, value@)));
                assert forall|k: Seq<char>| #[trigger] lookup(t, k) == if k == s[p as int].0 {
                    Some(value@)
                } else {
                    lookup(s, k)
                } by {
                    if has_key(t, k) {
                        let j = choose|j: int| 0 <= j < t.len() && #[trigger] t[j].0 == k;
                        lemma_lookup_at(t, j);
                        if j != p {
                            lemma_lookup_at(s, j);
                        }
                    } else if has_key(s, k) {
                        let j = choose|j: int| 0 <= j < s.len() && #[trigger] s[j].0 == k;
                        assert(t[j].0 == k);
                    }
                    if k == s[p as int].0 {
                        lemma_lookup_at(t, p as int);
                    }
                }
            }
            self.entries = entries;
        } else {
            proof {
                if p < n {
                    assert(s[p as int] == entry_view(self.entries@[p as int]));
                    lemma_seq_lt_total(s[p as int].0, key@);
                }
            }
            let ghost kv = key@;
            let ghost vv = value@;
            let mut entries: Vec<(String, String)> = Vec::new();
            std::mem::swap(&mut entries, &mut self.entries);
            entries.insert(p, (key, value));
            proof {
                let t = entries@.map_values(|e: (String, String)| entry_view(e));
                assert(t =~= s.insert(p as int, (kv, vv)));
                assert forall|i: int, j: int| 0 <= i < j < t.len() implies seq_lt(
                    #[trigger] t[i].0,
                    #[trigger] t[j].0,
                ) by {
                    if i < p && j < p {
                        assert(t[i] == s[i]);
                        assert(t[j] == s[j]);
                    } else if i < p && j == p {
                    } else if i < p && j > p {
                        assert(t[j] == s[j - 1]);
                        if j - 1 > i {
                        }
                    } else if i == p && j > p {
                        assert(t[j] == s[j - 1]);
                        if j - 1 > p {
                            lemma_seq_lt_trans(kv, s[p as int].0, s[j - 1].0);
                        }
                    } else {
                        assert(t[i] == s[i - 1]);
                        assert(t[j] == s[j - 1]);
                    }
                }
                assert forall|k: Seq<char>| #[trigger] lookup(t, k) == if k == kv {
                    Some(vv)
                } else {
                    lookup(s, k)
                } by {
                    if has_key(t, k) {
                        let j = choose|j: int| 0 <= j < t.len() && #[trigger] t[j].0 == k;
                        lemma_lookup_at(t, j);
                        if j < p {
                            lemma_lookup_at(s, j);
                            lemma_seq_lt_asym(k, kv);
                        } else if j > p {
                            assert(t[j] == s[j - 1]);
                            lemma_lookup_at(s, j - 1);
                            if j - 1 > p {
                                lemma_seq_lt_trans(kv, s[p as int].0, s[j - 1].0);
                            }
                            lemma_seq_lt_asym(kv, k);
                        }
                    } else {
                        assert(t[p as int].0 == kv);
                        if has_key(s, k) {
                            let j = choose|j: int| 0 <= j < s.len() && #[trigger] s[j].0 == k;
                            if j < p {
                                assert(t[j] == s[j]);
                            } else {
                                assert(t[j + 1] == s[j]);
                            }
                        }
                    }
                }
            }
            self.entries = entries;
        }
    }
}

} // verus!
