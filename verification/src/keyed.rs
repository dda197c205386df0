//! Values kept under unique string keys, in ascending key order.

use crate::json::{
    lemma_seq_lt_asymmetric, lemma_seq_lt_irreflexive, lemma_seq_lt_total,
    lemma_seq_lt_transitive, seq_lt, str_eq, str_lt,
};
use vstd::prelude::*;

verus! {

/// Whether keys are strictly increasing.
pub open spec fn strictly_sorted(keys: Seq<Seq<char>>) -> bool {
    forall|i: int, j: int| 0 <= i < j < keys.len() ==> seq_lt(keys[i], keys[j])
}

/// The keys of a list of entries.
pub open spec fn entry_keys<V>(e: Seq<(Seq<char>, V)>) -> Seq<Seq<char>> {
    Seq::new(e.len(), |i: int| e[i].0)
}

/// Whether some entry has key `k`.
pub open spec fn has_entry<V>(e: Seq<(Seq<char>, V)>, k: Seq<char>) -> bool {
    exists|i: int| 0 <= i < e.len() && e[i].0 == k
}

/// The value of the first entry with key `k`, if any.
pub open spec fn lookup<V>(e: Seq<(Seq<char>, V)>, k: Seq<char>) -> Option<V>
    decreases e.len(),
{
    if e.len() == 0 {
        None
    } else if e[0].0 == k {
        Some(e[0].1)
    } else {
        lookup(e.drop_first(), k)
    }
}

/// Values under unique string keys, kept in ascending key order.
#[derive(Debug)]
pub struct Keyed<V> {
    entries: Vec<(String, V)>,
}

impl<V> Keyed<V> {
    /// The entries, in key order.
    pub closed spec fn spec_entries(&self) -> Seq<(Seq<char>, V)> {
        Seq::new(self.entries@.len(), |i: int| (self.entries@[i].0@, self.entries@[i].1))
    }

    #[verifier::type_invariant]
    spec fn keys_sorted(self) -> bool {
        strictly_sorted(entry_keys(self.spec_entries()))
    }

    /// No entries.
    pub fn new() -> (r: Self)
        ensures
            r.spec_entries() == Seq::<(Seq<char>, V)>::empty(),
    {
        let r = Keyed { entries: Vec::new() };
        assert(r.spec_entries() =~= Seq::<(Seq<char>, V)>::empty());
        r
    }

    /// Number of entries.
    pub fn len(&self) -> (r: usize)
        ensures
            r == self.spec_entries().len(),
            strictly_sorted(entry_keys(self.spec_entries())),
    {
        proof {
            use_type_invariant(self);
        }
        self.entries.len()
    }

    /// Whether there are no entries.
    pub fn is_empty(&self) -> (r: bool)
        ensures
            r == (self.spec_entries().len() == 0),
    {
        self.entries.len() == 0
    }

    /// The key of entry `i`.
    pub fn key_at(&self, i: usize) -> (r: &String)
        requires
            i < self.spec_entries().len(),
        ensures
            r@ == self.spec_entries()[i as int].0,
    {
        &self.entries[i].0
    }

    /// The value of entry `i`.
    pub fn value_at(&self, i: usize) -> (r: &V)
        requires
            i < self.spec_entries().len(),
        ensures
            *r == self.spec_entries()[i as int].1,
    {
        &self.entries[i].1
    }

    /// The index of the entry with key `key`.
    pub fn find(&self, key: &str) -> (r: Option<usize>)
        ensures
            strictly_sorted(entry_keys(self.spec_entries())),
            match r {
                Some(i) => i < self.spec_entries().len() && self.spec_entries()[i as int].0
                    == key@ && lookup(self.spec_entries(), key@) == Some(
                    self.spec_entries()[i as int].1,
                ),
                None => !has_entry(self.spec_entries(), key@) && lookup(
                    self.spec_entries(),
                    key@,
                ) is None,
            },
    {
        proof {
            use_type_invariant(self);
        }
        let n = self.entries.len();
        let mut i: usize = 0;
        while i < n
            invariant
                n == self.spec_entries().len(),
                i <= n,
                strictly_sorted(entry_keys(self.spec_entries())),
                forall|j: int| 0 <= j < i ==> self.spec_entries()[j].0 != key@,
            decreases n - i,
        {
            if str_eq(self.entries[i].0.as_str(), key) {
                proof {
                    let e = self.spec_entries();
                    assert forall|j: int| 0 <= j < i implies e[j].0 != key@ by {
                        assert(seq_lt(entry_keys(e)[j], entry_keys(e)[i as int]));
                        if e[j].0 == key@ {
                            lemma_seq_lt_irreflexive(key@);
                        }
                    }
                    lemma_lookup_first(e, key@, i as int);
                }
                return Some(i);
            }
            i = i + 1;
        }
        proof {
            lemma_lookup_some_iff_has_entry(self.spec_entries(), key@);
        }
        None
    }

    /// Whether an entry has key `key`.
    pub fn contains(&self, key: &str) -> (r: bool)
        ensures
            r == has_entry(self.spec_entries(), key@),
    {
        self.find(key).is_some()
    }

    /// Adds `value` under a key no entry has, keeping key order.
    pub fn insert_new(&mut self, key: String, value: V)
        requires
            !has_entry(old(self).spec_entries(), key@),
        ensures
            exists|p: int|
                0 <= p <= old(self).spec_entries().len() && final(self).spec_entries()
                    == old(self).spec_entries().insert(p, (key@, value)),
    {
        proof {
            use_type_invariant(&*self);
        }
        let ghost e = self.spec_entries();
        let ghost k = key@;
        let n = self.entries.len();
        let mut p: usize = 0;
        while p < n
            invariant
                n == e.len(),
                e == self.spec_entries(),
                p <= n,
                strictly_sorted(entry_keys(e)),
                forall|j: int| 0 <= j < p ==> seq_lt(#[trigger] e[j].0, k),
                !has_entry(e, k),
                k == key@,
            ensures
                p <= n,
                forall|j: int| 0 <= j < p ==> seq_lt(#[trigger] e[j].0, k),
                p < n ==> seq_lt(k, e[p as int].0),
            decreases n - p,
        {
            let lt = str_lt(key.as_str(), self.entries[p].0.as_str());
            assert(e[p as int].0 == self.entries@[p as int].0@);
            if lt {
                break;
            }
            proof {
                if e[p as int].0 == k {
                    assert(has_entry(e, k));
                }
                lemma_seq_lt_total(e[p as int].0, k);
            }
            p = p + 1;
        }
        let ghost v = value;
        proof {
            assert forall|j: int| p <= j < n implies seq_lt(k, #[trigger] e[j].0) by {
                if j > p {
                    assert(seq_lt(entry_keys(e)[p as int], entry_keys(e)[j]));
                    assert(seq_lt(e[p as int].0, e[j].0));
                    lemma_seq_lt_transitive(k, e[p as int].0, e[j].0);
                }
            }
        }
        let mut entries: Vec<(String, V)> = Vec::new();
        std::mem::swap(&mut entries, &mut self.entries);
        entries.insert(p, (key, value));
        proof {
            let ne = Seq::new(entries@.len(), |i: int| (entries@[i].0@, entries@[i].1));
            assert(ne =~= e.insert(p as int, (k, v)));
            let keys = entry_keys(ne);
            assert forall|i: int, j: int| 0 <= i < j < keys.len() implies seq_lt(
                keys[i],
                keys[j],
            ) by {
                if j < p {
                    assert(keys[i] == e[i].0 && keys[j] == e[j].0);
                    assert(seq_lt(entry_keys(e)[i], entry_keys(e)[j]));
                } else if j == p {
                    assert(keys[i] == e[i].0);
                } else if i < p {
                    assert(keys[i] == e[i].0 && keys[j] == e[j - 1].0);
                    assert(seq_lt(e[i].0, k));
                    lemma_seq_lt_transitive(e[i].0, k, e[j - 1].0);
                } else if i == p {
                    assert(keys[j] == e[j - 1].0);
                } else {
                    assert(keys[i] == e[i - 1].0 && keys[j] == e[j - 1].0);
                    assert(seq_lt(entry_keys(e)[i - 1], entry_keys(e)[j - 1]));
                }
            }
        }
        self.entries = entries;
    }
}

/// Keys are unique: an index holding a key is the only one.
pub proof fn lemma_sorted_keys_unique<V>(e: Seq<(Seq<char>, V)>, i: int, j: int)
    requires
        strictly_sorted(entry_keys(e)),
        0 <= i < e.len(),
        0 <= j < e.len(),
        e[i].0 == e[j].0,
    ensures
        i == j,
{
    if i < j {
        assert(seq_lt(entry_keys(e)[i], entry_keys(e)[j]));
        lemma_seq_lt_irreflexive(e[i].0);
    } else if j < i {
        assert(seq_lt(entry_keys(e)[j], entry_keys(e)[i]));
        lemma_seq_lt_irreflexive(e[i].0);
    }
}

/// `lookup` finds a value exactly when some entry has the key.
pub proof fn lemma_lookup_some_iff_has_entry<V>(e: Seq<(Seq<char>, V)>, k: Seq<char>)
    ensures
        lookup(e, k) is Some <==> has_entry(e, k),
    decreases e.len(),
{
    if e.len() > 0 {
        lemma_lookup_some_iff_has_entry(e.drop_first(), k);
        if e[0].0 != k {
            if has_entry(e, k) {
                let i = choose|i: int| 0 <= i < e.len() && e[i].0 == k;
                assert(e.drop_first()[i - 1].0 == k);
            }
            if has_entry(e.drop_first(), k) {
                let i = choose|i: int| 0 <= i < e.drop_first().len() && e.drop_first()[i].0 == k;
                assert(e[i + 1].0 == k);
            }
        }
    }
}

/// The entry at index `i` is the one found when no earlier entry has its key.
pub proof fn lemma_lookup_first<V>(e: Seq<(Seq<char>, V)>, k: Seq<char>, i: int)
    requires
        0 <= i < e.len(),
        e[i].0 == k,
        forall|j: int| 0 <= j < i ==> e[j].0 != k,
    ensures
        lookup(e, k) == Some(e[i].1),
    decreases i,
{
    if i > 0 {
        let t = e.drop_first();
        assert forall|j: int| 0 <= j < i - 1 implies t[j].0 != k by {
            assert(t[j] == e[j + 1]);
        }
        lemma_lookup_first(t, k, i - 1);
    }
}

/// Adding an entry under a key no entry has makes a lookup of that key give
/// the new value and leaves the lookup of every other key as it was.
pub proof fn lemma_lookup_after_insert<V>(e: Seq<(Seq<char>, V)>, p: int, k: Seq<char>, v: V)
    requires
        0 <= p <= e.len(),
        !has_entry(e, k),
    ensures
        lookup(e.insert(p, (k, v)), k) == Some(v),
        forall|other: Seq<char>|
            other != k ==> #[trigger] lookup(e.insert(p, (k, v)), other) == lookup(e, other),
    decreases e.len(),
{
    let n = e.insert(p, (k, v));
    if p == 0 {
        assert(n.drop_first() =~= e);
        assert forall|other: Seq<char>| other != k implies #[trigger] lookup(n, other) == lookup(
            e,
            other,
        ) by {
            assert(lookup(n, other) == lookup(n.drop_first(), other));
        }
    } else {
        assert(n[0] == e[0]);
        assert(n.drop_first() =~= e.drop_first().insert(p - 1, (k, v)));
        assert(!has_entry(e.drop_first(), k)) by {
            if has_entry(e.drop_first(), k) {
                let i = choose|i: int| 0 <= i < e.drop_first().len() && e.drop_first()[i].0 == k;
                assert(e[i + 1].0 == k);
            }
        }
        lemma_lookup_after_insert(e.drop_first(), p - 1, k, v);
        assert(e[0].0 != k);
        assert forall|other: Seq<char>| other != k implies #[trigger] lookup(n, other) == lookup(
            e,
            other,
        ) by {
            if e[0].0 != other {
                assert(lookup(n.drop_first(), other) == lookup(e.drop_first(), other));
            }
        }
    }
}

} // verus!
