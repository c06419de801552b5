//! Tables keyed by name: method handlers and registered tools.
use vstd::prelude::*;
use crate::json::{lookup, find_key, lemma_lookup_found, lemma_lookup_absent};

verus! {

/// Replacing the value of an entry whose key is not `k` leaves the lookup of
/// `k` unchanged.
pub proof fn lemma_lookup_update_other<V>(s: Seq<(Seq<char>, V)>, i: int, e: (Seq<char>, V), k: Seq<char>)
    requires
        0 <= i < s.len(),
        s[i].0 != k,
        e.0 != k,
    ensures
        lookup(s.update(i, e), k) == lookup(s, k),
    decreases s.len(),
{
    let t = s.update(i, e);
    if i == 0 {
        assert(t.drop_first() =~= s.drop_first());
    } else if s[0].0 != k {
        assert(t.drop_first() =~= s.drop_first().update(i - 1, e));
        lemma_lookup_update_other(s.drop_first(), i - 1, e, k);
    }
}

/// Appending an entry whose key is not `k` leaves the lookup of `k` unchanged.
pub proof fn lemma_lookup_push_other<V>(s: Seq<(Seq<char>, V)>, e: (Seq<char>, V), k: Seq<char>)
    requires
        e.0 != k,
    ensures
        lookup(s.push(e), k) == lookup(s, k),
    decreases s.len(),
{
    if s.len() == 0 {
        assert(s.push(e).drop_first() =~= Seq::<(Seq<char>, V)>::empty());
    } else if s[0].0 != k {
        assert(s.push(e).drop_first() =~= s.drop_first().push(e));
        lemma_lookup_push_other(s.drop_first(), e, k);
    }
}

/// Values keyed by name; each name appears at most once, and entries keep
/// the order in which their names were first inserted.
pub struct Registry<V> {
    entries: Vec<(String, V)>,
}

impl<V> Registry<V> {
    /// The entries, as (name, value) pairs.
    pub closed spec fn table(&self) -> Seq<(Seq<char>, V)> {
        Seq::new(self.entries@.len(), |i: int| (self.entries@[i].0@, self.entries@[i].1))
    }

    pub open spec fn wf(&self) -> bool {
        forall|i: int, j: int|
            0 <= i < j < self.table().len() ==> #[trigger] self.table()[i].0 != #[trigger] self.table()[j].0
    }

    /// The value registered under `key`.
    pub open spec fn value_of(&self, key: Seq<char>) -> Option<V> {
        lookup(self.table(), key)
    }

    pub fn new() -> (r: Registry<V>)
        ensures
            r.wf(),
            r.table().len() == 0,
            forall|k: Seq<char>| r.value_of(k) is None,
    {
        let r = Registry { entries: Vec::new() };
        assert forall|k: Seq<char>| r.value_of(k) is None by {
            lemma_lookup_absent(r.table(), k);
        }
        r
    }

    /// Registers `v` under `key`, replacing what was registered under it.
    pub fn insert(&mut self, key: String, v: V)
        requires
            old(self).wf(),
        ensures
            final(self).wf(),
            final(self).value_of(key@) == Some(v),
            forall|k: Seq<char>| k != key@ ==> final(self).value_of(k) == old(self).value_of(k),
            old(self).value_of(key@) is Some ==> final(self).table().len() == old(self).table().len(),
            old(self).value_of(key@) is None ==> final(self).table().len() == old(self).table().len() + 1,
    {
        let ghost t0 = self.table();
        match find_key(&self.entries, &key) {
            Some(i) => {
                let ghost kv = key@;
                self.entries.set(i, (key, v));
                proof {
                    assert(self.table() =~= t0.update(i as int, (kv, v)));
                    assert forall|k: int| 0 <= k < i implies #[trigger] t0[k].0 != kv by {
                        assert(old(self).entries@[k].0@ != kv);
                    }
                    lemma_lookup_found(t0, kv, i as int);
                    lemma_lookup_found(self.table(), kv, i as int);
                    assert forall|a: int, b: int| 0 <= a < b < self.table().len() implies #[trigger] self.table()[a].0
                        != #[trigger] self.table()[b].0 by {
                        assert(self.table()[a].0 == t0[a].0);
                        assert(self.table()[b].0 == t0[b].0);
                    }
                    assert forall|k: Seq<char>| k != kv implies self.value_of(k) == old(self).value_of(k) by {
                        lemma_lookup_update_other(t0, i as int, (kv, v), k);
                    }
                }
            },
            None => {
                let ghost kv = key@;
                self.entries.push((key, v));
                proof {
                    assert(self.table() =~= t0.push((kv, v)));
                    assert forall|k: int| 0 <= k < t0.len() implies #[trigger] t0[k].0 != kv by {
                        assert(old(self).entries@[k].0@ != kv);
                    }
                    lemma_lookup_absent(t0, kv);
                    lemma_lookup_found(self.table(), kv, t0.len() as int);
                    assert forall|a: int, b: int| 0 <= a < b < self.table().len() implies #[trigger] self.table()[a].0
                        != #[trigger] self.table()[b].0 by {
                        assert(self.table()[a] == t0[a]);
                        if b < t0.len() {
                            assert(self.table()[b] == t0[b]);
                        }
                    }
                    assert forall|k: Seq<char>| k != kv implies self.value_of(k) == old(self).value_of(k) by {
                        lemma_lookup_push_other(t0, (kv, v), k);
                    }
                }
            },
        }
    }

    /// The value registered under `key`.
    pub fn get(&self, key: &String) -> (r: Option<&V>)
        ensures
            match r {
                Some(v) => self.value_of(key@) == Some(*v),
                None => self.value_of(key@) is None,
            },
    {
        match find_key(&self.entries, key) {
            Some(i) => {
                proof {
                    assert forall|k: int| 0 <= k < i implies #[trigger] self.table()[k].0 != key@ by {
                        assert(self.entries@[k].0@ != key@);
                    }
                    lemma_lookup_found(self.table(), key@, i as int);
                }
                Some(&self.entries[i].1)
            },
            None => {
                proof {
                    assert forall|k: int| 0 <= k < self.table().len() implies #[trigger] self.table()[k].0 != key@ by {
                        assert(self.entries@[k].0@ != key@);
                    }
                    lemma_lookup_absent(self.table(), key@);
                }
                None
            },
        }
    }

    /// Whether something is registered under `key`.
    pub fn contains(&self, key: &String) -> (r: bool)
        ensures
            r == self.value_of(key@) is Some,
    {
        self.get(key).is_some()
    }

    /// Number of entries.
    pub fn len(&self) -> (r: usize)
        ensures
            r == self.table().len(),
    {
        self.entries.len()
    }

    /// The entries as stored.
    pub closed spec fn pairs(&self) -> Seq<(String, V)> {
        self.entries@
    }

    /// The entries, in order.
    pub fn as_vec(&self) -> (r: &Vec<(String, V)>)
        ensures
            r@ == self.pairs(),
    {
        &self.entries
    }

    /// The entry at position `i`.
    pub fn entry(&self, i: usize) -> (r: (&String, &V))
        requires
            i < self.table().len(),
        ensures
            (r.0@, *r.1) == self.table()[i as int],
    {
        (&self.entries[i].0, &self.entries[i].1)
    }
}

} // verus!
