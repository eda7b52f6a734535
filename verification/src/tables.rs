//! Routing tables of the receiver: small association tables from
//! request keys to resolvers, stashed frames, or consumer channels,
//! with a `Map` view for contracts.  Keys are kept distinct, so the
//! table denotes exactly one binding per key.

use vstd::prelude::*;

use crate::connection::RequestKey;

verus! {

/// The map a sequence of bindings denotes, later bindings winning.
pub open spec fn assoc_map<V>(entries: Seq<(RequestKey, V)>) -> Map<RequestKey, V>
    decreases entries.len(),
{
    if entries.len() == 0 {
        Map::empty()
    } else {
        assoc_map(entries.drop_last()).insert(entries.last().0, entries.last().1)
    }
}

/// No key bound twice.
pub open spec fn distinct_keys<V>(entries: Seq<(RequestKey, V)>) -> bool {
    forall|i: int, j: int| 0 <= i < j < entries.len() ==> entries[i].0 != entries[j].0
}

proof fn lemma_assoc_contains<V>(entries: Seq<(RequestKey, V)>, k: RequestKey)
    ensures
        assoc_map(entries).contains_key(k) <==> (exists|i: int|
            0 <= i < entries.len() && entries[i].0 == k),
    decreases entries.len(),
{
    if entries.len() == 0 {
    } else {
        lemma_assoc_contains(entries.drop_last(), k);
        if entries.last().0 == k {
            assert(entries[entries.len() - 1].0 == k);
        } else {
            if exists|i: int| 0 <= i < entries.len() && entries[i].0 == k {
                let i = choose|i: int| 0 <= i < entries.len() && entries[i].0 == k;
                assert(entries.drop_last()[i].0 == k);
            }
            if assoc_map(entries.drop_last()).contains_key(k) {
                let i = choose|i: int|
                    0 <= i < entries.drop_last().len() && entries.drop_last()[i].0 == k;
                assert(entries[i].0 == k);
            }
        }
    }
}

proof fn lemma_distinct_drop_last<V>(entries: Seq<(RequestKey, V)>)
    requires
        distinct_keys(entries),
        entries.len() > 0,
    ensures
        distinct_keys(entries.drop_last()),
{
    assert forall|i: int, j: int|
        0 <= i < j < entries.drop_last().len() implies entries.drop_last()[i].0
        != entries.drop_last()[j].0 by {
        assert(entries[i].0 != entries[j].0);
    }
}

proof fn lemma_assoc_get<V>(entries: Seq<(RequestKey, V)>, i: int)
    requires
        distinct_keys(entries),
        0 <= i < entries.len(),
    ensures
        assoc_map(entries).contains_key(entries[i].0),
        assoc_map(entries)[entries[i].0] == entries[i].1,
    decreases entries.len(),
{
    if i == entries.len() - 1 {
    } else {
        lemma_distinct_drop_last(entries);
        lemma_assoc_get(entries.drop_last(), i);
        assert(entries.last().0 != entries[i].0);
        assert(entries.drop_last()[i] == entries[i]);
    }
}

proof fn lemma_assoc_update<V>(entries: Seq<(RequestKey, V)>, i: int, v: V)
    requires
        distinct_keys(entries),
        0 <= i < entries.len(),
    ensures
        assoc_map(entries.update(i, (entries[i].0, v))) == assoc_map(entries).insert(
            entries[i].0,
            v,
        ),
        distinct_keys(entries.update(i, (entries[i].0, v))),
    decreases entries.len(),
{
    let k = entries[i].0;
    let s2 = entries.update(i, (k, v));
    assert forall|a: int, b: int| 0 <= a < b < s2.len() implies s2[a].0 != s2[b].0 by {
        assert(entries[a].0 != entries[b].0);
        assert(s2[a].0 == entries[a].0 && s2[b].0 == entries[b].0);
    }
    if i == entries.len() - 1 {
        assert(s2.drop_last() =~= entries.drop_last());
        assert(assoc_map(s2) =~= assoc_map(entries).insert(k, v));
    } else {
        lemma_distinct_drop_last(entries);
        lemma_assoc_update(entries.drop_last(), i, v);
        assert(s2.drop_last() =~= entries.drop_last().update(i, (k, v)));
        assert(s2.last() == entries.last());
        assert(entries.last().0 != k);
        assert(assoc_map(s2) =~= assoc_map(entries).insert(k, v));
    }
}

proof fn lemma_assoc_remove<V>(entries: Seq<(RequestKey, V)>, i: int)
    requires
        distinct_keys(entries),
        0 <= i < entries.len(),
    ensures
        assoc_map(entries.remove(i)) == assoc_map(entries).remove(entries[i].0),
        distinct_keys(entries.remove(i)),
    decreases entries.len(),
{
    let k = entries[i].0;
    let s2 = entries.remove(i);
    assert forall|a: int, b: int| 0 <= a < b < s2.len() implies s2[a].0 != s2[b].0 by {
        let a0: int = if a < i {
            a
        } else {
            a + 1
        };
        let b0: int = if b < i {
            b
        } else {
            b + 1
        };
        assert(s2[a] == entries[a0] && s2[b] == entries[b0]);
        assert(entries[a0].0 != entries[b0].0);
    }
    lemma_distinct_drop_last(entries);
    if i == entries.len() - 1 {
        assert(s2 =~= entries.drop_last());
        lemma_assoc_contains(entries.drop_last(), k);
        assert forall|j: int| 0 <= j < entries.drop_last().len() implies entries.drop_last()[j].0
            != k by {
            assert(entries[j].0 != entries[entries.len() - 1].0);
        }
        assert(!assoc_map(entries.drop_last()).contains_key(k));
        assert(assoc_map(s2) =~= assoc_map(entries).remove(k));
    } else {
        lemma_assoc_remove(entries.drop_last(), i);
        assert(s2.drop_last() =~= entries.drop_last().remove(i));
        assert(s2.last() == entries.last());
        assert(entries.last().0 != k);
        assert(assoc_map(s2) =~= assoc_map(entries).remove(k));
    }
}

/// Association table from request keys to `V`, with at most one binding
/// per key.  Viewed as the `Map` of its bindings.
pub struct KeyTable<V> {
    entries: Vec<(RequestKey, V)>,
}

impl<V> View for KeyTable<V> {
    type V = Map<RequestKey, V>;

    closed spec fn view(&self) -> Map<RequestKey, V> {
        assoc_map(self.entries@)
    }
}

impl<V> KeyTable<V> {
    /// Bindings hold distinct keys.
    pub closed spec fn wf(&self) -> bool {
        distinct_keys(self.entries@)
    }

    /// Empty table.
    pub fn new() -> (r: KeyTable<V>)
        ensures
            r.wf(),
            r@ == Map::<RequestKey, V>::empty(),
    {
        KeyTable { entries: Vec::new() }
    }

    /// True exactly when `k` is bound.
    pub fn contains_key(&self, k: RequestKey) -> (r: bool)
        ensures
            r == self@.contains_key(k),
    {
        proof {
            lemma_assoc_contains(self.entries@, k);
        }
        let n = self.entries.len();
        let mut i: usize = 0;
        while i < n
            invariant
                n == self.entries@.len(),
                i <= n,
                forall|j: int| 0 <= j < i ==> self.entries@[j].0 != k,
                assoc_map(self.entries@).contains_key(k) <==> (exists|j: int|
                    0 <= j < n && self.entries@[j].0 == k),
            decreases n - i,
        {
            if self.entries[i].0 == k {
                return true;
            }
            i = i + 1;
        }
        false
    }

    /// Binds `k` to `v`, replacing any earlier binding of `k`.
    pub fn insert(&mut self, k: RequestKey, v: V)
        requires
            old(self).wf(),
        ensures
            final(self).wf(),
            final(self)@ == old(self)@.insert(k, v),
    {
        let n = self.entries.len();
        let mut i: usize = 0;
        while i < n
            invariant
                self == old(self),
                old(self).wf(),
                n == self.entries@.len(),
                i <= n,
                forall|j: int| 0 <= j < i ==> self.entries@[j].0 != k,
            decreases n - i,
        {
            if self.entries[i].0 == k {
                proof {
                    lemma_assoc_update(self.entries@, i as int, v);
                }
                self.entries[i].1 = v;
                return ;
            }
            i = i + 1;
        }
        proof {
            let s = self.entries@;
            let s2 = s.push((k, v));
            assert(s2.drop_last() =~= s);
            assert forall|a: int, b: int| 0 <= a < b < s2.len() implies s2[a].0 != s2[b].0 by {
                if b < s.len() {
                    assert(s[a].0 != s[b].0);
                } else {
                    assert(s2[a].0 == s[a].0 && s2[b].0 == k);
                }
            }
        }
        self.entries.push((k, v));
    }

    /// Removes and returns the binding of `k`, if there is one.
    pub fn remove(&mut self, k: RequestKey) -> (r: Option<V>)
        requires
            old(self).wf(),
        ensures
            final(self).wf(),
            final(self)@ == old(self)@.remove(k),
            match r {
                Some(v) => old(self)@.contains_key(k) && v == old(self)@[k],
                None => !old(self)@.contains_key(k),
            },
    {
        proof {
            lemma_assoc_contains(self.entries@, k);
        }
        let n = self.entries.len();
        let mut i: usize = 0;
        while i < n
            invariant
                self == old(self),
                old(self).wf(),
                n == self.entries@.len(),
                i <= n,
                forall|j: int| 0 <= j < i ==> self.entries@[j].0 != k,
                assoc_map(self.entries@).contains_key(k) <==> (exists|j: int|
                    0 <= j < n && self.entries@[j].0 == k),
            decreases n - i,
        {
            if self.entries[i].0 == k {
                proof {
                    lemma_assoc_get(self.entries@, i as int);
                    lemma_assoc_remove(self.entries@, i as int);
                }
                let (_, v) = self.entries.remove(i);
                return Some(v);
            }
            i = i + 1;
        }
        proof {
            assert(!self@.contains_key(k));
            assert(self@.remove(k) =~= self@);
        }
        None
    }

    /// The binding of `k`, if there is one.
    pub fn get(&self, k: RequestKey) -> (r: Option<&V>)
        requires
            self.wf(),
        ensures
            match r {
                Some(v) => self@.contains_key(k) && *v == self@[k],
                None => !self@.contains_key(k),
            },
    {
        proof {
            lemma_assoc_contains(self.entries@, k);
        }
        let n = self.entries.len();
        let mut i: usize = 0;
        while i < n
            invariant
                n == self.entries@.len(),
                i <= n,
                self.wf(),
                forall|j: int| 0 <= j < i ==> self.entries@[j].0 != k,
                assoc_map(self.entries@).contains_key(k) <==> (exists|j: int|
                    0 <= j < n && self.entries@[j].0 == k),
            decreases n - i,
        {
            if self.entries[i].0 == k {
                proof {
                    lemma_assoc_get(self.entries@, i as int);
                }
                return Some(&self.entries[i].1);
            }
            i = i + 1;
        }
        None
    }
}

} // verus!
