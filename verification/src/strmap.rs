//! A small association map keyed by strings, kept as a vector of pairs
//! with pairwise-distinct keys.  Both shared tables of the frontend —
//! the connection registry and the pending-request table — are
//! instances of it.  Its view is the mathematical `Map` the pairs
//! denote.

use vstd::prelude::*;

verus! {

/// A mapping from string keys to values of `T`.
pub struct StrMap<T> {
    entries: Vec<(String, T)>,
}

/// The map a pair sequence denotes, later pairs winning.
spec fn as_map<T>(entries: Seq<(String, T)>) -> Map<Seq<char>, T>
    decreases entries.len(),
{
    if entries.len() == 0 {
        Map::empty()
    } else {
        as_map(entries.drop_last()).insert(entries.last().0@, entries.last().1)
    }
}

/// Distinct pairs carry distinct keys.
spec fn distinct_keys<T>(entries: Seq<(String, T)>) -> bool {
    forall|i: int, j: int|
        0 <= i < j < entries.len() ==> (#[trigger] entries[i]).0@ != (#[trigger] entries[j]).0@
}

proof fn lemma_as_map_contains<T>(entries: Seq<(String, T)>, k: Seq<char>)
    ensures
        as_map(entries).contains_key(k) <==> exists|i: int|
            0 <= i < entries.len() && (#[trigger] entries[i]).0@ == k,
    decreases entries.len(),
{
    if entries.len() == 0 {
    } else {
        let prefix = entries.drop_last();
        lemma_as_map_contains(prefix, k);
        if entries.last().0@ == k {
            assert(entries[entries.len() - 1].0@ == k);
        } else {
            if exists|i: int| 0 <= i < prefix.len() && (#[trigger] prefix[i]).0@ == k {
                let i = choose|i: int| 0 <= i < prefix.len() && (#[trigger] prefix[i]).0@ == k;
                assert(entries[i].0@ == k);
            }
            if exists|i: int| 0 <= i < entries.len() && (#[trigger] entries[i]).0@ == k {
                let i = choose|i: int| 0 <= i < entries.len() && (#[trigger] entries[i]).0@ == k;
                assert(prefix[i].0@ == k);
            }
        }
    }
}

proof fn lemma_as_map_index<T>(entries: Seq<(String, T)>, i: int)
    requires
        0 <= i < entries.len(),
        forall|j: int| i < j < entries.len() ==> (#[trigger] entries[j]).0@ != entries[i].0@,
    ensures
        as_map(entries).contains_key(entries[i].0@),
        as_map(entries)[entries[i].0@] == entries[i].1,
    decreases entries.len(),
{
    if i == entries.len() - 1 {
    } else {
        let prefix = entries.drop_last();
        assert(prefix[i] == entries[i]);
        lemma_as_map_index(prefix, i);
        assert(entries.last().0@ != entries[i].0@);
    }
}

proof fn lemma_as_map_remove<T>(entries: Seq<(String, T)>, i: int)
    requires
        0 <= i < entries.len(),
        distinct_keys(entries),
    ensures
        as_map(entries.remove(i)) == as_map(entries).remove(entries[i].0@),
    decreases entries.len(),
{
    let k = entries[i].0@;
    entries.remove_ensures(i);
    if i == entries.len() - 1 {
        assert(entries.remove(i) =~= entries.drop_last());
        lemma_as_map_contains(entries.drop_last(), k);
        assert forall|j: int| 0 <= j < entries.drop_last().len() implies (#[trigger] entries.drop_last()[j]).0@
            != k by {
            assert(entries.drop_last()[j] == entries[j]);
        }
        assert(!as_map(entries.drop_last()).contains_key(k));
        assert(as_map(entries).remove(k) =~= as_map(entries.drop_last()));
    } else {
        let shorter = entries.remove(i);
        let prefix = entries.drop_last();
        assert(shorter.drop_last() =~= prefix.remove(i));
        assert(shorter.last() == entries.last());
        assert(distinct_keys(prefix)) by {
            assert(forall|a: int| 0 <= a < prefix.len() ==> prefix[a] == entries[a]);
        }
        lemma_as_map_remove(prefix, i);
        assert(prefix[i] == entries[i]);
        assert(entries.last().0@ != k);
        assert(as_map(prefix).remove(k).insert(entries.last().0@, entries.last().1) =~= as_map(
            prefix,
        ).insert(entries.last().0@, entries.last().1).remove(k));
    }
}

impl<T> View for StrMap<T> {
    type V = Map<Seq<char>, T>;

    closed spec fn view(&self) -> Map<Seq<char>, T> {
        as_map(self.entries@)
    }
}

impl<T> StrMap<T> {
    /// The keys, in insertion order.
    pub closed spec fn keys_seq(&self) -> Seq<Seq<char>> {
        self.entries@.map_values(|p: (String, T)| p.0@)
    }

    /// Well-formed: no two entries share a key.
    pub closed spec fn wf(&self) -> bool {
        distinct_keys(self.entries@)
    }

    /// In a well-formed map the key sequence has no repeats.
    pub proof fn lemma_keys_unique(&self)
        requires
            self.wf(),
        ensures
            forall|i: int, j: int|
                0 <= i < j < self.keys_seq().len() ==> self.keys_seq()[i] != self.keys_seq()[j],
    {
    }

    /// The key sequence carries exactly the keys of the map.
    pub proof fn lemma_keys_match_view(&self)
        ensures
            forall|k: Seq<char>| #[trigger] self@.contains_key(k) <==> self.keys_seq().contains(k),
    {
        assert forall|k: Seq<char>| #[trigger] self@.contains_key(k) <==> self.keys_seq().contains(
            k,
        ) by {
            lemma_as_map_contains(self.entries@, k);
            if self@.contains_key(k) {
                let i = choose|i: int|
                    0 <= i < self.entries@.len() && (#[trigger] self.entries@[i]).0@ == k;
                assert(self.keys_seq()[i] == k);
            }
            if self.keys_seq().contains(k) {
                let i = choose|i: int|
                    0 <= i < self.keys_seq().len() && self.keys_seq()[i] == k;
                assert(self.entries@[i].0@ == k);
            }
        }
    }

    /// An empty map.
    pub fn new() -> (r: Self)
        ensures
            r.wf(),
            r@ == Map::<Seq<char>, T>::empty(),
            r.keys_seq() == Seq::<Seq<char>>::empty(),
    {
        let r = StrMap { entries: Vec::new() };
        proof {
            assert(r.keys_seq() =~= Seq::<Seq<char>>::empty());
        }
        r
    }

    /// The position of the entry holding `k`, if any.
    fn position(&self, k: &str) -> (r: Option<usize>)
        ensures
            match r {
                Some(i) => i < self.entries@.len() && self.entries@[i as int].0@ == k@,
                None => forall|j: int|
                    0 <= j < self.entries@.len() ==> (#[trigger] self.entries@[j]).0@ != k@,
            },
    {
        let key = k.to_owned();
        let n = self.entries.len();
        let mut i: usize = 0;
        while i < n
            invariant
                n == self.entries@.len(),
                0 <= i <= n,
                key@ == k@,
                forall|j: int| 0 <= j < i ==> (#[trigger] self.entries@[j]).0@ != k@,
            decreases n - i,
        {
            if self.entries[i].0 == key {
                return Some(i);
            }
            i += 1;
        }
        None
    }

    /// Whether the map holds `k`.
    pub fn contains_key(&self, k: &str) -> (r: bool)
        ensures
            r == self@.contains_key(k@),
    {
        proof {
            lemma_as_map_contains(self.entries@, k@);
        }
        match self.position(k) {
            Some(_) => true,
            None => false,
        }
    }

    /// Whether the map holds nothing.
    pub fn is_empty(&self) -> (r: bool)
        ensures
            r == (self.keys_seq().len() == 0),
            r ==> self@ == Map::<Seq<char>, T>::empty(),
    {
        self.entries.len() == 0
    }

    /// The value at `k`, if any, left in place.
    pub fn get(&self, k: &str) -> (r: Option<&T>)
        requires
            self.wf(),
        ensures
            match r {
                Some(v) => self@.contains_key(k@) && *v == self@[k@],
                None => !self@.contains_key(k@),
            },
    {
        proof {
            lemma_as_map_contains(self.entries@, k@);
        }
        match self.position(k) {
            Some(i) => {
                proof {
                    lemma_as_map_index(self.entries@, i as int);
                }
                Some(&self.entries[i].1)
            },
            None => None,
        }
    }

    /// Removes the entry at `k` and hands its value out.
    pub fn remove(&mut self, k: &str) -> (r: Option<T>)
        requires
            old(self).wf(),
        ensures
            final(self).wf(),
            final(self)@ == old(self)@.remove(k@),
            match r {
                Some(v) => old(self)@.contains_key(k@) && v == old(self)@[k@],
                None => !old(self)@.contains_key(k@) && *final(self) == *old(self),
            },
    {
        proof {
            lemma_as_map_contains(self.entries@, k@);
        }
        match self.position(k) {
            Some(i) => {
                let ghost before = self.entries@;
                proof {
                    lemma_as_map_index(before, i as int);
                    lemma_as_map_remove(before, i as int);
                    before.remove_ensures(i as int);
                }
                let (_, v) = self.entries.remove(i);
                proof {
                    assert(distinct_keys(self.entries@)) by {
                        assert forall|a: int, b: int|
                            0 <= a < b < self.entries@.len() implies (#[trigger] self.entries@[a]).0@
                            != (#[trigger] self.entries@[b]).0@ by {
                            let oa: int = if a < i { a } else { a + 1 };
                            let ob: int = if b < i { b } else { b + 1 };
                            assert(self.entries@[a] == before[oa]);
                            assert(self.entries@[b] == before[ob]);
                        }
                    }
                }
                Some(v)
            },
            None => {
                proof {
                    assert(old(self)@.remove(k@) =~= old(self)@);
                }
                None
            },
        }
    }

    /// Inserts `v` under `k`, handing out whatever value `k` held.
    pub fn insert(&mut self, k: String, v: T) -> (r: Option<T>)
        requires
            old(self).wf(),
        ensures
            final(self).wf(),
            final(self)@ == old(self)@.insert(k@, v),
            match r {
                Some(u) => old(self)@.contains_key(k@) && u == old(self)@[k@],
                None => !old(self)@.contains_key(k@),
            },
    {
        let displaced = self.remove(k.as_str());
        let ghost mid = self.entries@;
        proof {
            lemma_as_map_contains(mid, k@);
        }
        self.entries.push((k, v));
        proof {
            assert(self.entries@.drop_last() =~= mid);
            assert(distinct_keys(self.entries@)) by {
                assert forall|a: int, b: int|
                    0 <= a < b < self.entries@.len() implies (#[trigger] self.entries@[a]).0@
                    != (#[trigger] self.entries@[b]).0@ by {
                    if b < self.entries@.len() - 1 {
                        assert(self.entries@[a] == mid[a]);
                        assert(self.entries@[b] == mid[b]);
                    } else {
                        assert(self.entries@[a] == mid[a]);
                        assert(!as_map(mid).contains_key(k@));
                    }
                }
            }
            assert(final(self)@ =~= old(self)@.insert(k@, v));
        }
        displaced
    }
}

} // verus!
