//! Keyed one-time stores: an association from keys to values whose contract
//! is the map of key views to values, with an atomic retrieve-and-delete.

use vstd::prelude::*;

verus! {

/// A key of a [`KeyedStore`]: a value whose executable equality agrees with
/// equality of its view.
pub trait StoreKey: View + Sized {
    /// Equality of keys, agreeing with equality of the keys' views.
    fn key_eq(&self, other: &Self) -> (r: bool)
        ensures
            r == (self@ == other@),
    ;
}

impl StoreKey for u128 {
    fn key_eq(&self, other: &Self) -> (r: bool) {
        *self == *other
    }
}

impl StoreKey for String {
    fn key_eq(&self, other: &Self) -> (r: bool) {
        *self == *other
    }
}

/// An association from keys to values, abstracted as the map from key views
/// to values. One such store holds each kind of one-time ceremony state, the
/// single-use tokens, the credential cache and the account records.
pub struct KeyedStore<K: StoreKey, V> {
    entries: Vec<(K, V)>,
}

impl<K: StoreKey, V> View for KeyedStore<K, V> {
    type V = Map<<K as View>::V, V>;

    closed spec fn view(&self) -> Map<<K as View>::V, V> {
        map_of(self.entries@)
    }
}

/// The map an association list stands for; a later entry wins over an
/// earlier one with the same key.
pub closed spec fn map_of<K: StoreKey, V>(s: Seq<(K, V)>) -> Map<<K as View>::V, V>
    decreases s.len(),
{
    if s.len() == 0 {
        Map::empty()
    } else {
        map_of(s.drop_last()).insert(s.last().0@, s.last().1)
    }
}

/// No two entries share a key view.
spec fn distinct_keys<K: StoreKey, V>(s: Seq<(K, V)>) -> bool {
    forall|i: int, j: int| 0 <= i < j < s.len() ==> s[i].0@ != s[j].0@
}

proof fn lemma_map_of_dom<K: StoreKey, V>(s: Seq<(K, V)>)
    ensures
        forall|k: <K as View>::V|
            map_of(s).dom().contains(k) <==> (exists|i: int| 0 <= i < s.len() && s[i].0@ == k),
    decreases s.len(),
{
    if s.len() > 0 {
        let t = s.drop_last();
        lemma_map_of_dom(t);
        assert forall|k: <K as View>::V| map_of(s).dom().contains(k) implies (exists|i: int|
            0 <= i < s.len() && s[i].0@ == k) by {
            if k == s.last().0@ {
                assert(s[s.len() - 1].0@ == k);
            } else {
                assert(map_of(t).dom().contains(k));
                let i = choose|i: int| 0 <= i < t.len() && t[i].0@ == k;
                assert(s[i] == t[i]);
                assert(s[i].0@ == k);
            }
        }
        assert forall|k: <K as View>::V|
            (exists|i: int| 0 <= i < s.len() && s[i].0@ == k) implies map_of(
            s,
        ).dom().contains(k) by {
            let i = choose|i: int| 0 <= i < s.len() && s[i].0@ == k;
            if i < s.len() - 1 {
                assert(t[i] == s[i]);
                assert(t[i].0@ == k);
                assert(map_of(t).dom().contains(k));
            }
        }
    }
}

proof fn lemma_map_of_index<K: StoreKey, V>(s: Seq<(K, V)>, i: int)
    requires
        distinct_keys(s),
        0 <= i < s.len(),
    ensures
        map_of(s).dom().contains(s[i].0@),
        map_of(s)[s[i].0@] == s[i].1,
    decreases s.len(),
{
    if i == s.len() - 1 {
    } else {
        assert(distinct_keys(s.drop_last()));
        assert(s.drop_last()[i] == s[i]);
        lemma_map_of_index(s.drop_last(), i);
        assert(s[i].0@ != s.last().0@);
    }
}

proof fn lemma_map_of_remove<K: StoreKey, V>(s: Seq<(K, V)>, i: int)
    requires
        distinct_keys(s),
        0 <= i < s.len(),
    ensures
        map_of(s.remove(i)) == map_of(s).remove(s[i].0@),
    decreases s.len(),
{
    lemma_map_of_dom::<K, V>(s.drop_last());
    if i == s.len() - 1 {
        assert(s.remove(i) =~= s.drop_last());
        assert(!map_of(s.drop_last()).dom().contains(s.last().0@));
        assert(map_of(s.drop_last()).insert(s.last().0@, s.last().1).remove(s.last().0@)
            =~= map_of(s.drop_last()));
    } else {
        let t = s.remove(i);
        assert(t.drop_last() =~= s.drop_last().remove(i));
        assert(t.last() == s.last());
        assert(distinct_keys(s.drop_last()));
        lemma_map_of_remove(s.drop_last(), i);
        assert(s.drop_last()[i] == s[i]);
        assert(s[i].0@ != s.last().0@);
        assert(map_of(t) == map_of(s.drop_last()).remove(s[i].0@).insert(
            s.last().0@,
            s.last().1,
        ));
        assert(map_of(s.drop_last()).remove(s[i].0@).insert(s.last().0@, s.last().1)
            =~= map_of(s.drop_last()).insert(s.last().0@, s.last().1).remove(s[i].0@));
    }
}

impl<K: StoreKey, V> KeyedStore<K, V> {
    /// Well-formedness: no two entries share a key. Constructors establish
    /// it and every method preserves it.
    pub closed spec fn wf(&self) -> bool {
        distinct_keys(self.entries@)
    }

    /// An empty store.
    pub fn new() -> (r: Self)
        ensures
            r@ == Map::<<K as View>::V, V>::empty(),
            r.wf(),
    {
        KeyedStore { entries: Vec::new() }
    }

    /// The index of the entry with the given key, if one is there.
    fn index_of(&self, key: &K) -> (r: Option<usize>)
        ensures
            match r {
                Some(i) => i < self.entries@.len() && self.entries@[i as int].0@ == key@,
                None => forall|i: int| 0 <= i < self.entries@.len() ==> self.entries@[i].0@ != key@,
            },
    {
        let mut i: usize = 0;
        let n = self.entries.len();
        while i < n
            invariant
                0 <= i <= n,
                n == self.entries@.len(),
                forall|j: int| 0 <= j < i ==> self.entries@[j].0@ != key@,
            decreases n - i,
        {
            if self.entries[i].0.key_eq(key) {
                return Some(i);
            }
            i = i + 1;
        }
        None
    }

    /// Whether the store holds an entry under this key.
    pub fn contains_key(&self, key: &K) -> (r: bool)
        requires
            self.wf(),
        ensures
            r == self@.dom().contains(key@),
    {
        proof {
            lemma_map_of_dom::<K, V>(self.entries@);
        }
        self.index_of(key).is_some()
    }

    /// A borrow of the value stored under this key, if one is there.
    pub fn get(&self, key: &K) -> (r: Option<&V>)
        requires
            self.wf(),
        ensures
            match r {
                Some(v) => self@.dom().contains(key@) && *v == self@[key@],
                None => !self@.dom().contains(key@),
            },
    {
        proof {
            lemma_map_of_dom::<K, V>(self.entries@);
        }
        match self.index_of(key) {
            Some(i) => {
                proof {
                    lemma_map_of_index(self.entries@, i as int);
                }
                Some(&self.entries[i].1)
            },
            None => None,
        }
    }

    /// Stores a value under a key, replacing whatever was there.
    pub fn insert(&mut self, key: K, value: V)
        requires
            old(self).wf(),
        ensures
            final(self)@ == old(self)@.insert(key@, value),
            final(self).wf(),
    {
        let ghost m0 = self@;
        match self.index_of(&key) {
            Some(i) => {
                proof {
                    lemma_map_of_remove(self.entries@, i as int);
                }
                let _ = self.entries.remove(i);
                proof {
                    assert(distinct_keys(self.entries@));
                }
            },
            None => (),
        }
        proof {
            lemma_map_of_dom::<K, V>(self.entries@);
            assert(!self@.dom().contains(key@));
        }
        let ghost before_push = self.entries@;
        self.entries.push((key, value));
        proof {
            assert(self.entries@.drop_last() =~= before_push);
            assert(distinct_keys(self.entries@));
            assert(self@ =~= m0.insert(self.entries@.last().0@, value));
        }
    }

    /// Removes and returns the value stored under this key: the atomic
    /// retrieve-and-delete that makes one-time state one-time.
    pub fn take(&mut self, key: &K) -> (r: Option<V>)
        requires
            old(self).wf(),
        ensures
            final(self).wf(),
            old(self)@.dom().contains(key@) ==> r == Some(old(self)@[key@]) && final(self)@
                == old(self)@.remove(key@),
            !old(self)@.dom().contains(key@) ==> r == None::<V> && final(self)@ == old(self)@,
    {
        proof {
            lemma_map_of_dom::<K, V>(self.entries@);
        }
        match self.index_of(key) {
            Some(i) => {
                proof {
                    lemma_map_of_index(self.entries@, i as int);
                    lemma_map_of_remove(self.entries@, i as int);
                }
                let e = self.entries.remove(i);
                proof {
                    assert(distinct_keys(self.entries@));
                }
                Some(e.1)
            },
            None => None,
        }
    }

    /// Removes the value stored under this key, if one is there.
    pub fn remove_key(&mut self, key: &K)
        requires
            old(self).wf(),
        ensures
            final(self)@ == old(self)@.remove(key@),
            final(self).wf(),
    {
        let _ = self.take(key);
        proof {
            if !old(self)@.dom().contains(key@) {
                assert(final(self)@ =~= old(self)@.remove(key@));
            }
        }
    }
}

} // verus!
