//! Maps and sets keyed by strings, kept as lists with distinct keys.

use vstd::prelude::*;

verus! {

/// The map of a list of entries; a later entry wins over an earlier one.
pub open spec fn map_of<V>(s: Seq<(String, V)>) -> Map<Seq<char>, V>
    decreases s.len(),
{
    if s.len() == 0 {
        Map::empty()
    } else {
        map_of(s.drop_last()).insert(s.last().0@, s.last().1)
    }
}

/// No two entries have the same key.
pub open spec fn keys_distinct<V>(s: Seq<(String, V)>) -> bool {
    forall|i: int, j: int| 0 <= i < s.len() && 0 <= j < s.len() && i != j ==> #[trigger] s[i].0@ != #[trigger] s[j].0@
}

proof fn lemma_map_of_domain<V>(s: Seq<(String, V)>, k: Seq<char>)
    ensures
        map_of(s).dom().contains(k) <==> exists|i: int| 0 <= i < s.len() && #[trigger] s[i].0@ == k,
    decreases s.len(),
{
    if s.len() > 0 {
        lemma_map_of_domain(s.drop_last(), k);
        if map_of(s.drop_last()).dom().contains(k) {
            let i = choose|i: int| 0 <= i < s.drop_last().len() && #[trigger] s.drop_last()[i].0@ == k;
            assert(s[i].0@ == k);
        }
        if exists|i: int| 0 <= i < s.len() && #[trigger] s[i].0@ == k {
            let i = choose|i: int| 0 <= i < s.len() && #[trigger] s[i].0@ == k;
            if i < s.len() - 1 {
                assert(s.drop_last()[i].0@ == k);
            }
        }
    }
}

proof fn lemma_map_of_value<V>(s: Seq<(String, V)>, i: int)
    requires
        keys_distinct(s),
        0 <= i < s.len(),
    ensures
        map_of(s).dom().contains(s[i].0@),
        map_of(s)[s[i].0@] == s[i].1,
    decreases s.len(),
{
    if i < s.len() - 1 {
        lemma_map_of_value(s.drop_last(), i);
    }
}

proof fn lemma_map_of_update<V>(s: Seq<(String, V)>, i: int, v: V)
    requires
        keys_distinct(s),
        0 <= i < s.len(),
    ensures
        map_of(s.update(i, (s[i].0, v))) == map_of(s).insert(s[i].0@, v),
    decreases s.len(),
{
    let t = s.update(i, (s[i].0, v));
    if i == s.len() - 1 {
        assert(t.drop_last() == s.drop_last());
        assert(map_of(s).insert(s[i].0@, v) =~= map_of(s.drop_last()).insert(s[i].0@, v));
    } else {
        lemma_map_of_update(s.drop_last(), i, v);
        assert(t.drop_last() == s.drop_last().update(i, (s[i].0, v)));
        assert(s.last().0@ != s[i].0@);
        assert(map_of(t) =~= map_of(s).insert(s[i].0@, v));
    }
}

proof fn lemma_map_of_push<V>(s: Seq<(String, V)>, k: String, v: V)
    ensures
        map_of(s.push((k, v))) == map_of(s).insert(k@, v),
{
    assert(s.push((k, v)).drop_last() == s);
}

/// A map from strings to values.
#[derive(Debug)]
pub struct StrMap<V> {
    pub entries: Vec<(String, V)>,
}

impl<V> StrMap<V> {
    /// The keys are distinct.
    pub open spec fn wf(&self) -> bool {
        keys_distinct(self.entries@)
    }

    /// The map that the entries stand for.
    pub open spec fn map(&self) -> Map<Seq<char>, V> {
        map_of(self.entries@)
    }

    /// The empty map.
    pub fn new() -> (r: StrMap<V>)
        ensures
            r.wf(),
            r.map() == Map::<Seq<char>, V>::empty(),
    {
        StrMap { entries: Vec::new() }
    }

    /// The position of the entry with key `key`, if any.
    pub fn find(&self, key: &String) -> (r: Option<usize>)
        requires
            self.wf(),
        ensures
            r is None <==> !self.map().dom().contains(key@),
            r matches Some(i) ==> i < self.entries.len() && self.entries@[i as int].0@ == key@,
    {
        proof {
            lemma_map_of_domain(self.entries@, key@);
        }
        let mut i: usize = 0;
        while i < self.entries.len()
            invariant
                i <= self.entries.len(),
                forall|j: int| 0 <= j < i ==> #[trigger] self.entries@[j].0@ != key@,
                map_of(self.entries@).dom().contains(key@) <==> exists|j: int|
                    0 <= j < self.entries@.len() && #[trigger] self.entries@[j].0@ == key@,
            decreases self.entries.len() - i,
        {
            if self.entries[i].0 == *key {
                assert(self.entries@[i as int].0@ == key@);
                return Some(i);
            }
            i = i + 1;
        }
        None
    }

    /// The value for `key`, if any.
    pub fn get(&self, key: &String) -> (r: Option<&V>)
        requires
            self.wf(),
        ensures
            r is None <==> !self.map().dom().contains(key@),
            r matches Some(v) ==> *v == self.map()[key@],
    {
        match self.find(key) {
            Some(i) => {
                proof {
                    lemma_map_of_value(self.entries@, i as int);
                }
                Some(&self.entries[i].1)
            },
            None => None,
        }
    }

    /// Sets the value for `key`, replacing any earlier one.
    pub fn insert(&mut self, key: String, value: V)
        requires
            old(self).wf(),
        ensures
            final(self).wf(),
            final(self).map() == old(self).map().insert(key@, value),
    {
        match self.find(&key) {
            Some(i) => {
                let ghost s = self.entries@;
                let k = self.entries[i].0.clone();
                proof {
                    lemma_map_of_update(s, i as int, value);
                }
                self.entries.set(i, (k, value));
                assert(self.entries@ == s.update(i as int, (s[i as int].0, value)));
            },
            None => {
                let ghost s = self.entries@;
                proof {
                    lemma_map_of_domain(s, key@);
                    lemma_map_of_push(s, key, value);
                }
                self.entries.push((key, value));
            },
        }
    }

    /// Removes the value for `key` and hands it back, if there is one.
    pub fn take(&mut self, key: &String) -> (r: Option<V>)
        requires
            old(self).wf(),
        ensures
            final(self).wf(),
            final(self).map() == old(self).map().remove(key@),
            r is None <==> !old(self).map().dom().contains(key@),
            r matches Some(v) ==> v == old(self).map()[key@],
    {
        match self.find(key) {
            Some(i) => {
                let ghost s = self.entries@;
                proof {
                    lemma_map_of_value(s, i as int);
                    lemma_map_of_remove(s, i as int);
                }
                let (_, v) = self.entries.remove(i);
                Some(v)
            },
            None => {
                proof {
                    assert(old(self).map().remove(key@) =~= old(self).map());
                }
                None
            },
        }
    }
}

proof fn lemma_map_of_remove<V>(s: Seq<(String, V)>, i: int)
    requires
        keys_distinct(s),
        0 <= i < s.len(),
    ensures
        keys_distinct(s.remove(i)),
        map_of(s.remove(i)) == map_of(s).remove(s[i].0@),
    decreases s.len(),
{
    let t = s.remove(i);
    assert forall|a: int, b: int| 0 <= a < t.len() && 0 <= b < t.len() && a != b implies #[trigger] t[a].0@ != #[trigger] t[b].0@ by {
        let a2 = if a < i { a } else { a + 1 };
        let b2 = if b < i { b } else { b + 1 };
        assert(t[a] == s[a2] && t[b] == s[b2]);
    }
    if i == s.len() - 1 {
        assert(t == s.drop_last());
        lemma_map_of_domain(s.drop_last(), s[i].0@);
        assert forall|j: int| 0 <= j < s.drop_last().len() implies #[trigger] s.drop_last()[j].0@ != s[i].0@ by {
            assert(s.drop_last()[j] == s[j]);
        }
        assert(map_of(s).remove(s[i].0@) =~= map_of(s.drop_last()));
    } else {
        lemma_map_of_remove(s.drop_last(), i);
        assert(t.drop_last() == s.drop_last().remove(i));
        assert(t.last() == s.last());
        assert(s.last().0@ != s[i].0@);
        assert(map_of(t) =~= map_of(s).remove(s[i].0@));
    }
}

/// A set of strings.
#[derive(Debug)]
pub struct StrSet {
    pub items: Vec<String>,
}

impl StrSet {
    /// The set that the items stand for.
    pub open spec fn set(&self) -> Set<Seq<char>> {
        Set::new(|k: Seq<char>| exists|i: int| 0 <= i < self.items.len() && #[trigger] self.items@[i]@ == k)
    }

    /// The empty set.
    pub fn new() -> (r: StrSet)
        ensures
            r.set() == Set::<Seq<char>>::empty(),
    {
        let r = StrSet { items: Vec::new() };
        assert(r.set() =~= Set::<Seq<char>>::empty());
        r
    }

    /// Adds `item` unless it is there already.
    pub fn insert(&mut self, item: String)
        ensures
            final(self).set() == old(self).set().insert(item@),
    {
        let mut i: usize = 0;
        while i < self.items.len()
            invariant
                i <= self.items.len(),
                forall|j: int| 0 <= j < i ==> #[trigger] self.items@[j]@ != item@,
            decreases self.items.len() - i,
        {
            if self.items[i] == item {
                assert(self.set() =~= self.set().insert(item@));
                return;
            }
            i = i + 1;
        }
        let ghost before = self.items@;
        self.items.push(item);
        assert forall|k: Seq<char>| #[trigger] self.set().contains(k) == old(self).set().insert(item@).contains(k) by {
            if old(self).set().contains(k) {
                let j = choose|j: int| 0 <= j < before.len() && #[trigger] before[j]@ == k;
                assert(self.items@[j]@ == k);
            }
            if self.set().contains(k) && k != item@ {
                let j = choose|j: int| 0 <= j < self.items.len() && #[trigger] self.items@[j]@ == k;
                assert(j < before.len());
                assert(before[j]@ == k);
            }
            if k == item@ {
                assert(self.items@[before.len() as int]@ == k);
            }
        }
        assert(self.set() =~= old(self).set().insert(item@));
    }
}

} // verus!
