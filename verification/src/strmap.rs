//! A map keyed by text, holding at most one entry per key, that remembers
//! the order in which keys were first inserted.

use vstd::prelude::*;

verus! {

/// A map from texts to values. Each key occurs at most once among the entries.
#[derive(Debug)]
pub struct StrMap<V> {
    entries: Vec<(String, V)>,
}

/// The keys of a sequence of entries, by their views.
pub open spec fn keys_of<V>(s: Seq<(String, V)>) -> Seq<Seq<char>> {
    Seq::new(s.len(), |i: int| s[i].0@)
}

/// The map that a sequence of entries with distinct keys stands for.
pub open spec fn map_of<V>(s: Seq<(String, V)>) -> Map<Seq<char>, V>
    decreases s.len(),
{
    if s.len() == 0 {
        Map::empty()
    } else {
        map_of(s.drop_last()).insert(s.last().0@, s.last().1)
    }
}

/// No key occurs twice.
pub open spec fn distinct_keys<V>(s: Seq<(String, V)>) -> bool {
    forall|i: int, j: int| 0 <= i < s.len() && 0 <= j < s.len() && i != j ==> s[i].0@ != s[j].0@
}

/// A key is in the map of a sequence exactly when some entry has it, and the
/// map gives that entry's value.
pub proof fn lemma_map_of<V>(s: Seq<(String, V)>)
    requires
        distinct_keys(s),
    ensures
        forall|k: Seq<char>| #[trigger] map_of(s).contains_key(k) <==> exists|i: int| 0 <= i < s.len() && s[i].0@ == k,
        forall|i: int| 0 <= i < s.len() ==> #[trigger] map_of(s)[s[i].0@] == s[i].1,
        map_of(s).dom().finite(),
        map_of(s).dom().len() == s.len(),
    decreases s.len(),
{
    if s.len() > 0 {
        let t = s.drop_last();
        assert(distinct_keys(t));
        lemma_map_of(t);
        assert forall|k: Seq<char>| #[trigger] map_of(s).contains_key(k) <==> exists|i: int| 0 <= i < s.len() && s[i].0@ == k by {
            if map_of(s).contains_key(k) {
                if k == s.last().0@ {
                    assert(s[s.len() - 1].0@ == k);
                } else {
                    let i = choose|i: int| 0 <= i < t.len() && t[i].0@ == k;
                    assert(s[i].0@ == k);
                }
            }
            if exists|i: int| 0 <= i < s.len() && s[i].0@ == k {
                let i = choose|i: int| 0 <= i < s.len() && s[i].0@ == k;
                if i < s.len() - 1 {
                    assert(t[i].0@ == k);
                }
            }
        }
        assert forall|i: int| 0 <= i < s.len() implies #[trigger] map_of(s)[s[i].0@] == s[i].1 by {
            if i < s.len() - 1 {
                assert(t[i] == s[i]);
                assert(s[i].0@ != s.last().0@);
            }
        }
        assert(!map_of(t).contains_key(s.last().0@)) by {
            if map_of(t).contains_key(s.last().0@) {
                let i = choose|i: int| 0 <= i < t.len() && t[i].0@ == s.last().0@;
                assert(s[i].0@ == s[s.len() - 1].0@);
            }
        }
    }
}

impl<V> StrMap<V> {
    /// The entries in insertion order.
    pub closed spec fn entries(self) -> Seq<(String, V)> {
        self.entries@
    }

    /// The map that the entries stand for.
    pub open spec fn model(self) -> Map<Seq<char>, V> {
        map_of(self.entries())
    }

    /// The keys, in insertion order.
    pub open spec fn key_seq(self) -> Seq<Seq<char>> {
        keys_of(self.entries())
    }

    /// No key occurs twice.
    #[verifier::type_invariant]
    pub closed spec fn wf(self) -> bool {
        distinct_keys(self.entries@)
    }

    /// The keys of every map are distinct; this states it for the caller.
    pub fn check_distinct(&self)
        ensures
            distinct_keys(self.entries()),
    {
        proof {
            use_type_invariant(&*self);
        }
    }

    /// An empty map.
    pub fn new() -> (m: Self)
        ensures
            m.entries() == Seq::<(String, V)>::empty(),
            m.model() == Map::<Seq<char>, V>::empty(),
    {
        StrMap { entries: Vec::new() }
    }

    /// The number of entries.
    pub fn len(&self) -> (n: usize)
        ensures
            n == self.entries().len(),
    {
        self.entries.len()
    }

    /// The key and value of the entry at a position.
    pub fn entry_at(&self, i: usize) -> (r: (&String, &V))
        requires
            i < self.entries().len(),
        ensures
            *r.0 == self.entries()[i as int].0,
            *r.1 == self.entries()[i as int].1,
    {
        (&self.entries[i].0, &self.entries[i].1)
    }

    /// The position of the entry with the given key, if there is one.
    pub fn position(&self, key: &str) -> (r: Option<usize>)
        ensures
            match r {
                Some(i) => i < self.entries().len() && self.entries()[i as int].0@ == key@,
                None => forall|i: int| 0 <= i < self.entries().len() ==> self.entries()[i].0@ != key@,
            },
    {
        let mut i: usize = 0;
        while i < self.entries.len()
            invariant
                i <= self.entries@.len(),
                forall|j: int| 0 <= j < i ==> self.entries@[j].0@ != key@,
            decreases self.entries@.len() - i,
        {
            if crate::text::str_eq(self.entries[i].0.as_str(), key) {
                return Some(i);
            }
            i = i + 1;
        }
        None
    }

    /// Whether the map has an entry for the key.
    pub fn contains_key(&self, key: &str) -> (r: bool)
        ensures
            r == self.model().contains_key(key@),
    {
        proof {
            use_type_invariant(&*self);
            lemma_map_of(self.entries());
        }
        self.position(key).is_some()
    }

    /// The value stored for the key, if any.
    pub fn get(&self, key: &str) -> (r: Option<&V>)
        ensures
            match r {
                Some(v) => self.model().contains_key(key@) && *v == self.model()[key@],
                None => !self.model().contains_key(key@),
            },
    {
        proof {
            use_type_invariant(&*self);
            lemma_map_of(self.entries());
        }
        match self.position(key) {
            Some(i) => Some(&self.entries[i].1),
            None => None,
        }
    }

    /// Sets the value for a key: an existing entry keeps its place and takes
    /// the new value, a new key is added at the end.
    pub fn insert(&mut self, key: String, value: V)
        ensures
            final(self).model() == old(self).model().insert(key@, value),
            old(self).model().contains_key(key@) ==> final(self).key_seq() == old(self).key_seq(),
            !old(self).model().contains_key(key@) ==> final(self).key_seq() == old(self).key_seq().push(key@),
    {
        proof {
            use_type_invariant(&*self);
            lemma_map_of(self.entries());
        }
        let pos = self.position(key.as_str());
        let mut entries: Vec<(String, V)> = Vec::new();
        std::mem::swap(&mut entries, &mut self.entries);
        let ghost old_entries = entries@;
        let ghost k = key@;
        match pos {
            Some(i) => {
                entries.set(i, (key, value));
                proof {
                    let s = entries@;
                    assert(distinct_keys(s)) by {
                        assert forall|a: int, b: int| 0 <= a < s.len() && 0 <= b < s.len() && a != b implies s[a].0@ != s[b].0@ by {
                            if a != i && b != i {
                                assert(s[a] == old_entries[a] && s[b] == old_entries[b]);
                            } else if a == i {
                                assert(s[b] == old_entries[b]);
                                assert(old_entries[i as int].0@ == k);
                            } else {
                                assert(s[a] == old_entries[a]);
                                assert(old_entries[i as int].0@ == k);
                            }
                        }
                    }
                    lemma_map_of(s);
                    lemma_map_of(old_entries);
                    assert(map_of(s) =~= map_of(old_entries).insert(k, value)) by {
                        assert forall|x: Seq<char>| #[trigger] map_of(s).contains_key(x) <==> map_of(old_entries).insert(k, value).contains_key(x) by {
                            if map_of(s).contains_key(x) {
                                let j = choose|j: int| 0 <= j < s.len() && s[j].0@ == x;
                                if j != i { assert(old_entries[j].0@ == x); }
                            }
                            if map_of(old_entries).contains_key(x) {
                                let j = choose|j: int| 0 <= j < old_entries.len() && old_entries[j].0@ == x;
                                if j != i { assert(s[j].0@ == x); } else { assert(s[j].0@ == x); }
                            }
                            if x == k {
                                assert(s[i as int].0@ == x);
                            }
                        }
                        assert forall|x: Seq<char>| #[trigger] map_of(s).contains_key(x) implies map_of(s)[x] == map_of(old_entries).insert(k, value)[x] by {
                            let j = choose|j: int| 0 <= j < s.len() && s[j].0@ == x;
                            if j != i {
                                assert(s[j] == old_entries[j]);
                                assert(map_of(s)[s[j].0@] == s[j].1);
                                assert(map_of(old_entries)[old_entries[j].0@] == old_entries[j].1);
                            } else {
                                assert(map_of(s)[s[j].0@] == s[j].1);
                            }
                        }
                    }
                    assert(keys_of(s) =~= keys_of(old_entries)) by {
                        assert forall|j: int| 0 <= j < s.len() implies keys_of(s)[j] == keys_of(old_entries)[j] by {
                            if j != i { assert(s[j] == old_entries[j]); }
                        }
                    }
                }
            },
            None => {
                entries.push((key, value));
                proof {
                    let s = entries@;
                    assert(s.drop_last() =~= old_entries);
                    assert(distinct_keys(s)) by {
                        assert forall|a: int, b: int| 0 <= a < s.len() && 0 <= b < s.len() && a != b implies s[a].0@ != s[b].0@ by {
                            if a < old_entries.len() && b < old_entries.len() {
                                assert(s[a] == old_entries[a] && s[b] == old_entries[b]);
                            } else if a < old_entries.len() {
                                assert(s[a] == old_entries[a]);
                            } else {
                                assert(s[b] == old_entries[b]);
                            }
                        }
                    }
                    assert(keys_of(s) =~= keys_of(old_entries).push(k));
                    lemma_map_of(old_entries);
                    assert(!map_of(old_entries).contains_key(k));
                }
            },
        }
        self.entries = entries;
    }

    /// The keys, in insertion order.
    pub fn keys(&self) -> (r: Vec<String>)
        ensures
            crate::text::views(r@) == self.key_seq(),
    {
        let mut r: Vec<String> = Vec::new();
        let mut i: usize = 0;
        while i < self.entries.len()
            invariant
                i <= self.entries@.len(),
                r@.len() == i,
                crate::text::views(r@) == keys_of(self.entries@).take(i as int),
            decreases self.entries@.len() - i,
        {
            let ghost r0 = r@;
            r.push(self.entries[i].0.clone());
            assert forall|j: int| 0 <= j < r@.len() implies #[trigger] crate::text::views(r@)[j] == keys_of(self.entries@).take(i + 1)[j] by {
                if j < i {
                    assert(r@[j] == r0[j]);
                    assert(crate::text::views(r0)[j] == keys_of(self.entries@).take(i as int)[j]);
                }
            }
            assert(crate::text::views(r@) =~= keys_of(self.entries@).take(i + 1));
            i = i + 1;
        }
        assert(keys_of(self.entries@).take(i as int) =~= keys_of(self.entries@));
        r
    }

    /// Adds every entry of `other`; where both have a key, the value of
    /// `other` wins.
    pub fn merge_from(&mut self, other: StrMap<V>)
        ensures
            final(self).model() == old(self).model().union_prefer_right(other.model()),
    {
        proof {
            use_type_invariant(&other);
        }
        let ghost start = self.model();
        let ghost all = other.entries@;
        let mut rest = other.entries;
        let ghost mut done: int = 0;
        assert(all.take(0) =~= Seq::<(String, V)>::empty());
        while rest.len() > 0
            invariant
                0 <= done <= all.len(),
                rest@ == all.skip(done),
                self.model() == start.union_prefer_right(map_of(all.take(done))),
            decreases rest@.len(),
        {
            let (k, v) = rest.remove(0);
            proof {
                assert(all[done] == (k, v));
                assert(all.take(done + 1).drop_last() =~= all.take(done));
                assert(all.take(done + 1).last() == (k, v));
            }
            let ghost before = self.model();
            self.insert(k, v);
            proof {
                assert(self.model() =~= start.union_prefer_right(map_of(all.take(done + 1))));
                assert(rest@ =~= all.skip(done + 1));
                done = done + 1;
            }
        }
        assert(all.take(done) =~= all);
    }
}

impl StrMap<String> {
    /// A copy of a map of texts.
    pub fn copy(&self) -> (r: StrMap<String>)
        ensures
            r.entries() == self.entries(),
            r.model() == self.model(),
    {
        proof {
            use_type_invariant(&*self);
        }
        let mut entries: Vec<(String, String)> = Vec::new();
        let mut i: usize = 0;
        while i < self.entries.len()
            invariant
                i <= self.entries@.len(),
                entries@ == self.entries@.take(i as int),
            decreases self.entries@.len() - i,
        {
            entries.push((self.entries[i].0.clone(), self.entries[i].1.clone()));
            assert(entries@ =~= self.entries@.take(i + 1));
            i = i + 1;
        }
        assert(self.entries@.take(i as int) =~= self.entries@);
        StrMap { entries }
    }
}

} // verus!
