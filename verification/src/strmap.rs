//! Collections keyed by strings: a map that keeps its entries in insertion
//! order, and a set of strings.

use vstd::prelude::*;
use crate::assoc::{insert_member, lemma_insert_member_split, lemma_lookup_absent, lemma_lookup_at, lookup_member};
use crate::text::str_eq;

verus! {

/// A map from strings to values. Each key occurs once; entries keep the
/// order in which their keys were first inserted.
pub struct StrMap<V: View> {
    entries: Vec<(String, V)>,
}

impl<V: View> StrMap<V> {
    /// The entries, as key and value views, in order.
    pub closed spec fn entries(&self) -> Seq<(Seq<char>, V::V)> {
        self.entries@.map_values(|e: (String, V)| (e.0@, e.1@))
    }

    /// The keys, in order.
    pub open spec fn keys(&self) -> Seq<Seq<char>> {
        self.entries().map_values(|e: (Seq<char>, V::V)| e.0)
    }

    /// Well-formedness: each key occurs once.
    pub open spec fn wf(&self) -> bool {
        self.keys().no_duplicates()
    }

    /// The position of `k` among the keys.
    pub open spec fn position(&self, k: Seq<char>) -> int {
        choose|i: int| 0 <= i < self.keys().len() && self.keys()[i] == k
    }

    /// Creates an empty map.
    pub fn new() -> (m: Self)
        ensures
            m.wf(),
            m.entries() == Seq::<(Seq<char>, V::V)>::empty(),
            m@ == Map::<Seq<char>, V::V>::empty(),
    {
        let m = StrMap { entries: Vec::new() };
        assert(m.entries() =~= Seq::<(Seq<char>, V::V)>::empty());
        assert(m@ =~= Map::<Seq<char>, V::V>::empty());
        m
    }

    /// The number of entries.
    pub fn len(&self) -> (n: usize)
        requires
            self.wf(),
        ensures
            n == self.entries().len(),
            n == self@.dom().len(),
    {
        proof {
            self.keys().unique_seq_to_set();
            assert(self@.dom() =~= self.keys().to_set());
        }
        self.entries.len()
    }

    /// Whether the map has no entries.
    pub fn is_empty(&self) -> (b: bool)
        requires
            self.wf(),
        ensures
            b == (self@.dom().len() == 0),
            b == (self.entries().len() == 0),
    {
        self.len() == 0
    }

    /// The key at position `i`.
    pub fn key_at(&self, i: usize) -> (k: &String)
        requires
            i < self.entries().len(),
        ensures
            k@ == self.entries()[i as int].0,
    {
        &self.entries[i].0
    }

    /// The value at position `i`.
    pub fn value_at(&self, i: usize) -> (v: &V)
        requires
            i < self.entries().len(),
        ensures
            v@ == self.entries()[i as int].1,
    {
        &self.entries[i].1
    }

    fn find(&self, key: &str) -> (r: Option<usize>)
        ensures
            match r {
                Some(i) => i < self.entries().len() && self.keys()[i as int] == key@,
                None => !self.keys().contains(key@),
            },
    {
        let n = self.entries.len();
        for i in 0..n
            invariant
                n == self.entries@.len(),
                forall|k: int| 0 <= k < i ==> self.keys()[k] != key@,
        {
            if str_eq(self.entries[i].0.as_str(), key) {
                return Some(i);
            }
        }
        None
    }

    /// Whether `key` has an entry.
    pub fn contains_key(&self, key: &str) -> (b: bool)
        ensures
            b == self@.dom().contains(key@),
    {
        self.find(key).is_some()
    }

    /// The value of `key`, if it has an entry.
    pub fn get(&self, key: &str) -> (r: Option<&V>)
        requires
            self.wf(),
        ensures
            match r {
                Some(v) => self@.dom().contains(key@) && self@[key@] == v@,
                None => !self@.dom().contains(key@),
            },
    {
        match self.find(key) {
            Some(i) => {
                proof {
                    self.lemma_position(i as int);
                }
                Some(&self.entries[i].1)
            },
            None => None,
        }
    }

    /// The entry at position `i` is the one the map gives for its key.
    pub proof fn lemma_position(&self, i: int)
        requires
            self.wf(),
            0 <= i < self.entries().len(),
        ensures
            self.position(self.keys()[i]) == i,
            self@.dom().contains(self.entries()[i].0),
            self@[self.entries()[i].0] == self.entries()[i].1,
    {
        let k = self.keys()[i];
        assert(self.keys()[i] == k);
        let j = self.position(k);
        assert(0 <= j < self.keys().len() && self.keys()[j] == k);
    }

    /// A key of the map stands at its position.
    pub proof fn lemma_contains(&self, k: Seq<char>)
        requires
            self.wf(),
            self@.dom().contains(k),
        ensures
            0 <= self.position(k) < self.entries().len(),
            self.entries()[self.position(k)].0 == k,
    {
        let p = self.position(k);
        assert(self.keys().contains(k));
        assert(0 <= p < self.keys().len() && self.keys()[p] == k);
    }

    /// The map reads as its entries do, by the first entry with a key.
    pub proof fn lemma_lookup(&self, k: Seq<char>)
        requires
            self.wf(),
        ensures
            self@.dom().contains(k) ==> lookup_member(self.entries(), k) == Some(self@[k]),
            !self@.dom().contains(k) ==> lookup_member(self.entries(), k) is None,
    {
        if self@.dom().contains(k) {
            let p = self.position(k);
            self.lemma_position(p);
            assert forall|j: int| 0 <= j < p implies self.entries()[j].0 != k by {
                assert(self.keys()[j] == self.entries()[j].0);
            }
            lemma_lookup_at(self.entries(), k, p);
        } else {
            assert forall|j: int| 0 <= j < self.entries().len() implies self.entries()[j].0
                != k by {
                assert(self.keys()[j] == self.entries()[j].0);
            }
            lemma_lookup_absent(self.entries(), k);
        }
    }

    /// Sets the value of `key`: an existing entry keeps its position, a new
    /// one is appended.
    pub fn insert(&mut self, key: String, value: V)
        requires
            old(self).wf(),
        ensures
            final(self).wf(),
            final(self).entries() == insert_member(old(self).entries(), key@, value@),
            final(self)@ == old(self)@.insert(key@, value@),
            old(self)@.dom().contains(key@) ==> final(self).entries() == old(self).entries().update(
                old(self).position(key@),
                (key@, value@),
            ),
            !old(self)@.dom().contains(key@) ==> final(self).entries() == old(self).entries().push(
                (key@, value@),
            ),
    {
        let ghost old_entries = self.entries();
        let ghost old_keys = self.keys();
        let ghost kv = key@;
        let ghost vv = value@;
        match self.find(key.as_str()) {
            Some(i) => {
                proof {
                    old(self).lemma_position(i as int);
                }
                self.entries.set(i, (key, value));
                proof {
                    assert forall|k: int| 0 <= k < i implies old_entries[k].0 != kv by {
                        assert(old_keys[k] == old_entries[k].0);
                        assert(old_keys[i as int] == kv);
                    }
                    lemma_insert_member_split(old_entries, kv, vv, i as int);
                    assert(self.entries() =~= old_entries.update(i as int, (kv, vv)));
                    assert(self.keys() =~= old_keys);
                    assert(self.keys()[i as int] == kv);
                    self.lemma_position(i as int);
                    assert forall|k: Seq<char>|
                        old(self)@.dom().contains(k) && k != kv implies #[trigger] self@[k]
                        == old(self)@[k] by {
                        let j = old(self).position(k);
                        old(self).lemma_position(j);
                        self.lemma_position(j);
                    }
                    assert(self@ =~= old(self)@.insert(kv, vv));
                }
            },
            None => {
                self.entries.push((key, value));
                proof {
                    assert forall|k: int| 0 <= k < old_entries.len() implies old_entries[k].0
                        != kv by {
                        assert(old_keys[k] == old_entries[k].0);
                    }
                    lemma_insert_member_split(old_entries, kv, vv, old_entries.len() as int);
                    assert(self.entries() =~= old_entries.push((kv, vv)));
                    assert(self.keys() =~= old_keys.push(kv));
                    assert(self.keys()[old_keys.len() as int] == kv);
                    self.lemma_position(old_keys.len() as int);
                    assert forall|k: Seq<char>|
                        old(self)@.dom().contains(k) && k != kv implies #[trigger] self@[k]
                        == old(self)@[k] by {
                        let j = old(self).position(k);
                        old(self).lemma_position(j);
                        self.lemma_position(j);
                    }
                    assert forall|k: Seq<char>|
                        #[trigger] self@.dom().contains(k) == (old(self)@.dom().contains(k) || k
                            == kv) by {
                        if old(self)@.dom().contains(k) {
                            let j = old(self).position(k);
                            assert(self.keys()[j] == k);
                        }
                        if self@.dom().contains(k) && k != kv {
                            let j = self.position(k);
                            assert(old_keys[j] == k);
                        }
                    }
                    assert(self@ =~= old(self)@.insert(kv, vv));
                }
            },
        }
    }

    /// Removes every entry.
    pub fn clear(&mut self)
        ensures
            final(self).wf(),
            final(self).entries() == Seq::<(Seq<char>, V::V)>::empty(),
            final(self)@ == Map::<Seq<char>, V::V>::empty(),
    {
        self.entries = Vec::new();
        assert(self.entries() =~= Seq::<(Seq<char>, V::V)>::empty());
        assert(self@ =~= Map::<Seq<char>, V::V>::empty());
    }
}

impl<V: View> View for StrMap<V> {
    type V = Map<Seq<char>, V::V>;

    closed spec fn view(&self) -> Map<Seq<char>, V::V> {
        Map::new(
            |k: Seq<char>| self.keys().contains(k),
            |k: Seq<char>| self.entries()[self.position(k)].1,
        )
    }
}

/// A set of strings, in insertion order.
pub struct StrSet {
    members: StrMap<bool>,
}

impl StrSet {
    /// The members, in order.
    pub closed spec fn items(&self) -> Seq<Seq<char>> {
        self.members.keys()
    }

    /// Well-formedness: each member occurs once.
    pub closed spec fn wf(&self) -> bool {
        self.members.wf()
    }

    /// Creates an empty set.
    pub fn new() -> (s: Self)
        ensures
            s.wf(),
            s@ == Set::<Seq<char>>::empty(),
            s.items() == Seq::<Seq<char>>::empty(),
    {
        let s = StrSet { members: StrMap::new() };
        assert(s.items() =~= Seq::<Seq<char>>::empty());
        assert(s@ =~= Set::<Seq<char>>::empty());
        s
    }

    /// The number of members.
    pub fn len(&self) -> (n: usize)
        requires
            self.wf(),
        ensures
            n == self@.len(),
            n == self.items().len(),
    {
        assert(self@ =~= self.members@.dom());
        self.members.len()
    }

    /// Whether the set has no members.
    pub fn is_empty(&self) -> (b: bool)
        requires
            self.wf(),
        ensures
            b == (self@.len() == 0),
    {
        self.len() == 0
    }

    /// Whether `s` is a member.
    pub fn contains(&self, s: &str) -> (b: bool)
        requires
            self.wf(),
        ensures
            b == self@.contains(s@),
    {
        self.members.contains_key(s)
    }

    /// The member at position `i`.
    pub fn item_at(&self, i: usize) -> (s: &String)
        requires
            i < self.items().len(),
        ensures
            s@ == self.items()[i as int],
            self.wf() ==> self@.contains(s@),
    {
        proof {
            if self.wf() {
                self.members.lemma_position(i as int);
            }
        }
        self.members.key_at(i)
    }

    /// Adds `s`; a member already present keeps its position.
    pub fn insert(&mut self, s: String)
        requires
            old(self).wf(),
        ensures
            final(self).wf(),
            final(self)@ == old(self)@.insert(s@),
            old(self)@.contains(s@) ==> final(self).items() == old(self).items(),
            !old(self)@.contains(s@) ==> final(self).items() == old(self).items().push(s@),
    {
        let ghost sv = s@;
        let ghost old_items = self.items();
        let ghost old_entries = self.members.entries();
        self.members.insert(s, true);
        proof {
            if old(self)@.contains(sv) {
                let p = old(self).members.position(sv);
                assert(self.items() =~= old_items);
            } else {
                assert(self.items() =~= old_items.push(sv));
            }
            assert(self@ =~= old(self)@.insert(sv));
        }
    }

    /// Removes every member.
    pub fn clear(&mut self)
        ensures
            final(self).wf(),
            final(self)@ == Set::<Seq<char>>::empty(),
            final(self).items() == Seq::<Seq<char>>::empty(),
    {
        self.members.clear();
        assert(self.items() =~= Seq::<Seq<char>>::empty());
        assert(self@ =~= Set::<Seq<char>>::empty());
    }
}

impl View for StrSet {
    type V = Set<Seq<char>>;

    closed spec fn view(&self) -> Set<Seq<char>> {
        self.members@.dom()
    }
}

} // verus!
