//! A finite map from strings to strings.

use crate::collections::keys::{
    Key, lemma_position, lemma_position_absent, lemma_position_is, lemma_position_push,
    lemma_position_remove, position, present,
};
use vstd::prelude::*;

verus! {

/// A map from text keys to text values, compared by content.
///
/// The entries are kept in the order in which their keys first came in. Of
/// two entries with one key the earlier one counts.
#[derive(Debug)]
pub struct TextMap {
    entries: Vec<(String, String)>,
}

/// The keys of `entries`, place by place.
pub open spec fn keys_of(entries: Seq<(String, String)>) -> Seq<Key> {
    Seq::new(entries.len(), |i: int| entries[i].0@)
}

/// The map that `entries` stands for.
pub open spec fn entries_map(entries: Seq<(String, String)>) -> Map<Key, Seq<char>> {
    Map::new(
        |k: Key| present(keys_of(entries), k),
        |k: Key| entries[position(keys_of(entries), k)].1@,
    )
}

impl View for TextMap {
    type V = Map<Key, Seq<char>>;

    closed spec fn view(&self) -> Map<Key, Seq<char>> {
        entries_map(self.entries@)
    }
}

impl DeepView for TextMap {
    type V = Map<Key, Seq<char>>;

    open spec fn deep_view(&self) -> Map<Key, Seq<char>> {
        self@
    }
}

impl Clone for TextMap {
    fn clone(&self) -> (m: Self)
        ensures
            m@ == self@,
    {
        self.duplicate()
    }
}

impl TextMap {
    /// The empty map.
    pub fn new() -> (m: Self)
        ensures
            m@ == Map::<Key, Seq<char>>::empty(),
    {
        let m = TextMap { entries: Vec::new() };
        assert(m@ =~= Map::<Key, Seq<char>>::empty());
        m
    }

    /// The first place whose key is `key`, if any has it.
    fn find(&self, key: &String) -> (r: Option<usize>)
        ensures
            match r {
                Some(i) => i < self.entries@.len() && i == position(
                    keys_of(self.entries@),
                    key@,
                ),
                None => !present(keys_of(self.entries@), key@),
            },
    {
        let ghost keys = keys_of(self.entries@);
        let mut i: usize = 0;
        while i < self.entries.len()
            invariant
                i <= self.entries@.len(),
                keys == keys_of(self.entries@),
                forall|j: int| 0 <= j < i ==> keys[j] != key@,
            decreases self.entries@.len() - i,
        {
            if self.entries[i].0 == *key {
                proof {
                    assert(keys[i as int] == key@);
                    lemma_position_is(keys, key@, i as int);
                }
                return Some(i);
            }
            assert(keys[i as int] != key@);
            i += 1;
        }
        proof {
            lemma_position_absent(keys, key@);
        }
        None
    }

    /// Whether the map holds nothing.
    pub fn is_empty(&self) -> (b: bool)
        ensures
            b == (self@ == Map::<Key, Seq<char>>::empty()),
    {
        let b = self.entries.len() == 0;
        proof {
            let keys = keys_of(self.entries@);
            if b {
                assert(self@ =~= Map::<Key, Seq<char>>::empty());
            } else {
                lemma_position(keys, keys[0]);
                assert(self@.contains_key(keys[0]));
            }
        }
        b
    }

    /// Whether `key` has a value.
    pub fn contains_key(&self, key: &str) -> (b: bool)
        ensures
            b == self@.contains_key(key@),
    {
        let key = key.to_owned();
        self.find(&key).is_some()
    }

    /// The value of `key`, if it has one.
    pub fn get(&self, key: &str) -> (r: Option<&String>)
        ensures
            match r {
                Some(v) => self@.contains_key(key@) && v@ == self@[key@],
                None => !self@.contains_key(key@),
            },
    {
        let key = key.to_owned();
        match self.find(&key) {
            Some(i) => Some(&self.entries[i].1),
            None => None,
        }
    }

    /// Sets the value of `key`, in place of the one it had.
    pub fn insert(&mut self, key: String, value: String)
        ensures
            final(self)@ == old(self)@.insert(key@, value@),
    {
        let ghost before = self.entries@;
        let ghost keys = keys_of(before);
        match self.find(&key) {
            Some(i) => {
                self.entries.set(i, (key, value));
                proof {
                    lemma_position(keys, key@);
                    assert(keys_of(self.entries@) =~= keys);
                    assert forall|k: Key| self@.contains_key(k) implies self@[k] == old(
                        self,
                    )@.insert(key@, value@)[k] by {
                        lemma_position(keys, k);
                    }
                    assert(self@ =~= old(self)@.insert(key@, value@));
                }
            },
            None => {
                self.entries.push((key, value));
                proof {
                    assert(keys_of(self.entries@) =~= keys.push(key@));
                    assert forall|k: Key|
                        self@.contains_key(k) <==> old(self)@.insert(key@, value@).contains_key(
                            k,
                        ) by {
                        lemma_position_push(keys, key@, k);
                    }
                    assert forall|k: Key| self@.contains_key(k) implies self@[k] == old(
                        self,
                    )@.insert(key@, value@)[k] by {
                        lemma_position_push(keys, key@, k);
                        lemma_position(keys, k);
                        let p = position(keys_of(self.entries@), k);
                        if p < before.len() {
                            assert(self.entries@[p] == before[p]);
                        }
                    }
                    assert(self@ =~= old(self)@.insert(key@, value@));
                }
            },
        }
    }

    /// Takes the value of `key` away; says whether it had one.
    pub fn remove(&mut self, key: &str) -> (had: bool)
        ensures
            final(self)@ == old(self)@.remove(key@),
            had == old(self)@.contains_key(key@),
    {
        let gone = key.to_owned();
        let mut had = false;
        loop
            invariant
                gone@ == key@,
                self@.remove(key@) == old(self)@.remove(key@),
                had ==> old(self)@.contains_key(key@),
                !had ==> self@ == old(self)@,
            ensures
                !self@.contains_key(key@),
            decreases self.entries@.len(),
        {
            let ghost before = self.entries@;
            let ghost keys = keys_of(before);
            let ghost before_map = self@;
            match self.find(&gone) {
                Some(i) => {
                    self.entries.remove(i);
                    had = true;
                    proof {
                        let after = self.entries@;
                        assert(keys_of(after) =~= keys.remove(i as int));
                        lemma_position(keys, key@);
                        assert forall|k: Key|
                            self@.remove(key@).contains_key(k) <==> before_map.remove(
                                key@,
                            ).contains_key(k) by {
                            if k != key@ {
                                lemma_position_remove(keys, i as int, k);
                            }
                        }
                        assert forall|k: Key|
                            self@.remove(key@).contains_key(k) implies self@.remove(key@)[k]
                            == before_map.remove(key@)[k] by {
                            lemma_position_remove(keys, i as int, k);
                            lemma_position(keys, k);
                        }
                        assert(self@.remove(key@) =~= before_map.remove(key@));
                    }
                },
                None => {
                    break ;
                },
            }
        }
        assert(self@ =~= self@.remove(key@));
        had
    }

    /// Takes every entry away.
    pub fn clear(&mut self)
        ensures
            final(self)@ == Map::<Key, Seq<char>>::empty(),
    {
        self.entries.clear();
        assert(self@ =~= Map::<Key, Seq<char>>::empty());
    }

    /// The entries of the map, as pairs of key and value.
    pub fn entries(&self) -> (all: Vec<(String, String)>)
        ensures
            entries_map(all@) == self@,
    {
        self.duplicate().entries
    }

    /// A copy with the same entries.
    fn duplicate(&self) -> (m: Self)
        ensures
            m@ == self@,
    {
        let mut entries: Vec<(String, String)> = Vec::new();
        let mut i: usize = 0;
        while i < self.entries.len()
            invariant
                i <= self.entries@.len(),
                entries@.len() == i,
                forall|j: int|
                    0 <= j < i ==> (#[trigger] entries@[j]).0@ == self.entries@[j].0@
                        && entries@[j].1@ == self.entries@[j].1@,
            decreases self.entries@.len() - i,
        {
            entries.push((self.entries[i].0.clone(), self.entries[i].1.clone()));
            i += 1;
        }
        let m = TextMap { entries };
        proof {
            assert(keys_of(m.entries@) =~= keys_of(self.entries@));
            assert forall|k: Key| m@.contains_key(k) implies m@[k] == self@[k] by {
                lemma_position(keys_of(self.entries@), k);
            }
            assert(m@ =~= self@);
        }
        m
    }
}

} // verus!
