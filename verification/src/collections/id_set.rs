//! A finite set of identifiers.

use crate::collections::keys::{
    Key, lemma_position, lemma_position_absent, lemma_position_is, lemma_position_push,
    lemma_position_remove, position, present,
};
use vstd::prelude::*;

verus! {

/// A set of identifiers, compared by content.
///
/// The identifiers are kept in the order in which they first came in.
#[derive(Debug)]
pub struct IdSet {
    ids: Vec<String>,
}

/// The keys that the strings of `ids` hold, place by place.
pub open spec fn keys_of(ids: Seq<String>) -> Seq<Key> {
    Seq::new(ids.len(), |i: int| ids[i]@)
}

/// The set of the keys that stand in `keys`.
pub open spec fn key_set(keys: Seq<Key>) -> Set<Key> {
    Set::new(|k: Key| present(keys, k))
}

impl View for IdSet {
    type V = Set<Key>;

    closed spec fn view(&self) -> Set<Key> {
        key_set(keys_of(self.ids@))
    }
}

impl DeepView for IdSet {
    type V = Set<Key>;

    open spec fn deep_view(&self) -> Set<Key> {
        self@
    }
}

impl Clone for IdSet {
    fn clone(&self) -> (s: Self)
        ensures
            s@ == self@,
    {
        IdSet { ids: self.ids() }
    }
}

impl IdSet {
    /// The empty set.
    pub fn new() -> (s: Self)
        ensures
            s@ == Set::<Key>::empty(),
    {
        let s = IdSet { ids: Vec::new() };
        assert(s@ =~= Set::<Key>::empty());
        s
    }

    /// The first place that holds `id`, if any does.
    fn find(&self, id: &String) -> (r: Option<usize>)
        ensures
            match r {
                Some(i) => i < self.ids@.len() && i == position(keys_of(self.ids@), id@),
                None => !present(keys_of(self.ids@), id@),
            },
    {
        let ghost keys = keys_of(self.ids@);
        let mut i: usize = 0;
        while i < self.ids.len()
            invariant
                i <= self.ids@.len(),
                keys == keys_of(self.ids@),
                forall|j: int| 0 <= j < i ==> keys[j] != id@,
            decreases self.ids@.len() - i,
        {
            if self.ids[i] == *id {
                proof {
                    assert(keys[i as int] == id@);
                    lemma_position_is(keys, id@, i as int);
                }
                return Some(i);
            }
            assert(keys[i as int] != id@);
            i += 1;
        }
        proof {
            lemma_position_absent(keys, id@);
        }
        None
    }

    /// Whether `id` is in the set.
    pub fn contains(&self, id: &str) -> (b: bool)
        ensures
            b == self@.contains(id@),
    {
        let key = id.to_owned();
        self.find(&key).is_some()
    }

    /// Whether the set holds nothing.
    pub fn is_empty(&self) -> (b: bool)
        ensures
            b == (self@ == Set::<Key>::empty()),
    {
        let b = self.ids.len() == 0;
        proof {
            let keys = keys_of(self.ids@);
            if b {
                assert(self@ =~= Set::<Key>::empty());
            } else {
                lemma_position(keys, keys[0]);
                assert(self@.contains(keys[0]));
            }
        }
        b
    }

    /// Puts `id` into the set; says whether it was new.
    pub fn insert(&mut self, id: String) -> (fresh: bool)
        ensures
            final(self)@ == old(self)@.insert(id@),
            fresh == !old(self)@.contains(id@),
    {
        let ghost before = keys_of(self.ids@);
        match self.find(&id) {
            Some(_) => {
                assert(self@ =~= self@.insert(id@));
                false
            },
            None => {
                self.ids.push(id);
                proof {
                    assert(keys_of(self.ids@) =~= before.push(id@));
                    assert forall|k: Key| self@.contains(k) <==> old(self)@.insert(id@).contains(
                        k,
                    ) by {
                        lemma_position_push(before, id@, k);
                    }
                    assert(self@ =~= old(self)@.insert(id@));
                }
                true
            },
        }
    }

    /// Takes `id` out of the set; says whether it was there.
    pub fn remove(&mut self, id: &str) -> (had: bool)
        ensures
            final(self)@ == old(self)@.remove(id@),
            had == old(self)@.contains(id@),
    {
        let key = id.to_owned();
        let mut had = false;
        loop
            invariant
                key@ == id@,
                self@.remove(id@) == old(self)@.remove(id@),
                had ==> old(self)@.contains(id@),
                !had ==> self@ == old(self)@,
            ensures
                !self@.contains(id@),
            decreases self.ids@.len(),
        {
            let ghost before = keys_of(self.ids@);
            let ghost before_set = self@;
            match self.find(&key) {
                Some(i) => {
                    if !had {
                        assert(old(self)@.contains(id@));
                    }
                    self.ids.remove(i);
                    had = true;
                    proof {
                        assert(keys_of(self.ids@) =~= before.remove(i as int));
                        lemma_position(before, id@);
                        assert forall|k: Key|
                            self@.remove(id@).contains(k) <==> before_set.remove(id@).contains(
                                k,
                            ) by {
                            if k != id@ {
                                lemma_position_remove(before, i as int, k);
                            }
                        }
                        assert(self@.remove(id@) =~= before_set.remove(id@));
                    }
                },
                None => {
                    break ;
                },
            }
        }
        assert(self@ =~= self@.remove(id@));
        had
    }

    /// Takes everything out of the set.
    pub fn clear(&mut self)
        ensures
            final(self)@ == Set::<Key>::empty(),
    {
        self.ids.clear();
        assert(self@ =~= Set::<Key>::empty());
    }

    /// The identifiers of the set, each once or more, oldest first.
    pub fn ids(&self) -> (ids: Vec<String>)
        ensures
            key_set(keys_of(ids@)) == self@,
    {
        let mut ids: Vec<String> = Vec::new();
        let mut i: usize = 0;
        while i < self.ids.len()
            invariant
                i <= self.ids@.len(),
                ids@.len() == i,
                forall|j: int| 0 <= j < i ==> ids@[j]@ == self.ids@[j]@,
            decreases self.ids@.len() - i,
        {
            ids.push(self.ids[i].clone());
            i += 1;
        }
        assert(keys_of(ids@) =~= keys_of(self.ids@));
        ids
    }
}

} // verus!
