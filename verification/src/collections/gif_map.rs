//! A map from GIF identifiers to GIFs that keeps the order of arrival.

use crate::collections::keys::{
    Key, distinct, lemma_distinct_push, lemma_position, lemma_position_absent, lemma_position_is,
    lemma_position_push, position, present,
};
use crate::common::records::{GiphyGif, GiphyGifView, clone_gifs, gif_views};
use vstd::prelude::*;

verus! {

/// GIFs keyed by their identifier, in the order in which the identifiers
/// first arrived. A GIF that arrives under a known identifier takes the place
/// of the one that was there.
#[derive(Debug)]
pub struct GifMap {
    gifs: Vec<GiphyGif>,
}

/// The identifiers of `gifs`, place by place.
pub open spec fn ids_of(gifs: Seq<GiphyGifView>) -> Seq<Key> {
    Seq::new(gifs.len(), |i: int| gifs[i].id)
}

/// Whether a GIF with the identifier `id` is among `gifs`.
pub open spec fn has_gif(gifs: Seq<GiphyGifView>, id: Key) -> bool {
    present(ids_of(gifs), id)
}

/// The GIF that `gifs` holds under `id`.
pub open spec fn lookup(gifs: Seq<GiphyGifView>, id: Key) -> Option<GiphyGifView> {
    if has_gif(gifs, id) {
        Some(gifs[position(ids_of(gifs), id)])
    } else {
        None
    }
}

/// `gifs` after `gif` has arrived: in the place of the GIF with the same
/// identifier, or at the end where there was none.
pub open spec fn upsert(gifs: Seq<GiphyGifView>, gif: GiphyGifView) -> Seq<GiphyGifView> {
    if has_gif(gifs, gif.id) {
        gifs.update(position(ids_of(gifs), gif.id), gif)
    } else {
        gifs.push(gif)
    }
}

/// `gifs` after the GIFs of `incoming` have arrived one after the other.
pub open spec fn merge(gifs: Seq<GiphyGifView>, incoming: Seq<GiphyGifView>) -> Seq<GiphyGifView>
    decreases incoming.len(),
{
    if incoming.len() == 0 {
        gifs
    } else {
        upsert(merge(gifs, incoming.drop_last()), incoming.last())
    }
}

/// No identifier occurs twice among `gifs`.
pub open spec fn distinct_ids(gifs: Seq<GiphyGifView>) -> bool {
    distinct(ids_of(gifs))
}

/// The map from identifiers to GIFs that `gifs` stands for.
pub open spec fn as_map(gifs: Seq<GiphyGifView>) -> Map<Key, GiphyGifView> {
    Map::new(|id: Key| has_gif(gifs, id), |id: Key| gifs[position(ids_of(gifs), id)])
}

/// What an arrival does to the identifiers and to what is found under each.
pub proof fn lemma_upsert(gifs: Seq<GiphyGifView>, gif: GiphyGifView)
    ensures
        lookup(upsert(gifs, gif), gif.id) == Some(gif),
        forall|id: Key| id != gif.id ==> lookup(upsert(gifs, gif), id) == lookup(gifs, id),
        has_gif(gifs, gif.id) ==> ids_of(upsert(gifs, gif)) == ids_of(gifs),
        !has_gif(gifs, gif.id) ==> ids_of(upsert(gifs, gif)) == ids_of(gifs).push(gif.id),
{
    let ids = ids_of(gifs);
    let after = upsert(gifs, gif);
    lemma_position(ids, gif.id);
    if has_gif(gifs, gif.id) {
        assert(ids_of(after) =~= ids);
        assert forall|id: Key| id != gif.id implies lookup(after, id) == lookup(gifs, id) by {
            lemma_position(ids, id);
        }
    } else {
        assert(ids_of(after) =~= ids.push(gif.id));
        lemma_position_push(ids, gif.id, gif.id);
        assert forall|id: Key| id != gif.id implies lookup(after, id) == lookup(gifs, id) by {
            lemma_position_push(ids, gif.id, id);
            lemma_position(ids, id);
        }
    }
}

/// A GIF that arrives twice in a row leaves what it left the first time.
pub proof fn lemma_upsert_idempotent(gifs: Seq<GiphyGifView>, gif: GiphyGifView)
    ensures
        upsert(upsert(gifs, gif), gif) == upsert(gifs, gif),
{
    lemma_upsert(gifs, gif);
    let once = upsert(gifs, gif);
    lemma_position(ids_of(gifs), gif.id);
    if !has_gif(gifs, gif.id) {
        lemma_position_push(ids_of(gifs), gif.id, gif.id);
    }
    assert(has_gif(once, gif.id));
    assert(upsert(once, gif) =~= once);
}

/// An arrival keeps the identifiers distinct.
pub proof fn lemma_upsert_distinct(gifs: Seq<GiphyGifView>, gif: GiphyGifView)
    requires
        distinct_ids(gifs),
    ensures
        distinct_ids(upsert(gifs, gif)),
{
    lemma_upsert(gifs, gif);
    if !has_gif(gifs, gif.id) {
        lemma_distinct_push(ids_of(gifs), gif.id);
    }
}

/// A run of arrivals keeps the identifiers distinct.
pub proof fn lemma_merge_distinct(gifs: Seq<GiphyGifView>, incoming: Seq<GiphyGifView>)
    requires
        distinct_ids(gifs),
    ensures
        distinct_ids(merge(gifs, incoming)),
    decreases incoming.len(),
{
    if incoming.len() > 0 {
        lemma_merge_distinct(gifs, incoming.drop_last());
        lemma_upsert_distinct(merge(gifs, incoming.drop_last()), incoming.last());
    }
}

/// As a map, an arrival is an insertion under the GIF's identifier.
pub proof fn lemma_upsert_as_map(gifs: Seq<GiphyGifView>, gif: GiphyGifView)
    ensures
        as_map(upsert(gifs, gif)) == as_map(gifs).insert(gif.id, gif),
{
    lemma_upsert(gifs, gif);
    let after = upsert(gifs, gif);
    assert forall|id: Key| as_map(after).contains_key(id) <==> as_map(gifs).insert(
        gif.id,
        gif,
    ).contains_key(id) by {
        assert(lookup(after, id) is Some <==> has_gif(after, id));
        assert(lookup(gifs, id) is Some <==> has_gif(gifs, id));
    }
    assert forall|id: Key| as_map(after).contains_key(id) implies as_map(after)[id] == as_map(
        gifs,
    ).insert(gif.id, gif)[id] by {
        assert(lookup(after, id) == Some(as_map(after)[id]));
        if id != gif.id {
            assert(lookup(gifs, id) == Some(as_map(gifs)[id]));
        }
    }
    assert(as_map(after) =~= as_map(gifs).insert(gif.id, gif));
}

impl View for GifMap {
    type V = Seq<GiphyGifView>;

    closed spec fn view(&self) -> Seq<GiphyGifView> {
        gif_views(self.gifs@)
    }
}

impl DeepView for GifMap {
    type V = Seq<GiphyGifView>;

    open spec fn deep_view(&self) -> Seq<GiphyGifView> {
        self@
    }
}

impl Clone for GifMap {
    fn clone(&self) -> (m: Self)
        ensures
            m@ == self@,
    {
        GifMap { gifs: clone_gifs(&self.gifs) }
    }
}

impl GifMap {
    /// The empty map.
    pub fn new() -> (m: Self)
        ensures
            m@ == Seq::<GiphyGifView>::empty(),
    {
        let m = GifMap { gifs: Vec::new() };
        assert(m@ =~= Seq::<GiphyGifView>::empty());
        m
    }

    /// The number of GIFs.
    pub fn len(&self) -> (n: usize)
        ensures
            n == self@.len(),
    {
        self.gifs.len()
    }

    /// Whether the map holds nothing.
    pub fn is_empty(&self) -> (b: bool)
        ensures
            b == (self@.len() == 0),
    {
        self.gifs.len() == 0
    }

    /// The first place that holds a GIF with the identifier `id`.
    fn find(&self, id: &String) -> (r: Option<usize>)
        ensures
            match r {
                Some(i) => i < self@.len() && i == position(ids_of(self@), id@),
                None => !has_gif(self@, id@),
            },
    {
        let ghost ids = ids_of(self@);
        let mut i: usize = 0;
        while i < self.gifs.len()
            invariant
                i <= self.gifs@.len(),
                ids == ids_of(self@),
                ids.len() == self.gifs@.len(),
                forall|j: int| 0 <= j < i ==> ids[j] != id@,
            decreases self.gifs@.len() - i,
        {
            if self.gifs[i].id == *id {
                proof {
                    assert(ids[i as int] == id@);
                    lemma_position_is(ids, id@, i as int);
                }
                return Some(i);
            }
            assert(ids[i as int] != id@);
            i += 1;
        }
        proof {
            lemma_position_absent(ids, id@);
        }
        None
    }

    /// Whether a GIF stands under `id`.
    pub fn contains_key(&self, id: &str) -> (b: bool)
        ensures
            b == has_gif(self@, id@),
    {
        let key = id.to_owned();
        self.find(&key).is_some()
    }

    /// The GIF under `id`, if there is one.
    pub fn get(&self, id: &str) -> (r: Option<&GiphyGif>)
        ensures
            match r {
                Some(gif) => lookup(self@, id@) == Some(gif@),
                None => lookup(self@, id@) is None,
            },
    {
        let key = id.to_owned();
        match self.find(&key) {
            Some(i) => Some(&self.gifs[i]),
            None => None,
        }
    }

    /// Lets `gif` arrive: it takes the place of the GIF with its identifier,
    /// or the last place where there is none.
    pub fn insert(&mut self, gif: GiphyGif)
        ensures
            final(self)@ == upsert(old(self)@, gif@),
    {
        match self.find(&gif.id) {
            Some(i) => {
                self.gifs.set(i, gif);
            },
            None => {
                self.gifs.push(gif);
            },
        }
        assert(self@ =~= upsert(old(self)@, gif@));
    }

    /// Lets the GIFs of `incoming` arrive one after the other.
    pub fn extend(&mut self, incoming: &Vec<GiphyGif>)
        ensures
            final(self)@ == merge(old(self)@, gif_views(incoming@)),
    {
        let ghost all = gif_views(incoming@);
        let mut i: usize = 0;
        while i < incoming.len()
            invariant
                i <= incoming@.len(),
                all == gif_views(incoming@),
                self@ == merge(old(self)@, all.take(i as int)),
            decreases incoming@.len() - i,
        {
            proof {
                let next = all.take(i + 1);
                assert(next.drop_last() =~= all.take(i as int));
                assert(next.last() == incoming@[i as int]@);
            }
            self.insert(incoming[i].clone());
            i += 1;
        }
        assert(all.take(i as int) =~= all);
    }

    /// Takes every GIF away.
    pub fn clear(&mut self)
        ensures
            final(self)@ == Seq::<GiphyGifView>::empty(),
    {
        self.gifs.clear();
        assert(self@ =~= Seq::<GiphyGifView>::empty());
    }

    /// The GIFs in the order of arrival.
    pub fn values(&self) -> (gifs: &Vec<GiphyGif>)
        ensures
            gif_views(gifs@) == self@,
    {
        &self.gifs
    }
}

} // verus!
