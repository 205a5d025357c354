//! The domain records: a GIF and a user.

use crate::collections::keys::Key;
use vstd::prelude::*;

verus! {

/// A GIF from the Giphy API.
#[derive(Debug, PartialEq, Eq)]
pub struct GiphyGif {
    /// The ID of the GIF in Giphy.
    pub id: String,
    /// The title of the GIF.
    pub title: String,
    /// The URL of the GIF.
    pub url: String,
    /// Whether the calling user has already saved this GIF.
    pub is_saved: bool,
    /// The category that the user gave this GIF, if any.
    pub category: Option<String>,
}

/// What a [`GiphyGif`] holds.
pub struct GiphyGifView {
    pub id: Key,
    pub title: Seq<char>,
    pub url: Seq<char>,
    pub is_saved: bool,
    pub category: Option<Seq<char>>,
}

impl View for GiphyGif {
    type V = GiphyGifView;

    open spec fn view(&self) -> GiphyGifView {
        GiphyGifView {
            id: self.id@,
            title: self.title@,
            url: self.url@,
            is_saved: self.is_saved,
            category: match self.category {
                Some(c) => Some(c@),
                None => None,
            },
        }
    }
}

impl DeepView for GiphyGif {
    type V = GiphyGifView;

    open spec fn deep_view(&self) -> GiphyGifView {
        self@
    }
}

impl Clone for GiphyGif {
    fn clone(&self) -> (g: Self)
        ensures
            g@ == self@,
    {
        GiphyGif {
            id: self.id.clone(),
            title: self.title.clone(),
            url: self.url.clone(),
            is_saved: self.is_saved,
            category: match &self.category {
                Some(c) => Some(c.clone()),
                None => None,
            },
        }
    }
}

/// A user of the system.
#[derive(Debug, PartialEq, Eq)]
pub struct User {
    pub id: i64,
    pub email: String,
    pub jwt: String,
}

/// What a [`User`] holds.
pub struct UserView {
    pub id: i64,
    pub email: Seq<char>,
    pub jwt: Seq<char>,
}

impl View for User {
    type V = UserView;

    open spec fn view(&self) -> UserView {
        UserView { id: self.id, email: self.email@, jwt: self.jwt@ }
    }
}

impl DeepView for User {
    type V = UserView;

    open spec fn deep_view(&self) -> UserView {
        self@
    }
}

impl Clone for User {
    fn clone(&self) -> (u: Self)
        ensures
            u@ == self@,
    {
        User { id: self.id, email: self.email.clone(), jwt: self.jwt.clone() }
    }
}

/// The views of the GIFs of `gifs`, place by place.
pub open spec fn gif_views(gifs: Seq<GiphyGif>) -> Seq<GiphyGifView> {
    Seq::new(gifs.len(), |i: int| gifs[i]@)
}

/// A copy of `gifs` with the same GIFs in the same order.
pub fn clone_gifs(gifs: &Vec<GiphyGif>) -> (copy: Vec<GiphyGif>)
    ensures
        gif_views(copy@) == gif_views(gifs@),
{
    let mut copy: Vec<GiphyGif> = Vec::new();
    let mut i: usize = 0;
    while i < gifs.len()
        invariant
            i <= gifs@.len(),
            copy@.len() == i,
            forall|j: int| 0 <= j < i ==> copy@[j]@ == gifs@[j]@,
        decreases gifs@.len() - i,
    {
        copy.push(gifs[i].clone());
        i += 1;
    }
    assert(gif_views(copy@) =~= gif_views(gifs@));
    copy
}

} // verus!
