//! The requests and responses of the API.
//!
//! Message types come in pairs: a request of one kind is answered by the
//! response of the same kind, or by an error.

use crate::common::error::Error;
use crate::common::records::{GiphyGif, GiphyGifView, User, UserView, clone_gifs, gif_views};
use vstd::prelude::*;

verus! {

/// An API response.
#[derive(Debug)]
pub enum Response<D> {
    /// A success payload with data.
    Data(D),
    /// An error payload with an error.
    Error(Error),
}

/// A request to register a new account.
#[derive(Debug, PartialEq, Eq)]
pub struct RegisterRequest {
    pub email: String,
    pub password: String,
}

/// What a request that carries credentials holds.
pub struct CredentialsView {
    pub email: Seq<char>,
    pub password: Seq<char>,
}

impl View for RegisterRequest {
    type V = CredentialsView;

    open spec fn view(&self) -> CredentialsView {
        CredentialsView { email: self.email@, password: self.password@ }
    }
}

impl Clone for RegisterRequest {
    fn clone(&self) -> (r: Self)
        ensures
            r@ == self@,
    {
        RegisterRequest { email: self.email.clone(), password: self.password.clone() }
    }
}

/// The response to a register request.
#[derive(Debug, PartialEq, Eq)]
pub struct RegisterResponse(pub User);

impl View for RegisterResponse {
    type V = UserView;

    open spec fn view(&self) -> UserView {
        self.0@
    }
}

impl Clone for RegisterResponse {
    fn clone(&self) -> (r: Self)
        ensures
            r@ == self@,
    {
        RegisterResponse(self.0.clone())
    }
}

/// A login request.
#[derive(Debug, PartialEq, Eq)]
pub struct LoginRequest {
    pub email: String,
    pub password: String,
}

impl View for LoginRequest {
    type V = CredentialsView;

    open spec fn view(&self) -> CredentialsView {
        CredentialsView { email: self.email@, password: self.password@ }
    }
}

impl Clone for LoginRequest {
    fn clone(&self) -> (r: Self)
        ensures
            r@ == self@,
    {
        LoginRequest { email: self.email.clone(), password: self.password.clone() }
    }
}

/// The response to a login request.
#[derive(Debug, PartialEq, Eq)]
pub struct LoginResponse(pub User);

impl View for LoginResponse {
    type V = UserView;

    open spec fn view(&self) -> UserView {
        self.0@
    }
}

impl Clone for LoginResponse {
    fn clone(&self) -> (r: Self)
        ensures
            r@ == self@,
    {
        LoginResponse(self.0.clone())
    }
}

/// A request to search the Giphy API.
#[derive(Debug, PartialEq, Eq)]
pub struct SearchGiphyRequest {
    /// The search string to be used for querying Giphy.
    pub query: String,
}

impl View for SearchGiphyRequest {
    type V = Seq<char>;

    open spec fn view(&self) -> Seq<char> {
        self.query@
    }
}

impl Clone for SearchGiphyRequest {
    fn clone(&self) -> (r: Self)
        ensures
            r@ == self@,
    {
        SearchGiphyRequest { query: self.query.clone() }
    }
}

/// The response to a Giphy search request.
#[derive(Debug, PartialEq, Eq)]
pub struct SearchGiphyResponse {
    /// The GIFs returned from the search.
    pub gifs: Vec<GiphyGif>,
}

impl View for SearchGiphyResponse {
    type V = Seq<GiphyGifView>;

    open spec fn view(&self) -> Seq<GiphyGifView> {
        gif_views(self.gifs@)
    }
}

impl Clone for SearchGiphyResponse {
    fn clone(&self) -> (r: Self)
        ensures
            r@ == self@,
    {
        SearchGiphyResponse { gifs: clone_gifs(&self.gifs) }
    }
}

/// A request to save a GIF.
#[derive(Debug, PartialEq, Eq)]
pub struct SaveGifRequest {
    /// The ID of the Giphy GIF to save.
    pub id: String,
}

impl View for SaveGifRequest {
    type V = Seq<char>;

    open spec fn view(&self) -> Seq<char> {
        self.id@
    }
}

impl Clone for SaveGifRequest {
    fn clone(&self) -> (r: Self)
        ensures
            r@ == self@,
    {
        SaveGifRequest { id: self.id.clone() }
    }
}

/// The response to a request to save a GIF.
#[derive(Debug, PartialEq, Eq)]
pub struct SaveGifResponse {
    /// The saved GIF.
    pub gif: GiphyGif,
}

impl View for SaveGifResponse {
    type V = GiphyGifView;

    open spec fn view(&self) -> GiphyGifView {
        self.gif@
    }
}

impl Clone for SaveGifResponse {
    fn clone(&self) -> (r: Self)
        ensures
            r@ == self@,
    {
        SaveGifResponse { gif: self.gif.clone() }
    }
}

/// A request to fetch the caller's saved GIFs.
#[derive(Clone, Copy, Debug, PartialEq, Eq)]
pub struct FetchFavoritesRequest;

/// The response to a request to fetch the caller's saved GIFs.
#[derive(Debug, PartialEq, Eq)]
pub struct FetchFavoritesResponse {
    pub gifs: Vec<GiphyGif>,
}

impl View for FetchFavoritesResponse {
    type V = Seq<GiphyGifView>;

    open spec fn view(&self) -> Seq<GiphyGifView> {
        gif_views(self.gifs@)
    }
}

impl Clone for FetchFavoritesResponse {
    fn clone(&self) -> (r: Self)
        ensures
            r@ == self@,
    {
        FetchFavoritesResponse { gifs: clone_gifs(&self.gifs) }
    }
}

/// A request to categorize a GIF.
#[derive(Debug, PartialEq, Eq)]
pub struct CategorizeGifRequest {
    /// The ID of the GIF to update.
    pub id: String,
    /// The new category to apply.
    pub category: String,
}

/// What a [`CategorizeGifRequest`] holds.
pub struct CategorizeView {
    pub id: Seq<char>,
    pub category: Seq<char>,
}

impl View for CategorizeGifRequest {
    type V = CategorizeView;

    open spec fn view(&self) -> CategorizeView {
        CategorizeView { id: self.id@, category: self.category@ }
    }
}

impl Clone for CategorizeGifRequest {
    fn clone(&self) -> (r: Self)
        ensures
            r@ == self@,
    {
        CategorizeGifRequest { id: self.id.clone(), category: self.category.clone() }
    }
}

/// The response to a request to categorize a GIF.
#[derive(Debug, PartialEq, Eq)]
pub struct CategorizeGifResponse {
    pub gif: GiphyGif,
}

impl View for CategorizeGifResponse {
    type V = GiphyGifView;

    open spec fn view(&self) -> GiphyGifView {
        self.gif@
    }
}

impl Clone for CategorizeGifResponse {
    fn clone(&self) -> (r: Self)
        ensures
            r@ == self@,
    {
        CategorizeGifResponse { gif: self.gif.clone() }
    }
}

} // verus!
