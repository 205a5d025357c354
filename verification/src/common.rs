//! The records that client and backend exchange.

pub mod error;
pub mod messages;
pub mod records;

pub use crate::common::error::Error;
pub use crate::common::messages::{
    CategorizeGifRequest, CategorizeGifResponse, FetchFavoritesRequest, FetchFavoritesResponse,
    LoginRequest, LoginResponse, RegisterRequest, RegisterResponse, Response, SaveGifRequest,
    SaveGifResponse, SearchGiphyRequest, SearchGiphyResponse,
};
pub use crate::common::records::{GiphyGif, User};
