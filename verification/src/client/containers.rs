//! The feature containers: each with its state, its events, its reducer and
//! what its page shows.

pub mod app;
pub mod favorites;
pub mod login;
pub mod search;

pub use crate::client::containers::app::app;
pub use crate::client::containers::favorites::{Favorites, FavoritesEvent, favorites};
pub use crate::client::containers::login::{LoginContainer, LoginContainerEvent, login};
pub use crate::client::containers::search::{SearchContainer, SearchContainerEvent, search};
