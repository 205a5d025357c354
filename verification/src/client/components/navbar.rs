//! The navigation bar.

use crate::client::router::Route;
use crate::client::state::{Model, ModelView};
use vstd::prelude::*;

verus! {

/// What the navigation bar shows.
#[derive(Clone, Copy, Debug, PartialEq, Eq, Structural)]
pub struct Navbar {
    /// Whether the menu is open.
    pub is_burger_active: bool,
    /// Whether the link to the search page is disabled.
    pub is_search_disabled: bool,
    /// Whether the link to the favorites page is disabled.
    pub is_favorites_disabled: bool,
}

/// The navigation bar of `model`: the link to the page that is shown is
/// disabled.
pub open spec fn navbar_of(model: ModelView) -> Navbar {
    Navbar {
        is_burger_active: model.ui.is_navbar_burger_active,
        is_search_disabled: model.route == Route::Search,
        is_favorites_disabled: model.route == Route::Favorites,
    }
}

/// The navbar component.
pub fn navbar(model: &Model) -> (nav: Navbar)
    ensures
        nav == navbar_of(model@),
{
    Navbar {
        is_burger_active: model.ui.is_navbar_burger_active,
        is_search_disabled: model.route == Route::Search,
        is_favorites_disabled: model.route == Route::Favorites,
    }
}

} // verus!
