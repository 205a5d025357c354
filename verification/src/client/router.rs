//! The routes of the application and the paths that stand for them.

use crate::client::containers::favorites::FavoritesEvent;
use crate::client::state::ModelEvent;
use crate::text::same;
use vstd::prelude::*;

verus! {

/// The application's routes.
#[derive(Clone, Copy, Debug, PartialEq, Eq, Structural)]
pub enum Route {
    Init,
    Login,
    Search,
    Favorites,
}

impl Default for Route {
    fn default() -> (r: Self)
        ensures
            r == Route::Init,
    {
        Route::Init
    }
}

/// The route that a path leads to.
///
/// Below `ui`, the second segment picks the page, and an unknown one leads to
/// the search page. Any other path leads to the initial page.
pub open spec fn route_for(path: Seq<Seq<char>>) -> Route {
    if path.len() > 0 && path[0] == "ui"@ {
        if path.len() == 1 {
            Route::Init
        } else if path[1] == "login"@ {
            Route::Login
        } else if path[1] == "search"@ {
            Route::Search
        } else if path[1] == "favorites"@ {
            Route::Favorites
        } else {
            Route::Search
        }
    } else {
        Route::Init
    }
}

/// The path under which a route is shown in the location bar.
pub open spec fn canonical_path(route: Route) -> Seq<Seq<char>> {
    match route {
        Route::Init => seq!["ui"@],
        Route::Login => seq!["ui"@, "login"@],
        Route::Search => seq!["ui"@, "search"@],
        Route::Favorites => seq!["ui"@, "favorites"@],
    }
}

/// The event that follows the arrival at a route, if any.
pub open spec fn post_routing_event(route: Route) -> Option<ModelEvent> {
    match route {
        Route::Favorites => Some(ModelEvent::Favorites(FavoritesEvent::Fetch)),
        _ => None,
    }
}

impl Route {
    /// The path to push to the location bar for this route.
    pub fn push(&self) -> (path: Vec<&'static str>)
        ensures
            path.deep_view() == canonical_path(*self),
    {
        let mut path: Vec<&'static str> = Vec::new();
        path.push("ui");
        match self {
            Route::Init => {},
            Route::Login => {
                path.push("login");
            },
            Route::Search => {
                path.push("search");
            },
            Route::Favorites => {
                path.push("favorites");
            },
        }
        assert(path.deep_view() =~= canonical_path(*self));
        path
    }

    /// The event to send once this route has been taken: arriving at the
    /// favorites fetches them.
    pub fn post_routing(&self) -> (event: Option<ModelEvent>)
        ensures
            event == post_routing_event(*self),
    {
        match self {
            Route::Favorites => Some(ModelEvent::Favorites(FavoritesEvent::Fetch)),
            _ => None,
        }
    }
}

/// This application's router function: the event that takes the application
/// to the route of `path`.
pub fn router(path: &Vec<String>) -> (event: Option<ModelEvent>)
    ensures
        event == Some(ModelEvent::Route(route_for(path.deep_view()))),
{
    let ghost segments = path.deep_view();
    assert(forall|i: int| 0 <= i < path@.len() ==> segments[i] == path@[i]@);
    let route = if path.len() > 0 && same(path[0].as_str(), "ui") {
        if path.len() == 1 {
            Route::Init
        } else if same(path[1].as_str(), "login") {
            Route::Login
        } else if same(path[1].as_str(), "search") {
            Route::Search
        } else if same(path[1].as_str(), "favorites") {
            Route::Favorites
        } else {
            Route::Search
        }
    } else {
        Route::Init
    };
    Some(ModelEvent::Route(route))
}

/// Every route is the route of its own path.
pub proof fn lemma_route_round_trip(route: Route)
    ensures
        route_for(canonical_path(route)) == route,
{
    reveal_strlit("login");
    reveal_strlit("search");
    reveal_strlit("favorites");
    assert("search"@.len() == 6);
    assert("login"@.len() == 5);
    assert("favorites"@.len() == 9);
}

} // verus!
