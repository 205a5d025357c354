//! The root of what is shown: the navigation bar and the page of the route.

use crate::client::components::navbar::{Navbar, navbar, navbar_of};
use crate::client::containers::favorites::{
    FavoritesPage, FavoritesPageView, favorites, favorites_page,
};
use crate::client::containers::login::{LoginPage, LoginPageView, login, login_page};
use crate::client::containers::search::{SearchPage, SearchPageView, search, search_page};
use crate::client::router::Route;
use crate::client::state::{Model, ModelView};
use vstd::prelude::*;

verus! {

/// The page that a route shows.
#[derive(Debug)]
pub enum Page {
    /// Nothing yet: the session is being restored.
    Blank,
    Login(LoginPage),
    Search(SearchPage),
    Favorites(FavoritesPage),
}

/// What a [`Page`] holds.
pub enum PageView {
    Blank,
    Login(LoginPageView),
    Search(SearchPageView),
    Favorites(FavoritesPageView),
}

impl View for Page {
    type V = PageView;

    open spec fn view(&self) -> PageView {
        match self {
            Page::Blank => PageView::Blank,
            Page::Login(page) => PageView::Login(page@),
            Page::Search(page) => PageView::Search(page@),
            Page::Favorites(page) => PageView::Favorites(page@),
        }
    }
}

/// What the application shows.
#[derive(Debug)]
pub struct AppPage {
    /// The navigation bar, on the pages that have one.
    pub nav: Option<Navbar>,
    pub page: Page,
}

/// What an [`AppPage`] holds.
pub struct AppPageView {
    pub nav: Option<Navbar>,
    pub page: PageView,
}

impl View for AppPage {
    type V = AppPageView;

    open spec fn view(&self) -> AppPageView {
        AppPageView { nav: self.nav, page: self.page@ }
    }
}

/// What the application shows of a model: the page of its route, under the
/// navigation bar unless the route is the initial one or the login.
pub open spec fn app_page(model: ModelView) -> AppPageView {
    AppPageView {
        nav: if model.route != Route::Init && model.route != Route::Login {
            Some(navbar_of(model))
        } else {
            None
        },
        page: match model.route {
            Route::Init => PageView::Blank,
            Route::Login => PageView::Login(login_page(model.login)),
            Route::Search => PageView::Search(search_page(model)),
            Route::Favorites => PageView::Favorites(favorites_page(model.favorites)),
        },
    }
}

/// The root application view.
pub fn app(model: &Model) -> (shown: AppPage)
    ensures
        shown@ == app_page(model@),
{
    let nav = if model.route != Route::Init && model.route != Route::Login {
        Some(navbar(model))
    } else {
        None
    };
    let page = match model.route {
        Route::Init => Page::Blank,
        Route::Login => Page::Login(login(model)),
        Route::Search => Page::Search(search(model)),
        Route::Favorites => Page::Favorites(favorites(model)),
    };
    AppPage { nav, page }
}

} // verus!
