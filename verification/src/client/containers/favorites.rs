//! The favorites page: the saved GIFs and their categories.

use crate::client::api::{Command, CommandView};
use crate::client::components::gifcard::{GifCard, GifCardView, card_of, gifcard};
use crate::client::state::{Model, ModelEvent, ModelEventView, ModelView, Orders, OrdersView, Outcome};
use crate::client::utils::{handle_common_errors, is_unauthorized};
use crate::collections::gif_map::{GifMap, merge, upsert};
use crate::collections::id_set::IdSet;
use crate::collections::keys::Key;
use crate::collections::text_map::TextMap;
use crate::common::error::{Error, ErrorView};
use crate::common::messages::{
    CategorizeGifRequest, CategorizeGifResponse, FetchFavoritesRequest, FetchFavoritesResponse,
};
use crate::common::records::{GiphyGif, GiphyGifView, gif_views};
use crate::text::{contains, occurs_in};
use vstd::prelude::*;

verus! {

/// The state of the favorites container.
#[derive(Debug)]
pub struct Favorites {
    pub favorites: GifMap,
    pub category_updates: TextMap,
    pub saving_category: IdSet,
    pub fetch_error: Option<Error>,
    pub is_fetching_favorites: bool,
    pub filter: String,
}

/// What a [`Favorites`] holds.
pub struct FavoritesView {
    pub favorites: Seq<GiphyGifView>,
    pub category_updates: Map<Key, Seq<char>>,
    pub saving_category: Set<Key>,
    pub fetch_error: Option<ErrorView>,
    pub is_fetching_favorites: bool,
    pub filter: Seq<char>,
}

impl View for Favorites {
    type V = FavoritesView;

    open spec fn view(&self) -> FavoritesView {
        FavoritesView {
            favorites: self.favorites@,
            category_updates: self.category_updates@,
            saving_category: self.saving_category@,
            fetch_error: self.fetch_error.deep_view(),
            is_fetching_favorites: self.is_fetching_favorites,
            filter: self.filter@,
        }
    }
}

/// The favorites page before anything was fetched.
pub open spec fn pristine_favorites() -> FavoritesView {
    FavoritesView {
        favorites: Seq::empty(),
        category_updates: Map::empty(),
        saving_category: Set::empty(),
        fetch_error: None,
        is_fetching_favorites: false,
        filter: Seq::empty(),
    }
}

impl Clone for Favorites {
    fn clone(&self) -> (favorites: Self)
        ensures
            favorites@ == self@,
    {
        Favorites {
            favorites: self.favorites.clone(),
            category_updates: self.category_updates.clone(),
            saving_category: self.saving_category.clone(),
            fetch_error: match &self.fetch_error {
                Some(err) => Some(err.clone()),
                None => None,
            },
            is_fetching_favorites: self.is_fetching_favorites,
            filter: self.filter.clone(),
        }
    }
}

impl Default for Favorites {
    fn default() -> (favorites: Self)
        ensures
            favorites@ == pristine_favorites(),
    {
        Favorites {
            favorites: GifMap::new(),
            category_updates: TextMap::new(),
            saving_category: IdSet::new(),
            fetch_error: None,
            is_fetching_favorites: false,
            filter: String::new(),
        }
    }
}

impl Favorites {
    /// Revert this model back to a pristine state.
    pub fn pristine(&mut self)
        ensures
            final(self)@ == pristine_favorites(),
    {
        self.favorites.clear();
        self.category_updates.clear();
        self.saving_category.clear();
        self.fetch_error = None;
        self.is_fetching_favorites = false;
        self.filter = String::new();
    }
}

/// The set of events which may come from this container.
#[derive(Debug)]
pub enum FavoritesEvent {
    Fetch,
    FetchSuccess(FetchFavoritesResponse),
    FetchError(Error),
    Categorize(String),
    CategorizeSuccess(CategorizeGifResponse),
    CategorizeError(String, Error),
    UpdateFilter(String),
    UpdateCategory(String, String),
}

/// What a [`FavoritesEvent`] holds.
pub enum FavoritesEventView {
    Fetch,
    FetchSuccess(Seq<GiphyGifView>),
    FetchError(ErrorView),
    Categorize(Key),
    CategorizeSuccess(GiphyGifView),
    CategorizeError(Key, ErrorView),
    UpdateFilter(Seq<char>),
    UpdateCategory(Key, Seq<char>),
}

impl View for FavoritesEvent {
    type V = FavoritesEventView;

    open spec fn view(&self) -> FavoritesEventView {
        match self {
            FavoritesEvent::Fetch => FavoritesEventView::Fetch,
            FavoritesEvent::FetchSuccess(res) => FavoritesEventView::FetchSuccess(res@),
            FavoritesEvent::FetchError(err) => FavoritesEventView::FetchError(err@),
            FavoritesEvent::Categorize(id) => FavoritesEventView::Categorize(id@),
            FavoritesEvent::CategorizeSuccess(res) => FavoritesEventView::CategorizeSuccess(res@),
            FavoritesEvent::CategorizeError(id, err) => FavoritesEventView::CategorizeError(
                id@,
                err@,
            ),
            FavoritesEvent::UpdateFilter(filter) => FavoritesEventView::UpdateFilter(filter@),
            FavoritesEvent::UpdateCategory(id, val) => FavoritesEventView::UpdateCategory(id@, val@),
        }
    }
}

impl Clone for FavoritesEvent {
    fn clone(&self) -> (e: Self)
        ensures
            e@ == self@,
    {
        match self {
            FavoritesEvent::Fetch => FavoritesEvent::Fetch,
            FavoritesEvent::FetchSuccess(res) => FavoritesEvent::FetchSuccess(res.clone()),
            FavoritesEvent::FetchError(err) => FavoritesEvent::FetchError(err.clone()),
            FavoritesEvent::Categorize(id) => FavoritesEvent::Categorize(id.clone()),
            FavoritesEvent::CategorizeSuccess(res) => FavoritesEvent::CategorizeSuccess(
                res.clone(),
            ),
            FavoritesEvent::CategorizeError(id, err) => FavoritesEvent::CategorizeError(
                id.clone(),
                err.clone(),
            ),
            FavoritesEvent::UpdateFilter(filter) => FavoritesEvent::UpdateFilter(filter.clone()),
            FavoritesEvent::UpdateCategory(id, val) => FavoritesEvent::UpdateCategory(
                id.clone(),
                val.clone(),
            ),
        }
    }
}

/// What an event of the favorites container makes of the model, and what it
/// orders.
///
/// Without a user, a fetch sends `Logout` and nothing else. A categorization
/// without a user, or without a pending edit for the GIF, does nothing. A
/// failure with the status of a refused session sends `Logout`; any other
/// failure of a categorization is dropped.
pub open spec fn favorites_step(event: FavoritesEventView, model: ModelView, orders: OrdersView)
    -> Outcome {
    let favorites = model.favorites;
    match event {
        FavoritesEventView::Fetch => match model.user {
            Some(user) => Outcome {
                model: ModelView {
                    favorites: FavoritesView { is_fetching_favorites: true, ..favorites },
                    ..model
                },
                orders: orders.perform_cmd(CommandView::Favorites { jwt: user.jwt }),
            },
            None => Outcome { model, orders: orders.send_msg(ModelEventView::Logout) },
        },
        FavoritesEventView::FetchSuccess(gifs) => Outcome {
            model: ModelView {
                favorites: FavoritesView {
                    is_fetching_favorites: false,
                    favorites: merge(favorites.favorites, gifs),
                    ..favorites
                },
                ..model
            },
            orders,
        },
        FavoritesEventView::FetchError(err) => Outcome {
            model: ModelView {
                favorites: FavoritesView {
                    is_fetching_favorites: false,
                    fetch_error: Some(err),
                    ..favorites
                },
                ..model
            },
            orders: if is_unauthorized(err) {
                orders.send_msg(ModelEventView::Logout)
            } else {
                orders
            },
        },
        FavoritesEventView::Categorize(id) => match model.user {
            Some(user) => if favorites.category_updates.contains_key(id) {
                Outcome {
                    model: ModelView {
                        favorites: FavoritesView {
                            saving_category: favorites.saving_category.insert(id),
                            ..favorites
                        },
                        ..model
                    },
                    orders: orders.perform_cmd(
                        CommandView::Categorize {
                            id,
                            category: favorites.category_updates[id],
                            jwt: user.jwt,
                        },
                    ),
                }
            } else {
                Outcome { model, orders: orders.skip() }
            },
            None => Outcome { model, orders: orders.skip() },
        },
        FavoritesEventView::CategorizeSuccess(gif) => Outcome {
            model: ModelView {
                favorites: FavoritesView {
                    saving_category: favorites.saving_category.remove(gif.id),
                    category_updates: favorites.category_updates.remove(gif.id),
                    favorites: upsert(favorites.favorites, gif),
                    ..favorites
                },
                ..model
            },
            orders,
        },
        FavoritesEventView::CategorizeError(id, err) => Outcome {
            model: ModelView {
                favorites: FavoritesView {
                    saving_category: favorites.saving_category.remove(id),
                    ..favorites
                },
                ..model
            },
            orders: if is_unauthorized(err) {
                orders.send_msg(ModelEventView::Logout)
            } else {
                orders
            },
        },
        FavoritesEventView::UpdateFilter(filter) => Outcome {
            model: ModelView { favorites: FavoritesView { filter, ..favorites }, ..model },
            orders,
        },
        FavoritesEventView::UpdateCategory(id, val) => Outcome {
            model: ModelView {
                favorites: FavoritesView {
                    category_updates: if val.len() > 0 {
                        favorites.category_updates.insert(id, val)
                    } else {
                        favorites.category_updates.remove(id)
                    },
                    ..favorites
                },
                ..model
            },
            orders,
        },
    }
}

impl FavoritesEvent {
    /// The reducer for this state model.
    pub fn reducer(event: FavoritesEvent, model: &mut Model, orders: &mut Orders)
        ensures
            final(model)@ == favorites_step(event@, old(model)@, old(orders)@).model,
            final(orders)@ == favorites_step(event@, old(model)@, old(orders)@).orders,
    {
        match event {
            FavoritesEvent::Fetch => match &model.user {
                Some(user) => {
                    let jwt = user.jwt.clone();
                    model.favorites.is_fetching_favorites = true;
                    orders.perform_cmd(Command::Favorites(FetchFavoritesRequest, jwt));
                },
                None => {
                    orders.send_msg(ModelEvent::Logout);
                },
            },
            FavoritesEvent::FetchSuccess(res) => {
                model.favorites.is_fetching_favorites = false;
                model.favorites.favorites.extend(&res.gifs);
            },
            FavoritesEvent::FetchError(err) => {
                model.favorites.is_fetching_favorites = false;
                model.favorites.fetch_error = Some(err.clone());
                if let Some(event) = handle_common_errors(&err) {
                    orders.send_msg(event);
                }
            },
            FavoritesEvent::Categorize(id) => match &model.user {
                Some(user) => {
                    let jwt = user.jwt.clone();
                    match model.favorites.category_updates.get(id.as_str()) {
                        Some(category) => {
                            let payload = CategorizeGifRequest {
                                id: id.clone(),
                                category: category.clone(),
                            };
                            model.favorites.saving_category.insert(id);
                            orders.perform_cmd(Command::Categorize(payload, jwt));
                        },
                        None => {
                            orders.skip();
                        },
                    }
                },
                None => {
                    orders.skip();
                },
            },
            FavoritesEvent::CategorizeSuccess(res) => {
                let gif = res.gif;
                model.favorites.saving_category.remove(gif.id.as_str());
                model.favorites.category_updates.remove(gif.id.as_str());
                model.favorites.favorites.insert(gif);
            },
            FavoritesEvent::CategorizeError(id, err) => {
                model.favorites.saving_category.remove(id.as_str());
                if let Some(event) = handle_common_errors(&err) {
                    orders.send_msg(event);
                }
            },
            FavoritesEvent::UpdateFilter(filter) => {
                model.favorites.filter = filter;
            },
            FavoritesEvent::UpdateCategory(id, val) => {
                if !val.as_str().is_empty() {
                    model.favorites.category_updates.insert(id, val);
                } else {
                    model.favorites.category_updates.remove(id.as_str());
                }
            },
        }
    }
}

/// What stands in the place of an error when there is none to show.
pub const BLANK: &'static str = " ";

/// What the favorites page shows.
#[derive(Debug)]
pub struct FavoritesPage {
    /// Whether the favorites are being fetched.
    pub is_fetching: bool,
    pub filter: String,
    /// The error under the filter field.
    pub error: String,
    /// The favorites that pass the filter, in the order of arrival.
    pub cards: Vec<GifCard>,
}

/// What a [`FavoritesPage`] holds.
pub struct FavoritesPageView {
    pub is_fetching: bool,
    pub filter: Seq<char>,
    pub error: Seq<char>,
    pub cards: Seq<GifCardView>,
}

impl View for FavoritesPage {
    type V = FavoritesPageView;

    open spec fn view(&self) -> FavoritesPageView {
        FavoritesPageView {
            is_fetching: self.is_fetching,
            filter: self.filter@,
            error: self.error@,
            cards: self.cards.deep_view(),
        }
    }
}

/// Whether a GIF passes the filter: an empty filter lets every GIF pass, and
/// any other one those whose category holds the filter, letter for letter.
pub open spec fn passes(gif: GiphyGifView, filter: Seq<char>) -> bool {
    filter.len() == 0 || match gif.category {
        Some(category) => occurs_in(filter, category),
        None => false,
    }
}

/// The card of a favorite: its star does nothing, and its category field
/// shows the pending edit for the GIF.
pub open spec fn favorite_card(gif: GiphyGifView, updates: Map<Key, Seq<char>>) -> GifCardView {
    card_of(
        gif,
        if updates.contains_key(gif.id) {
            Some(updates[gif.id])
        } else {
            None
        },
        ModelEventView::Noop,
    )
}

/// The card of a favorite, where it passes the filter.
pub open spec fn filtered_card(
    gif: GiphyGifView,
    updates: Map<Key, Seq<char>>,
    filter: Seq<char>,
) -> Option<GifCardView> {
    if passes(gif, filter) {
        Some(favorite_card(gif, updates))
    } else {
        None
    }
}

/// The favorites page of a container: the cards of the favorites that pass
/// the filter, in their order.
pub open spec fn favorites_page(favorites: FavoritesView) -> FavoritesPageView {
    FavoritesPageView {
        is_fetching: favorites.is_fetching_favorites,
        filter: favorites.filter,
        error: match favorites.fetch_error {
            Some(err) => err.description,
            None => BLANK@,
        },
        cards: favorites.favorites.filter_map(
            |gif: GiphyGifView| filtered_card(gif, favorites.category_updates, favorites.filter),
        ),
    }
}

/// Whether `gif` passes `filter`.
pub fn passes_filter(gif: &GiphyGif, filter: &str) -> (shown: bool)
    ensures
        shown == passes(gif@, filter@),
{
    if filter.is_empty() {
        true
    } else {
        match &gif.category {
            Some(category) => contains(category.as_str(), filter),
            None => false,
        }
    }
}

/// The favorites view.
pub fn favorites(model: &Model) -> (page: FavoritesPage)
    ensures
        page@ == favorites_page(model@.favorites),
{
    let state = &model.favorites;
    let error = match &state.fetch_error {
        Some(err) => err.description.clone(),
        None => BLANK.to_owned(),
    };
    let gifs = state.favorites.values();
    let ghost all = state@.favorites;
    let ghost updates = state@.category_updates;
    let ghost filter = state@.filter;
    let ghost pick = |gif: GiphyGifView| filtered_card(gif, updates, filter);
    let mut cards: Vec<GifCard> = Vec::new();
    let mut i: usize = 0;
    assert(cards.deep_view() =~= all.take(0).filter_map(pick));
    while i < gifs.len()
        invariant
            i <= gifs@.len(),
            gif_views(gifs@) == all,
            updates == state.category_updates@,
            filter == state.filter@,
            pick == |gif: GiphyGifView| filtered_card(gif, updates, filter),
            cards.deep_view() == all.take(i as int).filter_map(pick),
        decreases gifs@.len() - i,
    {
        let gif = &gifs[i];
        let ghost before = cards.deep_view();
        proof {
            assert(gif@ == all[i as int]);
            let next = all.take(i + 1);
            assert(next.drop_last() =~= all.take(i as int));
            assert(next.last() == all[i as int]);
        }
        if passes_filter(gif, state.filter.as_str()) {
            let card = gifcard(gif, state.category_updates.get(gif.id.as_str()), ModelEvent::Noop);
            cards.push(card);
            assert(cards.deep_view() =~= before + seq![favorite_card(all[i as int], updates)]);
        }
        i += 1;
    }
    assert(all.take(i as int) =~= all);
    FavoritesPage {
        is_fetching: state.is_fetching_favorites,
        filter: state.filter.clone(),
        error,
        cards,
    }
}

} // verus!
