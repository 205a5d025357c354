//! The search page: the query, its results, and the GIFs being saved.

use crate::client::api::{Command, CommandView};
use crate::client::components::gifcard::{GifCard, GifCardView, card_of, gifcard};
use crate::client::containers::favorites::FavoritesView;
use crate::client::state::{Model, ModelEvent, ModelEventView, ModelView, Orders, OrdersView, Outcome};
use crate::client::utils::{handle_common_errors, is_unauthorized};
use crate::collections::gif_map::{GifMap, merge, upsert};
use crate::collections::id_set::IdSet;
use crate::collections::keys::Key;
use crate::common::records::gif_views;
use crate::common::error::{Error, ErrorView};
use crate::common::messages::{
    SaveGifRequest, SaveGifResponse, SearchGiphyRequest, SearchGiphyResponse,
};
use crate::common::records::GiphyGifView;
use vstd::prelude::*;

verus! {

/// The state of the search container.
#[derive(Debug)]
pub struct SearchContainer {
    pub search: String,
    pub search_error: Option<String>,
    pub search_results: GifMap,
    pub has_search_request: bool,
    pub gifs_being_saved: IdSet,
}

/// What a [`SearchContainer`] holds.
pub struct SearchView {
    pub search: Seq<char>,
    pub search_error: Option<Seq<char>>,
    pub search_results: Seq<GiphyGifView>,
    pub has_search_request: bool,
    pub gifs_being_saved: Set<Key>,
}

impl View for SearchContainer {
    type V = SearchView;

    open spec fn view(&self) -> SearchView {
        SearchView {
            search: self.search@,
            search_error: self.search_error.deep_view(),
            search_results: self.search_results@,
            has_search_request: self.has_search_request,
            gifs_being_saved: self.gifs_being_saved@,
        }
    }
}

/// The search page before anything was typed.
pub open spec fn pristine_search() -> SearchView {
    SearchView {
        search: Seq::empty(),
        search_error: None,
        search_results: Seq::empty(),
        has_search_request: false,
        gifs_being_saved: Set::empty(),
    }
}

impl Clone for SearchContainer {
    fn clone(&self) -> (search: Self)
        ensures
            search@ == self@,
    {
        SearchContainer {
            search: self.search.clone(),
            search_error: match &self.search_error {
                Some(msg) => Some(msg.clone()),
                None => None,
            },
            search_results: self.search_results.clone(),
            has_search_request: self.has_search_request,
            gifs_being_saved: self.gifs_being_saved.clone(),
        }
    }
}

impl Default for SearchContainer {
    fn default() -> (search: Self)
        ensures
            search@ == pristine_search(),
    {
        SearchContainer {
            search: String::new(),
            search_error: None,
            search_results: GifMap::new(),
            has_search_request: false,
            gifs_being_saved: IdSet::new(),
        }
    }
}

impl SearchContainer {
    /// Revert this model back to a pristine state.
    pub fn pristine(&mut self)
        ensures
            final(self)@ == pristine_search(),
    {
        self.search = String::new();
        self.search_error = None;
        self.search_results.clear();
        self.has_search_request = false;
        self.gifs_being_saved.clear();
    }
}

/// The set of events which may come from this container.
#[derive(Debug)]
pub enum SearchContainerEvent {
    UpdateSearchField(String),
    SubmitSearch,
    SearchSuccess(SearchGiphyResponse),
    SearchError(Error),
    SaveGif(String),
    SaveGifSuccess(SaveGifResponse),
    SaveGifError((String, Error)),
}

/// What a [`SearchContainerEvent`] holds.
pub enum SearchContainerEventView {
    UpdateSearchField(Seq<char>),
    SubmitSearch,
    SearchSuccess(Seq<GiphyGifView>),
    SearchError(ErrorView),
    SaveGif(Key),
    SaveGifSuccess(GiphyGifView),
    SaveGifError(Key, ErrorView),
}

impl View for SearchContainerEvent {
    type V = SearchContainerEventView;

    open spec fn view(&self) -> SearchContainerEventView {
        match self {
            SearchContainerEvent::UpdateSearchField(val) => SearchContainerEventView::UpdateSearchField(
                val@,
            ),
            SearchContainerEvent::SubmitSearch => SearchContainerEventView::SubmitSearch,
            SearchContainerEvent::SearchSuccess(res) => SearchContainerEventView::SearchSuccess(
                res@,
            ),
            SearchContainerEvent::SearchError(err) => SearchContainerEventView::SearchError(err@),
            SearchContainerEvent::SaveGif(id) => SearchContainerEventView::SaveGif(id@),
            SearchContainerEvent::SaveGifSuccess(res) => SearchContainerEventView::SaveGifSuccess(
                res@,
            ),
            SearchContainerEvent::SaveGifError(failure) => SearchContainerEventView::SaveGifError(
                failure.0@,
                failure.1@,
            ),
        }
    }
}

impl Clone for SearchContainerEvent {
    fn clone(&self) -> (e: Self)
        ensures
            e@ == self@,
    {
        match self {
            SearchContainerEvent::UpdateSearchField(val) => SearchContainerEvent::UpdateSearchField(
                val.clone(),
            ),
            SearchContainerEvent::SubmitSearch => SearchContainerEvent::SubmitSearch,
            SearchContainerEvent::SearchSuccess(res) => SearchContainerEvent::SearchSuccess(
                res.clone(),
            ),
            SearchContainerEvent::SearchError(err) => SearchContainerEvent::SearchError(
                err.clone(),
            ),
            SearchContainerEvent::SaveGif(id) => SearchContainerEvent::SaveGif(id.clone()),
            SearchContainerEvent::SaveGifSuccess(res) => SearchContainerEvent::SaveGifSuccess(
                res.clone(),
            ),
            SearchContainerEvent::SaveGifError(failure) => SearchContainerEvent::SaveGifError(
                (failure.0.clone(), failure.1.clone()),
            ),
        }
    }
}

/// What an event of the search container makes of the model, and what it
/// orders.
///
/// Without a user, a submission or a save sends `Logout` and nothing else.
/// A failure with the status of a refused session sends `Logout` in place of
/// the container's own handling.
pub open spec fn search_step(event: SearchContainerEventView, model: ModelView, orders: OrdersView)
    -> Outcome {
    let search = model.search;
    match event {
        SearchContainerEventView::UpdateSearchField(val) => Outcome {
            model: ModelView { search: SearchView { search: val, ..search }, ..model },
            orders,
        },
        SearchContainerEventView::SubmitSearch => match model.user {
            Some(user) => Outcome {
                model: ModelView {
                    search: SearchView {
                        search_error: None,
                        search_results: Seq::empty(),
                        has_search_request: true,
                        ..search
                    },
                    ..model
                },
                orders: orders.perform_cmd(
                    CommandView::Search { query: search.search, jwt: user.jwt },
                ),
            },
            None => Outcome { model, orders: orders.send_msg(ModelEventView::Logout) },
        },
        SearchContainerEventView::SearchSuccess(gifs) => Outcome {
            model: ModelView {
                search: SearchView {
                    has_search_request: false,
                    search_results: merge(search.search_results, gifs),
                    ..search
                },
                ..model
            },
            orders,
        },
        SearchContainerEventView::SearchError(err) => if is_unauthorized(err) {
            Outcome {
                model: ModelView {
                    search: SearchView { has_search_request: false, ..search },
                    ..model
                },
                orders: orders.send_msg(ModelEventView::Logout),
            }
        } else {
            Outcome {
                model: ModelView {
                    search: SearchView {
                        has_search_request: false,
                        search_error: Some(err.description),
                        ..search
                    },
                    ..model
                },
                orders,
            }
        },
        SearchContainerEventView::SaveGif(id) => match model.user {
            Some(user) => Outcome {
                model: ModelView {
                    search: SearchView {
                        gifs_being_saved: search.gifs_being_saved.insert(id),
                        ..search
                    },
                    ..model
                },
                orders: orders.perform_cmd(CommandView::SaveGif { id, jwt: user.jwt }),
            },
            None => Outcome { model, orders: orders.send_msg(ModelEventView::Logout) },
        },
        SearchContainerEventView::SaveGifSuccess(gif) => Outcome {
            model: ModelView {
                search: SearchView {
                    gifs_being_saved: search.gifs_being_saved.remove(gif.id),
                    search_results: upsert(search.search_results, gif),
                    ..search
                },
                favorites: FavoritesView {
                    favorites: upsert(model.favorites.favorites, gif),
                    ..model.favorites
                },
                ..model
            },
            orders,
        },
        SearchContainerEventView::SaveGifError(id, err) => Outcome {
            model: ModelView {
                search: SearchView {
                    gifs_being_saved: search.gifs_being_saved.remove(id),
                    ..search
                },
                ..model
            },
            orders: if is_unauthorized(err) {
                orders.send_msg(ModelEventView::Logout)
            } else {
                orders.skip()
            },
        },
    }
}

impl SearchContainerEvent {
    /// The reducer for this state model.
    pub fn reducer(event: SearchContainerEvent, model: &mut Model, orders: &mut Orders)
        ensures
            final(model)@ == search_step(event@, old(model)@, old(orders)@).model,
            final(orders)@ == search_step(event@, old(model)@, old(orders)@).orders,
    {
        match event {
            SearchContainerEvent::UpdateSearchField(val) => {
                model.search.search = val;
            },
            SearchContainerEvent::SubmitSearch => match &model.user {
                Some(user) => {
                    let jwt = user.jwt.clone();
                    model.search.search_error = None;
                    model.search.search_results.clear();
                    model.search.has_search_request = true;
                    let payload = SearchGiphyRequest { query: model.search.search.clone() };
                    orders.perform_cmd(Command::Search(payload, jwt));
                },
                None => {
                    orders.send_msg(ModelEvent::Logout);
                },
            },
            SearchContainerEvent::SearchSuccess(res) => {
                model.search.has_search_request = false;
                model.search.search_results.extend(&res.gifs);
            },
            SearchContainerEvent::SearchError(err) => {
                model.search.has_search_request = false;
                match handle_common_errors(&err) {
                    Some(event) => {
                        orders.send_msg(event);
                    },
                    None => {
                        model.search.search_error = Some(err.description);
                    },
                }
            },
            SearchContainerEvent::SaveGif(gifid) => match &model.user {
                Some(user) => {
                    let jwt = user.jwt.clone();
                    model.search.gifs_being_saved.insert(gifid.clone());
                    let req = SaveGifRequest { id: gifid };
                    orders.perform_cmd(Command::SaveGif(req, jwt));
                },
                None => {
                    orders.send_msg(ModelEvent::Logout);
                },
            },
            SearchContainerEvent::SaveGifSuccess(res) => {
                model.search.gifs_being_saved.remove(res.gif.id.as_str());
                model.search.search_results.insert(res.gif.clone());
                model.favorites.favorites.insert(res.gif);
            },
            SearchContainerEvent::SaveGifError((id, err)) => {
                model.search.gifs_being_saved.remove(id.as_str());
                match handle_common_errors(&err) {
                    Some(event) => {
                        orders.send_msg(event);
                    },
                    None => {
                        orders.skip();
                    },
                }
            },
        }
    }
}

/// What stands in the place of an error when there is none to show.
pub const BLANK: &'static str = " ";

/// What the search page shows.
#[derive(Debug)]
pub struct SearchPage {
    pub query: String,
    /// Whether a search is on its way.
    pub is_searching: bool,
    /// Whether the query field is disabled.
    pub is_input_disabled: bool,
    /// Whether the submit button is disabled.
    pub is_submit_disabled: bool,
    /// The error under the query field.
    pub error: String,
    /// The results, in the order of arrival.
    pub cards: Vec<GifCard>,
}

/// What a [`SearchPage`] holds.
pub struct SearchPageView {
    pub query: Seq<char>,
    pub is_searching: bool,
    pub is_input_disabled: bool,
    pub is_submit_disabled: bool,
    pub error: Seq<char>,
    pub cards: Seq<GifCardView>,
}

impl View for SearchPage {
    type V = SearchPageView;

    open spec fn view(&self) -> SearchPageView {
        SearchPageView {
            query: self.query@,
            is_searching: self.is_searching,
            is_input_disabled: self.is_input_disabled,
            is_submit_disabled: self.is_submit_disabled,
            error: self.error@,
            cards: self.cards.deep_view(),
        }
    }
}

/// The card of a search result: its star saves the GIF, and its category
/// field shows the pending edit for the GIF.
pub open spec fn result_card(gif: GiphyGifView, updates: Map<Key, Seq<char>>) -> GifCardView {
    card_of(
        gif,
        if updates.contains_key(gif.id) {
            Some(updates[gif.id])
        } else {
            None
        },
        ModelEventView::Search(SearchContainerEventView::SaveGif(gif.id)),
    )
}

/// The search page of a model. While a search is on its way the query field
/// and the button are disabled; the button is also disabled while the query
/// is empty.
pub open spec fn search_page(model: ModelView) -> SearchPageView {
    let search = model.search;
    SearchPageView {
        query: search.search,
        is_searching: search.has_search_request,
        is_input_disabled: search.has_search_request,
        is_submit_disabled: search.has_search_request || search.search.len() == 0,
        error: match search.search_error {
            Some(msg) => msg,
            None => BLANK@,
        },
        cards: search.search_results.map_values(
            |gif: GiphyGifView| result_card(gif, model.favorites.category_updates),
        ),
    }
}

/// The search view.
pub fn search(model: &Model) -> (page: SearchPage)
    ensures
        page@ == search_page(model@),
{
    let is_searching = model.search.has_search_request;
    let error = match &model.search.search_error {
        Some(msg) => msg.clone(),
        None => BLANK.to_owned(),
    };
    let gifs = model.search.search_results.values();
    let ghost shown = model@.search.search_results;
    let ghost updates = model@.favorites.category_updates;
    let mut cards: Vec<GifCard> = Vec::new();
    let mut i: usize = 0;
    while i < gifs.len()
        invariant
            i <= gifs@.len(),
            gif_views(gifs@) == shown,
            updates == model.favorites.category_updates@,
            cards@.len() == i,
            forall|j: int| 0 <= j < i ==> (#[trigger] cards@[j])@ == result_card(shown[j], updates),
        decreases gifs@.len() - i,
    {
        let gif = &gifs[i];
        assert(gif@ == shown[i as int]);
        let on_save = ModelEvent::Search(SearchContainerEvent::SaveGif(gif.id.clone()));
        let card = gifcard(gif, model.favorites.category_updates.get(gif.id.as_str()), on_save);
        cards.push(card);
        i += 1;
    }
    assert(cards.deep_view() =~= shown.map_values(|gif: GiphyGifView| result_card(gif, updates)));
    SearchPage {
        query: model.search.search.clone(),
        is_searching,
        is_input_disabled: is_searching,
        is_submit_disabled: is_searching || model.search.search.as_str().is_empty(),
        error,
        cards,
    }
}

} // verus!
