//! What holds of every step of the state machine.

use crate::client::api::CommandView;
use crate::client::containers::favorites::{FavoritesEventView, FavoritesView};
use crate::client::containers::login::{LoginContainerEventView, submission_blocked};
use crate::client::containers::search::SearchContainerEventView;
use crate::client::router::Route;
use crate::client::runtime::{alone, lemma_sends_one, reach, settle};
use crate::client::state::{
    ModelEventView, ModelView, OrdersView, Outcome, initial_model, step,
};
use crate::client::utils::is_unauthorized;
use crate::collections::gif_map::{
    distinct_ids, lemma_merge_distinct, lemma_upsert, lemma_upsert_distinct, lookup,
};
use crate::collections::keys::Key;
use crate::common::error::ErrorView;
use crate::common::records::GiphyGifView;
use vstd::prelude::*;

verus! {

/// No GIF occurs twice among the search results, nor among the favorites.
pub open spec fn well_formed(model: ModelView) -> bool {
    distinct_ids(model.search.search_results) && distinct_ids(model.favorites.favorites)
}

/// The model of a session that has ended: nobody is logged in, every
/// container is as it was at the start, and the login page is shown.
pub open spec fn logged_out() -> ModelView {
    ModelView { route: Route::Login, ..initial_model() }
}

/// The commands of a logout: forget the user, then show the login page.
pub open spec fn logout_commands() -> Seq<CommandView> {
    seq![CommandView::ForgetUser, CommandView::PushRoute(Route::Login)]
}

/// The first model is well formed.
pub proof fn law_initial_model_is_well_formed()
    ensures
        well_formed(initial_model()),
        well_formed(logged_out()),
{
}

/// Every step keeps the model well formed.
pub proof fn law_step_keeps_well_formed(msg: ModelEventView, model: ModelView, orders: OrdersView)
    requires
        well_formed(model),
    ensures
        well_formed(step(msg, model, orders).model),
{
    match msg {
        ModelEventView::Search(SearchContainerEventView::SearchSuccess(gifs)) => {
            lemma_merge_distinct(model.search.search_results, gifs);
        },
        ModelEventView::Search(SearchContainerEventView::SaveGifSuccess(gif)) => {
            lemma_upsert_distinct(model.search.search_results, gif);
            lemma_upsert_distinct(model.favorites.favorites, gif);
        },
        ModelEventView::Favorites(FavoritesEventView::FetchSuccess(gifs)) => {
            lemma_merge_distinct(model.favorites.favorites, gifs);
        },
        ModelEventView::Favorites(FavoritesEventView::CategorizeSuccess(gif)) => {
            lemma_upsert_distinct(model.favorites.favorites, gif);
        },
        _ => {},
    }
}

/// An event and all that follows from it keep the model well formed.
pub proof fn law_settle_keeps_well_formed(msg: ModelEventView, model: ModelView)
    requires
        well_formed(model),
    ensures
        well_formed(settle(msg, model).model),
    decreases reach(msg),
{
    lemma_sends_one(msg, model);
    law_step_keeps_well_formed(msg, model, OrdersView::empty());
    let first = alone(msg, model);
    if first.orders.msgs.len() > 0 {
        law_settle_keeps_well_formed(first.orders.msgs[0], first.model);
    }
}

/// After the response to a save, the search results and the favorites both
/// hold the saved GIF under its identifier, as the response gave it: marked
/// as saved where the response marks it so.
pub proof fn law_save_reaches_both_maps(gif: GiphyGifView, model: ModelView, orders: OrdersView)
    ensures
        ({
            let after = step(
                ModelEventView::Search(SearchContainerEventView::SaveGifSuccess(gif)),
                model,
                orders,
            ).model;
            &&& lookup(after.search.search_results, gif.id) == Some(gif)
            &&& lookup(after.favorites.favorites, gif.id) == Some(gif)
            &&& gif.is_saved ==> lookup(after.search.search_results, gif.id)->0.is_saved && lookup(
                after.favorites.favorites,
                gif.id,
            )->0.is_saved
        }),
{
    lemma_upsert(model.search.search_results, gif);
    lemma_upsert(model.favorites.favorites, gif);
}

/// A form that is blocked, by an error under a field or by a request on its
/// way, is not submitted: neither `Login` nor `Register` orders a command,
/// sends an event or changes the model.
pub proof fn law_guarded_submission(model: ModelView, orders: OrdersView)
    requires
        submission_blocked(model.login),
    ensures
        step(ModelEventView::Login(LoginContainerEventView::Login), model, orders) == (Outcome {
            model,
            orders: orders.skip(),
        }),
        step(ModelEventView::Login(LoginContainerEventView::Register), model, orders) == (Outcome {
            model,
            orders: orders.skip(),
        }),
{
}

/// The events in which a call to the backend fails with `err`; `id` is the
/// GIF of a save or of a categorization.
pub open spec fn failures(id: Key, err: ErrorView) -> Seq<ModelEventView> {
    seq![
        ModelEventView::Login(LoginContainerEventView::LoginError(err)),
        ModelEventView::Login(LoginContainerEventView::RegisterError(err)),
        ModelEventView::Search(SearchContainerEventView::SearchError(err)),
        ModelEventView::Search(SearchContainerEventView::SaveGifError(id, err)),
        ModelEventView::Favorites(FavoritesEventView::FetchError(err)),
        ModelEventView::Favorites(FavoritesEventView::CategorizeError(id, err)),
    ]
}

/// The errors that the containers show.
pub open spec fn shown_errors(model: ModelView) -> (Option<ErrorView>, Option<Seq<char>>, Option<
    ErrorView,
>) {
    (model.login.network_error, model.search.search_error, model.favorites.fetch_error)
}

/// A failed fetch of the favorites.
pub open spec fn fetch_failure(err: ErrorView) -> ModelEventView {
    ModelEventView::Favorites(FavoritesEventView::FetchError(err))
}

proof fn lemma_failures(id: Key, err: ErrorView, event: ModelEventView)
    requires
        failures(id, err).contains(event),
    ensures
        event == failures(id, err)[0] || event == failures(id, err)[1] || event == failures(
            id,
            err,
        )[2] || event == failures(id, err)[3] || event == failures(id, err)[4] || event
            == failures(id, err)[5],
{
    let i = choose|i: int| 0 <= i < failures(id, err).len() && failures(id, err)[i] == event;
    assert(failures(id, err)[i] == event);
}

/// Every failure of a call that carries the status of a refused session
/// sends `Logout` and orders nothing else. But for a failed fetch, which
/// keeps its error, it leaves the errors on display as they were.
pub proof fn law_unauthorized_logs_out(
    id: Key,
    err: ErrorView,
    model: ModelView,
    orders: OrdersView,
)
    requires
        is_unauthorized(err),
    ensures
        forall|event: ModelEventView| #[trigger]
            failures(id, err).contains(event) ==> step(event, model, orders).orders
                == orders.send_msg(ModelEventView::Logout),
        forall|event: ModelEventView| #[trigger]
            failures(id, err).contains(event) && event != fetch_failure(err) ==> shown_errors(
                step(event, model, orders).model,
            ) == shown_errors(model),
{
    assert forall|event: ModelEventView| #[trigger]
        failures(id, err).contains(event) implies step(event, model, orders).orders
        == orders.send_msg(ModelEventView::Logout) && (event != fetch_failure(err)
        ==> shown_errors(step(event, model, orders).model) == shown_errors(model)) by {
        lemma_failures(id, err, event);
    }
}

/// Every failure of a call that carries the status of a refused session
/// ends the session: once it has settled, nobody is logged in, no container
/// shows an error, every container is as it was at the start, and the login
/// page is shown.
pub proof fn law_unauthorized_ends_session(id: Key, err: ErrorView, model: ModelView)
    requires
        is_unauthorized(err),
    ensures
        forall|event: ModelEventView| #[trigger]
            failures(id, err).contains(event) ==> settle(event, model) == (Outcome {
                model: logged_out(),
                orders: OrdersView {
                    should_render: true,
                    msgs: Seq::empty(),
                    cmds: logout_commands(),
                },
            }),
{
    assert forall|event: ModelEventView| #[trigger]
        failures(id, err).contains(event) implies settle(event, model) == (Outcome {
        model: logged_out(),
        orders: OrdersView { should_render: true, msgs: Seq::empty(), cmds: logout_commands() },
    }) by {
        lemma_failures(id, err, event);
        let first = alone(event, model);
        assert(first.orders.msgs =~= seq![ModelEventView::Logout]);
        assert(first.orders.cmds =~= Seq::<CommandView>::empty());
        law_logout_settles(first.model);
        assert(first.orders.cmds + logout_commands() =~= logout_commands());
    }
}

/// A logout settles in the logged-out model, whatever the model was, and
/// orders the commands of a logout.
pub proof fn law_logout_settles(model: ModelView)
    ensures
        settle(ModelEventView::Logout, model) == (Outcome {
            model: logged_out(),
            orders: OrdersView {
                should_render: true,
                msgs: Seq::empty(),
                cmds: logout_commands(),
            },
        }),
{
    let first = alone(ModelEventView::Logout, model);
    assert(first.orders.msgs[0] == ModelEventView::Route(Route::Login));
    let second = alone(ModelEventView::Route(Route::Login), first.model);
    assert(second.orders.msgs.len() == 0);
    assert(settle(ModelEventView::Route(Route::Login), first.model) == second);
    assert(first.orders.cmds + second.orders.cmds =~= logout_commands());
}

/// Without a user, an action that needs a session orders no command: a
/// fetch, a search and a save send `Logout`, and a categorization does
/// nothing at all.
pub proof fn law_session_required(id: Key, model: ModelView, orders: OrdersView)
    requires
        model.user is None,
    ensures
        step(ModelEventView::Favorites(FavoritesEventView::Fetch), model, orders) == (Outcome {
            model,
            orders: orders.send_msg(ModelEventView::Logout),
        }),
        step(ModelEventView::Search(SearchContainerEventView::SubmitSearch), model, orders)
            == (Outcome { model, orders: orders.send_msg(ModelEventView::Logout) }),
        step(ModelEventView::Search(SearchContainerEventView::SaveGif(id)), model, orders)
            == (Outcome { model, orders: orders.send_msg(ModelEventView::Logout) }),
        step(ModelEventView::Favorites(FavoritesEventView::Categorize(id)), model, orders)
            == (Outcome { model, orders: orders.skip() }),
{
}

/// A categorization without a user, or without a pending edit for the GIF,
/// is no step at all: the model stays, no command is ordered, and no event
/// is sent.
pub proof fn law_categorize_needs_user_and_edit(id: Key, model: ModelView, orders: OrdersView)
    requires
        model.user is None || !model.favorites.category_updates.contains_key(id),
    ensures
        step(ModelEventView::Favorites(FavoritesEventView::Categorize(id)), model, orders)
            == (Outcome { model, orders: orders.skip() }),
{
}

/// While the session is being restored, a change of route changes nothing:
/// the model stays, and nothing is pushed to the location bar.
pub proof fn law_routes_wait_for_session(route: Route, model: ModelView, orders: OrdersView)
    requires
        model.is_initializing,
    ensures
        step(ModelEventView::Route(route), model, orders) == (Outcome {
            model,
            orders: orders.skip(),
        }),
{
}

/// A new filter changes the filter and nothing else: the favorites, the
/// pending edits and the rest of the model stay, and nothing is ordered.
pub proof fn law_filter_is_pure(filter: Seq<char>, model: ModelView, orders: OrdersView)
    ensures
        step(ModelEventView::Favorites(FavoritesEventView::UpdateFilter(filter)), model, orders)
            == (Outcome {
            model: ModelView { favorites: FavoritesView { filter, ..model.favorites }, ..model },
            orders,
        }),
{
}

/// When a save or a categorization completes, with success or with failure,
/// the GIF leaves the set of those in progress. A failed categorization
/// keeps the pending edit.
pub proof fn law_completion_releases(
    id: Key,
    gif: GiphyGifView,
    err: ErrorView,
    model: ModelView,
    orders: OrdersView,
)
    ensures
        !step(
            ModelEventView::Search(SearchContainerEventView::SaveGifSuccess(gif)),
            model,
            orders,
        ).model.search.gifs_being_saved.contains(gif.id),
        !step(
            ModelEventView::Search(SearchContainerEventView::SaveGifError(id, err)),
            model,
            orders,
        ).model.search.gifs_being_saved.contains(id),
        !step(
            ModelEventView::Favorites(FavoritesEventView::CategorizeSuccess(gif)),
            model,
            orders,
        ).model.favorites.saving_category.contains(gif.id),
        !step(
            ModelEventView::Favorites(FavoritesEventView::CategorizeError(id, err)),
            model,
            orders,
        ).model.favorites.saving_category.contains(id),
        step(
            ModelEventView::Favorites(FavoritesEventView::CategorizeError(id, err)),
            model,
            orders,
        ).model.favorites.category_updates == model.favorites.category_updates,
{
}

/// The model is authenticated after a step only where it was before, or
/// where the step brought a user in: with accepted credentials or with a
/// restored session.
pub proof fn law_user_comes_from_credentials(
    msg: ModelEventView,
    model: ModelView,
    orders: OrdersView,
)
    ensures
        step(msg, model, orders).model.user == match msg {
            ModelEventView::Logout => None,
            ModelEventView::Initialized(user) => user,
            ModelEventView::Login(LoginContainerEventView::LoginSuccess(user)) => Some(user),
            ModelEventView::Login(LoginContainerEventView::RegisterSuccess(user)) => Some(user),
            _ => model.user,
        },
{
}

} // verus!
