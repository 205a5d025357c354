//! The event loop: an event is processed together with every event that it
//! sends, before anything else happens.

use crate::client::api::CommandView;
use crate::client::containers::favorites::FavoritesEventView;
use crate::client::containers::login::LoginContainerEventView;
use crate::client::containers::search::SearchContainerEventView;
use crate::client::router::Route;
use crate::client::state::{
    Model, ModelEvent, ModelEventView, ModelView, Orders, OrdersView, Outcome, initial_model,
    step, update,
};
use vstd::prelude::*;

verus! {

/// The model of an application that has just started and waits for its
/// session to be restored.
pub open spec fn starting_model() -> ModelView {
    ModelView { is_initializing: true, ..initial_model() }
}

/// The model with which the application starts. Until the event
/// `Initialized` arrives, it ignores every change of route.
pub fn start() -> (model: Model)
    ensures
        model@ == starting_model(),
{
    let mut model = Model::default();
    model.is_initializing = true;
    model
}

/// A bound on the number of events that are processed when `msg` is: `msg`
/// itself and the events that follow from it.
pub open spec fn reach(msg: ModelEventView) -> nat {
    match msg {
        ModelEventView::Route(Route::Favorites) => 4,
        ModelEventView::Logout => 2,
        ModelEventView::Initialized(_) => 2,
        ModelEventView::Login(LoginContainerEventView::LoginSuccess(_)) => 2,
        ModelEventView::Login(LoginContainerEventView::RegisterSuccess(_)) => 2,
        ModelEventView::Login(LoginContainerEventView::LoginError(_)) => 3,
        ModelEventView::Login(LoginContainerEventView::RegisterError(_)) => 3,
        ModelEventView::Search(SearchContainerEventView::SubmitSearch) => 3,
        ModelEventView::Search(SearchContainerEventView::SearchError(_)) => 3,
        ModelEventView::Search(SearchContainerEventView::SaveGif(_)) => 3,
        ModelEventView::Search(SearchContainerEventView::SaveGifError(_, _)) => 3,
        ModelEventView::Favorites(FavoritesEventView::Fetch) => 3,
        ModelEventView::Favorites(FavoritesEventView::FetchError(_)) => 3,
        ModelEventView::Favorites(FavoritesEventView::CategorizeError(_, _)) => 3,
        _ => 1,
    }
}

/// What one event orders when nothing was ordered before it.
pub open spec fn alone(msg: ModelEventView, model: ModelView) -> Outcome {
    step(msg, model, OrdersView::empty())
}

/// An event sends one event at most, and that one reaches less far.
pub proof fn lemma_sends_one(msg: ModelEventView, model: ModelView)
    ensures
        alone(msg, model).orders.msgs.len() <= 1,
        alone(msg, model).orders.msgs.len() == 1 ==> reach(alone(msg, model).orders.msgs[0])
            < reach(msg),
{
}

/// The model after `msg` and every event that follows from it, with the
/// commands ordered on the way, in their order. It asks for a render if one
/// of the events did.
pub open spec fn settle(msg: ModelEventView, model: ModelView) -> Outcome
    decreases reach(msg),
    via settle_decreases
{
    let first = alone(msg, model);
    if first.orders.msgs.len() == 0 {
        first
    } else {
        let rest = settle(first.orders.msgs[0], first.model);
        Outcome {
            model: rest.model,
            orders: OrdersView {
                should_render: first.orders.should_render || rest.orders.should_render,
                msgs: Seq::empty(),
                cmds: first.orders.cmds + rest.orders.cmds,
            },
        }
    }
}

#[via_fn]
proof fn settle_decreases(msg: ModelEventView, model: ModelView) {
    lemma_sends_one(msg, model);
}

/// Processes `msg` and then, one after the other, every event that follows
/// from it. Returns the commands to perform, in the order in which they were
/// ordered, and whether to render.
pub fn dispatch(msg: ModelEvent, model: &mut Model) -> (orders: Orders)
    ensures
        final(model)@ == settle(msg@, old(model)@).model,
        orders@ == settle(msg@, old(model)@).orders,
{
    let mut done = Orders { should_render: false, msgs: Vec::new(), cmds: Vec::new() };
    let mut current = msg;
    assert(done.cmds.deep_view() =~= Seq::<CommandView>::empty());
    assert(done.msgs.deep_view() =~= Seq::<ModelEventView>::empty());
    loop
        invariant_except_break
            settle(msg@, old(model)@).model == settle(current@, model@).model,
            settle(msg@, old(model)@).orders.should_render == (done.should_render || settle(
                current@,
                model@,
            ).orders.should_render),
            settle(msg@, old(model)@).orders.cmds == done.cmds.deep_view() + settle(
                current@,
                model@,
            ).orders.cmds,
        invariant
            done.msgs@.len() == 0,
        ensures
            model@ == settle(msg@, old(model)@).model,
            done@ == settle(msg@, old(model)@).orders,
        decreases reach(current@),
    {
        let ghost before = model@;
        let ghost event = current@;
        let ghost so_far = done.cmds.deep_view();
        proof {
            lemma_sends_one(event, before);
        }
        let mut orders = Orders::new();
        update(current, model, &mut orders);
        done.should_render = done.should_render || orders.should_render;
        let ghost ordered = orders.cmds.deep_view();
        done.cmds.append(&mut orders.cmds);
        assert(done.cmds.deep_view() =~= so_far + ordered);
        match orders.msgs.pop() {
            Some(next) => {
                assert(next@ == alone(event, before).orders.msgs[0]);
                current = next;
                assert(so_far + ordered + settle(current@, model@).orders.cmds =~= so_far + (ordered
                    + settle(current@, model@).orders.cmds));
            },
            None => {
                assert(done.msgs.deep_view() =~= Seq::<ModelEventView>::empty());
                assert(so_far + ordered =~= done.cmds.deep_view());
                break ;
            },
        }
    }
    done
}

} // verus!
