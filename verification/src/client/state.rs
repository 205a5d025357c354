//! The root model, the events that change it, and the root reducer.

use crate::client::api::{Command, CommandView};
use crate::client::containers::favorites::{
    Favorites, FavoritesEvent, FavoritesEventView, FavoritesView, favorites_step,
    pristine_favorites,
};
use crate::client::containers::login::{
    LoginContainer, LoginContainerEvent, LoginContainerEventView, LoginContainerView, login_step,
    pristine_login,
};
use crate::client::containers::search::{
    SearchContainer, SearchContainerEvent, SearchContainerEventView, SearchView, pristine_search,
    search_step,
};
use crate::client::router::Route;
use crate::client::ui::{UIState, UIStateEvent, ui_step};
use crate::common::records::{User, UserView};
use vstd::prelude::*;

verus! {

/// The root data model of this application.
#[derive(Debug)]
pub struct Model {
    pub is_initializing: bool,
    pub route: Route,
    pub ui: UIState,
    pub user: Option<User>,
    pub login: LoginContainer,
    pub search: SearchContainer,
    pub favorites: Favorites,
}

/// What a [`Model`] holds.
pub struct ModelView {
    pub is_initializing: bool,
    pub route: Route,
    pub ui: UIState,
    pub user: Option<UserView>,
    pub login: LoginContainerView,
    pub search: SearchView,
    pub favorites: FavoritesView,
}

impl View for Model {
    type V = ModelView;

    open spec fn view(&self) -> ModelView {
        ModelView {
            is_initializing: self.is_initializing,
            route: self.route,
            ui: self.ui,
            user: self.user.deep_view(),
            login: self.login@,
            search: self.search@,
            favorites: self.favorites@,
        }
    }
}

/// The model of an application that has not begun to restore its session.
pub open spec fn initial_model() -> ModelView {
    ModelView {
        is_initializing: false,
        route: Route::Init,
        ui: UIState { is_navbar_burger_active: false },
        user: None,
        login: pristine_login(),
        search: pristine_search(),
        favorites: pristine_favorites(),
    }
}

/// The model once everything but its route is back in its first state.
pub open spec fn pristine_model(model: ModelView) -> ModelView {
    ModelView { route: model.route, ..initial_model() }
}

impl Clone for Model {
    fn clone(&self) -> (model: Self)
        ensures
            model@ == self@,
    {
        Model {
            is_initializing: self.is_initializing,
            route: self.route,
            ui: self.ui,
            user: match &self.user {
                Some(user) => Some(user.clone()),
                None => None,
            },
            login: self.login.clone(),
            search: self.search.clone(),
            favorites: self.favorites.clone(),
        }
    }
}

impl Default for Model {
    fn default() -> (model: Self)
        ensures
            model@ == initial_model(),
    {
        Model {
            is_initializing: false,
            route: Route::default(),
            ui: UIState::default(),
            user: None,
            login: LoginContainer::default(),
            search: SearchContainer::default(),
            favorites: Favorites::default(),
        }
    }
}

impl Model {
    /// Revert the model back to a pristine state: no user, and every
    /// container as it was at the start. The route stays.
    pub fn pristine(&mut self)
        ensures
            final(self)@ == pristine_model(old(self)@),
    {
        self.is_initializing = false;
        self.ui.pristine();
        self.user = None;
        self.login.pristine();
        self.search.pristine();
        self.favorites.pristine();
    }
}

/// The different types of events which may influence the application's state.
#[derive(Debug)]
pub enum ModelEvent {
    Noop,
    Logout,
    Route(Route),
    Login(LoginContainerEvent),
    Search(SearchContainerEvent),
    Favorites(FavoritesEvent),
    Initialized(Option<User>),
    UI(UIStateEvent),
}

/// What a [`ModelEvent`] holds.
pub enum ModelEventView {
    Noop,
    Logout,
    Route(Route),
    Login(LoginContainerEventView),
    Search(SearchContainerEventView),
    Favorites(FavoritesEventView),
    Initialized(Option<UserView>),
    UI(UIStateEvent),
}

impl View for ModelEvent {
    type V = ModelEventView;

    open spec fn view(&self) -> ModelEventView {
        match self {
            ModelEvent::Noop => ModelEventView::Noop,
            ModelEvent::Logout => ModelEventView::Logout,
            ModelEvent::Route(route) => ModelEventView::Route(*route),
            ModelEvent::Login(event) => ModelEventView::Login(event@),
            ModelEvent::Search(event) => ModelEventView::Search(event@),
            ModelEvent::Favorites(event) => ModelEventView::Favorites(event@),
            ModelEvent::Initialized(user) => ModelEventView::Initialized(user.deep_view()),
            ModelEvent::UI(event) => ModelEventView::UI(*event),
        }
    }
}

impl DeepView for ModelEvent {
    type V = ModelEventView;

    open spec fn deep_view(&self) -> ModelEventView {
        self@
    }
}

impl Clone for ModelEvent {
    fn clone(&self) -> (e: Self)
        ensures
            e@ == self@,
    {
        match self {
            ModelEvent::Noop => ModelEvent::Noop,
            ModelEvent::Logout => ModelEvent::Logout,
            ModelEvent::Route(route) => ModelEvent::Route(*route),
            ModelEvent::Login(event) => ModelEvent::Login(event.clone()),
            ModelEvent::Search(event) => ModelEvent::Search(event.clone()),
            ModelEvent::Favorites(event) => ModelEvent::Favorites(event.clone()),
            ModelEvent::Initialized(user) => ModelEvent::Initialized(
                match user {
                    Some(u) => Some(u.clone()),
                    None => None,
                },
            ),
            ModelEvent::UI(event) => ModelEvent::UI(*event),
        }
    }
}

/// What a reducer hands to the runtime: whether to render, the events to
/// process next, and the commands to perform.
#[derive(Debug)]
pub struct Orders {
    pub should_render: bool,
    pub msgs: Vec<ModelEvent>,
    pub cmds: Vec<Command>,
}

/// What an [`Orders`] holds.
pub struct OrdersView {
    pub should_render: bool,
    pub msgs: Seq<ModelEventView>,
    pub cmds: Seq<CommandView>,
}

impl OrdersView {
    /// Orders that ask for nothing but a render.
    pub open spec fn empty() -> OrdersView {
        OrdersView { should_render: true, msgs: Seq::empty(), cmds: Seq::empty() }
    }

    /// The same orders without a render.
    pub open spec fn skip(self) -> OrdersView {
        OrdersView { should_render: false, ..self }
    }

    /// The same orders with `msg` as the last event to process.
    pub open spec fn send_msg(self, msg: ModelEventView) -> OrdersView {
        OrdersView { msgs: self.msgs.push(msg), ..self }
    }

    /// The same orders with `cmd` as the last command to perform.
    pub open spec fn perform_cmd(self, cmd: CommandView) -> OrdersView {
        OrdersView { cmds: self.cmds.push(cmd), ..self }
    }
}

impl View for Orders {
    type V = OrdersView;

    open spec fn view(&self) -> OrdersView {
        OrdersView {
            should_render: self.should_render,
            msgs: self.msgs.deep_view(),
            cmds: self.cmds.deep_view(),
        }
    }
}

impl Orders {
    /// Orders that ask for nothing but a render.
    pub fn new() -> (orders: Self)
        ensures
            orders@ == OrdersView::empty(),
    {
        let orders = Orders { should_render: true, msgs: Vec::new(), cmds: Vec::new() };
        assert(orders.msgs.deep_view() =~= Seq::<ModelEventView>::empty());
        assert(orders.cmds.deep_view() =~= Seq::<CommandView>::empty());
        orders
    }

    /// Asks the runtime not to render after this event.
    pub fn skip(&mut self)
        ensures
            final(self)@ == old(self)@.skip(),
    {
        self.should_render = false;
    }

    /// Asks the runtime to process `msg` after the events already sent.
    pub fn send_msg(&mut self, msg: ModelEvent)
        ensures
            final(self)@ == old(self)@.send_msg(msg@),
    {
        self.msgs.push(msg);
        assert(self.msgs.deep_view() =~= old(self).msgs.deep_view().push(msg@));
    }

    /// Asks the runtime to perform `cmd` after the commands already ordered.
    pub fn perform_cmd(&mut self, cmd: Command)
        ensures
            final(self)@ == old(self)@.perform_cmd(cmd@),
    {
        self.cmds.push(cmd);
        assert(self.cmds.deep_view() =~= old(self).cmds.deep_view().push(cmd@));
    }
}

/// A model together with the orders that led to it.
pub struct Outcome {
    pub model: ModelView,
    pub orders: OrdersView,
}

/// What a change of route makes of the model, and what it orders. While the
/// session is being restored the change is ignored altogether.
pub open spec fn route_step(route: Route, model: ModelView, orders: OrdersView) -> Outcome {
    if model.is_initializing {
        Outcome { model, orders: orders.skip() }
    } else {
        let pushed = orders.perform_cmd(CommandView::PushRoute(route));
        Outcome {
            model: ModelView {
                ui: UIState { is_navbar_burger_active: false },
                route,
                ..model
            },
            orders: if route == Route::Favorites {
                pushed.send_msg(ModelEventView::Favorites(FavoritesEventView::Fetch))
            } else {
                pushed
            },
        }
    }
}

/// What an event makes of the model, and what it orders.
pub open spec fn step(msg: ModelEventView, model: ModelView, orders: OrdersView) -> Outcome {
    match msg {
        ModelEventView::Noop => Outcome { model, orders: orders.skip() },
        ModelEventView::Logout => Outcome {
            model: pristine_model(model),
            orders: orders.perform_cmd(CommandView::ForgetUser).send_msg(
                ModelEventView::Route(Route::Login),
            ),
        },
        ModelEventView::Route(route) => route_step(route, model, orders),
        ModelEventView::Login(event) => login_step(event, model, orders),
        ModelEventView::Search(event) => search_step(event, model, orders),
        ModelEventView::Favorites(event) => favorites_step(event, model, orders),
        ModelEventView::Initialized(user) => Outcome {
            model: ModelView { is_initializing: false, user, ..model },
            orders: orders.send_msg(
                ModelEventView::Route(
                    if user is Some {
                        Route::Search
                    } else {
                        Route::Login
                    },
                ),
            ),
        },
        ModelEventView::UI(event) => ui_step(event, model, orders),
    }
}

/// The application's state update handler.
pub fn update(msg: ModelEvent, model: &mut Model, orders: &mut Orders)
    ensures
        final(model)@ == step(msg@, old(model)@, old(orders)@).model,
        final(orders)@ == step(msg@, old(model)@, old(orders)@).orders,
{
    match msg {
        ModelEvent::Noop => {
            orders.skip();
        },
        ModelEvent::Logout => {
            model.pristine();
            orders.perform_cmd(Command::ForgetUser);
            orders.send_msg(ModelEvent::Route(Route::Login));
        },
        ModelEvent::Route(route) => {
            if model.is_initializing {
                orders.skip();
                return ;
            }
            model.ui.is_navbar_burger_active = false;
            orders.perform_cmd(Command::PushRoute(route));
            model.route = route;
            if let Some(event) = route.post_routing() {
                orders.send_msg(event);
            }
        },
        ModelEvent::Login(event) => LoginContainerEvent::reducer(event, model, orders),
        ModelEvent::Search(event) => SearchContainerEvent::reducer(event, model, orders),
        ModelEvent::Favorites(event) => FavoritesEvent::reducer(event, model, orders),
        ModelEvent::Initialized(user_opt) => {
            let has_session = user_opt.is_some();
            model.is_initializing = false;
            model.user = user_opt;
            if has_session {
                orders.send_msg(ModelEvent::Route(Route::Search));
            } else {
                orders.send_msg(ModelEvent::Route(Route::Login));
            }
        },
        ModelEvent::UI(event) => UIStateEvent::reducer(event, model, orders),
    }
}

} // verus!
