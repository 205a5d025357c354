use giphy_app::client::api::Command;
use giphy_app::client::components::navbar::navbar;
use giphy_app::client::containers::app::{app, Page};
use giphy_app::client::containers::favorites::FavoritesEvent;
use giphy_app::client::containers::login::LoginContainerEvent;
use giphy_app::client::containers::search::SearchContainerEvent;
use giphy_app::client::router::{router, Route};
use giphy_app::client::runtime::{dispatch, start};
use giphy_app::client::state::{update, Model, ModelEvent, Orders};
use giphy_app::client::ui::{UIState, UIStateEvent};
use giphy_app::client::utils::{
    get_session_item, get_session_storage, handle_common_errors, set_session_item, SESSION_KEY,
};
use giphy_app::common::{Error, GiphyGif, LoginResponse, User};

fn send(model: &mut Model, event: ModelEvent) -> Orders {
    let mut orders = Orders::new();
    update(event, model, &mut orders);
    orders
}

fn user() -> User {
    User { id: 3, email: "u@x.org".to_string(), jwt: "jwt-3".to_string() }
}

fn gif(id: &str) -> GiphyGif {
    GiphyGif {
        id: id.to_string(),
        title: "t".to_string(),
        url: "u".to_string(),
        is_saved: false,
        category: None,
    }
}

#[test]
fn default_model_is_empty() {
    let model = Model::default();
    assert!(!model.is_initializing);
    assert_eq!(model.route, Route::Init);
    assert_eq!(model.ui, UIState { is_navbar_burger_active: false });
    assert_eq!(model.user, None);
    assert_eq!(model.login.email, "");
    assert!(model.search.search_results.is_empty());
    assert!(model.favorites.favorites.is_empty());
    assert_eq!(Route::default(), Route::Init);
    assert_eq!(UIState::default(), UIState { is_navbar_burger_active: false });
}

#[test]
fn start_waits_for_the_session() {
    let model = start();
    assert!(model.is_initializing);
    assert_eq!(model.route, Route::Init);
    assert_eq!(model.user, None);
}

#[test]
fn noop_skips_the_render() {
    let mut model = Model::default();
    let orders = send(&mut model, ModelEvent::Noop);
    assert!(!orders.should_render);
    assert!(orders.cmds.is_empty());
    assert!(orders.msgs.is_empty());
}

#[test]
fn route_is_ignored_while_initializing() {
    for route in [Route::Init, Route::Login, Route::Search, Route::Favorites] {
        let mut model = start();
        model.ui.is_navbar_burger_active = true;
        let orders = send(&mut model, ModelEvent::Route(route));
        assert_eq!(model.route, Route::Init);
        assert!(model.ui.is_navbar_burger_active);
        assert!(orders.cmds.is_empty());
        assert!(orders.msgs.is_empty());
        assert!(!orders.should_render);
        let orders = dispatch(ModelEvent::Route(route), &mut model);
        assert_eq!(model.route, Route::Init);
        assert!(orders.cmds.is_empty());
    }
}

#[test]
fn route_pushes_the_path_and_closes_the_menu() {
    let mut model = Model::default();
    model.ui.is_navbar_burger_active = true;
    let orders = send(&mut model, ModelEvent::Route(Route::Search));
    assert_eq!(model.route, Route::Search);
    assert!(!model.ui.is_navbar_burger_active);
    assert_eq!(orders.cmds.len(), 1);
    assert!(matches!(orders.cmds[0], Command::PushRoute(Route::Search)));
    assert!(orders.msgs.is_empty());
}

#[test]
fn route_to_favorites_fetches_them() {
    let mut model = Model::default();
    model.user = Some(user());
    let orders = send(&mut model, ModelEvent::Route(Route::Favorites));
    assert_eq!(model.route, Route::Favorites);
    assert!(matches!(orders.cmds[0], Command::PushRoute(Route::Favorites)));
    assert_eq!(orders.msgs.len(), 1);
    assert!(matches!(orders.msgs[0], ModelEvent::Favorites(FavoritesEvent::Fetch)));
    let mut model = Model::default();
    model.user = Some(user());
    let orders = dispatch(ModelEvent::Route(Route::Favorites), &mut model);
    assert!(model.favorites.is_fetching_favorites);
    assert_eq!(orders.cmds.len(), 2);
    assert!(matches!(orders.cmds[0], Command::PushRoute(Route::Favorites)));
    assert!(matches!(&orders.cmds[1], Command::Favorites(_, jwt) if jwt == "jwt-3"));
    assert!(orders.should_render);
}

#[test]
fn route_to_favorites_without_user_ends_at_login() {
    let mut model = Model::default();
    let orders = dispatch(ModelEvent::Route(Route::Favorites), &mut model);
    assert_eq!(model.route, Route::Login);
    assert_eq!(model.user, None);
    assert_eq!(orders.cmds.len(), 3);
    assert!(matches!(orders.cmds[0], Command::PushRoute(Route::Favorites)));
    assert!(matches!(orders.cmds[1], Command::ForgetUser));
    assert!(matches!(orders.cmds[2], Command::PushRoute(Route::Login)));
}

#[test]
fn logout_resets_the_model_and_routes_to_login() {
    let mut model = Model::default();
    model.user = Some(user());
    model.route = Route::Search;
    model.ui.is_navbar_burger_active = true;
    model.search.search_results.insert(gif("a"));
    model.favorites.favorites.insert(gif("b"));
    send(&mut model, ModelEvent::Login(LoginContainerEvent::UpdateEmailField("x".to_string())));
    send(&mut model, ModelEvent::Search(SearchContainerEvent::UpdateSearchField("q".to_string())));
    let mut one_step = model.clone();
    let orders = send(&mut one_step, ModelEvent::Logout);
    assert_eq!(one_step.user, None);
    assert_eq!(one_step.route, Route::Search);
    assert_eq!(orders.cmds.len(), 1);
    assert!(matches!(orders.cmds[0], Command::ForgetUser));
    assert_eq!(orders.msgs.len(), 1);
    assert!(matches!(orders.msgs[0], ModelEvent::Route(Route::Login)));
    let orders = dispatch(ModelEvent::Logout, &mut model);
    assert_eq!(model.user, None);
    assert_eq!(model.route, Route::Login);
    assert!(!model.is_initializing);
    assert!(!model.ui.is_navbar_burger_active);
    assert_eq!(model.login.email, "");
    assert_eq!(model.login.email_error, None);
    assert_eq!(model.search.search, "");
    assert!(model.search.search_results.is_empty());
    assert!(model.favorites.favorites.is_empty());
    assert_eq!(orders.cmds.len(), 2);
    assert!(matches!(orders.cmds[0], Command::ForgetUser));
    assert!(matches!(orders.cmds[1], Command::PushRoute(Route::Login)));
    assert!(orders.msgs.is_empty());
}

#[test]
fn initialized_with_a_user_goes_to_search() {
    let mut model = start();
    let orders = send(&mut model, ModelEvent::Initialized(Some(user())));
    assert!(!model.is_initializing);
    assert_eq!(model.user, Some(user()));
    assert_eq!(orders.msgs.len(), 1);
    assert!(matches!(orders.msgs[0], ModelEvent::Route(Route::Search)));
    let mut model = start();
    let orders = dispatch(ModelEvent::Initialized(Some(user())), &mut model);
    assert_eq!(model.route, Route::Search);
    assert_eq!(orders.cmds.len(), 1);
    assert!(matches!(orders.cmds[0], Command::PushRoute(Route::Search)));
}

#[test]
fn initialized_without_a_user_goes_to_login() {
    let mut model = start();
    let orders = send(&mut model, ModelEvent::Initialized(None));
    assert!(!model.is_initializing);
    assert_eq!(model.user, None);
    assert!(matches!(orders.msgs[0], ModelEvent::Route(Route::Login)));
    let mut model = start();
    dispatch(ModelEvent::Initialized(None), &mut model);
    assert_eq!(model.route, Route::Login);
}

#[test]
fn login_success_settles_on_the_search_page() {
    let mut model = Model::default();
    model.route = Route::Login;
    let event = ModelEvent::Login(LoginContainerEvent::LoginSuccess(LoginResponse(user())));
    let orders = dispatch(event, &mut model);
    assert_eq!(model.user, Some(user()));
    assert_eq!(model.route, Route::Search);
    assert_eq!(orders.cmds.len(), 2);
    assert!(matches!(&orders.cmds[0], Command::StoreUser(u) if u == &user()));
    assert!(matches!(orders.cmds[1], Command::PushRoute(Route::Search)));
}

#[test]
fn ui_event_toggles_the_menu() {
    let mut model = Model::default();
    let orders = send(&mut model, ModelEvent::UI(UIStateEvent::ToggleNavbar));
    assert!(model.ui.is_navbar_burger_active);
    assert!(orders.cmds.is_empty());
    assert!(orders.should_render);
    send(&mut model, ModelEvent::UI(UIStateEvent::ToggleNavbar));
    assert!(!model.ui.is_navbar_burger_active);
    model.ui.is_navbar_burger_active = true;
    model.ui.pristine();
    assert!(!model.ui.is_navbar_burger_active);
}

#[test]
fn pristine_keeps_the_route() {
    let mut model = start();
    model.route = Route::Favorites;
    model.user = Some(user());
    model.pristine();
    assert_eq!(model.route, Route::Favorites);
    assert_eq!(model.user, None);
    assert!(!model.is_initializing);
}

#[test]
fn orders_collect_in_order() {
    let mut orders = Orders::new();
    assert!(orders.should_render);
    orders.perform_cmd(Command::ForgetUser);
    orders.perform_cmd(Command::PushRoute(Route::Login));
    orders.send_msg(ModelEvent::Noop);
    orders.send_msg(ModelEvent::Logout);
    orders.skip();
    assert!(!orders.should_render);
    assert!(matches!(orders.cmds[0], Command::ForgetUser));
    assert!(matches!(orders.cmds[1], Command::PushRoute(Route::Login)));
    assert!(matches!(orders.msgs[0], ModelEvent::Noop));
    assert!(matches!(orders.msgs[1], ModelEvent::Logout));
}

#[test]
fn events_can_be_cloned() {
    let event = ModelEvent::Search(SearchContainerEvent::SaveGifError((
        "g".to_string(),
        Error::new("e", 400, None),
    )));
    match event.clone() {
        ModelEvent::Search(SearchContainerEvent::SaveGifError((id, err))) => {
            assert_eq!(id, "g");
            assert_eq!(err.description, "e");
            assert_eq!(err.status, 400);
        }
        other => panic!("unexpected event {:?}", other),
    }
    let cmd = Command::StoreUser(user());
    assert!(matches!(cmd.clone(), Command::StoreUser(u) if u == user()));
}

#[test]
fn common_errors_log_out_on_401_only() {
    assert!(matches!(
        handle_common_errors(&Error::new("x", 401, None)),
        Some(ModelEvent::Logout)
    ));
    assert!(handle_common_errors(&Error::new("x", 400, None)).is_none());
    assert!(handle_common_errors(&Error::new("x", 500, None)).is_none());
    assert!(handle_common_errors(&Error::new("x", 403, None)).is_none());
}

#[test]
fn session_storage_answers_are_reported() {
    assert_eq!(SESSION_KEY, "user");
    assert_eq!(get_session_item(Ok(Some("{}".to_string()))), Ok("{}".to_string()));
    assert_eq!(get_session_item(Ok(None)), Err("Key not found in storage.".to_string()));
    assert_eq!(get_session_item(Err(Some("denied".to_string()))), Err("denied".to_string()));
    assert_eq!(
        get_session_item(Err(None)),
        Err("Failed to set session storage key.".to_string())
    );
    assert_eq!(set_session_item(Ok(())), Ok(()));
    assert_eq!(set_session_item(Err(Some("full".to_string()))), Err("full".to_string()));
    assert_eq!(set_session_item(Err(None)), Err("Failed to set session storage key.".to_string()));
    assert_eq!(get_session_storage(Ok(true)), Ok(()));
    assert_eq!(
        get_session_storage(Ok(false)),
        Err("Could not access session storage.".to_string())
    );
    assert_eq!(get_session_storage(Err(Some("no".to_string()))), Err("no".to_string()));
    assert_eq!(
        get_session_storage(Err(None)),
        Err("Could not access session storage.".to_string())
    );
}

fn path(segments: &[&str]) -> Vec<String> {
    segments.iter().map(|s| s.to_string()).collect()
}

fn routed(segments: &[&str]) -> Route {
    match router(&path(segments)) {
        Some(ModelEvent::Route(route)) => route,
        other => panic!("unexpected event {:?}", other),
    }
}

#[test]
fn router_maps_paths_to_routes() {
    assert_eq!(routed(&["ui"]), Route::Init);
    assert_eq!(routed(&["ui", "login"]), Route::Login);
    assert_eq!(routed(&["ui", "search"]), Route::Search);
    assert_eq!(routed(&["ui", "favorites"]), Route::Favorites);
    assert_eq!(routed(&["ui", "anything"]), Route::Search);
    assert_eq!(routed(&["ui", "Login"]), Route::Search);
    assert_eq!(routed(&["ui", "login", "more"]), Route::Login);
    assert_eq!(routed(&[]), Route::Init);
    assert_eq!(routed(&["api"]), Route::Init);
    assert_eq!(routed(&["login"]), Route::Init);
    assert_eq!(routed(&["", "ui"]), Route::Init);
}

#[test]
fn push_gives_the_canonical_path() {
    assert_eq!(Route::Init.push(), vec!["ui"]);
    assert_eq!(Route::Login.push(), vec!["ui", "login"]);
    assert_eq!(Route::Search.push(), vec!["ui", "search"]);
    assert_eq!(Route::Favorites.push(), vec!["ui", "favorites"]);
    for route in [Route::Init, Route::Login, Route::Search, Route::Favorites] {
        assert_eq!(routed(&route.push()), route);
    }
}

#[test]
fn post_routing_fetches_on_favorites_only() {
    assert!(matches!(
        Route::Favorites.post_routing(),
        Some(ModelEvent::Favorites(FavoritesEvent::Fetch))
    ));
    assert!(Route::Init.post_routing().is_none());
    assert!(Route::Login.post_routing().is_none());
    assert!(Route::Search.post_routing().is_none());
}

#[test]
fn app_shows_the_page_of_the_route() {
    let mut model = Model::default();
    let shown = app(&model);
    assert!(shown.nav.is_none());
    assert!(matches!(shown.page, Page::Blank));
    model.route = Route::Login;
    let shown = app(&model);
    assert!(shown.nav.is_none());
    assert!(matches!(shown.page, Page::Login(_)));
    model.route = Route::Search;
    model.ui.is_navbar_burger_active = true;
    let shown = app(&model);
    let nav = shown.nav.expect("the search page has a navigation bar");
    assert!(nav.is_burger_active);
    assert!(nav.is_search_disabled);
    assert!(!nav.is_favorites_disabled);
    assert!(matches!(shown.page, Page::Search(_)));
    model.route = Route::Favorites;
    let shown = app(&model);
    assert_eq!(shown.nav, Some(navbar(&model)));
    assert!(shown.nav.unwrap().is_favorites_disabled);
    assert!(!shown.nav.unwrap().is_search_disabled);
    assert!(matches!(shown.page, Page::Favorites(_)));
}
