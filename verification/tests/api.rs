use giphy_app::client::api::{
    api_post, categorize, favorites, login, register, save_gif, search, Command, AUTHZ, METHOD,
};
use giphy_app::client::components::gifcard::gifcard;
use giphy_app::client::containers::favorites::FavoritesEvent;
use giphy_app::client::containers::login::LoginContainerEvent;
use giphy_app::client::containers::search::SearchContainerEvent;
use giphy_app::client::router::Route;
use giphy_app::client::state::ModelEvent;
use giphy_app::collections::text_map::TextMap;
use giphy_app::common::{
    CategorizeGifRequest, CategorizeGifResponse, Error, FetchFavoritesRequest,
    FetchFavoritesResponse, GiphyGif, LoginRequest, LoginResponse, RegisterRequest,
    RegisterResponse, Response, SaveGifRequest, SaveGifResponse, SearchGiphyRequest,
    SearchGiphyResponse, User,
};

fn user() -> User {
    User { id: 9, email: "n@m.io".to_string(), jwt: "jwt-9".to_string() }
}

fn gif(id: &str) -> GiphyGif {
    GiphyGif {
        id: id.to_string(),
        title: "a title".to_string(),
        url: "https://media.example/x.gif".to_string(),
        is_saved: true,
        category: Some("cats".to_string()),
    }
}

fn bad_request() -> Error {
    Error::new("Bad request.", 400, None)
}

#[test]
fn error_constructors_set_description_and_status() {
    let mut fields = TextMap::new();
    fields.insert("email".to_string(), "bad".to_string());
    let err = Error::new("Invalid input.", 400, Some(fields));
    assert_eq!(err.description, "Invalid input.");
    assert_eq!(err.status, 400);
    assert_eq!(err.fields.get("email"), Some(&"bad".to_string()));
    let err = Error::new("plain", 418, None);
    assert_eq!(err.description, "plain");
    assert_eq!(err.status, 418);
    assert!(err.fields.is_empty());
    let err = Error::new_ise();
    assert_eq!((err.description.as_str(), err.status), ("Internal server error.", 500));
    assert!(err.fields.is_empty());
    let err = Error::new_invalid_credentials();
    assert_eq!((err.description.as_str(), err.status), ("Invalid credentials provided.", 401));
    let err = Error::new_token_expired();
    assert_eq!((err.description.as_str(), err.status), ("Unauthorized. Token is expired.", 401));
    let err = Error::new_invalid_token();
    assert_eq!(
        (err.description.as_str(), err.status),
        ("Unauthorized. Invalid token provided.", 401)
    );
    let err = Error::new_deser_err("expected value at line 1 column 1");
    assert_eq!(
        err.description,
        "Malformed body in request. expected value at line 1 column 1"
    );
    assert_eq!(err.status, 400);
    assert!(err.fields.is_empty());
    let copy = Error::new("c", 1, None).clone();
    assert_eq!((copy.description.as_str(), copy.status), ("c", 1));
}

#[test]
fn api_post_branches_on_the_tag_of_the_envelope() {
    let data: Result<u32, Error> = api_post(Some(Response::Data(5)));
    assert_eq!(data.ok(), Some(5));
    let failed: Result<u32, Error> = api_post(Some(Response::Error(bad_request())));
    let err = failed.err().expect("an error envelope is an error");
    assert_eq!((err.description.as_str(), err.status), ("Bad request.", 400));
    let unread: Result<u32, Error> = api_post(None);
    let err = unread.err().expect("no answer is an error");
    assert_eq!((err.description.as_str(), err.status), ("Internal error.", 500));
    assert!(err.fields.is_empty());
}

#[test]
fn login_call_settles_in_a_login_event() {
    match login(Some(Response::Data(LoginResponse(user())))) {
        ModelEvent::Login(LoginContainerEvent::LoginSuccess(res)) => assert_eq!(res.0, user()),
        other => panic!("unexpected event {:?}", other),
    }
    match login(Some(Response::Error(bad_request()))) {
        ModelEvent::Login(LoginContainerEvent::LoginError(err)) => assert_eq!(err.status, 400),
        other => panic!("unexpected event {:?}", other),
    }
    match login(None) {
        ModelEvent::Login(LoginContainerEvent::LoginError(err)) => {
            assert_eq!((err.description.as_str(), err.status), ("Internal error.", 500))
        }
        other => panic!("unexpected event {:?}", other),
    }
}

#[test]
fn register_call_settles_in_a_register_event() {
    match register(Some(Response::Data(RegisterResponse(user())))) {
        ModelEvent::Login(LoginContainerEvent::RegisterSuccess(res)) => assert_eq!(res.0, user()),
        other => panic!("unexpected event {:?}", other),
    }
    match register(None) {
        ModelEvent::Login(LoginContainerEvent::RegisterError(err)) => assert_eq!(err.status, 500),
        other => panic!("unexpected event {:?}", other),
    }
}

#[test]
fn search_call_settles_in_a_search_event() {
    match search(Some(Response::Data(SearchGiphyResponse { gifs: vec![gif("a")] }))) {
        ModelEvent::Search(SearchContainerEvent::SearchSuccess(res)) => {
            assert_eq!(res.gifs, vec![gif("a")])
        }
        other => panic!("unexpected event {:?}", other),
    }
    match search(Some(Response::Error(bad_request()))) {
        ModelEvent::Search(SearchContainerEvent::SearchError(err)) => {
            assert_eq!(err.description, "Bad request.")
        }
        other => panic!("unexpected event {:?}", other),
    }
}

#[test]
fn save_call_settles_in_a_save_event_that_names_the_gif() {
    let req = SaveGifRequest { id: "g42".to_string() };
    match save_gif(&req, Some(Response::Data(SaveGifResponse { gif: gif("g42") }))) {
        ModelEvent::Search(SearchContainerEvent::SaveGifSuccess(res)) => {
            assert_eq!(res.gif, gif("g42"))
        }
        other => panic!("unexpected event {:?}", other),
    }
    match save_gif(&req, Some(Response::Error(Error::new("Unauthorized.", 401, None)))) {
        ModelEvent::Search(SearchContainerEvent::SaveGifError((id, err))) => {
            assert_eq!(id, "g42");
            assert_eq!(err.status, 401);
        }
        other => panic!("unexpected event {:?}", other),
    }
    match save_gif(&req, None) {
        ModelEvent::Search(SearchContainerEvent::SaveGifError((id, err))) => {
            assert_eq!(id, "g42");
            assert_eq!(err.status, 500);
        }
        other => panic!("unexpected event {:?}", other),
    }
}

#[test]
fn favorites_call_settles_in_a_fetch_event() {
    match favorites(Some(Response::Data(FetchFavoritesResponse { gifs: vec![gif("a"), gif("b")] })))
    {
        ModelEvent::Favorites(FavoritesEvent::FetchSuccess(res)) => assert_eq!(res.gifs.len(), 2),
        other => panic!("unexpected event {:?}", other),
    }
    match favorites(None) {
        ModelEvent::Favorites(FavoritesEvent::FetchError(err)) => assert_eq!(err.status, 500),
        other => panic!("unexpected event {:?}", other),
    }
}

#[test]
fn categorize_call_settles_in_a_categorize_event_that_names_the_gif() {
    let req = CategorizeGifRequest { id: "gif1".to_string(), category: "cats".to_string() };
    match categorize(&req, Some(Response::Data(CategorizeGifResponse { gif: gif("gif1") }))) {
        ModelEvent::Favorites(FavoritesEvent::CategorizeSuccess(res)) => {
            assert_eq!(res.gif, gif("gif1"))
        }
        other => panic!("unexpected event {:?}", other),
    }
    match categorize(&req, Some(Response::Error(bad_request()))) {
        ModelEvent::Favorites(FavoritesEvent::CategorizeError(id, err)) => {
            assert_eq!(id, "gif1");
            assert_eq!(err.status, 400);
        }
        other => panic!("unexpected event {:?}", other),
    }
}

#[test]
fn commands_name_their_path_and_their_authorization() {
    assert_eq!(AUTHZ, "authorization");
    let jwt = || "abc.def".to_string();
    let login = Command::Login(LoginRequest { email: "e".to_string(), password: "p".to_string() });
    let register =
        Command::Register(RegisterRequest { email: "e".to_string(), password: "p".to_string() });
    let search = Command::Search(SearchGiphyRequest { query: "q".to_string() }, jwt());
    let save = Command::SaveGif(SaveGifRequest { id: "g".to_string() }, jwt());
    let fetch = Command::Favorites(FetchFavoritesRequest, jwt());
    let categorize = Command::Categorize(
        CategorizeGifRequest { id: "g".to_string(), category: "c".to_string() },
        jwt(),
    );
    assert_eq!(login.path(), Some("/login"));
    assert_eq!(register.path(), Some("/register"));
    assert_eq!(search.path(), Some("/search_giphy"));
    assert_eq!(save.path(), Some("/save_gif"));
    assert_eq!(fetch.path(), Some("/favorites"));
    assert_eq!(categorize.path(), Some("/categorize"));
    assert_eq!(login.authorization(), None);
    assert_eq!(register.authorization(), None);
    for cmd in [&search, &save, &fetch, &categorize] {
        assert_eq!(cmd.authorization(), Some("bearer abc.def".to_string()));
    }
    for cmd in [Command::StoreUser(user()), Command::ForgetUser, Command::PushRoute(Route::Init)] {
        assert_eq!(cmd.path(), None);
        assert_eq!(cmd.authorization(), None);
    }
    assert_eq!(METHOD, "POST");
    assert_eq!(Command::StoreUser(user()).storage_key(), Some("user"));
    assert_eq!(Command::ForgetUser.storage_key(), Some("user"));
    assert_eq!(Command::PushRoute(Route::Init).storage_key(), None);
    assert_eq!(search.storage_key(), None);
}

#[test]
fn gifcard_prefers_the_pending_edit() {
    let saved = gif("a");
    let edit = "kittens".to_string();
    let card = gifcard(&saved, Some(&edit), ModelEvent::Noop);
    assert_eq!(card.category_val, "kittens");
    assert!(!card.is_category_disabled);
    assert!(card.is_saved);
    let card = gifcard(&saved, None, ModelEvent::Noop);
    assert_eq!(card.category_val, "cats");
    let mut fresh = gif("b");
    fresh.is_saved = false;
    fresh.category = None;
    let card = gifcard(&fresh, None, ModelEvent::Noop);
    assert_eq!(card.category_val, "");
    assert!(card.is_category_disabled);
    assert!(!card.is_saved);
    assert_eq!(card.id, "b");
    assert!(matches!(
        &card.on_categorize,
        ModelEvent::Favorites(FavoritesEvent::Categorize(id)) if id == "b"
    ));
}
