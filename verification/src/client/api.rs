//! The calls to the backend and the other effects that the reducers order,
//! and the events in which the answers come back.

use crate::client::containers::favorites::{FavoritesEvent, FavoritesEventView};
use crate::client::containers::login::{LoginContainerEvent, LoginContainerEventView};
use crate::client::containers::search::{SearchContainerEvent, SearchContainerEventView};
use crate::client::router::Route;
use crate::client::state::{ModelEvent, ModelEventView};
use crate::client::utils::SESSION_KEY;
use crate::common::error::{Error, ErrorView, plain_error};
use crate::common::messages::{
    CategorizeGifRequest, CategorizeGifResponse, CredentialsView, FetchFavoritesRequest,
    FetchFavoritesResponse, LoginRequest, LoginResponse, RegisterRequest, RegisterResponse,
    Response, SaveGifRequest, SaveGifResponse, SearchGiphyRequest, SearchGiphyResponse,
};
use crate::common::records::{User, UserView};
use vstd::prelude::*;
use vstd::string::StringExecFns;

verus! {

/// The method of every call to the API.
pub const METHOD: &'static str = "POST";

/// The name of the header that carries the session's token.
pub const AUTHZ: &'static str = "authorization";

/// The description of a call that brought no answer that could be read.
pub const INTERNAL_ERROR: &'static str = "Internal error.";

/// An effect that a reducer orders and the runtime performs.
///
/// The first six are calls to the backend; each of them settles in one event.
/// The others touch the session storage and the location bar.
#[derive(Debug)]
pub enum Command {
    /// Log in with the given credentials.
    Login(LoginRequest),
    /// Register an account with the given credentials.
    Register(RegisterRequest),
    /// Search for GIFs, on behalf of the session with the given token.
    Search(SearchGiphyRequest, String),
    /// Save a GIF, on behalf of the session with the given token.
    SaveGif(SaveGifRequest, String),
    /// Fetch the saved GIFs of the session with the given token.
    Favorites(FetchFavoritesRequest, String),
    /// Give a saved GIF a category, on behalf of the session with the given token.
    Categorize(CategorizeGifRequest, String),
    /// Keep the user in the session storage.
    StoreUser(User),
    /// Take the user out of the session storage.
    ForgetUser,
    /// Show the route's path in the location bar.
    PushRoute(Route),
}

/// What a [`Command`] holds.
pub enum CommandView {
    Login(CredentialsView),
    Register(CredentialsView),
    Search { query: Seq<char>, jwt: Seq<char> },
    SaveGif { id: Seq<char>, jwt: Seq<char> },
    Favorites { jwt: Seq<char> },
    Categorize { id: Seq<char>, category: Seq<char>, jwt: Seq<char> },
    StoreUser(UserView),
    ForgetUser,
    PushRoute(Route),
}

impl View for Command {
    type V = CommandView;

    open spec fn view(&self) -> CommandView {
        match self {
            Command::Login(req) => CommandView::Login(req@),
            Command::Register(req) => CommandView::Register(req@),
            Command::Search(req, jwt) => CommandView::Search { query: req.query@, jwt: jwt@ },
            Command::SaveGif(req, jwt) => CommandView::SaveGif { id: req.id@, jwt: jwt@ },
            Command::Favorites(_, jwt) => CommandView::Favorites { jwt: jwt@ },
            Command::Categorize(req, jwt) => CommandView::Categorize {
                id: req.id@,
                category: req.category@,
                jwt: jwt@,
            },
            Command::StoreUser(user) => CommandView::StoreUser(user@),
            Command::ForgetUser => CommandView::ForgetUser,
            Command::PushRoute(route) => CommandView::PushRoute(*route),
        }
    }
}

impl DeepView for Command {
    type V = CommandView;

    open spec fn deep_view(&self) -> CommandView {
        self@
    }
}

impl Clone for Command {
    fn clone(&self) -> (c: Self)
        ensures
            c@ == self@,
    {
        match self {
            Command::Login(req) => Command::Login(req.clone()),
            Command::Register(req) => Command::Register(req.clone()),
            Command::Search(req, jwt) => Command::Search(req.clone(), jwt.clone()),
            Command::SaveGif(req, jwt) => Command::SaveGif(req.clone(), jwt.clone()),
            Command::Favorites(req, jwt) => Command::Favorites(*req, jwt.clone()),
            Command::Categorize(req, jwt) => Command::Categorize(req.clone(), jwt.clone()),
            Command::StoreUser(user) => Command::StoreUser(user.clone()),
            Command::ForgetUser => Command::ForgetUser,
            Command::PushRoute(route) => Command::PushRoute(*route),
        }
    }
}

/// The path of the operation that a command calls, below the base of the API.
pub open spec fn command_path(command: CommandView) -> Option<Seq<char>> {
    match command {
        CommandView::Login(_) => Some("/login"@),
        CommandView::Register(_) => Some("/register"@),
        CommandView::Search { .. } => Some("/search_giphy"@),
        CommandView::SaveGif { .. } => Some("/save_gif"@),
        CommandView::Favorites { .. } => Some("/favorites"@),
        CommandView::Categorize { .. } => Some("/categorize"@),
        _ => None,
    }
}

/// The token that a command presents, where it calls an operation that asks
/// for one.
pub open spec fn command_token(command: CommandView) -> Option<Seq<char>> {
    match command {
        CommandView::Search { jwt, .. } => Some(jwt),
        CommandView::SaveGif { jwt, .. } => Some(jwt),
        CommandView::Favorites { jwt } => Some(jwt),
        CommandView::Categorize { jwt, .. } => Some(jwt),
        _ => None,
    }
}

/// The key of the session storage that a command writes or deletes.
pub open spec fn command_storage_key(command: CommandView) -> Option<Seq<char>> {
    match command {
        CommandView::StoreUser(_) => Some(SESSION_KEY@),
        CommandView::ForgetUser => Some(SESSION_KEY@),
        _ => None,
    }
}

/// The value of the authorization header for a token.
pub open spec fn bearer(jwt: Seq<char>) -> Seq<char> {
    "bearer "@ + jwt
}

impl Command {
    /// The path to post to, below the base of the API; `None` for an effect
    /// that is no call to the backend.
    pub fn path(&self) -> (path: Option<&'static str>)
        ensures
            path.deep_view() == command_path(self@),
    {
        match self {
            Command::Login(_) => Some("/login"),
            Command::Register(_) => Some("/register"),
            Command::Search(_, _) => Some("/search_giphy"),
            Command::SaveGif(_, _) => Some("/save_gif"),
            Command::Favorites(_, _) => Some("/favorites"),
            Command::Categorize(_, _) => Some("/categorize"),
            _ => None,
        }
    }

    /// The key of the session storage that this command writes or deletes;
    /// `None` for a command that leaves the session storage alone.
    pub fn storage_key(&self) -> (key: Option<&'static str>)
        ensures
            key.deep_view() == command_storage_key(self@),
    {
        match self {
            Command::StoreUser(_) => Some(SESSION_KEY),
            Command::ForgetUser => Some(SESSION_KEY),
            _ => None,
        }
    }

    /// The value of the authorization header to send: `bearer`, a space and
    /// the token, for the operations that ask for a session.
    pub fn authorization(&self) -> (header: Option<String>)
        ensures
            header.deep_view() == match command_token(self@) {
                Some(jwt) => Some(bearer(jwt)),
                None => None,
            },
    {
        let jwt = match self {
            Command::Search(_, jwt) => jwt,
            Command::SaveGif(_, jwt) => jwt,
            Command::Favorites(_, jwt) => jwt,
            Command::Categorize(_, jwt) => jwt,
            _ => {
                return None;
            },
        };
        let header = String::from_str("bearer ").concat(jwt.as_str());
        Some(header)
    }
}

/// The error that stands for a call without a readable answer.
pub open spec fn internal_error() -> ErrorView {
    plain_error(INTERNAL_ERROR@, 500)
}

/// What a call to the API yields, given what was fetched: `None` where the
/// transport failed or the body could not be read.
///
/// The tag of the envelope decides, never the status of the transport: the
/// data of a success, the error of a failure, and an opaque internal error
/// where nothing could be read.
pub fn api_post<D>(fetched: Option<Response<D>>) -> (result: Result<D, Error>)
    ensures
        match fetched {
            Some(Response::Data(data)) => result == Ok::<D, Error>(data),
            Some(Response::Error(err)) => result == Err::<D, Error>(err),
            None => result is Err && result->Err_0@ == internal_error(),
        },
{
    match fetched {
        Some(Response::Data(data)) => Ok(data),
        Some(Response::Error(err)) => Err(err),
        None => Err(Error::new(INTERNAL_ERROR, 500, None)),
    }
}

/// The error of a failed call, as far as its view goes.
pub open spec fn failure<D>(fetched: Option<Response<D>>) -> ErrorView {
    match fetched {
        Some(Response::Error(err)) => err@,
        _ => internal_error(),
    }
}

/// The event in which a login call settles.
pub fn login(fetched: Option<Response<LoginResponse>>) -> (event: ModelEvent)
    ensures
        event@ == ModelEventView::Login(
            match fetched {
                Some(Response::Data(data)) => LoginContainerEventView::LoginSuccess(data@),
                _ => LoginContainerEventView::LoginError(failure(fetched)),
            },
        ),
{
    match api_post(fetched) {
        Ok(data) => ModelEvent::Login(LoginContainerEvent::LoginSuccess(data)),
        Err(err) => ModelEvent::Login(LoginContainerEvent::LoginError(err)),
    }
}

/// The event in which a registration call settles.
pub fn register(fetched: Option<Response<RegisterResponse>>) -> (event: ModelEvent)
    ensures
        event@ == ModelEventView::Login(
            match fetched {
                Some(Response::Data(data)) => LoginContainerEventView::RegisterSuccess(data@),
                _ => LoginContainerEventView::RegisterError(failure(fetched)),
            },
        ),
{
    match api_post(fetched) {
        Ok(data) => ModelEvent::Login(LoginContainerEvent::RegisterSuccess(data)),
        Err(err) => ModelEvent::Login(LoginContainerEvent::RegisterError(err)),
    }
}

/// The event in which a search call settles.
pub fn search(fetched: Option<Response<SearchGiphyResponse>>) -> (event: ModelEvent)
    ensures
        event@ == ModelEventView::Search(
            match fetched {
                Some(Response::Data(data)) => SearchContainerEventView::SearchSuccess(data@),
                _ => SearchContainerEventView::SearchError(failure(fetched)),
            },
        ),
{
    match api_post(fetched) {
        Ok(data) => ModelEvent::Search(SearchContainerEvent::SearchSuccess(data)),
        Err(err) => ModelEvent::Search(SearchContainerEvent::SearchError(err)),
    }
}

/// The event in which the call that saves the GIF `req.id` settles; a failure
/// names the GIF.
pub fn save_gif(req: &SaveGifRequest, fetched: Option<Response<SaveGifResponse>>) -> (event:
    ModelEvent)
    ensures
        event@ == ModelEventView::Search(
            match fetched {
                Some(Response::Data(data)) => SearchContainerEventView::SaveGifSuccess(data@),
                _ => SearchContainerEventView::SaveGifError(req.id@, failure(fetched)),
            },
        ),
{
    let gifid = req.id.clone();
    match api_post(fetched) {
        Ok(data) => ModelEvent::Search(SearchContainerEvent::SaveGifSuccess(data)),
        Err(err) => ModelEvent::Search(SearchContainerEvent::SaveGifError((gifid, err))),
    }
}

/// The event in which the call that fetches the saved GIFs settles.
pub fn favorites(fetched: Option<Response<FetchFavoritesResponse>>) -> (event: ModelEvent)
    ensures
        event@ == ModelEventView::Favorites(
            match fetched {
                Some(Response::Data(data)) => FavoritesEventView::FetchSuccess(data@),
                _ => FavoritesEventView::FetchError(failure(fetched)),
            },
        ),
{
    match api_post(fetched) {
        Ok(data) => ModelEvent::Favorites(FavoritesEvent::FetchSuccess(data)),
        Err(err) => ModelEvent::Favorites(FavoritesEvent::FetchError(err)),
    }
}

/// The event in which the call that categorizes the GIF `req.id` settles; a
/// failure names the GIF.
pub fn categorize(
    req: &CategorizeGifRequest,
    fetched: Option<Response<CategorizeGifResponse>>,
) -> (event: ModelEvent)
    ensures
        event@ == ModelEventView::Favorites(
            match fetched {
                Some(Response::Data(data)) => FavoritesEventView::CategorizeSuccess(data@),
                _ => FavoritesEventView::CategorizeError(req.id@, failure(fetched)),
            },
        ),
{
    let gifid = req.id.clone();
    match api_post(fetched) {
        Ok(data) => ModelEvent::Favorites(FavoritesEvent::CategorizeSuccess(data)),
        Err(err) => ModelEvent::Favorites(FavoritesEvent::CategorizeError(gifid, err)),
    }
}

} // verus!
