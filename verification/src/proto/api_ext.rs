//! Constructors for the frames of the protocol.

use crate::collections::keys::Key;
use crate::collections::text_map::TextMap;
use crate::common::messages::CredentialsView;
use crate::proto::api::{
    AccountView, ErrorDomain, ErrorDomainView, ErrorResponse, ErrorResponseType,
    ErrorResponseView, GiphyGif, LoginRequest, LoginResponse, RegisterRequest, RegisterResponse,
    Request, RequestFrame, RequestView, Response, ResponseFrame, ResponseFrameView, ResponseView,
    SearchGiphyRequest, SearchGiphyResponse, SearchRequestView, SearchResponseView, etype_number,
};
use vstd::prelude::*;

verus! {

/// The description of an internal server error.
pub const ISE: &'static str = "Internal server error.";

/// The description of a failed authentication.
pub const AUTHN: &'static str = "Authentication failed. Invalid credentials provided.";

/// The description of a frame that could not be read.
pub const INVALID: &'static str = "Invalid or malformed frame received.";

/// The number of characters of a request's identifier.
pub const REQUEST_ID_LEN: usize = 32;

/// An error variant which represents a high-level error or a domain specific
/// error.
///
/// For an internal error, a failed authentication or the like, use
/// `ErrSystem(_)`. If the error is domain specific, use `ErrDomain(_)`.
#[derive(Debug)]
pub enum Error {
    ErrSystem(ErrorResponse),
    ErrDomain(ErrorDomain),
}

impl ErrorDomain {
    /// Create a new domain error instance; without `fields` it carries no
    /// field information.
    pub fn new(description: &str, fields: Option<TextMap>) -> (e: Self)
        ensures
            e@.description == description@,
            e@.fields == match fields {
                Some(f) => f@,
                None => Map::<Key, Seq<char>>::empty(),
            },
    {
        let description = description.to_owned();
        let fields = match fields {
            Some(f) => f,
            None => TextMap::new(),
        };
        Self { description, fields }
    }
}

impl ErrorResponse {
    /// Create a new instance.
    fn new(description: &str, etype: ErrorResponseType) -> (e: Self)
        ensures
            e@ == (ErrorResponseView { description: description@, etype: etype_number(etype) }),
    {
        let description = description.to_owned();
        Self { description, etype: etype.number() }
    }

    /// Create a new instance representing an internal server error.
    pub fn new_ise() -> (e: Self)
        ensures
            e@ == (ErrorResponseView {
                description: ISE@,
                etype: etype_number(ErrorResponseType::EtypeIse),
            }),
    {
        Self::new(ISE, ErrorResponseType::EtypeIse)
    }

    /// Create a new instance representing an authentication failure.
    pub fn new_authn() -> (e: Self)
        ensures
            e@ == (ErrorResponseView {
                description: AUTHN@,
                etype: etype_number(ErrorResponseType::EtypeAuthn),
            }),
    {
        Self::new(AUTHN, ErrorResponseType::EtypeAuthn)
    }

    /// Create a new instance representing request validity failure.
    pub fn new_invalid() -> (e: Self)
        ensures
            e@ == (ErrorResponseView {
                description: INVALID@,
                etype: etype_number(ErrorResponseType::EtypeInvalid),
            }),
    {
        Self::new(INVALID, ErrorResponseType::EtypeInvalid)
    }
}

/// The response to a request with credentials that failed with `error`:
/// nothing but the error.
pub open spec fn account_failure(error: ErrorDomainView) -> AccountView {
    AccountView { error: Some(error), id: Seq::empty(), email: Seq::empty(), jwt: Seq::empty() }
}

impl ResponseFrame {
    /// Create a new error response; it answers the request `id`, or none.
    pub fn error(id: Option<&str>, error: ErrorResponse) -> (frame: Self)
        ensures
            frame@ == (ResponseFrameView {
                id: match id {
                    Some(s) => s@,
                    None => Seq::<char>::empty(),
                },
                response: Some(ResponseView::Error(error@)),
            }),
    {
        let id = match id {
            Some(s) => s.to_owned(),
            None => String::new(),
        };
        Self { id, response: Some(Response::Error(error)) }
    }

    /// Create a new register response.
    pub fn register(id: String, user: String, email: String, jwt: String) -> (frame: Self)
        ensures
            frame@ == (ResponseFrameView {
                id: id@,
                response: Some(
                    ResponseView::Register(
                        AccountView { error: None, id: user@, email: email@, jwt: jwt@ },
                    ),
                ),
            }),
    {
        let response = Some(
            Response::Register(RegisterResponse { error: None, id: user, email, jwt }),
        );
        Self { id, response }
    }

    /// Create a new register response error.
    pub fn register_err(id: String, error: ErrorDomain) -> (frame: Self)
        ensures
            frame@ == (ResponseFrameView {
                id: id@,
                response: Some(ResponseView::Register(account_failure(error@))),
            }),
    {
        let inner = RegisterResponse {
            error: Some(error),
            id: String::new(),
            email: String::new(),
            jwt: String::new(),
        };
        let response = Some(Response::Register(inner));
        Self { id, response }
    }

    /// Create a new login response.
    pub fn login(id: String, user: String, email: String, jwt: String) -> (frame: Self)
        ensures
            frame@ == (ResponseFrameView {
                id: id@,
                response: Some(
                    ResponseView::Login(
                        AccountView { error: None, id: user@, email: email@, jwt: jwt@ },
                    ),
                ),
            }),
    {
        let response = Some(Response::Login(LoginResponse { error: None, id: user, email, jwt }));
        Self { id, response }
    }

    /// Create a new login response error.
    pub fn login_err(id: String, error: ErrorDomain) -> (frame: Self)
        ensures
            frame@ == (ResponseFrameView {
                id: id@,
                response: Some(ResponseView::Login(account_failure(error@))),
            }),
    {
        let inner = LoginResponse {
            error: Some(error),
            id: String::new(),
            email: String::new(),
            jwt: String::new(),
        };
        let response = Some(Response::Login(inner));
        Self { id, response }
    }

    /// Create a new search giphy response.
    pub fn search_giphy(id: String, gifs: Vec<GiphyGif>) -> (frame: Self)
        ensures
            frame@ == (ResponseFrameView {
                id: id@,
                response: Some(
                    ResponseView::SearchGiphy(
                        SearchResponseView { error: None, gifs: gifs.deep_view() },
                    ),
                ),
            }),
    {
        let response = Some(Response::SearchGiphy(SearchGiphyResponse { error: None, gifs }));
        Self { id, response }
    }

    /// Create a new search giphy response error.
    pub fn search_giphy_err(id: String, error: ErrorDomain) -> (frame: Self)
        ensures
            frame@ == (ResponseFrameView {
                id: id@,
                response: Some(
                    ResponseView::SearchGiphy(
                        SearchResponseView { error: Some(error@), gifs: Seq::empty() },
                    ),
                ),
            }),
    {
        let inner = SearchGiphyResponse { error: Some(error), gifs: Vec::new() };
        assert(inner.gifs.deep_view() =~= Seq::empty());
        let response = Some(Response::SearchGiphy(inner));
        Self { id, response }
    }
}

/// Calls `uuid::Uuid::new_v4`, which draws a random identifier, and writes it
/// with `to_simple`: as thirty-two hexadecimal digits. The contract claims the
/// length and nothing of the digits.
#[verifier::external_body]
fn new_request_id() -> (id: String)
    ensures
        id@.len() == REQUEST_ID_LEN,
{
    uuid::Uuid::new_v4().to_simple().to_string()
}

impl RequestFrame {
    /// Create a new register request, under a fresh identifier.
    pub fn register(email: String, password: String) -> (frame: Self)
        ensures
            frame@.id.len() == REQUEST_ID_LEN,
            frame@.request == Some(
                RequestView::Register(CredentialsView { email: email@, password: password@ }),
            ),
    {
        let id = new_request_id();
        let request = Some(Request::Register(RegisterRequest { email, password }));
        RequestFrame { id, request }
    }

    /// Create a new login request, under a fresh identifier.
    pub fn login(email: String, password: String) -> (frame: Self)
        ensures
            frame@.id.len() == REQUEST_ID_LEN,
            frame@.request == Some(
                RequestView::Login(CredentialsView { email: email@, password: password@ }),
            ),
    {
        let id = new_request_id();
        let request = Some(Request::Login(LoginRequest { email, password }));
        RequestFrame { id, request }
    }

    /// Create a new request for searching the Giphy API, under a fresh
    /// identifier.
    pub fn search_giphy(query: String, jwt: String) -> (frame: Self)
        ensures
            frame@.id.len() == REQUEST_ID_LEN,
            frame@.request == Some(
                RequestView::SearchGiphy(SearchRequestView { jwt: jwt@, query: query@ }),
            ),
    {
        let id = new_request_id();
        let request = Some(Request::SearchGiphy(SearchGiphyRequest { jwt, query }));
        RequestFrame { id, request }
    }
}

} // verus!
