//! The frames of the binary protocol and what they carry.
//!
//! Message types come in pairs: a request of one kind is answered by the
//! response of the same kind. Every message sent to the API is a
//! [`RequestFrame`], and the API only ever sends [`ResponseFrame`]s.

use crate::collections::keys::Key;
use crate::collections::text_map::TextMap;
use crate::common::messages::CredentialsView;
use vstd::prelude::*;

verus! {

/// An error which has taken place in some domain specific manner.
#[derive(Debug)]
pub struct ErrorDomain {
    /// A description of the error.
    pub description: String,
    /// Error information specific to fields of the domain request.
    pub fields: TextMap,
}

/// What an [`ErrorDomain`] holds.
pub struct ErrorDomainView {
    pub description: Seq<char>,
    pub fields: Map<Key, Seq<char>>,
}

impl View for ErrorDomain {
    type V = ErrorDomainView;

    open spec fn view(&self) -> ErrorDomainView {
        ErrorDomainView { description: self.description@, fields: self.fields@ }
    }
}

impl DeepView for ErrorDomain {
    type V = ErrorDomainView;

    open spec fn deep_view(&self) -> ErrorDomainView {
        self@
    }
}

/// A GIF from the Giphy API.
#[derive(Debug, PartialEq, Eq)]
pub struct GiphyGif {
    pub id: String,
    pub title: String,
    pub url: String,
    pub is_favorite: bool,
}

/// What a [`GiphyGif`] of the protocol holds.
pub struct GifView {
    pub id: Seq<char>,
    pub title: Seq<char>,
    pub url: Seq<char>,
    pub is_favorite: bool,
}

impl View for GiphyGif {
    type V = GifView;

    open spec fn view(&self) -> GifView {
        GifView {
            id: self.id@,
            title: self.title@,
            url: self.url@,
            is_favorite: self.is_favorite,
        }
    }
}

impl DeepView for GiphyGif {
    type V = GifView;

    open spec fn deep_view(&self) -> GifView {
        self@
    }
}

/// A GIF which has been favorited by a user.
#[derive(Debug, PartialEq, Eq)]
pub struct FavoriteGif {
    pub id: String,
    pub gif: Option<GiphyGif>,
    pub category: String,
}

/// A response which represents an error outside of the corresponding
/// request's domain, such as a failed authentication or an internal error.
#[derive(Debug, PartialEq, Eq)]
pub struct ErrorResponse {
    /// A user friendly message describing the error.
    pub description: String,
    /// The number of the type of error which this represents.
    pub etype: i32,
}

/// What an [`ErrorResponse`] holds.
pub struct ErrorResponseView {
    pub description: Seq<char>,
    pub etype: i32,
}

impl View for ErrorResponse {
    type V = ErrorResponseView;

    open spec fn view(&self) -> ErrorResponseView {
        ErrorResponseView { description: self.description@, etype: self.etype }
    }
}

/// A user friendly description of an error which has taken place on the
/// server.
#[derive(Debug)]
pub struct Error {
    /// A user friendly message describing the error.
    pub description: String,
    /// The HTTP status which classifies this type of error.
    pub status: u32,
    /// An internal code used to drive client behavior.
    pub code: String,
    /// Additional metadata on the error.
    pub meta: TextMap,
}

/// What an [`Error`] of the protocol holds.
pub struct StatusErrorView {
    pub description: Seq<char>,
    pub status: u32,
    pub code: Seq<char>,
    pub meta: Map<Key, Seq<char>>,
}

impl View for Error {
    type V = StatusErrorView;

    open spec fn view(&self) -> StatusErrorView {
        StatusErrorView {
            description: self.description@,
            status: self.status,
            code: self.code@,
            meta: self.meta@,
        }
    }
}

impl DeepView for Error {
    type V = StatusErrorView;

    open spec fn deep_view(&self) -> StatusErrorView {
        self@
    }
}

/// A request to refresh the given JWT.
#[derive(Debug, PartialEq, Eq)]
pub struct RefreshTokenRequest {
    pub jwt: String,
}

impl View for RefreshTokenRequest {
    type V = Seq<char>;

    open spec fn view(&self) -> Seq<char> {
        self.jwt@
    }
}

/// The response to a refresh token request.
#[derive(Debug)]
pub struct RefreshTokenResponse {
    pub error: Option<Error>,
    pub jwt: String,
}

/// What a [`RefreshTokenResponse`] holds.
pub struct RefreshTokenView {
    pub error: Option<StatusErrorView>,
    pub jwt: Seq<char>,
}

impl View for RefreshTokenResponse {
    type V = RefreshTokenView;

    open spec fn view(&self) -> RefreshTokenView {
        RefreshTokenView { error: self.error.deep_view(), jwt: self.jwt@ }
    }
}

/// A request to register a new account.
#[derive(Debug, PartialEq, Eq)]
pub struct RegisterRequest {
    pub email: String,
    pub password: String,
}

impl View for RegisterRequest {
    type V = CredentialsView;

    open spec fn view(&self) -> CredentialsView {
        CredentialsView { email: self.email@, password: self.password@ }
    }
}

/// What the response to a request with credentials holds.
pub struct AccountView {
    pub error: Option<ErrorDomainView>,
    pub id: Seq<char>,
    pub email: Seq<char>,
    pub jwt: Seq<char>,
}

/// The response to a register request.
#[derive(Debug)]
pub struct RegisterResponse {
    pub error: Option<ErrorDomain>,
    /// The user's ID.
    pub id: String,
    pub email: String,
    pub jwt: String,
}

impl View for RegisterResponse {
    type V = AccountView;

    open spec fn view(&self) -> AccountView {
        AccountView {
            error: self.error.deep_view(),
            id: self.id@,
            email: self.email@,
            jwt: self.jwt@,
        }
    }
}

/// A login request.
#[derive(Debug, PartialEq, Eq)]
pub struct LoginRequest {
    pub email: String,
    pub password: String,
}

impl View for LoginRequest {
    type V = CredentialsView;

    open spec fn view(&self) -> CredentialsView {
        CredentialsView { email: self.email@, password: self.password@ }
    }
}

/// The response to a login request.
#[derive(Debug)]
pub struct LoginResponse {
    pub error: Option<ErrorDomain>,
    /// The user's ID.
    pub id: String,
    pub email: String,
    pub jwt: String,
}

impl View for LoginResponse {
    type V = AccountView;

    open spec fn view(&self) -> AccountView {
        AccountView {
            error: self.error.deep_view(),
            id: self.id@,
            email: self.email@,
            jwt: self.jwt@,
        }
    }
}

/// A request to search the Giphy API.
#[derive(Debug, PartialEq, Eq)]
pub struct SearchGiphyRequest {
    pub jwt: String,
    pub query: String,
}

/// What a [`SearchGiphyRequest`] of the protocol holds.
pub struct SearchRequestView {
    pub jwt: Seq<char>,
    pub query: Seq<char>,
}

impl View for SearchGiphyRequest {
    type V = SearchRequestView;

    open spec fn view(&self) -> SearchRequestView {
        SearchRequestView { jwt: self.jwt@, query: self.query@ }
    }
}

/// The response to a Giphy search request.
#[derive(Debug)]
pub struct SearchGiphyResponse {
    pub error: Option<ErrorDomain>,
    pub gifs: Vec<GiphyGif>,
}

/// What a [`SearchGiphyResponse`] of the protocol holds.
pub struct SearchResponseView {
    pub error: Option<ErrorDomainView>,
    pub gifs: Seq<GifView>,
}

impl View for SearchGiphyResponse {
    type V = SearchResponseView;

    open spec fn view(&self) -> SearchResponseView {
        SearchResponseView { error: self.error.deep_view(), gifs: self.gifs.deep_view() }
    }
}

/// A data frame which represents an API request.
#[derive(Debug, PartialEq, Eq)]
pub struct RequestFrame {
    /// The ID of this request.
    ///
    /// Clients must ensure that this ID is unique, as it is the primary
    /// mechanism used for matching request frames with response frames.
    pub id: String,
    pub request: Option<Request>,
}

/// The request that a [`RequestFrame`] carries.
#[derive(Debug, PartialEq, Eq)]
pub enum Request {
    Register(RegisterRequest),
    Login(LoginRequest),
    SearchGiphy(SearchGiphyRequest),
}

/// What a [`Request`] holds.
pub enum RequestView {
    Register(CredentialsView),
    Login(CredentialsView),
    SearchGiphy(SearchRequestView),
}

impl View for Request {
    type V = RequestView;

    open spec fn view(&self) -> RequestView {
        match self {
            Request::Register(req) => RequestView::Register(req@),
            Request::Login(req) => RequestView::Login(req@),
            Request::SearchGiphy(req) => RequestView::SearchGiphy(req@),
        }
    }
}

impl DeepView for Request {
    type V = RequestView;

    open spec fn deep_view(&self) -> RequestView {
        self@
    }
}

/// What a [`RequestFrame`] holds.
pub struct RequestFrameView {
    pub id: Seq<char>,
    pub request: Option<RequestView>,
}

impl View for RequestFrame {
    type V = RequestFrameView;

    open spec fn view(&self) -> RequestFrameView {
        RequestFrameView { id: self.id@, request: self.request.deep_view() }
    }
}

/// A data frame which represents an API response.
#[derive(Debug)]
pub struct ResponseFrame {
    /// The ID of the request which produced this frame.
    pub id: String,
    pub response: Option<Response>,
}

/// The response that a [`ResponseFrame`] carries.
#[derive(Debug)]
pub enum Response {
    Error(ErrorResponse),
    Register(RegisterResponse),
    Login(LoginResponse),
    SearchGiphy(SearchGiphyResponse),
}

/// What a [`Response`] of the protocol holds.
pub enum ResponseView {
    Error(ErrorResponseView),
    Register(AccountView),
    Login(AccountView),
    SearchGiphy(SearchResponseView),
}

impl View for Response {
    type V = ResponseView;

    open spec fn view(&self) -> ResponseView {
        match self {
            Response::Error(err) => ResponseView::Error(err@),
            Response::Register(res) => ResponseView::Register(res@),
            Response::Login(res) => ResponseView::Login(res@),
            Response::SearchGiphy(res) => ResponseView::SearchGiphy(res@),
        }
    }
}

impl DeepView for Response {
    type V = ResponseView;

    open spec fn deep_view(&self) -> ResponseView {
        self@
    }
}

/// What a [`ResponseFrame`] holds.
pub struct ResponseFrameView {
    pub id: Seq<char>,
    pub response: Option<ResponseView>,
}

impl View for ResponseFrame {
    type V = ResponseFrameView;

    open spec fn view(&self) -> ResponseFrameView {
        ResponseFrameView { id: self.id@, response: self.response.deep_view() }
    }
}

/// The possible variants of an error response.
#[derive(Clone, Copy, Debug, PartialEq, Eq, Structural)]
pub enum ErrorResponseType {
    /// An internal server error.
    EtypeIse,
    /// An error indicating the that user has failed authentication.
    ///
    /// Typically this means that the user's JWT is expired.
    EtypeAuthn,
    /// An error indicating that the received payload was invalid.
    ///
    /// Typically this means that the frame couldn't even be decoded. Errors
    /// specific to business logic requests must not appear here.
    EtypeInvalid,
}

/// The number that stands for a type of error response on the wire.
pub open spec fn etype_number(etype: ErrorResponseType) -> i32 {
    match etype {
        ErrorResponseType::EtypeIse => 0,
        ErrorResponseType::EtypeAuthn => 1,
        ErrorResponseType::EtypeInvalid => 2,
    }
}

impl ErrorResponseType {
    /// The number that stands for this type on the wire.
    pub fn number(self) -> (n: i32)
        ensures
            n == etype_number(self),
    {
        match self {
            ErrorResponseType::EtypeIse => 0,
            ErrorResponseType::EtypeAuthn => 1,
            ErrorResponseType::EtypeInvalid => 2,
        }
    }

    /// The type that `n` stands for on the wire, if it stands for one.
    pub fn from_i32(n: i32) -> (etype: Option<Self>)
        ensures
            match etype {
                Some(t) => etype_number(t) == n,
                None => forall|t: ErrorResponseType| etype_number(t) != n,
            },
    {
        if n == 0 {
            Some(ErrorResponseType::EtypeIse)
        } else if n == 1 {
            Some(ErrorResponseType::EtypeAuthn)
        } else if n == 2 {
            Some(ErrorResponseType::EtypeInvalid)
        } else {
            None
        }
    }
}

} // verus!
