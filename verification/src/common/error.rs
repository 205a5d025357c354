//! The error envelope that the backend reports and the client displays.

use crate::collections::keys::Key;
use crate::collections::text_map::TextMap;
use vstd::prelude::*;
use vstd::string::StringExecFns;

verus! {

/// The description of an internal server error.
pub const ISE: &'static str = "Internal server error.";

/// The description of a request whose credentials were refused.
pub const INVALID_CREDENTIALS: &'static str = "Invalid credentials provided.";

/// The description of a request whose token has expired.
pub const UNAUTHORIZED_TOKEN_EXPIRED: &'static str = "Unauthorized. Token is expired.";

/// The description of a request whose token could not be trusted.
pub const UNAUTHORIZED_INVALID_TOKEN: &'static str = "Unauthorized. Invalid token provided.";

/// The description of a request whose body could not be read.
pub const BODY_MALFORMED: &'static str = "Malformed body in request.";

/// An error coming from the API.
#[derive(Debug)]
pub struct Error {
    /// A description of the error.
    pub description: String,
    /// The HTTP status code which represents this type of error.
    pub status: u16,
    /// Error information specific to fields of the request.
    pub fields: TextMap,
}

/// What an [`Error`] holds.
pub struct ErrorView {
    pub description: Seq<char>,
    pub status: u16,
    pub fields: Map<Key, Seq<char>>,
}

impl View for Error {
    type V = ErrorView;

    open spec fn view(&self) -> ErrorView {
        ErrorView { description: self.description@, status: self.status, fields: self.fields@ }
    }
}

impl DeepView for Error {
    type V = ErrorView;

    open spec fn deep_view(&self) -> ErrorView {
        self@
    }
}

/// The error for a body that could not be read, with the detail `detail`.
pub open spec fn malformed_body(detail: Seq<char>) -> ErrorView {
    plain_error(BODY_MALFORMED@ + " "@ + detail, 400)
}

/// The error with the given description and status and no field information.
pub open spec fn plain_error(description: Seq<char>, status: u16) -> ErrorView {
    ErrorView { description, status, fields: Map::empty() }
}

impl Clone for Error {
    fn clone(&self) -> (e: Self)
        ensures
            e@ == self@,
    {
        Error {
            description: self.description.clone(),
            status: self.status,
            fields: self.fields.clone(),
        }
    }
}

impl Error {
    /// Create a new instance; without `fields` it carries no field information.
    pub fn new(desc: &str, status: u16, fields: Option<TextMap>) -> (e: Self)
        ensures
            e@.description == desc@,
            e@.status == status,
            e@.fields == match fields {
                Some(f) => f@,
                None => Map::<Key, Seq<char>>::empty(),
            },
    {
        let description = desc.to_owned();
        let fields = match fields {
            Some(f) => f,
            None => TextMap::new(),
        };
        Error { description, status, fields }
    }

    /// Create a new instance representing an internal server error.
    pub fn new_ise() -> (e: Self)
        ensures
            e@ == plain_error(ISE@, 500),
    {
        Self::new(ISE, 500, None)
    }

    /// Create a new error indicating that the body of the request was
    /// malformed; `src` is what the decoder says of its failure.
    pub fn new_deser_err(src: &str) -> (e: Self)
        ensures
            e@ == malformed_body(src@),
    {
        let description = String::from_str(BODY_MALFORMED).concat(" ").concat(src);
        Error { description, status: 400, fields: TextMap::new() }
    }

    /// Create a new error indicating that the given credentials were invalid.
    pub fn new_invalid_credentials() -> (e: Self)
        ensures
            e@ == plain_error(INVALID_CREDENTIALS@, 401),
    {
        Self::new(INVALID_CREDENTIALS, 401, None)
    }

    /// Create a new error indicating that the given JWT was expired.
    pub fn new_token_expired() -> (e: Self)
        ensures
            e@ == plain_error(UNAUTHORIZED_TOKEN_EXPIRED@, 401),
    {
        Self::new(UNAUTHORIZED_TOKEN_EXPIRED, 401, None)
    }

    /// Create a new error indicating that the given JWT was invalid.
    pub fn new_invalid_token() -> (e: Self)
        ensures
            e@ == plain_error(UNAUTHORIZED_INVALID_TOKEN@, 401),
    {
        Self::new(UNAUTHORIZED_INVALID_TOKEN, 401, None)
    }
}

} // verus!
