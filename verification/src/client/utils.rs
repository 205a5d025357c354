//! What the reducers share.

use crate::client::state::ModelEvent;
use crate::common::error::{Error, ErrorView};
use vstd::prelude::*;

verus! {

/// The key under which the user is kept in the session storage.
pub const SESSION_KEY: &'static str = "user";

/// What is reported when the session storage cannot be had.
pub const NO_STORAGE: &'static str = "Could not access session storage.";

/// What is reported when the session storage fails without saying why.
pub const STORAGE_FAILED: &'static str = "Failed to set session storage key.";

/// What is reported when the session storage holds nothing under a key.
pub const KEY_NOT_FOUND: &'static str = "Key not found in storage.";

/// The status with which the backend refuses a session.
pub const UNAUTHORIZED: u16 = 401;

/// Whether `err` says that the backend refused the session.
pub open spec fn is_unauthorized(err: ErrorView) -> bool {
    err.status == UNAUTHORIZED
}

/// A method for handling common errors: an error that refuses the session
/// logs the user out.
///
/// If an event is returned, it should be used; else, the caller will need to
/// handle the error.
pub fn handle_common_errors(err: &Error) -> (event: Option<ModelEvent>)
    ensures
        event == if is_unauthorized(err@) {
            Some(ModelEvent::Logout)
        } else {
            None
        },
{
    if err.status == UNAUTHORIZED {
        Some(ModelEvent::Logout)
    } else {
        None
    }
}

/// The reason of a failure, or `fallback` where the failure gave none.
pub open spec fn reason(given: Option<String>, fallback: Seq<char>) -> Seq<char> {
    match given {
        Some(text) => text@,
        None => fallback,
    }
}

/// What a reading of the session storage gives, as far as its view goes.
pub open spec fn item_view(item: Result<String, String>) -> Result<Seq<char>, Seq<char>> {
    match item {
        Ok(text) => Ok(text@),
        Err(text) => Err(text@),
    }
}

/// What the access to a key of the session storage gives, given what the
/// storage answered: the value, the reason of the failure, or the report
/// that nothing is kept under the key.
pub fn get_session_item(answer: Result<Option<String>, Option<String>>) -> (item: Result<
    String,
    String,
>)
    ensures
        item_view(item) == match answer {
            Ok(Some(value)) => Ok::<Seq<char>, Seq<char>>(value@),
            Ok(None) => Err::<Seq<char>, Seq<char>>(KEY_NOT_FOUND@),
            Err(given) => Err::<Seq<char>, Seq<char>>(reason(given, STORAGE_FAILED@)),
        },
{
    match answer {
        Ok(Some(value)) => Ok(value),
        Ok(None) => Err(KEY_NOT_FOUND.to_owned()),
        Err(Some(text)) => Err(text),
        Err(None) => Err(STORAGE_FAILED.to_owned()),
    }
}

/// What setting a key of the session storage gives, given what the storage
/// answered: nothing, or the reason of the failure.
pub fn set_session_item(answer: Result<(), Option<String>>) -> (outcome: Result<(), String>)
    ensures
        match answer {
            Ok(()) => outcome is Ok,
            Err(given) => outcome is Err && outcome->Err_0@ == reason(given, STORAGE_FAILED@),
        },
{
    match answer {
        Ok(()) => Ok(()),
        Err(Some(text)) => Err(text),
        Err(None) => Err(STORAGE_FAILED.to_owned()),
    }
}

/// Whether the window has a session storage, given what it answered when
/// asked for one: an answer without a storage and a failure without a reason
/// are both reported as a storage that cannot be had.
pub fn get_session_storage(answer: Result<bool, Option<String>>) -> (outcome: Result<(), String>)
    ensures
        match answer {
            Ok(true) => outcome is Ok,
            Ok(false) => outcome is Err && outcome->Err_0@ == NO_STORAGE@,
            Err(given) => outcome is Err && outcome->Err_0@ == reason(given, NO_STORAGE@),
        },
{
    match answer {
        Ok(true) => Ok(()),
        Ok(false) => Err(NO_STORAGE.to_owned()),
        Err(Some(text)) => Err(text),
        Err(None) => Err(NO_STORAGE.to_owned()),
    }
}

} // verus!
