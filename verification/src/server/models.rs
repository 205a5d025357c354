//! The records that the backend keeps.

use crate::common::error::{Error, ErrorView, ISE, plain_error};
use crate::common::records::UserView;
use crate::text::same;
use vstd::prelude::*;

verus! {

/// The name of the constraint that keeps email addresses unique.
pub const EMAIL_CONSTRAINT: &'static str = "users_email_key";

/// The description of a registration under an email address in use.
pub const EMAIL_TAKEN: &'static str = "That email address is already taken.";

/// A GIF from the Giphy API which has been saved by a user.
#[derive(Debug, PartialEq, Eq)]
pub struct SavedGif {
    /// Object ID.
    pub id: i64,
    /// The ID of the user which has saved this GIF.
    pub user: i64,
    /// The ID of this GIF in the Giphy system.
    pub giphy_id: String,
    /// The title of the GIF.
    pub title: String,
    /// The URL of the GIF.
    pub url: String,
    /// The category given to this GIF by the user.
    pub category: Option<String>,
}

/// What a [`SavedGif`] holds.
pub struct SavedGifView {
    pub id: i64,
    pub user: i64,
    pub giphy_id: Seq<char>,
    pub title: Seq<char>,
    pub url: Seq<char>,
    pub category: Option<Seq<char>>,
}

impl View for SavedGif {
    type V = SavedGifView;

    open spec fn view(&self) -> SavedGifView {
        SavedGifView {
            id: self.id,
            user: self.user,
            giphy_id: self.giphy_id@,
            title: self.title@,
            url: self.url@,
            category: self.category.deep_view(),
        }
    }
}

impl DeepView for SavedGif {
    type V = SavedGifView;

    open spec fn deep_view(&self) -> SavedGifView {
        self@
    }
}

/// A user of the system.
#[derive(Debug, PartialEq, Eq)]
pub struct User {
    /// Object ID.
    pub id: i64,
    /// The user's email address.
    pub email: String,
    /// The user's password hash.
    pub pwhash: String,
}

/// What a [`User`] of the backend holds.
pub struct AccountView {
    pub id: i64,
    pub email: Seq<char>,
    pub pwhash: Seq<char>,
}

impl View for User {
    type V = AccountView;

    open spec fn view(&self) -> AccountView {
        AccountView { id: self.id, email: self.email@, pwhash: self.pwhash@ }
    }
}

impl DeepView for User {
    type V = AccountView;

    open spec fn deep_view(&self) -> AccountView {
        self@
    }
}

/// The error of an insertion that the database refused, given the name of
/// the constraint that it names, if it names one.
pub open spec fn insert_failure(constraint: Option<Seq<char>>) -> ErrorView {
    if constraint == Some(EMAIL_CONSTRAINT@) {
        plain_error(EMAIL_TAKEN@, 400)
    } else {
        plain_error(ISE@, 500)
    }
}

impl User {
    /// The error to report when the insertion of a user failed: the email
    /// address is taken where the database names the constraint on it, and
    /// the failure is internal otherwise.
    pub fn insert_error(constraint: Option<&str>) -> (e: Error)
        ensures
            e@ == insert_failure(constraint.deep_view()),
    {
        match constraint {
            Some(name) => {
                if same(name, EMAIL_CONSTRAINT) {
                    Error::new(EMAIL_TAKEN, 400, None)
                } else {
                    Error::new_ise()
                }
            },
            None => Error::new_ise(),
        }
    }

    /// Transform into the user that is sent to the client, with its token.
    pub fn into_common(self, jwt: String) -> (user: crate::common::records::User)
        ensures
            user@ == (UserView { id: self.id, email: self.email@, jwt: jwt@ }),
    {
        crate::common::records::User { id: self.id, email: self.email, jwt }
    }
}

} // verus!
