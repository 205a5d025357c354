//! What the handlers of the API decide.

use crate::collections::keys::Key;
use crate::collections::text_map::TextMap;
use crate::common::error::{Error, ErrorView, INVALID_CREDENTIALS, plain_error};
use crate::common::messages::{
    CategorizeGifResponse, FetchFavoritesResponse, RegisterRequest, SearchGiphyResponse,
};
use crate::common::records::{GiphyGif, GiphyGifView};
use crate::server::auth::{password_check, password_verdict, verify_user_pw};
use crate::server::models::{SavedGif, SavedGifView, User};
use crate::text::{lowercase, to_lowercase};
use crate::validation::{email_is_valid, validate_email};
use vstd::prelude::*;
use vstd::string::StrSliceExecFns;

verus! {

/// The description of a request whose fields are not valid.
pub const INVALID_INPUT: &'static str = "Invalid input.";

/// The name of the email field.
pub const EMAIL_FIELD: &'static str = "email";

/// The name of the password field.
pub const PASSWORD_FIELD: &'static str = "password";

/// The message for an email field that holds no email address.
pub const EMAIL_MSG: &'static str = "Must provide a valid email address.";

/// The message for a password field that holds too short a password.
pub const PASSWORD_MSG: &'static str = "Password must be at least 6 characters in length.";

/// The description of a save of a GIF that the provider does not know.
pub const NO_SUCH_GIF: &'static str = "Specified GIF does not seem to exist in Giphy.";

/// The description of a categorization of a GIF that the user has not saved.
pub const NOT_SAVED: &'static str = "Could not find target GIF saved by user.";

/// The least number of characters of a password.
pub const MIN_PASSWORD_CHARS: usize = 6;

/// A GIF as the upstream provider describes it.
#[derive(Debug, PartialEq, Eq)]
pub struct GiphySearchGif {
    pub id: String,
    pub title: String,
    /// The URL of the downsampled rendition of fixed height.
    pub url: String,
}

/// What a [`GiphySearchGif`] holds.
pub struct FoundGifView {
    pub id: Key,
    pub title: Seq<char>,
    pub url: Seq<char>,
}

impl View for GiphySearchGif {
    type V = FoundGifView;

    open spec fn view(&self) -> FoundGifView {
        FoundGifView { id: self.id@, title: self.title@, url: self.url@ }
    }
}

impl DeepView for GiphySearchGif {
    type V = FoundGifView;

    open spec fn deep_view(&self) -> FoundGifView {
        self@
    }
}

/// The last of the saved GIFs that has the identifier `id` at the provider.
pub open spec fn last_saved(saved: Seq<SavedGifView>, id: Key) -> Option<SavedGifView>
    decreases saved.len(),
{
    if saved.len() == 0 {
        None
    } else if saved.last().giphy_id == id {
        Some(saved.last())
    } else {
        last_saved(saved.drop_last(), id)
    }
}

/// A found GIF as the response shows it: marked as saved, and with its
/// category, where the user has saved it.
pub open spec fn marked(found: FoundGifView, saved: Seq<SavedGifView>) -> GiphyGifView {
    GiphyGifView {
        id: found.id,
        title: found.title,
        url: found.url,
        is_saved: last_saved(saved, found.id) is Some,
        category: match last_saved(saved, found.id) {
            Some(gif) => gif.category,
            None => None,
        },
    }
}

/// The last of `saved` with the provider's identifier `id`.
fn find_saved<'a>(saved: &'a Vec<SavedGif>, id: &String) -> (r: Option<&'a SavedGif>)
    ensures
        r.deep_view() == last_saved(saved.deep_view(), id@),
{
    let ghost all = saved.deep_view();
    let mut i: usize = saved.len();
    assert(all.take(i as int) =~= all);
    while i > 0
        invariant
            i <= saved@.len(),
            all == saved.deep_view(),
            last_saved(all, id@) == last_saved(all.take(i as int), id@),
        decreases i,
    {
        proof {
            let head = all.take(i as int);
            assert(head.last() == saved@[i - 1]@);
            assert(head.drop_last() =~= all.take(i - 1));
        }
        if saved[i - 1].giphy_id == *id {
            return Some(&saved[i - 1]);
        }
        i -= 1;
    }
    None
}

/// The response to a search: the GIFs that the provider found, in its
/// order, each marked with what the user has saved of it.
pub fn search_giphy(found: &Vec<GiphySearchGif>, saved: &Vec<SavedGif>) -> (res:
    SearchGiphyResponse)
    ensures
        res@ == found.deep_view().map_values(|gif: FoundGifView| marked(gif, saved.deep_view())),
{
    let ghost all = found.deep_view();
    let ghost rows = saved.deep_view();
    let mut response_gifs: Vec<GiphyGif> = Vec::new();
    let mut i: usize = 0;
    while i < found.len()
        invariant
            i <= found@.len(),
            all == found.deep_view(),
            rows == saved.deep_view(),
            response_gifs@.len() == i,
            forall|j: int| 0 <= j < i ==> (#[trigger] response_gifs@[j])@ == marked(all[j], rows),
        decreases found@.len() - i,
    {
        let gif = &found[i];
        assert(gif@ == all[i as int]);
        let hit = find_saved(saved, &gif.id);
        let category = match hit {
            Some(row) => match &row.category {
                Some(c) => Some(c.clone()),
                None => None,
            },
            None => None,
        };
        response_gifs.push(
            GiphyGif {
                id: gif.id.clone(),
                title: gif.title.clone(),
                is_saved: hit.is_some(),
                url: gif.url.clone(),
                category,
            },
        );
        i += 1;
    }
    let res = SearchGiphyResponse { gifs: response_gifs };
    assert(res@ =~= all.map_values(|gif: FoundGifView| marked(gif, rows)));
    res
}

/// A saved GIF as a response shows it: under the provider's identifier, and
/// marked as saved.
pub open spec fn shown_saved(saved: SavedGifView) -> GiphyGifView {
    GiphyGifView {
        id: saved.giphy_id,
        title: saved.title,
        url: saved.url,
        is_saved: true,
        category: saved.category,
    }
}

impl SavedGif {
    /// The GIF that is sent to the client for this saved GIF.
    pub fn to_common(&self) -> (gif: GiphyGif)
        ensures
            gif@ == shown_saved(self@),
    {
        GiphyGif {
            id: self.giphy_id.clone(),
            title: self.title.clone(),
            url: self.url.clone(),
            is_saved: true,
            category: match &self.category {
                Some(c) => Some(c.clone()),
                None => None,
            },
        }
    }

    /// Transform into the GIF that is sent to the client.
    pub fn into_common(self) -> (gif: GiphyGif)
        ensures
            gif@ == shown_saved(self@),
    {
        GiphyGif {
            id: self.giphy_id,
            title: self.title,
            url: self.url,
            is_saved: true,
            category: self.category,
        }
    }
}

/// The response to a fetch of the favorites: the saved GIFs in their order.
pub fn favorites(rows: &Vec<SavedGif>) -> (res: FetchFavoritesResponse)
    ensures
        res@ == rows.deep_view().map_values(|row: SavedGifView| shown_saved(row)),
{
    let ghost all = rows.deep_view();
    let mut gifs: Vec<GiphyGif> = Vec::new();
    let mut i: usize = 0;
    while i < rows.len()
        invariant
            i <= rows@.len(),
            all == rows.deep_view(),
            gifs@.len() == i,
            forall|j: int| 0 <= j < i ==> (#[trigger] gifs@[j])@ == shown_saved(all[j]),
        decreases rows@.len() - i,
    {
        assert(rows@[i as int]@ == all[i as int]);
        gifs.push(rows[i].to_common());
        i += 1;
    }
    let res = FetchFavoritesResponse { gifs };
    assert(res@ =~= all.map_values(|row: SavedGifView| shown_saved(row)));
    res
}

/// The GIF to save, given what the provider answered when asked for it: a
/// GIF that the provider does not know cannot be saved.
pub fn save_gif(found: Option<GiphySearchGif>) -> (gif: Result<GiphySearchGif, Error>)
    ensures
        match found {
            Some(g) => gif == Ok::<GiphySearchGif, Error>(g),
            None => gif is Err && gif->Err_0@ == plain_error(NO_SUCH_GIF@, 400),
        },
{
    match found {
        Some(gif) => Ok(gif),
        None => Err(Error::new(NO_SUCH_GIF, 400, None)),
    }
}

/// The category to store for a text: none for an empty text.
pub fn category_to_store(category: String) -> (stored: Option<String>)
    ensures
        stored.deep_view() == if category@.len() > 0 {
            Some(category@)
        } else {
            None
        },
{
    if category.as_str().is_empty() {
        None
    } else {
        Some(category)
    }
}

/// The response to a categorization, given the saved GIF as it is after the
/// update, if the user has saved the GIF at all.
pub fn categorize(updated: Option<SavedGif>) -> (res: Result<CategorizeGifResponse, Error>)
    ensures
        match updated {
            Some(row) => res is Ok && res->Ok_0@ == shown_saved(row@),
            None => res is Err && res->Err_0@ == plain_error(NOT_SAVED@, 400),
        },
{
    match updated {
        Some(row) => Ok(CategorizeGifResponse { gif: row.into_common() }),
        None => Err(Error::new(NOT_SAVED, 400, None)),
    }
}

/// The field errors of a registration, given the verdicts on its fields.
pub open spec fn field_errors(email_ok: bool, password_ok: bool) -> Map<Key, Seq<char>> {
    let email = if email_ok {
        Map::<Key, Seq<char>>::empty()
    } else {
        Map::<Key, Seq<char>>::empty().insert(EMAIL_FIELD@, EMAIL_MSG@)
    };
    if password_ok {
        email
    } else {
        email.insert(PASSWORD_FIELD@, PASSWORD_MSG@)
    }
}

/// What to answer to a registration, given the verdicts on its fields:
/// nothing to object where both are good, and else an error that names each
/// field that is not.
pub open spec fn registration_verdict(email_ok: bool, password_ok: bool) -> Option<ErrorView> {
    if email_ok && password_ok {
        None
    } else {
        Some(
            ErrorView {
                description: INVALID_INPUT@,
                status: 400,
                fields: field_errors(email_ok, password_ok),
            },
        )
    }
}

/// What to answer to a registration, given the verdicts on its fields.
pub fn registration_check(email_ok: bool, password_ok: bool) -> (verdict: Result<(), Error>)
    ensures
        match verdict {
            Ok(()) => registration_verdict(email_ok, password_ok) is None,
            Err(err) => registration_verdict(email_ok, password_ok) == Some(err@),
        },
{
    if email_ok && password_ok {
        return Ok(());
    }
    let mut fields = TextMap::new();
    if !email_ok {
        fields.insert(EMAIL_FIELD.to_owned(), EMAIL_MSG.to_owned());
    }
    if !password_ok {
        fields.insert(PASSWORD_FIELD.to_owned(), PASSWORD_MSG.to_owned());
    }
    Err(Error::new(INVALID_INPUT, 400, Some(fields)))
}

/// Validates a registration: the email must be an email address, and the
/// password must have six characters or more.
pub fn validate(req: &RegisterRequest) -> (verdict: Result<(), Error>)
    ensures
        match verdict {
            Ok(()) => registration_verdict(
                email_is_valid(req.email@),
                req.password@.len() >= MIN_PASSWORD_CHARS,
            ) is None,
            Err(err) => registration_verdict(
                email_is_valid(req.email@),
                req.password@.len() >= MIN_PASSWORD_CHARS,
            ) == Some(err@),
        },
{
    let email_ok = validate_email(req.email.as_str());
    let password_ok = req.password.as_str().unicode_len() >= MIN_PASSWORD_CHARS;
    registration_check(email_ok, password_ok)
}

/// The form in which an email address is kept and looked up: in lower case.
pub fn normalize_email(email: &str) -> (normal: String)
    ensures
        normal@ == lowercase(email@),
{
    to_lowercase(email)
}

/// The user of a session, given what the lookup of the token's subject
/// found: a token whose user is gone holds no valid credentials.
pub fn require_user(found: Option<User>) -> (user: Result<User, Error>)
    ensures
        match found {
            Some(u) => user == Ok::<User, Error>(u),
            None => user is Err && user->Err_0@ == plain_error(INVALID_CREDENTIALS@, 401),
        },
{
    match found {
        Some(user) => Ok(user),
        None => Err(Error::new_invalid_credentials()),
    }
}

/// The user that logs in, given what the lookup of the email address found
/// and the password presented: the credentials are invalid where nobody was
/// found, and else the password decides.
pub fn login(found: Option<User>, password: &str) -> (user: Result<User, Error>)
    ensures
        match found {
            None => user is Err && user->Err_0@ == plain_error(INVALID_CREDENTIALS@, 401),
            Some(u) => match password_verdict(password_check(password@, u.pwhash@)) {
                Ok(()) => user == Ok::<User, Error>(u),
                Err(err) => user is Err && user->Err_0@ == err,
            },
        },
{
    let user = match found {
        Some(user) => user,
        None => {
            return Err(Error::new_invalid_credentials());
        },
    };
    match verify_user_pw(&user, password) {
        Ok(()) => Ok(user),
        Err(err) => Err(err),
    }
}

} // verus!
