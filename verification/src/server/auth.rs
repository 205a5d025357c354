//! Passwords and tokens.

use crate::common::error::{
    Error, ErrorView, INVALID_CREDENTIALS, ISE, UNAUTHORIZED_INVALID_TOKEN,
    UNAUTHORIZED_TOKEN_EXPIRED, plain_error,
};
use crate::server::models::User;
use crate::text::{lowercase, same, to_lowercase};
use vstd::prelude::*;
use vstd::string::StrSliceExecFns;

verus! {

/// The number of seconds for which a user's token is good: two hours.
pub const DEFAULT_USER_TOKEN_EXP: i64 = 7200;

/// The number of characters of a password hash.
pub const HASH_LEN: usize = 60;

/// The scheme under which a token is presented.
pub const BEARER: &'static str = "bearer";

/// The description of a request whose authorization header cannot be read.
pub const INVALID_HEADER: &'static str = "Invalid contents of header 'Authorization'.";

/// The description of a request without an authorization header.
pub const NO_CREDENTIALS: &'static str = "No credentials provided in request.";

/// The description of a request that presents another scheme than `bearer`.
pub const INVALID_SCHEME: &'static str =
    "Invalid authorization scheme specified, must be 'bearer'.";

/// The description of a request whose header ends after the scheme.
pub const NO_TOKEN: &'static str =
    "Invalid authorization token specified. It appears to be zero-size.";

/// Whether the password `pw` matches the bcrypt hash `hash`, as the `bcrypt`
/// crate decides it; `None` where the hash cannot be read.
pub uninterp spec fn password_check(pw: Seq<char>, hash: Seq<char>) -> Option<bool>;

/// Calls `bcrypt::verify`, which reads cost and salt from the hash, hashes
/// the password with them and compares. It fails where the hash is not a
/// bcrypt hash. The contract gives the outcome its name.
#[verifier::external_body]
fn bcrypt_verify(pw: &str, hash: &str) -> (checked: Option<bool>)
    ensures
        checked == password_check(pw@, hash@),
{
    bcrypt::verify(pw, hash).ok()
}

/// Calls `bcrypt::hash` with the crate's default cost, which hashes the
/// password under a salt drawn at random and writes version, cost, salt and
/// hash out as sixty characters. The contract claims that length and nothing
/// else: neither that a hash comes back, nor which.
#[verifier::external_body]
fn bcrypt_hash(pw: &str) -> (hashed: Option<String>)
    ensures
        hashed is Some ==> hashed->0@.len() == HASH_LEN,
{
    bcrypt::hash(pw, bcrypt::DEFAULT_COST).ok()
}

/// What to answer once a password was checked against a hash: nothing to
/// object where it matches, invalid credentials where it does not, and an
/// internal error where the check itself failed.
pub open spec fn password_verdict(checked: Option<bool>) -> Result<(), ErrorView> {
    match checked {
        Some(true) => Ok(()),
        Some(false) => Err(plain_error(INVALID_CREDENTIALS@, 401)),
        None => Err(plain_error(ISE@, 500)),
    }
}

/// The views of the two sides of a result whose error is an [`Error`].
pub open spec fn unit_result_view(result: Result<(), Error>) -> Result<(), ErrorView> {
    match result {
        Ok(()) => Ok(()),
        Err(err) => Err(err@),
    }
}

/// Generate a bcrypt hash of the given password string. A failure to hash is
/// an internal error.
pub fn hash_pw(pw: &str) -> (hashed: Result<String, Error>)
    ensures
        match hashed {
            Ok(hash) => hash@.len() == HASH_LEN,
            Err(err) => err@ == plain_error(ISE@, 500),
        },
{
    match bcrypt_hash(pw) {
        Some(hash) => Ok(hash),
        None => Err(Error::new_ise()),
    }
}

/// What to answer to a password, given how its check against the hash went.
pub fn pw_verdict(checked: Option<bool>) -> (verdict: Result<(), Error>)
    ensures
        unit_result_view(verdict) == password_verdict(checked),
{
    match checked {
        Some(true) => Ok(()),
        Some(false) => Err(Error::new_invalid_credentials()),
        None => Err(Error::new_ise()),
    }
}

/// Check the given password against the user's hash.
pub fn verify_user_pw(user: &User, pw: &str) -> (verdict: Result<(), Error>)
    ensures
        unit_result_view(verdict) == password_verdict(password_check(pw@, user.pwhash@)),
{
    pw_verdict(bcrypt_verify(pw, user.pwhash.as_str()))
}

/// What a request carries under `authorization`.
#[derive(Debug, PartialEq, Eq)]
pub enum AuthHeader {
    /// The request has no such header.
    Missing,
    /// The header's value is no text.
    Unreadable,
    /// The header's value.
    Text(String),
}

/// What an [`AuthHeader`] holds.
pub enum AuthHeaderView {
    Missing,
    Unreadable,
    Text(Seq<char>),
}

impl View for AuthHeader {
    type V = AuthHeaderView;

    open spec fn view(&self) -> AuthHeaderView {
        match self {
            AuthHeader::Missing => AuthHeaderView::Missing,
            AuthHeader::Unreadable => AuthHeaderView::Unreadable,
            AuthHeader::Text(text) => AuthHeaderView::Text(text@),
        }
    }
}

/// The place of the first space of `text` at or after `start`, or the length
/// of `text` where there is none.
pub open spec fn space_from(text: Seq<char>, start: int) -> int
    decreases text.len() - start,
{
    if start < 0 || start >= text.len() {
        text.len() as int
    } else if text[start] == ' ' {
        start
    } else {
        space_from(text, start + 1)
    }
}

/// The scheme of an authorization: what stands before the first space.
pub open spec fn scheme_of(authval: Seq<char>) -> Seq<char> {
    authval.take(space_from(authval, 0))
}

/// The token of an authorization: what stands behind the first space, if
/// there is a space.
pub open spec fn token_of(authval: Seq<char>) -> Option<Seq<char>> {
    if space_from(authval, 0) < authval.len() {
        Some(authval.skip(space_from(authval, 0) + 1))
    } else {
        None
    }
}

/// The token that a request presents, given the lower-case form of its
/// scheme, or the reason why it presents none.
pub open spec fn presented_token(lowered_scheme: Seq<char>, token: Option<Seq<char>>) -> Result<
    Seq<char>,
    ErrorView,
> {
    if lowered_scheme != BEARER@ {
        Err(plain_error(INVALID_SCHEME@, 401))
    } else {
        match token {
            Some(token) => Ok(token),
            None => Err(plain_error(NO_TOKEN@, 401)),
        }
    }
}

/// The token that a request with the given header presents, or the reason
/// why it presents none. The scheme is `bearer` in any case of its letters.
pub open spec fn requested_token(header: AuthHeaderView) -> Result<Seq<char>, ErrorView> {
    match header {
        AuthHeaderView::Missing => Err(plain_error(NO_CREDENTIALS@, 401)),
        AuthHeaderView::Unreadable => Err(plain_error(INVALID_HEADER@, 401)),
        AuthHeaderView::Text(authval) => presented_token(
            lowercase(scheme_of(authval)),
            token_of(authval),
        ),
    }
}

/// The views of the two sides of a result that holds a text or an [`Error`].
pub open spec fn text_result_view(result: Result<String, Error>) -> Result<Seq<char>, ErrorView> {
    match result {
        Ok(text) => Ok(text@),
        Err(err) => Err(err@),
    }
}

proof fn lemma_space_from(text: Seq<char>, start: int)
    requires
        0 <= start <= text.len(),
    ensures
        start <= space_from(text, start) <= text.len(),
        space_from(text, start) < text.len() ==> text[space_from(text, start)] == ' ',
        forall|j: int| start <= j < space_from(text, start) ==> text[j] != ' ',
    decreases text.len() - start,
{
    if start < text.len() && text[start] != ' ' {
        lemma_space_from(text, start + 1);
    }
}

/// Splits an authorization at its first space: into the scheme before it and
/// the token behind it. Without a space all of it is the scheme.
pub fn split_authorization(authval: &str) -> (parts: (String, Option<String>))
    ensures
        parts.0@ == scheme_of(authval@),
        parts.1.deep_view() == token_of(authval@),
{
    let n = authval.unicode_len();
    let mut i: usize = 0;
    while i < n && authval.get_char(i) != ' '
        invariant
            n == authval@.len(),
            i <= n,
            forall|j: int| 0 <= j < i ==> authval@[j] != ' ',
        decreases n - i,
    {
        i += 1;
    }
    proof {
        lemma_space_from(authval@, 0);
        let p = space_from(authval@, 0);
        if i < n {
            assert(authval@[i as int] == ' ');
        }
        assert(p == i);
    }
    let scheme = authval.substring_char(0, i).to_owned();
    assert(authval@.subrange(0, i as int) =~= authval@.take(i as int));
    if i < n {
        let token = authval.substring_char(i + 1, n).to_owned();
        assert(authval@.subrange(i + 1, n as int) =~= authval@.skip(i + 1));
        (scheme, Some(token))
    } else {
        (scheme, None)
    }
}

/// The token of an authorization whose scheme, in lower case, is
/// `lowered_scheme`: it must be `bearer`, and a token must follow it.
pub fn check_scheme(lowered_scheme: &str, token: Option<String>) -> (presented: Result<
    String,
    Error,
>)
    ensures
        text_result_view(presented) == presented_token(lowered_scheme@, token.deep_view()),
{
    if !same(lowered_scheme, BEARER) {
        return Err(Error::new(INVALID_SCHEME, 401, None));
    }
    match token {
        Some(token) => Ok(token),
        None => Err(Error::new(NO_TOKEN, 401, None)),
    }
}

/// The definition of our JWT claims structure.
#[derive(Clone, Copy, Debug, PartialEq, Eq, Structural)]
pub struct Claims {
    /// The ID of the entity for which the token was issued.
    pub sub: i64,
    /// The time at which the token was issued, in seconds since the epoch.
    pub iat: i64,
    /// The time at which this token expires, in seconds since the epoch.
    pub exp: i64,
}

/// The views of the two sides of a result that holds claims or an [`Error`].
pub open spec fn claims_result_view(result: Result<Claims, Error>) -> Result<Claims, ErrorView> {
    match result {
        Ok(claims) => Ok(claims),
        Err(err) => Err(err@),
    }
}

impl Claims {
    /// The claims of a token issued at `now` for the user `sub`: good for two
    /// hours from then.
    pub fn new_for_user(sub: i64, now: i64) -> (claims: Self)
        requires
            now + DEFAULT_USER_TOKEN_EXP <= i64::MAX,
        ensures
            claims == (Claims { sub, iat: now, exp: (now + DEFAULT_USER_TOKEN_EXP) as i64 }),
    {
        Claims { sub, iat: now, exp: now + DEFAULT_USER_TOKEN_EXP }
    }

    /// The claims of a token issued at `now` for the user `sub`, where the
    /// time of expiry can be written down.
    pub fn issue(sub: i64, now: i64) -> (claims: Option<Self>)
        ensures
            claims == if now + DEFAULT_USER_TOKEN_EXP <= i64::MAX {
                Some(Claims { sub, iat: now, exp: (now + DEFAULT_USER_TOKEN_EXP) as i64 })
            } else {
                None
            },
    {
        if now <= i64::MAX - DEFAULT_USER_TOKEN_EXP {
            Some(Self::new_for_user(sub, now))
        } else {
            None
        }
    }

    /// Extract the token from the authorization header of a request.
    pub fn from_request(header: AuthHeader) -> (token: Result<String, Error>)
        ensures
            text_result_view(token) == requested_token(header@),
    {
        let authval = match header {
            AuthHeader::Text(text) => text,
            AuthHeader::Unreadable => {
                return Err(Error::new(INVALID_HEADER, 401, None));
            },
            AuthHeader::Missing => {
                return Err(Error::new(NO_CREDENTIALS, 401, None));
            },
        };
        let (scheme, token) = split_authorization(authval.as_str());
        let lowered = to_lowercase(scheme.as_str());
        check_scheme(lowered.as_str(), token)
    }

    /// The claims of a token, given what its decoding gave: `None` where the
    /// signature or the form was wrong. The token must not be expired at `now`.
    pub fn from_jwt(decoded: Option<Claims>, now: i64) -> (claims: Result<Self, Error>)
        ensures
            claims_result_view(claims) == match decoded {
                None => Err(plain_error(UNAUTHORIZED_INVALID_TOKEN@, 401)),
                Some(c) => if now > c.exp {
                    Err(plain_error(UNAUTHORIZED_TOKEN_EXPIRED@, 401))
                } else {
                    Ok(c)
                },
            },
    {
        let claims = match decoded {
            Some(claims) => claims,
            None => {
                return Err(Error::new_invalid_token());
            },
        };
        match claims.must_not_be_expired(now) {
            Ok(()) => Ok(claims),
            Err(err) => Err(err),
        }
    }

    /// Validate that the given claims have not expired at `now`.
    pub fn must_not_be_expired(&self, now: i64) -> (verdict: Result<(), Error>)
        ensures
            unit_result_view(verdict) == if now > self.exp {
                Err::<(), ErrorView>(plain_error(UNAUTHORIZED_TOKEN_EXPIRED@, 401))
            } else {
                Ok::<(), ErrorView>(())
            },
    {
        if now > self.exp {
            Err(Error::new_token_expired())
        } else {
            Ok(())
        }
    }
}

} // verus!
