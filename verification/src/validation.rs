//! Validation of what a user types in.

use vstd::prelude::*;

verus! {

/// Whether `email` is an email address in the sense of the HTML5 standard,
/// as the `validator` crate decides it.
pub uninterp spec fn email_is_valid(email: Seq<char>) -> bool;

/// Calls `validator::validate_email`, which decides from the text alone
/// whether it is an email address. The contract gives that decision its name
/// and claims nothing else of it.
#[verifier::external_body]
pub(crate) fn validate_email(email: &str) -> (ok: bool)
    ensures
        ok == email_is_valid(email@),
{
    validator::validate_email(email)
}

} // verus!
