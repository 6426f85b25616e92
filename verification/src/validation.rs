//! Trusted access to the `validator` crate and small string helpers shared
//! by the domain types.

use vstd::prelude::*;

verus! {

/// Name for the outcome of `validator::validate_email` on a string.
pub uninterp spec fn email_is_valid(s: Seq<char>) -> bool;

/// `validator::validate_length(value, Some(min), Some(max), None)` on a string.
///
/// The validator counts the string's `char`s (`chars().count()`) and accepts
/// exactly when the count lies in `min..=max`.
#[verifier::external_body]
pub fn length_in_range(value: &str, min: u64, max: u64) -> (ok: bool)
    ensures
        ok == (min <= value@.len() && value@.len() <= max),
{
    validator::validate_length(value, Some(min), Some(max), None)
}

/// `validator::validate_email(value)`.
///
/// What is accepted is named by [`email_is_valid`]. The validator's source
/// rejects a value outright unless it holds an `@` that has at least one
/// character before it and one after it; that much is stated here.
#[verifier::external_body]
pub fn email_accepted(value: &str) -> (ok: bool)
    ensures
        ok == email_is_valid(value@),
        ok ==> exists|i: int| 0 < i < value@.len() - 1 && value@[i] == '@',
{
    validator::validate_email(value)
}

} // verus!
