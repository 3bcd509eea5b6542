//! The rules for the bodies of requests, and what breaking one is answered
//! with.

pub mod new_todo_request;
pub mod new_user_request;

use crate::routes::{BAD_REQUEST, UNPROCESSABLE_ENTITY};
use vstd::prelude::*;

verus! {

/// The least number of characters in the content of an item and in a
/// password.
pub const MIN_LENGTH: u64 = 3;

/// Calls `validator::validate_length` with a lower bound only.
///
/// Claimed of it: it counts the characters of the text, and accepts the text
/// exactly when it has at least `min` of them.
#[verifier::external_body]
pub(crate) fn has_min_length(value: &str, min: u64) -> (ok: bool)
    ensures
        ok == (value@.len() >= min),
{
    validator::validate_length(value, Some(min), None, None)
}

/// Why the body of a request was not accepted.
#[derive(Clone, Copy, Debug, PartialEq, Eq, Structural)]
pub enum BodyError {
    /// The body was read, and a field breaks a rule.
    Validate,
    /// The body is JSON of another shape.
    Deserialize,
    /// The body could not be read as JSON at all.
    JsonPayload,
}

/// The status that a body which was not accepted is answered with.
pub fn default_error_handler(error: BodyError) -> (status: u16)
    ensures
        status == match error {
            BodyError::Validate => UNPROCESSABLE_ENTITY,
            BodyError::Deserialize => UNPROCESSABLE_ENTITY,
            BodyError::JsonPayload => BAD_REQUEST,
        },
{
    match error {
        BodyError::Validate => UNPROCESSABLE_ENTITY,
        BodyError::Deserialize => UNPROCESSABLE_ENTITY,
        BodyError::JsonPayload => BAD_REQUEST,
    }
}

} // verus!
