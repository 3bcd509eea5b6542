//! What the routes decide, apart from the HTTP around it.
//!
//! A handler here takes what the request and the store have given and says
//! what comes next: a status to answer with, or something for the store to do.

pub mod auth;
pub mod todos;
pub mod users;

use crate::models::user::User;
use vstd::prelude::*;

verus! {

/// The request succeeded.
pub const OK: u16 = 200;

/// The request cannot be served as it stands.
pub const BAD_REQUEST: u16 = 400;

/// The request carries no valid credential.
pub const UNAUTHORIZED: u16 = 401;

/// The credential is valid, but its owner may not do what was asked.
pub const FORBIDDEN: u16 = 403;

/// What was asked for does not exist.
pub const NOT_FOUND: u16 = 404;

/// The body of the request breaks a rule for its fields.
pub const UNPROCESSABLE_ENTITY: u16 = 422;

/// The body of the answer to a request for the root of the service.
pub fn sanity_check() -> (body: &'static str)
    ensures
        body@ == "Hello world"@,
{
    "Hello world"
}

/// The principal of a request to a protected route: the identity that the
/// guard attached. A request that reached the route without one is answered
/// with `BAD_REQUEST`.
pub fn principal_of(attached: Option<User>) -> (res: Result<User, u16>)
    ensures
        res == match attached {
            Some(user) => Ok::<User, u16>(user),
            None => Err::<User, u16>(BAD_REQUEST),
        },
{
    match attached {
        Some(user) => Ok(user),
        None => Err(BAD_REQUEST),
    }
}

} // verus!
