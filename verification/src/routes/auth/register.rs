//! Registration: an email and a password in, the new user out.

use crate::models::user::{PublicUser, User};
use crate::routes::OK;
use vstd::prelude::*;

verus! {

/// The body of the answer to a registration.
#[derive(Clone, Debug, PartialEq, Eq)]
pub enum RegisterBody {
    /// The user that was created.
    Created(PublicUser),
    /// The text `Error`: the user could not be created.
    Error,
}

/// The answer to a registration.
#[derive(Clone, Debug, PartialEq, Eq)]
pub struct RegisterResponse {
    pub status: u16,
    pub body: RegisterBody,
}

/// The answer to a registration from what the store made of it. The status is
/// 200 either way; only the body tells a failure.
pub fn handle(created: Option<User>) -> (response: RegisterResponse)
    ensures
        response.status == OK,
        match created {
            Some(user) => response.body matches RegisterBody::Created(shown) && shown.id@
                == user.id@ && shown.email@ == user.email@,
            None => response.body == RegisterBody::Error,
        },
{
    match created {
        Some(user) => RegisterResponse { status: OK, body: RegisterBody::Created(user.serialize()) },
        None => RegisterResponse { status: OK, body: RegisterBody::Error },
    }
}

} // verus!
