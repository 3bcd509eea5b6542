//! Login: credentials in, a token and the user out.

use crate::models::auth::AuthenticationError;
use crate::models::user::{PublicUser, User};
use crate::routes::{OK, UNAUTHORIZED};
use vstd::prelude::*;

verus! {

/// The answer to a login.
#[derive(Clone, Debug, PartialEq, Eq)]
pub struct LoginResponse {
    pub status: u16,
    /// The token, sent in the header `jwt`.
    pub jwt: Option<String>,
    /// The user, sent as the body. An answer without one has an empty body.
    pub user: Option<PublicUser>,
}

/// The answer to a login from the outcome of the authentication: the token
/// and the user with status 200, or status 401 and nothing else.
pub fn handle(outcome: Result<(User, String), AuthenticationError>) -> (response: LoginResponse)
    ensures
        match outcome {
            Ok((user, token)) => {
                &&& response.status == OK
                &&& response.jwt matches Some(jwt) && jwt@ == token@
                &&& response.user matches Some(shown) && shown.id@ == user.id@ && shown.email@
                    == user.email@
            },
            Err(_) => {
                &&& response.status == UNAUTHORIZED
                &&& response.jwt is None
                &&& response.user is None
            },
        },
{
    match outcome {
        Ok((user, token)) => LoginResponse {
            status: OK,
            jwt: Some(token),
            user: Some(user.serialize()),
        },
        Err(_) => LoginResponse { status: UNAUTHORIZED, jwt: None, user: None },
    }
}

} // verus!
