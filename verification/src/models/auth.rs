//! Authentication by email and password.
//!
//! The store is asked for the users with a given email; what it answers is
//! handed in as plain rows. A user is found only where exactly one row carries
//! that email, compared character by character. Every failure, an unknown
//! email as much as a wrong password, gives the same `AuthenticationError`.

use crate::models::user::{User, UserView};
use crate::services::hasher::{password_matches, verify as verify_password};
use crate::services::jwt::{generate_at, issued_as, unix_now};
use crate::text::same_text;
use vstd::prelude::*;

verus! {

/// The credentials of a login or a registration. They live for one request.
#[derive(Clone, Debug, PartialEq, Eq)]
pub struct AuthenticableUser {
    pub email: String,
    pub password: String,
}

/// Authentication failed. It does not say whether the email or the password
/// was wrong.
#[derive(Clone, Copy, Debug, PartialEq, Eq, Structural)]
pub struct AuthenticationError;

impl AuthenticationError {
    /// The one message of this error.
    pub fn description(&self) -> (text: &'static str)
        ensures
            text@ == "Unauthorized"@,
    {
        "Unauthorized"
    }
}

/// Whether row `i` of `found` carries `email` and no other row does.
pub open spec fn is_only_match(found: Seq<User>, email: Seq<char>, i: int) -> bool {
    &&& 0 <= i < found.len()
    &&& found[i].email@ == email
    &&& forall|j: int| 0 <= j < found.len() && #[trigger] found[j].email@ == email ==> j == i
}

/// The user that `found` holds for `email`: the one row with that email, or
/// `None` where no row or more than one row carries it.
pub open spec fn looked_up(found: Seq<User>, email: Seq<char>) -> Option<UserView> {
    if exists|i: int| is_only_match(found, email, i) {
        Some(found[choose|i: int| is_only_match(found, email, i)]@)
    } else {
        None
    }
}

/// Where a row is the only match, it is the user looked up.
pub proof fn lemma_only_match_is_looked_up(found: Seq<User>, email: Seq<char>, i: int)
    requires
        is_only_match(found, email, i),
    ensures
        looked_up(found, email) == Some(found[i]@),
{
    let k = choose|k: int| is_only_match(found, email, k);
    assert(found[k].email@ == email);
    assert(k == i);
}

/// What identifying `email` with `password` among `found` gives: the user
/// looked up, where the password matches the stored hash.
pub open spec fn identified(found: Seq<User>, email: Seq<char>, password: Seq<char>) -> Result<
    UserView,
    AuthenticationError,
> {
    match looked_up(found, email) {
        Some(user) => if password_matches(password, user.password) {
            Ok(user)
        } else {
            Err(AuthenticationError)
        },
        None => Err(AuthenticationError),
    }
}

/// The index of the one row of `found` that carries `email`.
pub fn find_by_email(found: &Vec<User>, email: &str) -> (res: Option<usize>)
    ensures
        match res {
            Some(i) => is_only_match(found@, email@, i as int),
            None => forall|i: int| !is_only_match(found@, email@, i),
        },
{
    let mut first: Option<usize> = None;
    let mut several: bool = false;
    let mut n: usize = 0;
    while n < found.len()
        invariant
            n <= found.len(),
            first is None ==> !several && forall|j: int|
                0 <= j < n ==> (#[trigger] found@[j]).email@ != email@,
            first matches Some(k) ==> {
                &&& k < n
                &&& found@[k as int].email@ == email@
                &&& !several ==> forall|j: int|
                    0 <= j < n && (#[trigger] found@[j]).email@ == email@ ==> j == k
                &&& several ==> exists|j: int|
                    0 <= j < n && j != k && (#[trigger] found@[j]).email@ == email@
            },
        decreases found.len() - n,
    {
        if same_text(found[n].email.as_str(), email) {
            match first {
                None => {
                    first = Some(n);
                },
                Some(k) => {
                    several = true;
                    assert(found@[n as int].email@ == email@ && n != k);
                },
            }
        }
        n = n + 1;
    }
    if several {
        proof {
            let k = first->0;
            let j = choose|j: int|
                0 <= j < found@.len() && j != k && (#[trigger] found@[j]).email@ == email@;
            assert forall|i: int| !is_only_match(found@, email@, i) by {
                if is_only_match(found@, email@, i) {
                    assert(found@[j].email@ == email@);
                    assert(found@[k as int].email@ == email@);
                }
            }
        }
        None
    } else {
        first
    }
}

impl AuthenticableUser {
    /// Checks `password` against the hash stored for `user`. A hash that
    /// cannot be read fails like a wrong password.
    pub fn verify(password: String, user: &User) -> (res: Result<(), AuthenticationError>)
        ensures
            res is Ok <==> password_matches(password@, user.password@),
    {
        if verify_password(password.as_str(), user.password.as_str()) {
            Ok(())
        } else {
            Err(AuthenticationError)
        }
    }

    /// Finds the user with `email` among `found` and checks `password` against
    /// the stored hash.
    pub fn identify(found: &Vec<User>, email: &str, password: &str) -> (res: Result<
        User,
        AuthenticationError,
    >)
        ensures
            match res {
                Ok(user) => identified(found@, email@, password@) == Ok::<
                    UserView,
                    AuthenticationError,
                >(user@),
                Err(e) => identified(found@, email@, password@) == Err::<
                    UserView,
                    AuthenticationError,
                >(e),
            },
    {
        match find_by_email(found, email) {
            Some(i) => {
                proof {
                    lemma_only_match_is_looked_up(found@, email@, i as int);
                }
                let user = found[i].duplicate();
                match AuthenticableUser::verify(password.to_owned(), &user) {
                    Ok(()) => Ok(user),
                    Err(e) => Err(e),
                }
            },
            None => Err(AuthenticationError),
        }
    }

    /// Authenticates `email` with `password` among the rows `found` at the
    /// time `now`, and issues a token for the user.
    ///
    /// Succeeds exactly where one row carries the email and the password
    /// matches its hash. The token is signed with `secret` and lasts
    /// `lifetime` seconds.
    pub fn authenticate_at(
        found: &Vec<User>,
        email: &str,
        password: &str,
        secret: &str,
        lifetime: i64,
        now: i64,
    ) -> (res: Result<(User, String), AuthenticationError>)
        ensures
            match res {
                Ok((user, token)) => {
                    &&& identified(found@, email@, password@) == Ok::<
                        UserView,
                        AuthenticationError,
                    >(user@)
                    &&& issued_as(token@, user@, secret@, lifetime as int, now as int)
                },
                Err(e) => identified(found@, email@, password@) == Err::<
                    UserView,
                    AuthenticationError,
                >(e),
            },
    {
        match AuthenticableUser::identify(found, email, password) {
            Ok(user) => {
                let token = generate_at(&user, secret, lifetime, now);
                Ok((user, token))
            },
            Err(e) => Err(e),
        }
    }

    /// Authenticates `email` with `password` among the rows `found` at the
    /// present time, and issues a token for the user.
    pub fn authenticate(
        found: &Vec<User>,
        email: &str,
        password: &str,
        secret: &str,
        lifetime: i64,
    ) -> (res: Result<(User, String), AuthenticationError>)
        ensures
            match res {
                Ok((user, token)) => {
                    &&& identified(found@, email@, password@) == Ok::<
                        UserView,
                        AuthenticationError,
                    >(user@)
                    &&& exists|now: int|
                        0 <= now <= i64::MAX && #[trigger] issued_as(
                            token@,
                            user@,
                            secret@,
                            lifetime as int,
                            now,
                        )
                },
                Err(e) => identified(found@, email@, password@) == Err::<
                    UserView,
                    AuthenticationError,
                >(e),
            },
    {
        let now = unix_now();
        let res = AuthenticableUser::authenticate_at(found, email, password, secret, lifetime, now);
        proof {
            if res is Ok {
                let user = res->Ok_0.0;
                let token = res->Ok_0.1;
                assert(issued_as(token@, user@, secret@, lifetime as int, now as int));
            }
        }
        res
    }
}

/// An unknown email and a wrong password fail alike: with the same error, and
/// with nothing else to tell them apart.
pub proof fn lemma_failures_are_indistinguishable(
    found: Seq<User>,
    unknown_email: Seq<char>,
    any_password: Seq<char>,
    known_email: Seq<char>,
    wrong_password: Seq<char>,
)
    requires
        looked_up(found, unknown_email).is_none(),
        looked_up(found, known_email) matches Some(user) && !password_matches(
            wrong_password,
            user.password,
        ),
    ensures
        identified(found, unknown_email, any_password) == identified(
            found,
            known_email,
            wrong_password,
        ),
        identified(found, unknown_email, any_password) == Err::<UserView, AuthenticationError>(
            AuthenticationError,
        ),
{
}

} // verus!
