//! The rules for the body of a registration.
//!
//! The email has to read as an email and must not belong to a user yet; the
//! password has a least length. With these rules no two users ever share an
//! email.

use crate::models::user::User;
use crate::text::{chars_of, same_text};
use crate::validation::{has_min_length, MIN_LENGTH};
use vstd::prelude::*;

verus! {

/// The most characters that an email may have.
///
/// The check of an email turns a domain that is no plain ASCII name into its
/// ASCII form. On the way one character can become eighteen, and the encoder
/// counts in 32 bits, which is too little from 3856 characters on. Eighteen
/// times this bound stays below that.
pub const MAX_EMAIL_LENGTH: usize = 214;

/// Whether `validator::validate_email` accepts `email`: a local part and a
/// domain in the forms of the HTML5 rule for email addresses.
pub uninterp spec fn email_accepted(email: Seq<char>) -> bool;

/// Calls `validator::validate_email`.
///
/// Claimed of it: the answer depends on the text alone, and an empty text and
/// a text without `@` are not accepted. The text has to keep to
/// `MAX_EMAIL_LENGTH`: on a longer one the encoder behind the check can
/// overflow and panic.
#[verifier::external_body]
fn is_email(email: &str) -> (ok: bool)
    requires
        email@.len() <= MAX_EMAIL_LENGTH,
    ensures
        ok == email_accepted(email@),
        email@.len() == 0 ==> !ok,
        !email@.contains('@') ==> !ok,
{
    validator::validate_email(email)
}

/// Whether `email` reads as an email: it keeps to `MAX_EMAIL_LENGTH` and has
/// the form of an email address.
pub open spec fn email_is_readable(email: Seq<char>) -> bool {
    email.len() <= MAX_EMAIL_LENGTH && email_accepted(email)
}

/// Whether `email` reads as an email. A text of more than `MAX_EMAIL_LENGTH`
/// characters does not, whatever it holds, and neither does an empty text nor
/// one without `@`.
pub fn is_readable_email(email: &str) -> (ok: bool)
    ensures
        ok == email_is_readable(email@),
        email@.len() == 0 || !email@.contains('@') ==> !ok,
{
    if chars_of(email).len() > MAX_EMAIL_LENGTH {
        false
    } else {
        is_email(email)
    }
}

/// The body of a registration, before it is accepted.
#[derive(Clone, Debug, PartialEq, Eq)]
pub struct NewUserRequest {
    pub email: String,
    pub password: String,
}

/// The rules that the body of a registration breaks.
#[derive(Clone, Copy, Debug, PartialEq, Eq, Structural)]
pub struct UserRequestErrors {
    /// The email does not read as an email, or is too long to be one.
    pub email_malformed: bool,
    /// A user with the email exists already.
    pub email_taken: bool,
    /// The password is too short.
    pub password_short: bool,
}

/// The email could not be taken: it belongs to a user already.
#[derive(Clone, Copy, Debug, PartialEq, Eq, Structural)]
pub struct EmailTaken;

impl EmailTaken {
    /// The code under which the broken rule is reported.
    pub fn code(&self) -> (text: &'static str)
        ensures
            text@ == "invalid_email"@,
    {
        "invalid_email"
    }
}

/// Whether some user among `users` has the email `email`.
pub open spec fn is_taken(users: Seq<User>, email: Seq<char>) -> bool {
    exists|i: int| 0 <= i < users.len() && (#[trigger] users[i]).email@ == email
}

/// Whether no two users among `users` share an email.
pub open spec fn emails_are_unique(users: Seq<User>) -> bool {
    forall|i: int, j: int|
        0 <= i < users.len() && 0 <= j < users.len() && (#[trigger] users[i]).email@ == (
        #[trigger] users[j]).email@ ==> i == j
}

/// Checks that `email` is free among the users `found` that the store holds
/// for it.
pub fn unique(found: &Vec<User>, email: &str) -> (res: Result<(), EmailTaken>)
    ensures
        res is Err <==> is_taken(found@, email@),
{
    let mut n: usize = 0;
    while n < found.len()
        invariant
            n <= found.len(),
            forall|i: int| 0 <= i < n ==> (#[trigger] found@[i]).email@ != email@,
        decreases found.len() - n,
    {
        if same_text(found[n].email.as_str(), email) {
            return Err(EmailTaken);
        }
        n = n + 1;
    }
    Ok(())
}

impl NewUserRequest {
    /// The rules that this body breaks among the users `found`.
    pub open spec fn errors(&self, found: Seq<User>) -> UserRequestErrors {
        UserRequestErrors {
            email_malformed: !email_is_readable(self.email@),
            email_taken: is_taken(found, self.email@),
            password_short: self.password@.len() < MIN_LENGTH,
        }
    }

    /// Checks the body against all rules, with the users `found` that the
    /// store holds for its email.
    pub fn validate(&self, found: &Vec<User>) -> (errors: UserRequestErrors)
        ensures
            errors == self.errors(found@),
            self.email@.len() == 0 || !self.email@.contains('@') ==> errors.email_malformed,
    {
        UserRequestErrors {
            email_malformed: !is_readable_email(self.email.as_str()),
            email_taken: unique(found, self.email.as_str()).is_err(),
            password_short: !has_min_length(self.password.as_str(), MIN_LENGTH),
        }
    }
}

impl UserRequestErrors {
    /// Whether no rule is broken.
    pub fn is_empty(&self) -> (ok: bool)
        ensures
            ok == (!self.email_malformed && !self.email_taken && !self.password_short),
    {
        !self.email_malformed && !self.email_taken && !self.password_short
    }
}

/// Adding a user whose email is free keeps the emails of all users distinct.
pub proof fn lemma_registration_keeps_emails_unique(users: Seq<User>, added: User)
    requires
        emails_are_unique(users),
        !is_taken(users, added.email@),
    ensures
        emails_are_unique(users.push(added)),
{
    let all = users.push(added);
    assert forall|i: int, j: int|
        0 <= i < all.len() && 0 <= j < all.len() && (#[trigger] all[i]).email@ == (
        #[trigger] all[j]).email@ implies i == j by {
        if i < users.len() && j < users.len() {
            assert(users[i].email@ == users[j].email@);
        } else if i < users.len() {
            assert(users[i].email@ == added.email@);
        } else if j < users.len() {
            assert(users[j].email@ == added.email@);
        }
    }
}

} // verus!
