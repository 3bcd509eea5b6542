//! Users: the durable record of a registered identity.

use crate::models::todo::{NewTodo, Todo, TodoView};
use crate::models::NotFound;
use crate::services::hasher::{
    cost_in_hash, hash, password_matches, HashingError, HASH_LENGTH, MAX_COST, MIN_COST,
};
use crate::services::jwt::{generate, identity_of_claims, issued_as, Claims};
use vstd::prelude::*;

verus! {

/// A user as contracts see it: the text of each field.
pub struct UserView {
    pub id: Seq<char>,
    pub email: Seq<char>,
    pub password: Seq<char>,
}

/// A registered user. `password` holds the hash of the password, never the
/// password itself, and is empty in an identity that was read from a token.
#[derive(Clone, Debug, PartialEq, Eq)]
pub struct User {
    pub id: String,
    pub email: String,
    pub password: String,
}

impl View for User {
    type V = UserView;

    open spec fn view(&self) -> UserView {
        UserView { id: self.id@, email: self.email@, password: self.password@ }
    }
}

/// What of a user is shown to the outside: the id and the email, never the
/// hash of the password.
#[derive(Clone, Debug, PartialEq, Eq)]
pub struct PublicUser {
    pub id: String,
    pub email: String,
}

/// Calls `uuid::Uuid::new_v4` and writes the random id as text.
///
/// Claimed of it: only that the text is 36 characters long, the hyphenated
/// form in which a `Uuid` displays itself.
#[verifier::external_body]
fn fresh_id() -> (id: String)
    ensures
        id@.len() == 36,
{
    uuid::Uuid::new_v4().to_string()
}

impl User {
    /// A new user with a fresh random id.
    pub fn new(email: String, hashed_password: String) -> (user: User)
        ensures
            user.email@ == email@,
            user.password@ == hashed_password@,
            user.id@.len() == 36,
    {
        User { id: fresh_id(), email, password: hashed_password }
    }

    /// What of this user is written into a response. The hash of the password
    /// is left out.
    pub fn serialize(&self) -> (shown: PublicUser)
        ensures
            shown.id@ == self.id@,
            shown.email@ == self.email@,
    {
        PublicUser { id: self.id.clone(), email: self.email.clone() }
    }

    /// The values for a new todo item of this user.
    pub fn add_todo(&self, todo_content: &str) -> (values: NewTodo)
        ensures
            values.user_id@ == self.id@,
            values.content@ == todo_content@,
    {
        NewTodo::create(self.id.as_str(), todo_content)
    }

    /// Issues a token for this user at the present time, signed with `secret`
    /// and valid for `lifetime` seconds.
    pub fn generate_jwt(&self, secret: &str, lifetime: i64) -> (token: String)
        ensures
            exists|now: int|
                0 <= now <= i64::MAX && #[trigger] issued_as(
                    token@,
                    self@,
                    secret@,
                    lifetime as int,
                    now,
                ),
    {
        generate(self, secret, lifetime)
    }

    /// The identity that a set of verified claims stands for: id and email from
    /// the claims. The password is left empty: a token never carries one.
    pub fn from_jwt(claims: &Claims) -> (user: User)
        ensures
            user@ == identity_of_claims(claims@),
            user.id@ == claims.sub@,
            user.email@ == claims.email@,
            user.password@.len() == 0,
    {
        User { id: claims.sub.clone(), email: claims.email.clone(), password: String::new() }
    }

    /// A copy of this user, field for field.
    pub fn duplicate(&self) -> (copy: User)
        ensures
            copy == *self,
    {
        User { id: self.id.clone(), email: self.email.clone(), password: self.password.clone() }
    }
}

/// A user together with that user's todo items.
#[derive(Clone, Debug, PartialEq, Eq)]
pub struct UserWithTodo {
    pub id: String,
    pub email: String,
    pub todos: Vec<Todo>,
}

/// One row of the join of a user with the user's todo items, as contracts see
/// it.
pub struct UserTodoRowView {
    pub id: Seq<char>,
    pub email: Seq<char>,
    pub content: Seq<char>,
    pub checked: bool,
    pub user_id: Seq<char>,
}

/// One row of the join of a user with the user's todo items: `id`, `content`
/// and `checked` are the item's, `user_id` and `email` the user's.
#[derive(Clone, Debug, PartialEq, Eq)]
pub struct UserTodoRow {
    pub id: String,
    pub email: String,
    pub content: String,
    pub checked: bool,
    pub user_id: String,
}

impl View for UserTodoRow {
    type V = UserTodoRowView;

    open spec fn view(&self) -> UserTodoRowView {
        UserTodoRowView {
            id: self.id@,
            email: self.email@,
            content: self.content@,
            checked: self.checked,
            user_id: self.user_id@,
        }
    }
}

/// The todo item that a row of the join holds.
pub open spec fn todo_of_row(row: UserTodoRowView) -> TodoView {
    TodoView { id: row.id, user_id: row.user_id, content: row.content, checked: row.checked }
}

impl UserWithTodo {
    /// Puts the rows of the join for one user together: the user from the
    /// first row, one todo item from each row, in their order. `NotFound`
    /// where there is no row.
    pub fn show(rows: &Vec<UserTodoRow>) -> (res: Result<UserWithTodo, NotFound>)
        ensures
            rows@.len() == 0 <==> res is Err,
            res matches Ok(user) ==> {
                &&& user.id@ == rows@[0].user_id@
                &&& user.email@ == rows@[0].email@
                &&& user.todos@.len() == rows@.len()
                &&& forall|i: int|
                    0 <= i < rows@.len() ==> (#[trigger] user.todos@[i])@ == todo_of_row(
                        rows@[i]@,
                    )
            },
    {
        if rows.len() == 0 {
            return Err(NotFound);
        }
        let mut todos: Vec<Todo> = Vec::new();
        let mut n: usize = 0;
        while n < rows.len()
            invariant
                n <= rows.len(),
                todos@.len() == n,
                forall|i: int| 0 <= i < n ==> (#[trigger] todos@[i])@ == todo_of_row(rows@[i]@),
            decreases rows.len() - n,
        {
            let row = &rows[n];
            todos.push(
                Todo {
                    id: row.id.clone(),
                    user_id: row.user_id.clone(),
                    content: row.content.clone(),
                    checked: row.checked,
                },
            );
            n = n + 1;
        }
        Ok(UserWithTodo { id: rows[0].user_id.clone(), email: rows[0].email.clone(), todos })
    }
}

/// What it takes to create a user: the email and the hash of the password.
#[derive(Clone, Debug, PartialEq, Eq)]
pub struct NewUser {
    pub email: String,
    pub password: String,
}

impl NewUser {
    /// The values for a new user with `email` from the outcome of hashing the
    /// password: the email and the hash as they are, or the error of the
    /// hashing.
    pub fn with_hash(email: &str, hashed: Result<String, HashingError>) -> (res: Result<
        NewUser,
        HashingError,
    >)
        ensures
            match hashed {
                Ok(hashed_password) => res matches Ok(values) && values.email@ == email@
                    && values.password == hashed_password,
                Err(e) => res matches Err(same) && same == e,
            },
    {
        match hashed {
            Ok(hashed_password) => Ok(
                NewUser { email: email.to_owned(), password: hashed_password },
            ),
            Err(e) => Err(e),
        }
    }

    /// The values for a new user with `email`, whose `password` is hashed
    /// with the work factor `cost`. The password itself is not kept: what is
    /// kept is a hash that matches it and records the work factor.
    ///
    /// Fails where the hashing fails: for a work factor outside
    /// `MIN_COST..=MAX_COST` and for a password with a NUL character in it, at
    /// least.
    pub fn create(email: &str, password: &str, cost: u32) -> (res: Result<NewUser, HashingError>)
        ensures
            res matches Ok(values) ==> {
                &&& values.email@ == email@
                &&& values.password@.len() == HASH_LENGTH
                &&& password_matches(password@, values.password@)
                &&& cost_in_hash(values.password@) == cost
            },
            cost < MIN_COST || cost > MAX_COST ==> res is Err,
            password@.contains('\0') ==> res is Err,
    {
        NewUser::with_hash(email, hash(password, cost))
    }
}

} // verus!
