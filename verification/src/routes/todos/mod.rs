//! The routes for todo items. All of them are protected by the guard.

pub mod check;
pub mod index;
pub mod store;
pub mod uncheck;

use crate::models::todo::{is_owner, owns, Todo, TodoUpdate};
use crate::models::user::User;
use crate::models::NotFound;
use crate::routes::{BAD_REQUEST, FORBIDDEN, NOT_FOUND};
use vstd::prelude::*;

verus! {

/// What changing the `checked` flag of an item to `value` comes to, for the
/// principal `auth` and the item `found` that the store holds under the id of
/// the request: the update to run, or the status to answer with at once.
///
/// An item that does not exist gives `NOT_FOUND`. An item of another user
/// gives `FORBIDDEN`, and then nothing is handed to the store.
pub open spec fn change_of(auth: Seq<char>, found: Result<Todo, NotFound>, value: bool) -> Result<
    (Seq<char>, bool),
    u16,
> {
    match found {
        Err(_) => Err(NOT_FOUND),
        Ok(todo) => if is_owner(auth, todo.user_id@) {
            Ok((todo.id@, value))
        } else {
            Err(FORBIDDEN)
        },
    }
}

/// Decides on a change of the `checked` flag of an item to `value`.
pub fn authorize_change(auth: &User, found: &Result<Todo, NotFound>, value: bool) -> (res: Result<
    TodoUpdate,
    u16,
>)
    ensures
        match res {
            Ok(update) => change_of(auth.id@, *found, value) == Ok::<(Seq<char>, bool), u16>(
                (update.id@, update.checked),
            ),
            Err(status) => change_of(auth.id@, *found, value) == Err::<(Seq<char>, bool), u16>(
                status,
            ),
        },
{
    match found {
        Err(_) => Err(NOT_FOUND),
        Ok(todo) => if owns(auth, todo) {
            if value {
                Ok(todo.check())
            } else {
                Ok(todo.uncheck())
            }
        } else {
            Err(FORBIDDEN)
        },
    }
}

/// The answer after the store ran the update: the item with its new flag and
/// status 200, or `BAD_REQUEST` where the update reached no row.
pub fn changed(todo: Todo, outcome: Result<bool, NotFound>, value: bool) -> (res: Result<Todo, u16>)
    ensures
        match outcome {
            Ok(_) => res matches Ok(shown) && shown.id == todo.id && shown.user_id == todo.user_id
                && shown.content == todo.content && shown.checked == value,
            Err(_) => res == Err::<Todo, u16>(BAD_REQUEST),
        },
{
    match outcome {
        Ok(_) => {
            let mut shown = todo;
            shown.checked = value;
            Ok(shown)
        },
        Err(_) => Err(BAD_REQUEST),
    }
}

/// No user changes an item of another user: whatever the item and the value,
/// the answer is `FORBIDDEN` and no update is made.
pub proof fn lemma_only_the_owner_changes(auth: Seq<char>, todo: Todo, value: bool)
    requires
        auth != todo.user_id@,
    ensures
        change_of(auth, Ok(todo), value) == Err::<(Seq<char>, bool), u16>(FORBIDDEN),
{
}

} // verus!
