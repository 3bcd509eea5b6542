//! Marking an item as not done.

use crate::models::todo::{Todo, TodoUpdate};
use crate::models::user::User;
use crate::models::NotFound;
use crate::routes::todos::{authorize_change, change_of, changed};
use crate::routes::BAD_REQUEST;
use vstd::prelude::*;

verus! {

/// Decides on the request of `auth` to mark the item `found` as not done: the
/// update to run, or the status to answer with.
pub fn handle(auth: &User, found: &Result<Todo, NotFound>) -> (res: Result<TodoUpdate, u16>)
    ensures
        match res {
            Ok(update) => change_of(auth.id@, *found, false) == Ok::<(Seq<char>, bool), u16>(
                (update.id@, update.checked),
            ),
            Err(status) => change_of(auth.id@, *found, false) == Err::<(Seq<char>, bool), u16>(
                status,
            ),
        },
{
    authorize_change(auth, found, false)
}

/// The answer after the update: the item, now not done, or `BAD_REQUEST`.
pub fn respond(todo: Todo, outcome: Result<bool, NotFound>) -> (res: Result<Todo, u16>)
    ensures
        match outcome {
            Ok(_) => res matches Ok(shown) && shown.id == todo.id && shown.user_id == todo.user_id
                && shown.content == todo.content && !shown.checked,
            Err(_) => res == Err::<Todo, u16>(BAD_REQUEST),
        },
{
    changed(todo, outcome, false)
}

} // verus!
