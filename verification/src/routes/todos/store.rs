//! Creating an item for the principal.

use crate::models::todo::{NewTodo, Todo};
use crate::models::user::User;
use crate::routes::BAD_REQUEST;
use vstd::prelude::*;

verus! {

/// The body of a request for a new item.
#[derive(Clone, Debug, PartialEq, Eq)]
pub struct NewTodoRequest {
    pub content: Option<String>,
}

/// The content that a request asks for: empty where it names none.
pub open spec fn content_of(data: &NewTodoRequest) -> Seq<char> {
    match data.content {
        Some(c) => c@,
        None => Seq::empty(),
    }
}

/// The values of the item to create. Its owner is the principal, whatever
/// the request says.
pub fn handle(auth: &User, data: &NewTodoRequest) -> (values: NewTodo)
    ensures
        values.user_id@ == auth.id@,
        values.content@ == content_of(data),
{
    match &data.content {
        Some(c) => auth.add_todo(c.as_str()),
        None => {
            proof {
                reveal_strlit("");
            }
            auth.add_todo("")
        },
    }
}

/// The answer from what the store made of it: the new item, or `BAD_REQUEST`.
pub fn respond(created: Option<Todo>) -> (res: Result<Todo, u16>)
    ensures
        res == match created {
            Some(todo) => Ok::<Todo, u16>(todo),
            None => Err::<Todo, u16>(BAD_REQUEST),
        },
{
    match created {
        Some(todo) => Ok(todo),
        None => Err(BAD_REQUEST),
    }
}

} // verus!
