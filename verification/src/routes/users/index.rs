//! The principal's own record, with the principal's items.

use crate::models::user::{todo_of_row, UserTodoRow, UserWithTodo};
use crate::routes::BAD_REQUEST;
use vstd::prelude::*;

verus! {

/// The answer from the rows that the store holds for the principal: the user
/// with the items, or `BAD_REQUEST` where the rows could not be loaded or
/// there is none.
pub fn handle(rows: Option<Vec<UserTodoRow>>) -> (res: Result<UserWithTodo, u16>)
    ensures
        match rows {
            Some(rows) => {
                &&& rows@.len() == 0 <==> res is Err
                &&& res matches Ok(user) ==> {
                    &&& user.id@ == rows@[0].user_id@
                    &&& user.email@ == rows@[0].email@
                    &&& user.todos@.len() == rows@.len()
                    &&& forall|i: int|
                        0 <= i < rows@.len() ==> (#[trigger] user.todos@[i])@ == todo_of_row(
                            rows@[i]@,
                        )
                }
            },
            None => res is Err,
        },
        res matches Err(status) ==> status == BAD_REQUEST,
{
    match rows {
        Some(rows) => match UserWithTodo::show(&rows) {
            Ok(user) => Ok(user),
            Err(_) => Err(BAD_REQUEST),
        },
        None => Err(BAD_REQUEST),
    }
}

} // verus!
