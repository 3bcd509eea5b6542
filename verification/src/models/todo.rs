//! Todo items and the rule of who may change them.
//!
//! The store runs the queries. This module says which rows to ask for, what a
//! row count means and which of the rows handed back belong to whom.

use crate::models::user::User;
use crate::models::{NotFound, Paginated};
use crate::text::same_text;
use vstd::prelude::*;

verus! {

/// A todo item as contracts see it.
pub struct TodoView {
    pub id: Seq<char>,
    pub user_id: Seq<char>,
    pub content: Seq<char>,
    pub checked: bool,
}

/// A todo item. `user_id` is the id of the user who owns it.
#[derive(Clone, Debug, PartialEq, Eq)]
pub struct Todo {
    pub id: String,
    pub user_id: String,
    pub content: String,
    pub checked: bool,
}

impl View for Todo {
    type V = TodoView;

    open spec fn view(&self) -> TodoView {
        TodoView {
            id: self.id@,
            user_id: self.user_id@,
            content: self.content@,
            checked: self.checked,
        }
    }
}

/// What it takes to create a todo item: its owner and its content.
#[derive(Clone, Debug, PartialEq, Eq)]
pub struct NewTodo {
    pub user_id: String,
    pub content: String,
}

/// A change of the `checked` flag of one todo item, for the store to run.
#[derive(Clone, Debug, PartialEq, Eq)]
pub struct TodoUpdate {
    /// The id of the item to change.
    pub id: String,
    /// The value that its flag gets.
    pub checked: bool,
}

/// The rows of a list to load for one page.
#[derive(Clone, Copy, Debug, PartialEq, Eq, Structural)]
pub struct PageWindow {
    /// How many rows to skip.
    pub offset: i64,
    /// How many rows to load at most.
    pub limit: i64,
}

/// The ownership rule: a user owns a todo item exactly when the item's
/// `user_id` is the user's id.
pub open spec fn is_owner(principal: Seq<char>, owner: Seq<char>) -> bool {
    principal == owner
}

/// Whether `principal` owns `resource`. Only the owner may change an item.
pub fn owns(principal: &User, resource: &Todo) -> (yes: bool)
    ensures
        yes == is_owner(principal.id@, resource.user_id@),
{
    same_text(principal.id.as_str(), resource.user_id.as_str())
}

/// How many items a count of the store stands for: none where the count
/// failed.
pub open spec fn counted_total(counted: Option<i64>) -> int {
    match counted {
        Some(n) => n as int,
        None => 0,
    }
}

/// The rows of `rows` whose owner is `owner`, in their order.
pub open spec fn owned_by(rows: Seq<Todo>, owner: Seq<char>) -> Seq<Todo> {
    rows.filter(|t: Todo| t.user_id@ == owner)
}

impl Todo {
    /// A copy of this item, field for field.
    pub fn duplicate(&self) -> (copy: Todo)
        ensures
            copy == *self,
    {
        Todo {
            id: self.id.clone(),
            user_id: self.user_id.clone(),
            content: self.content.clone(),
            checked: self.checked,
        }
    }

    /// The rows to load for page `page` of a list that the store counted as
    /// `counted`: none where the list is empty or the count failed.
    ///
    /// Pages are counted from 1 and hold at least one item.
    pub fn page_window(page: u32, per_page: u32, counted: Option<i64>) -> (window: Option<
        PageWindow,
    >)
        requires
            counted_total(counted) > 0 ==> page >= 1 && per_page >= 1 && (page - 1) * per_page
                <= u32::MAX,
        ensures
            window == if counted_total(counted) > 0 {
                Some(PageWindow { offset: ((page - 1) * per_page) as i64, limit: per_page as i64 })
            } else {
                None::<PageWindow>
            },
    {
        let total: i64 = match counted {
            Some(n) => n,
            None => 0,
        };
        if total > 0 {
            assert((page - 1) * per_page <= u32::MAX);
            let skip: u32 = (page - 1) * per_page;
            Some(PageWindow { offset: skip as i64, limit: per_page as i64 })
        } else {
            None
        }
    }

    /// Page `page` of a list that the store counted as `counted`, with the
    /// rows `loaded` for its window.
    ///
    /// An empty list has one page, the empty one. The total is kept in 32
    /// bits, and the number of the last page is the total divided by the size
    /// of a page, rounded down.
    pub fn paginated(page: u32, per_page: u32, counted: Option<i64>, loaded: Vec<Todo>) -> (res:
        Paginated<Todo>)
        requires
            counted_total(counted) > 0 ==> per_page >= 1,
        ensures
            res.page == page,
            res.per_page == per_page,
            res.total == counted_total(counted) as u32,
            counted_total(counted) > 0 ==> res.last_page == res.total / per_page && res.data
                == loaded,
            counted_total(counted) <= 0 ==> res.last_page == 1 && res.data@.len() == 0,
    {
        let total: i64 = match counted {
            Some(n) => n,
            None => 0,
        };
        let total_kept: u32 = #[verifier::truncate]
        (total as u32);
        if total > 0 {
            Paginated {
                page,
                per_page,
                total: total_kept,
                last_page: total_kept / per_page,
                data: loaded,
            }
        } else {
            Paginated { page, per_page, total: total_kept, last_page: 1, data: Vec::new() }
        }
    }

    /// The item among the rows that the store found for one id: the last of
    /// them, or `NotFound` where there is none.
    pub fn show(rows: Vec<Todo>) -> (res: Result<Todo, NotFound>)
        ensures
            rows@.len() == 0 ==> res == Err::<Todo, NotFound>(NotFound),
            rows@.len() > 0 ==> res == Ok::<Todo, NotFound>(rows@.last()),
    {
        let mut rows = rows;
        match rows.pop() {
            Some(todo) => Ok(todo),
            None => Err(NotFound),
        }
    }

    /// The rows that belong to the user `user_id`, in their order. No item of
    /// another user passes.
    pub fn users(rows: &Vec<Todo>, user_id: &str) -> (own: Vec<Todo>)
        ensures
            own@ == owned_by(rows@, user_id@),
            forall|i: int| 0 <= i < own@.len() ==> is_owner(user_id@, (#[trigger] own@[i]).user_id@),
    {
        let mut own: Vec<Todo> = Vec::new();
        let mut n: usize = 0;
        proof {
            reveal(Seq::filter);
            assert(rows@.take(0) =~= Seq::<Todo>::empty());
        }
        while n < rows.len()
            invariant
                n <= rows.len(),
                own@ == owned_by(rows@.take(n as int), user_id@),
                forall|i: int|
                    0 <= i < own@.len() ==> is_owner(user_id@, (#[trigger] own@[i]).user_id@),
            decreases rows.len() - n,
        {
            proof {
                reveal(Seq::filter);
                let longer = rows@.take(n as int + 1);
                assert(longer.drop_last() =~= rows@.take(n as int));
                assert(longer.last() == rows@[n as int]);
            }
            if same_text(rows[n].user_id.as_str(), user_id) {
                own.push(rows[n].duplicate());
            }
            n = n + 1;
        }
        assert(rows@.take(n as int) =~= rows@);
        own
    }

    /// The update that marks this item as done.
    pub fn check(&self) -> (update: TodoUpdate)
        ensures
            update.id@ == self.id@,
            update.checked,
    {
        TodoUpdate { id: self.id.clone(), checked: true }
    }

    /// The update that marks this item as not done.
    pub fn uncheck(&self) -> (update: TodoUpdate)
        ensures
            update.id@ == self.id@,
            !update.checked,
    {
        TodoUpdate { id: self.id.clone(), checked: false }
    }

    /// What an update that changed `updated` rows means: success where it
    /// reached a row, `NotFound` where it reached none.
    pub fn check_as(updated: usize) -> (res: Result<bool, NotFound>)
        ensures
            res == if updated > 0 {
                Ok::<bool, NotFound>(true)
            } else {
                Err::<bool, NotFound>(NotFound)
            },
    {
        if updated > 0 {
            Ok(true)
        } else {
            Err(NotFound)
        }
    }
}

impl NewTodo {
    /// The values for a new item of the user `user_id`.
    pub fn create(user_id: &str, content: &str) -> (values: NewTodo)
        ensures
            values.user_id@ == user_id@,
            values.content@ == content@,
    {
        NewTodo { content: content.to_owned(), user_id: user_id.to_owned() }
    }
}

} // verus!
