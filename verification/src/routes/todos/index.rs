//! Listing the items of the principal, page by page.

use crate::models::todo::Todo;
use crate::models::Paginated;
use crate::routes::BAD_REQUEST;
use crate::DEFAULT_PER_PAGE;
use vstd::prelude::*;

verus! {

/// The query of a request for a page of items. Every part may be missing.
#[derive(Clone, Copy, Debug, PartialEq, Eq, Structural)]
pub struct PaginatedTodoRequest {
    pub page: Option<u32>,
    pub per_page: Option<u32>,
    pub checked: Option<bool>,
}

/// What to list: which page, of which size, of the items with which flag.
#[derive(Clone, Copy, Debug, PartialEq, Eq, Structural)]
pub struct Listing {
    pub page: u32,
    pub per_page: u32,
    pub checked: bool,
}

/// What a query asks to list: the first page, `DEFAULT_PER_PAGE` items and
/// the items not done, where the query does not say otherwise.
pub fn handle(query: &PaginatedTodoRequest) -> (listing: Listing)
    ensures
        listing.page == match query.page {
            Some(n) => n,
            None => 1,
        },
        listing.per_page == match query.per_page {
            Some(n) => n,
            None => DEFAULT_PER_PAGE,
        },
        listing.checked == match query.checked {
            Some(c) => c,
            None => false,
        },
{
    let page = match query.page {
        Some(n) => n,
        None => 1,
    };
    let per_page = match query.per_page {
        Some(n) => n,
        None => DEFAULT_PER_PAGE,
    };
    let checked = match query.checked {
        Some(c) => c,
        None => false,
    };
    Listing { page, per_page, checked }
}

/// The answer from what the store gave: the page, or `BAD_REQUEST` where the
/// rows could not be loaded.
pub fn respond(paginated: Option<Paginated<Todo>>) -> (res: Result<Paginated<Todo>, u16>)
    ensures
        res == match paginated {
            Some(page) => Ok::<Paginated<Todo>, u16>(page),
            None => Err::<Paginated<Todo>, u16>(BAD_REQUEST),
        },
{
    match paginated {
        Some(page) => Ok(page),
        None => Err(BAD_REQUEST),
    }
}

} // verus!
