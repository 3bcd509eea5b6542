//! The records of the service: users, their credentials and their todo items.

pub mod auth;
pub mod todo;
pub mod user;

use vstd::prelude::*;

verus! {

/// One page of a longer list, with what a client needs to ask for the others.
#[derive(Clone, Debug, PartialEq, Eq)]
pub struct Paginated<T> {
    /// The number of this page, counted from 1.
    pub page: u32,
    /// How many items a page holds at most.
    pub per_page: u32,
    /// How many items the whole list holds.
    pub total: u32,
    /// The number of the last page.
    pub last_page: u32,
    /// The items of this page.
    pub data: Vec<T>,
}

/// The store holds no record for what was asked.
#[derive(Clone, Copy, Debug, PartialEq, Eq, Structural)]
pub struct NotFound;

} // verus!
