//! The authentication and authorization core of a small multi-user todo-list
//! service: password hashing, signed time-limited tokens, the guard in front of
//! protected routes and the ownership rule for todo items.
//!
//! Everything here works on plain values. Reading the environment, talking to
//! the database and serving HTTP are left to the program around the library.

pub mod middleware;
pub mod models;
pub mod routes;
pub mod text;
pub mod services;
pub mod state;
pub mod validation;

use vstd::prelude::*;

verus! {

/// How many items a page of a list holds where the request does not say.
pub const DEFAULT_PER_PAGE: u32 = 15;

} // verus!
