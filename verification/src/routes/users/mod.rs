//! The routes for users.

pub mod index;
