//! Registration and login.

pub mod login;
pub mod register;
