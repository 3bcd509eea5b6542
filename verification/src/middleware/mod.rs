//! What stands between a request and a protected route.

pub mod auth;
