//! What the process holds for all requests.

pub mod app;
