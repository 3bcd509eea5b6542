//! The two services the rest of the crate relies on: one for stored passwords,
//! one for signed tokens.

pub mod hasher;
pub mod jwt;
