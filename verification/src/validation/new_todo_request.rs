//! The rule for the body of a request for a new item.

use crate::validation::{has_min_length, MIN_LENGTH};
use vstd::prelude::*;

verus! {

/// The body of a request for a new item, before it is accepted.
#[derive(Clone, Debug, PartialEq, Eq)]
pub struct NewTodoRequest {
    pub content: Option<String>,
}

impl NewTodoRequest {
    /// A body is valid when it names no content, or content of at least
    /// `MIN_LENGTH` characters.
    pub open spec fn valid(&self) -> bool {
        self.content matches Some(c) ==> c@.len() >= MIN_LENGTH
    }

    /// Whether the body is valid.
    pub fn validate(&self) -> (ok: bool)
        ensures
            ok == self.valid(),
    {
        match &self.content {
            Some(c) => has_min_length(c.as_str(), MIN_LENGTH),
            None => true,
        }
    }
}

} // verus!
