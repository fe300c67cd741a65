//! What the library reads of a failed database call.

use vstd::prelude::*;
use crate::text::{contains_text, str_contains};

verus! {

/// A failed database call: the error's full text, and, when the failure
/// came from executing a statement, the text of the execution error.
#[derive(Debug, Clone, PartialEq, Eq)]
pub struct DbFailure {
    pub message: String,
    pub exec_message: Option<String>,
}

impl DbFailure {
    /// The statement failed and its execution error mentions `needle`.
    pub open spec fn exec_mentions(&self, needle: Seq<char>) -> bool {
        self.exec_message matches Some(t) && contains_text(t@, needle)
    }

    /// Whether the statement failed with an execution error that mentions
    /// `needle` (`UNIQUE` or `FOREIGN KEY`, say).
    pub fn exec_error_mentions(&self, needle: &str) -> (r: bool)
        ensures
            r == self.exec_mentions(needle@),
    {
        match &self.exec_message {
            Some(t) => str_contains(t.as_str(), needle),
            None => false,
        }
    }
}

} // verus!
