//! The options a session is started with.

use vstd::prelude::*;

use crate::accumulator::Policy;

verus! {

/// The command line, once read.
pub struct Commands {
    /// A file to run in place of the interactive loop.
    pub file_path: Option<String>,
    /// Whether Enter cuts the line at the cursor.
    pub cut_input: bool,
}

impl Commands {
    /// The accumulation policy that the `cut_input` flag selects.
    pub fn policy(&self) -> (policy: Policy)
        ensures
            policy == (if self.cut_input {
                Policy::CutAtCursor
            } else {
                Policy::AppendAll
            }),
    {
        if self.cut_input {
            Policy::CutAtCursor
        } else {
            Policy::AppendAll
        }
    }
}

} // verus!
