//! Status codes reported by path and context operations.

use vstd::prelude::*;

verus! {

/// The outcome of a drawing operation, after cairo's `cairo_status_t`.
#[derive(Debug, Clone, Copy, PartialEq, Eq, Structural)]
pub enum Status {
    Success,
    NoMemory,
    InvalidRestore,
    InvalidPopGroup,
    NoCurrentPoint,
    InvalidMatrix,
    InvalidStatus,
    NullPointer,
    InvalidString,
    InvalidPathData,
}

impl Status {
    /// True exactly for `Status::Success`.
    pub fn is_success(&self) -> (res: bool)
        ensures
            res <==> *self == Status::Success,
    {
        match self {
            Status::Success => true,
            _ => false,
        }
    }
}

} // verus!
