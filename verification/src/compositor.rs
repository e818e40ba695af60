//! Image compositing operators.

use vstd::prelude::*;

verus! {

/// The compositing operators. Cairus supports `Over`, cairo's default.
#[derive(Debug, Clone, Copy, PartialEq, Eq, Structural)]
pub enum Operator {
    Over,
}

} // verus!
