//! Image output formats.

use vstd::prelude::*;

verus! {

/// The supported image outputs.
#[derive(Debug, Clone, Copy, PartialEq, Eq, Structural)]
pub enum ImageType {
    PNG,
}

} // verus!
