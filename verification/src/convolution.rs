//! Pen polygons for stroking.

use vstd::prelude::*;

verus! {

/// The number of vertices of the polygon that approximates a pen tip, from
/// the estimate computed from the pen's width and the desired flatness: the
/// estimate itself when it is even and above 4, the next even number when it
/// is odd and above 4, and 4 (the fewest possible) otherwise.
pub fn vertex_count_from_estimate(estimate: i32) -> (res: i32)
    requires
        estimate < i32::MAX,
    ensures
        res == (if estimate > 4 {
            if estimate % 2 == 0 {
                estimate as int
            } else {
                estimate + 1
            }
        } else {
            4
        }),
        res >= 4,
        res % 2 == 0,
        res >= estimate,
        estimate > 4 ==> res <= estimate + 1,
{
    if estimate % 2 == 0 && estimate > 4 {
        estimate
    } else if estimate % 2 != 0 && estimate > 4 {
        estimate + 1
    } else {
        4
    }
}

} // verus!
