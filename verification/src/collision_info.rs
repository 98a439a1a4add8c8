//! Outcome of probing one rectangle against the tile grid.

use vstd::prelude::*;

verus! {

/// Whether a probe rectangle touched a solid tile, and if so where.  The
/// reported position is the first solid tile of the query in row-major
/// order — the canonical collision contact, not necessarily the nearest
/// surface.  When nothing was hit, `row` and `col` are zero.
#[derive(Clone, Copy, Debug)]
pub struct CollisionInfo {
    pub collided: bool,
    pub row: i64,
    pub col: i64,
}

impl CollisionInfo {
    pub fn new(collided: bool, row: i64, col: i64) -> (info: CollisionInfo)
        ensures
            info.collided == collided,
            info.row == row,
            info.col == col,
    {
        CollisionInfo { collided, row, col }
    }
}

} // verus!
