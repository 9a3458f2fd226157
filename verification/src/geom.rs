//! Plain 2D points and the coordinate ranges the engine works in.
//!
//! Every world or screen coordinate is an `i64` counting micro-pixels
//! (one millionth of a pixel), so a pixel value of `12.5` is stored as
//! `12_500_000`. The fine grain keeps every computation exact or far
//! inside a thousandth of a pixel, using only integer arithmetic.

use vstd::prelude::*;

verus! {

/// Largest magnitude, in micro-pixels, of any coordinate the camera
/// accepts: one billion pixels, far beyond any real canvas or tree.
pub const COORD_LIMIT: i64 = 1_000_000_000_000_000;

/// Largest magnitude, in micro-pixels, of a group anchor accepted at
/// load time: one million pixels. The real dataset stays within about
/// eleven thousand pixels of the origin.
pub const TREE_COORD_LIMIT: i64 = 1_000_000_000_000;

/// A point, in micro-pixels. Used for both world and screen space; the
/// camera maps between the two.
#[derive(Debug, PartialEq, Eq, Structural, Clone, Copy)]
pub struct Pos {
    pub x: i64,
    pub y: i64,
}

impl Pos {
    pub fn new(x: i64, y: i64) -> (p: Pos)
        ensures
            p.x == x,
            p.y == y,
    {
        Pos { x, y }
    }
}

/// An axis-aligned screen-space rectangle, corners in micro-pixels.
#[derive(Debug, PartialEq, Eq, Structural, Clone, Copy)]
pub struct ScreenRect {
    pub min: Pos,
    pub max: Pos,
}

/// Both coordinates within the camera's accepted range.
pub open spec fn in_coord_range(p: Pos) -> bool {
    -COORD_LIMIT <= p.x <= COORD_LIMIT && -COORD_LIMIT <= p.y <= COORD_LIMIT
}

/// Both coordinates within the range accepted for tree data.
pub open spec fn in_tree_range(x: int, y: int) -> bool {
    -TREE_COORD_LIMIT <= x <= TREE_COORD_LIMIT && -TREE_COORD_LIMIT <= y <= TREE_COORD_LIMIT
}

} // verus!
