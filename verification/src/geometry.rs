//! 2D points, rectangle half-extents and the cursor hit-test.

use vstd::prelude::*;

verus! {

/// A point (or a delta) in world space, in integer world units.
#[derive(Clone, Copy, Debug, PartialEq, Eq, Structural)]
pub struct Point {
    pub x: i64,
    pub y: i64,
}

/// Half-extents of an axis-aligned rectangle: the rectangle centered at `c`
/// with half-size `h` spans `[c.x - h.x, c.x + h.x]` by `[c.y - h.y, c.y + h.y]`.
#[derive(Clone, Copy, Debug, PartialEq, Eq, Structural)]
pub struct HalfSize {
    pub x: i64,
    pub y: i64,
}

impl HalfSize {
    /// A rectangle has nonnegative half-extents.
    pub open spec fn wf(self) -> bool {
        self.x >= 0 && self.y >= 0
    }
}

/// The cursor at `p` lies within the closed rectangle centered at `center`
/// with half-extents `half`.
pub open spec fn spec_contains(p: Point, center: Point, half: HalfSize) -> bool {
    &&& center.x - half.x <= p.x <= center.x + half.x
    &&& center.y - half.y <= p.y <= center.y + half.y
}

/// Decide whether the point `p` lies within the closed axis-aligned rectangle
/// given by its center and half-extents. Boundary points count as inside.
pub fn contains(p: Point, center: Point, half: HalfSize) -> (r: bool)
    ensures
        r == spec_contains(p, center, half),
{
    let left: i128 = center.x as i128 - half.x as i128;
    let right: i128 = center.x as i128 + half.x as i128;
    let top: i128 = center.y as i128 - half.y as i128;
    let bottom: i128 = center.y as i128 + half.y as i128;
    let inside_horizontal = p.x as i128 >= left && p.x as i128 <= right;
    let inside_vertical = p.y as i128 >= top && p.y as i128 <= bottom;
    inside_horizontal && inside_vertical
}

/// The hit-test against a sprite that may lack a declared size: absence of a
/// size means the sprite is never hit.
pub open spec fn spec_sprite_contains(p: Point, center: Point, size: Option<HalfSize>) -> bool {
    match size {
        Some(half) => spec_contains(p, center, half),
        None => false,
    }
}

/// Decide whether the cursor at `p` is over a sprite at `center` whose
/// declared size is `size`; a sprite without a declared size is never hit.
pub fn sprite_contains(p: Point, center: Point, size: &Option<HalfSize>) -> (r: bool)
    ensures
        r == spec_sprite_contains(p, center, *size),
{
    match size {
        Some(half) => contains(p, center, *half),
        None => false,
    }
}

/// The hit-test includes the rectangle's boundary: each of the four corners
/// of a rectangle with nonnegative half-extents is itself contained.
pub proof fn lemma_contains_corners(center: Point, half: HalfSize)
    requires
        half.wf(),
    ensures
        forall|p: Point|
            (p.x == center.x - half.x || p.x == center.x + half.x) && (p.y == center.y - half.y
                || p.y == center.y + half.y) ==> spec_contains(p, center, half),
{
}

} // verus!
