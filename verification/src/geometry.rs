//! Axis-aligned box overlap, the one geometric primitive of the game.

use vstd::prelude::*;

verus! {

/// Magnitude of an integer.
pub open spec fn abs_val(v: int) -> int {
    if v < 0 { -v } else { v }
}

/// Two axis-aligned boxes, each given by its center and its size, overlap
/// iff their projections overlap strictly on both axes:
/// `|ax - bx| < (aw + bw) / 2` and likewise for y. Stated here with both
/// sides doubled so that it is exact over the integers.
pub open spec fn boxes_overlap(
    ax: int, ay: int, aw: int, ah: int,
    bx: int, by: int, bw: int, bh: int,
) -> bool {
    2 * abs_val(ax - bx) < aw + bw && 2 * abs_val(ay - by) < ah + bh
}

/// Overlap test between two axis-aligned boxes given by center and size.
/// Total: rotation of the sprite is purely visual and never affects the
/// hitbox.
pub fn is_colliding(
    ax: i64, ay: i64, aw: i64, ah: i64,
    bx: i64, by: i64, bw: i64, bh: i64,
) -> (r: bool)
    requires
        crate::fits(ax as int),
        crate::fits(ay as int),
        crate::fits(aw as int),
        crate::fits(ah as int),
        crate::fits(bx as int),
        crate::fits(by as int),
        crate::fits(bw as int),
        crate::fits(bh as int),
    ensures
        r == boxes_overlap(
            ax as int, ay as int, aw as int, ah as int,
            bx as int, by as int, bw as int, bh as int,
        ),
{
    let dx: i64 = if ax >= bx { ax - bx } else { bx - ax };
    let dy: i64 = if ay >= by { ay - by } else { by - ay };
    2 * dx < aw + bw && 2 * dy < ah + bh
}

} // verus!
