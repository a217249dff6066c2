//! Axis-aligned boxes on the grid: overlap with a clearance margin, and
//! containment of a point.

use vstd::prelude::*;

verus! {

/// Whether box `a` reaches into box `b` once `b` is widened by `padding` cells
/// on every side. Both boxes are half-open, so two boxes that do not overlap
/// are at least `padding` cells apart along one axis.
pub open spec fn boxes_overlap(
    a_pos: (u32, u32),
    a_size: (u32, u32),
    b_pos: (u32, u32),
    b_size: (u32, u32),
    padding: u32,
) -> bool {
    &&& a_pos.0 < b_pos.0 + b_size.0 + padding
    &&& b_pos.0 - padding < a_pos.0 + a_size.0
    &&& a_pos.1 < b_pos.1 + b_size.1 + padding
    &&& b_pos.1 - padding < a_pos.1 + a_size.1
}

/// Whether `point` lies in the half-open box at `pos` of extent `size`: a point
/// on the upper boundary is outside.
pub open spec fn box_contains(point: (u32, u32), pos: (u32, u32), size: (u32, u32)) -> bool {
    &&& pos.0 <= point.0 < pos.0 + size.0
    &&& pos.1 <= point.1 < pos.1 + size.1
}

/// Tests a candidate box `a` against the padded footprint of an existing box `b`.
pub fn aabb_overlaps(
    a_pos: (u32, u32),
    a_size: (u32, u32),
    b_pos: (u32, u32),
    b_size: (u32, u32),
    padding: u32,
) -> (hit: bool)
    ensures
        hit == boxes_overlap(a_pos, a_size, b_pos, b_size, padding),
{
    let pad: u64 = padding as u64;
    let a_left: u64 = a_pos.0 as u64;
    let a_right: u64 = a_pos.0 as u64 + a_size.0 as u64;
    let b_left: u64 = b_pos.0 as u64;
    let b_right: u64 = b_pos.0 as u64 + b_size.0 as u64;
    let a_bottom: u64 = a_pos.1 as u64;
    let a_top: u64 = a_pos.1 as u64 + a_size.1 as u64;
    let b_bottom: u64 = b_pos.1 as u64;
    let b_top: u64 = b_pos.1 as u64 + b_size.1 as u64;
    a_left < b_right + pad && b_left < a_right + pad && a_bottom < b_top + pad && b_bottom < a_top
        + pad
}

/// Tests whether `point` lies in the half-open box at `pos` of extent `size`.
pub fn point_in_box(point: (u32, u32), pos: (u32, u32), size: (u32, u32)) -> (inside: bool)
    ensures
        inside == box_contains(point, pos, size),
{
    let x: u64 = point.0 as u64;
    let y: u64 = point.1 as u64;
    pos.0 <= point.0 && x < pos.0 as u64 + size.0 as u64 && pos.1 <= point.1 && y < pos.1 as u64
        + size.1 as u64
}

/// The padded overlap test does not depend on which of the two boxes is taken
/// as the candidate.
pub proof fn lemma_overlap_symmetric(
    a_pos: (u32, u32),
    a_size: (u32, u32),
    b_pos: (u32, u32),
    b_size: (u32, u32),
    padding: u32,
)
    ensures
        boxes_overlap(a_pos, a_size, b_pos, b_size, padding) == boxes_overlap(
            b_pos,
            b_size,
            a_pos,
            a_size,
            padding,
        ),
{
}

/// Two boxes do not overlap exactly when at least `padding` cells lie between
/// them along the first axis or along the second.
pub proof fn lemma_clearance(
    a_pos: (u32, u32),
    a_size: (u32, u32),
    b_pos: (u32, u32),
    b_size: (u32, u32),
    padding: u32,
)
    ensures
        !boxes_overlap(a_pos, a_size, b_pos, b_size, padding) <==> {
            ||| a_pos.0 + a_size.0 + padding <= b_pos.0
            ||| b_pos.0 + b_size.0 + padding <= a_pos.0
            ||| a_pos.1 + a_size.1 + padding <= b_pos.1
            ||| b_pos.1 + b_size.1 + padding <= a_pos.1
        },
{
}

} // verus!
