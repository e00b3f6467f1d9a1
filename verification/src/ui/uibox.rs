//! Placement helpers for boxed widgets.

use vstd::prelude::*;
use crate::ui::dims::UiDims;

verus! {

/// Half of `d`, rounded toward zero, as Rust's signed division computes it.
pub open spec fn spec_half_toward_zero(d: int) -> int {
    if d >= 0 {
        d / 2
    } else {
        -((-d) / 2)
    }
}

/// The top-left corner that centers a box of `box_size` inside a container
/// of `container_size`: half the slack on each axis, rounded toward zero. A
/// box larger than its container yields a negative offset.
pub fn box_center(container_size: UiDims, box_size: UiDims) -> (r: UiDims)
    requires
        i32::MIN <= container_size.x - box_size.x <= i32::MAX,
        i32::MIN <= container_size.y - box_size.y <= i32::MAX,
    ensures
        r.x == spec_half_toward_zero(container_size.x - box_size.x),
        r.y == spec_half_toward_zero(container_size.y - box_size.y),
{
    let x = half_toward_zero(container_size.x - box_size.x);
    let y = half_toward_zero(container_size.y - box_size.y);
    UiDims { x, y }
}

/// Half of `d`, rounded toward zero.
fn half_toward_zero(d: i32) -> (r: i32)
    ensures
        r == spec_half_toward_zero(d as int),
{
    if d >= 0 {
        ((d as u32) / 2) as i32
    } else {
        let m = (-(d as i64)) as u64;
        let q = (m / 2) as i32;
        -q
    }
}

} // verus!
