//! Points on the ground plane, in whole world units.
use vstd::prelude::*;

verus! {

/// A point on the ground plane.
#[derive(Clone, Copy, Debug, PartialEq, Eq, Structural)]
pub struct Point {
    pub x: i32,
    pub y: i32,
}

/// Squared distance between `a` and `b`.
pub open spec fn dist2(a: Point, b: Point) -> int {
    (a.x - b.x) * (a.x - b.x) + (a.y - b.y) * (a.y - b.y)
}

/// Squared distance between `a` and `b`.
pub fn distance_squared(a: Point, b: Point) -> (r: u128)
    ensures
        r == dist2(a, b),
{
    let dx: i64 = a.x as i64 - b.x as i64;
    let dy: i64 = a.y as i64 - b.y as i64;
    let ax: u128 = if dx < 0 { (-dx) as u128 } else { dx as u128 };
    let ay: u128 = if dy < 0 { (-dy) as u128 } else { dy as u128 };
    assert(ax * ax + ay * ay <= 0x2_0000_0000_0000_0000u128) by (nonlinear_arith)
        requires
            ax <= 0x1_0000_0000u128,
            ay <= 0x1_0000_0000u128,
    ;
    assert(ax * ax == dx * dx && ay * ay == dy * dy) by (nonlinear_arith)
        requires
            ax == dx || ax == -dx,
            ay == dy || ay == -dy,
    ;
    ax * ax + ay * ay
}

/// `p` lies in the view centered on `center` that reaches `half_width`
/// and `half_height` from it, edges included.
pub open spec fn in_view_spec(center: Point, half_width: u32, half_height: u32, p: Point) -> bool {
    &&& center.x - half_width <= p.x <= center.x + half_width
    &&& center.y - half_height <= p.y <= center.y + half_height
}

/// Whether `p` lies in the view centered on `center` that reaches
/// `half_width` and `half_height` from it, edges included.
pub fn in_view(center: Point, half_width: u32, half_height: u32, p: Point) -> (r: bool)
    ensures
        r == in_view_spec(center, half_width, half_height, p),
{
    let dx: i64 = p.x as i64 - center.x as i64;
    let dy: i64 = p.y as i64 - center.y as i64;
    -(half_width as i64) <= dx && dx <= half_width as i64 && -(half_height as i64) <= dy && dy
        <= half_height as i64
}

} // verus!
