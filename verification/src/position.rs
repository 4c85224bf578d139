//! Window coordinates, and the distance test that tells a drag from a click.
//!
//! Coordinates are integers in device units, so the Euclidean comparison
//! `distance(a, b) > limit` is decided exactly, as `distance(a, b)^2 > limit^2`,
//! for every pair of points.

use vstd::prelude::*;

verus! {

/// A coordinate along one axis, in device units.
pub type Scalar = i64;

/// A location in the root window. The origin is the window's top-left corner.
#[derive(Clone, Copy, Debug, PartialEq, Eq, Structural)]
pub struct Point {
    pub x: Scalar,
    pub y: Scalar,
}

impl Point {
    /// The point with the given coordinates.
    pub fn new(x: Scalar, y: Scalar) -> (p: Point)
        ensures
            p == (Point { x, y }),
    {
        Point { x, y }
    }

    /// The top-left corner of the window.
    pub fn origin() -> (p: Point)
        ensures
            p == (Point { x: 0, y: 0 }),
    {
        Point { x: 0, y: 0 }
    }
}

/// The distance between two coordinates on one axis.
pub open spec fn axis_distance(a: Scalar, b: Scalar) -> nat {
    if a >= b {
        (a - b) as nat
    } else {
        (b - a) as nat
    }
}

/// The square of the Euclidean distance between `a` and `b`.
pub open spec fn distance_squared(a: Point, b: Point) -> nat {
    axis_distance(a.x, b.x) * axis_distance(a.x, b.x) + axis_distance(a.y, b.y) * axis_distance(
        a.y,
        b.y,
    )
}

/// Whether `a` and `b` lie more than `limit` apart, by Euclidean distance.
///
/// Both sides of `distance > limit` are non-negative, so the comparison is
/// that of their squares.
pub open spec fn farther_than(a: Point, b: Point, limit: u64) -> bool {
    distance_squared(a, b) > limit * limit
}

/// Computes the distance between two coordinates on one axis.
pub fn axis_distance_between(a: Scalar, b: Scalar) -> (d: u64)
    ensures
        d == axis_distance(a, b),
{
    let wide: i128 = a as i128 - b as i128;
    if wide >= 0 {
        wide as u64
    } else {
        (-wide) as u64
    }
}

/// Decides whether `a` and `b` lie more than `limit` apart.
///
/// The squares are taken in 128 bits, where each of them fits; their sum need
/// not, so the comparison is made without forming it.
pub fn is_farther_than(a: Point, b: Point, limit: u64) -> (far: bool)
    ensures
        far == farther_than(a, b, limit),
{
    let dx: u128 = axis_distance_between(a.x, b.x) as u128;
    let dy: u128 = axis_distance_between(a.y, b.y) as u128;
    let bound: u128 = limit as u128;
    assert(dx * dx <= 0xFFFF_FFFF_FFFF_FFFF * 0xFFFF_FFFF_FFFF_FFFF) by (nonlinear_arith)
        requires
            dx <= 0xFFFF_FFFF_FFFF_FFFF,
    ;
    assert(dy * dy <= 0xFFFF_FFFF_FFFF_FFFF * 0xFFFF_FFFF_FFFF_FFFF) by (nonlinear_arith)
        requires
            dy <= 0xFFFF_FFFF_FFFF_FFFF,
    ;
    assert(bound * bound <= 0xFFFF_FFFF_FFFF_FFFF * 0xFFFF_FFFF_FFFF_FFFF) by (nonlinear_arith)
        requires
            bound <= 0xFFFF_FFFF_FFFF_FFFF,
    ;
    let dx_squared: u128 = dx * dx;
    let dy_squared: u128 = dy * dy;
    let bound_squared: u128 = bound * bound;
    if dx_squared > bound_squared {
        true
    } else {
        dy_squared > bound_squared - dx_squared
    }
}

/// No point lies farther than any limit from itself.
pub proof fn lemma_not_farther_than_itself(a: Point, limit: u64)
    ensures
        !farther_than(a, a, limit),
{
    let dx = axis_distance(a.x, a.x);
    let dy = axis_distance(a.y, a.y);
    assert(dx * dx + dy * dy <= limit * limit) by (nonlinear_arith)
        requires
            dx == 0,
            dy == 0,
    ;
}

/// With a limit of zero, any two distinct points lie farther apart than the
/// limit.
pub proof fn lemma_zero_limit_separates_distinct_points(a: Point, b: Point)
    ensures
        farther_than(a, b, 0) <==> a != b,
{
    let dx = axis_distance(a.x, b.x);
    let dy = axis_distance(a.y, b.y);
    assert(dx * dx >= 0 && (dx > 0 ==> dx * dx > 0)) by (nonlinear_arith);
    assert(dy * dy >= 0 && (dy > 0 ==> dy * dy > 0)) by (nonlinear_arith);
}

} // verus!
