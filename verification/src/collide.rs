//! Axis-aligned overlap testing with edge classification.
//!
//! The moving box (the ball) is tested against an obstacle box. A touch
//! counts as an overlap, so a ball that has just reached a wall face is
//! already resolved on that tick. An overlap is classified by the side of
//! the ball on which the obstacle lies: the ball protrudes past exactly one
//! edge of the obstacle on an axis, and of the two axes the one with the
//! smaller penetration depth wins, horizontal before vertical on a tie. When
//! neither axis shows a single-sided protrusion the overlap is `Inside` and
//! the resolver leaves the ball alone.

use vstd::prelude::*;
use crate::geometry::AabbView;
use crate::geometry::Aabb;

verus! {

/// Where the obstacle lies relative to the ball in an overlap:
/// `Hit::Right` means the ball ran into something on its right.
#[derive(Clone, Copy, PartialEq, Eq, Structural, Debug)]
pub enum Hit {
    Left,
    Right,
    Top,
    Bottom,
    Inside,
}

/// The two boxes overlap; touching edges count.
pub open spec fn overlaps(a: AabbView, b: AabbView) -> bool {
    &&& b.min_x() <= a.max_x()
    &&& a.min_x() <= b.max_x()
    &&& b.min_y() <= a.max_y()
    &&& a.min_y() <= b.max_y()
}

/// `a` protrudes past `b`'s low-x edge and past no other x edge: the
/// obstacle lies to `a`'s right.
pub open spec fn protrudes_low_x(a: AabbView, b: AabbView) -> bool {
    a.min_x() < b.min_x() && a.max_x() <= b.max_x()
}

/// `a` protrudes past `b`'s high-x edge only: the obstacle lies to `a`'s
/// left.
pub open spec fn protrudes_high_x(a: AabbView, b: AabbView) -> bool {
    a.max_x() > b.max_x() && a.min_x() >= b.min_x()
}

/// `a` protrudes past `b`'s low-y edge only: the obstacle lies above `a`.
pub open spec fn protrudes_low_y(a: AabbView, b: AabbView) -> bool {
    a.min_y() < b.min_y() && a.max_y() <= b.max_y()
}

/// `a` protrudes past `b`'s high-y edge only: the obstacle lies below `a`.
pub open spec fn protrudes_high_y(a: AabbView, b: AabbView) -> bool {
    a.max_y() > b.max_y() && a.min_y() >= b.min_y()
}

/// The edge struck on the x axis, with its penetration depth, if the
/// overlap is single-sided there.
pub open spec fn x_edge(a: AabbView, b: AabbView) -> Option<(Hit, int)> {
    if protrudes_low_x(a, b) {
        Some((Hit::Right, a.max_x() - b.min_x()))
    } else if protrudes_high_x(a, b) {
        Some((Hit::Left, b.max_x() - a.min_x()))
    } else {
        None
    }
}

/// The edge struck on the y axis, with its penetration depth, if the
/// overlap is single-sided there.
pub open spec fn y_edge(a: AabbView, b: AabbView) -> Option<(Hit, int)> {
    if protrudes_low_y(a, b) {
        Some((Hit::Top, a.max_y() - b.min_y()))
    } else if protrudes_high_y(a, b) {
        Some((Hit::Bottom, b.max_y() - a.min_y()))
    } else {
        None
    }
}

/// Classification of an overlap: the struck edge of smallest penetration
/// depth, the horizontal one on a tie, or `Inside` when no axis shows a
/// single-sided protrusion.
pub open spec fn classify(a: AabbView, b: AabbView) -> Hit {
    match (x_edge(a, b), y_edge(a, b)) {
        (Some(xe), Some(ye)) => if xe.1 <= ye.1 {
            xe.0
        } else {
            ye.0
        },
        (Some(xe), None) => xe.0,
        (None, Some(ye)) => ye.0,
        (None, None) => Hit::Inside,
    }
}

/// What a collision test returns: the classified edge on overlap, nothing
/// otherwise.
pub open spec fn collide_spec(a: AabbView, b: AabbView) -> Option<Hit> {
    if overlaps(a, b) {
        Some(classify(a, b))
    } else {
        None
    }
}

/// The box's coordinates are small enough that edge positions and
/// penetration depths fit comfortably in an `i64`.
pub open spec fn bounded_box(a: AabbView) -> bool {
    &&& -0x2000_0000_0000_0000 <= a.cx <= 0x2000_0000_0000_0000
    &&& -0x2000_0000_0000_0000 <= a.cy <= 0x2000_0000_0000_0000
    &&& 0 <= a.hx <= 0x1000_0000_0000_0000
    &&& 0 <= a.hy <= 0x1000_0000_0000_0000
}

/// AABB collision test between the ball `a` and an obstacle `b`, with edge
/// classification as `collide_spec` states it.
pub fn collide(a: &Aabb, b: &Aabb) -> (r: Option<Hit>)
    requires
        bounded_box(a@),
        bounded_box(b@),
    ensures
        r == collide_spec(a@, b@),
{
    let a_min_x = a.cx - a.hx;
    let a_max_x = a.cx + a.hx;
    let a_min_y = a.cy - a.hy;
    let a_max_y = a.cy + a.hy;
    let b_min_x = b.cx - b.hx;
    let b_max_x = b.cx + b.hx;
    let b_min_y = b.cy - b.hy;
    let b_max_y = b.cy + b.hy;

    if !(b_min_x <= a_max_x && a_min_x <= b_max_x && b_min_y <= a_max_y && a_min_y <= b_max_y) {
        return None;
    }

    let x_hit: Option<(Hit, i64)> = if a_min_x < b_min_x && a_max_x <= b_max_x {
        Some((Hit::Right, a_max_x - b_min_x))
    } else if a_max_x > b_max_x && a_min_x >= b_min_x {
        Some((Hit::Left, b_max_x - a_min_x))
    } else {
        None
    };
    let y_hit: Option<(Hit, i64)> = if a_min_y < b_min_y && a_max_y <= b_max_y {
        Some((Hit::Top, a_max_y - b_min_y))
    } else if a_max_y > b_max_y && a_min_y >= b_min_y {
        Some((Hit::Bottom, b_max_y - a_min_y))
    } else {
        None
    };

    match (x_hit, y_hit) {
        (Some(xe), Some(ye)) => if xe.1 <= ye.1 {
            Some(xe.0)
        } else {
            Some(ye.0)
        },
        (Some(xe), None) => Some(xe.0),
        (None, Some(ye)) => Some(ye.0),
        (None, None) => Some(Hit::Inside),
    }
}

} // verus!
