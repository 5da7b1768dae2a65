//! Geometry primitives: axis-aligned rectangles, the strict overlap test, and
//! the box swept by a rectangle over one tick of motion.

use vstd::prelude::*;

verus! {

/// Largest magnitude a coordinate or a half-extent may have. Keeping
/// positions inside this range lets every edge sum and difference fit in an
/// `i64` with a wide margin.
pub const MAX_COORD: i64 = 1_000_000_000;

/// Largest magnitude a velocity component may have. Impact fractions are
/// compared by cross-multiplying a gap (at most the displacement) with a
/// displacement, so the products stay below `MAX_SPEED * MAX_SPEED`.
pub const MAX_SPEED: i64 = 1_000_000;

/// An axis-aligned rectangle given by its centre and its half-extents.
#[derive(Clone, Copy, Debug, PartialEq, Eq, Structural)]
pub struct Rect {
    pub cx: i64,
    pub cy: i64,
    pub hw: i64,
    pub hh: i64,
}

/// A velocity in world units per tick; it doubles as the displacement the
/// actor proposes for the tick.
#[derive(Clone, Copy, Debug, PartialEq, Eq, Structural)]
pub struct Velocity {
    pub x: i64,
    pub y: i64,
}

/// Well-formed rectangle: positive half-extents, everything within range.
pub open spec fn rect_wf(r: Rect) -> bool {
    &&& -MAX_COORD <= r.cx <= MAX_COORD
    &&& -MAX_COORD <= r.cy <= MAX_COORD
    &&& 0 < r.hw <= MAX_COORD
    &&& 0 < r.hh <= MAX_COORD
}

/// Velocity components within range.
pub open spec fn vel_wf(vx: int, vy: int) -> bool {
    &&& -MAX_SPEED <= vx <= MAX_SPEED
    &&& -MAX_SPEED <= vy <= MAX_SPEED
}

pub open spec fn left_edge(r: Rect) -> int {
    r.cx - r.hw
}

pub open spec fn right_edge(r: Rect) -> int {
    r.cx + r.hw
}

pub open spec fn bottom_edge(r: Rect) -> int {
    r.cy - r.hh
}

pub open spec fn top_edge(r: Rect) -> int {
    r.cy + r.hh
}

/// Absolute value over the mathematical integers.
pub open spec fn iabs(x: int) -> int {
    if x < 0 {
        -x
    } else {
        x
    }
}

/// Strict overlap: the open interiors intersect on both axes. Rectangles
/// that merely touch along an edge do not overlap, so an actor resting flush
/// against a surface is not in contact by this test.
pub open spec fn overlapping(a: Rect, b: Rect) -> bool {
    &&& left_edge(a) < right_edge(b)
    &&& left_edge(b) < right_edge(a)
    &&& bottom_edge(a) < top_edge(b)
    &&& bottom_edge(b) < top_edge(a)
}

/// `overlapping`, with `a` first shifted by `(dx, dy)`.
pub open spec fn overlapping_moved(a: Rect, dx: int, dy: int, b: Rect) -> bool {
    &&& left_edge(a) + dx < right_edge(b)
    &&& left_edge(b) < right_edge(a) + dx
    &&& bottom_edge(a) + dy < top_edge(b)
    &&& bottom_edge(b) < top_edge(a) + dy
}

/// Runtime form of the strict overlap test.
pub fn overlaps(a: &Rect, b: &Rect) -> (r: bool)
    requires
        rect_wf(*a),
        rect_wf(*b),
    ensures
        r == overlapping(*a, *b),
{
    a.cx - a.hw < b.cx + b.hw && b.cx - b.hw < a.cx + a.hw && a.cy - a.hh < b.cy + b.hh && b.cy
        - b.hh < a.cy + a.hh
}

/// Left edge of the box covering the rectangle at the start and at the end of
/// a displacement of `vx` on this axis.
pub open spec fn swept_left(a: Rect, vx: int) -> int {
    left_edge(a) + if vx < 0 {
        vx
    } else {
        0
    }
}

pub open spec fn swept_right(a: Rect, vx: int) -> int {
    right_edge(a) + if vx > 0 {
        vx
    } else {
        0
    }
}

pub open spec fn swept_bottom(a: Rect, vy: int) -> int {
    bottom_edge(a) + if vy < 0 {
        vy
    } else {
        0
    }
}

pub open spec fn swept_top(a: Rect, vy: int) -> int {
    top_edge(a) + if vy > 0 {
        vy
    } else {
        0
    }
}

/// Broad check of the sweep: the box covering the actor's whole travel this
/// tick strictly overlaps the obstacle. Obstacles that fail it cannot be
/// touched during the tick.
pub open spec fn broad_hit(a: Rect, vx: int, vy: int, o: Rect) -> bool {
    &&& swept_left(a, vx) < right_edge(o)
    &&& left_edge(o) < swept_right(a, vx)
    &&& swept_bottom(a, vy) < top_edge(o)
    &&& bottom_edge(o) < swept_top(a, vy)
}

/// The swept box contains the start box, so overlap at the start implies the
/// broad check passes.
pub proof fn lemma_overlap_implies_broad(a: Rect, vx: int, vy: int, o: Rect)
    requires
        overlapping(a, o),
    ensures
        broad_hit(a, vx, vy, o),
{
}

/// The swept box contains the end box, so overlap at the proposed end
/// position implies the broad check passes.
pub proof fn lemma_moved_overlap_implies_broad(a: Rect, vx: int, vy: int, o: Rect)
    requires
        overlapping_moved(a, vx, vy, o),
    ensures
        broad_hit(a, vx, vy, o),
{
}

} // verus!
