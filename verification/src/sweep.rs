//! Per-obstacle swept collision test: for one obstacle, find the fraction of
//! the proposed displacement at which the actor's leading edge first reaches
//! the obstacle's facing edge, and which face that is.
//!
//! With integer coordinates the impact fraction `gap / disp` is kept as the
//! exact pair `(gap, disp)`; fractions are compared by cross-multiplication,
//! so no division and no rounding ever happens.

use vstd::prelude::*;

verus! {

use crate::geom::{
    Rect, Velocity, rect_wf, vel_wf, left_edge, right_edge, bottom_edge, top_edge, iabs,
    overlapping, broad_hit, lemma_overlap_implies_broad, overlaps,
};
use crate::surface::Surface;

/// Distance from the actor's leading horizontal edge to the obstacle edge it
/// would cross, for a displacement of sign `vx`. Meaningful only when
/// `vx != 0`: moving right the actor's right edge approaches the obstacle's
/// left edge; moving left, mirrored.
pub open spec fn x_gap(a: Rect, vx: int, o: Rect) -> int {
    if vx > 0 {
        left_edge(o) - right_edge(a)
    } else {
        right_edge(o) - left_edge(a)
    }
}

/// Same for vertical motion: moving up the actor's top edge approaches the
/// obstacle's bottom edge; falling, the actor's bottom edge approaches the
/// obstacle's top edge.
pub open spec fn y_gap(a: Rect, vy: int, o: Rect) -> int {
    if vy > 0 {
        bottom_edge(o) - top_edge(a)
    } else {
        top_edge(o) - bottom_edge(a)
    }
}

/// The horizontal axis yields a valid impact fraction: the displacement is
/// non-zero and the gap lies between zero and the displacement, so the
/// fraction `x_gap / vx` falls in [0, 1]. A zero displacement on an axis
/// never yields a hit on that axis.
pub open spec fn x_hit(a: Rect, vx: int, o: Rect) -> bool {
    if vx > 0 {
        0 <= x_gap(a, vx, o) <= vx
    } else if vx < 0 {
        vx <= x_gap(a, vx, o) <= 0
    } else {
        false
    }
}

pub open spec fn y_hit(a: Rect, vy: int, o: Rect) -> bool {
    if vy > 0 {
        0 <= y_gap(a, vy, o) <= vy
    } else if vy < 0 {
        vy <= y_gap(a, vy, o) <= 0
    } else {
        false
    }
}

/// Of the two axes, the vertical one is authoritative when its impact
/// fraction is at least the horizontal one (the later-crossed edge is the
/// face actually struck; ties prefer the vertical axis), or when it is the
/// only axis with a valid fraction. `|y_gap|/|vy| >= |x_gap|/|vx|` is
/// compared as `|y_gap|*|vx| >= |x_gap|*|vy|`.
pub open spec fn pick_y(a: Rect, vx: int, vy: int, o: Rect) -> bool {
    if x_hit(a, vx, o) && y_hit(a, vy, o) {
        iabs(y_gap(a, vy, o)) * iabs(vx) >= iabs(x_gap(a, vx, o)) * iabs(vy)
    } else {
        y_hit(a, vy, o)
    }
}

/// The obstacle face struck, assuming some axis yields a valid fraction.
pub open spec fn strike_surface(a: Rect, vx: int, vy: int, o: Rect) -> Surface {
    if pick_y(a, vx, vy, o) {
        if vy < 0 {
            Surface::Top
        } else {
            Surface::Bottom
        }
    } else {
        if vx > 0 {
            Surface::Left
        } else {
            Surface::Right
        }
    }
}

/// The gap along the authoritative axis.
pub open spec fn strike_gap(a: Rect, vx: int, vy: int, o: Rect) -> int {
    if pick_y(a, vx, vy, o) {
        y_gap(a, vy, o)
    } else {
        x_gap(a, vx, o)
    }
}

/// The displacement along the authoritative axis.
pub open spec fn strike_disp(a: Rect, vx: int, vy: int, o: Rect) -> int {
    if pick_y(a, vx, vy, o) {
        vy
    } else {
        vx
    }
}

/// The obstacle is struck this tick: it survives the broad check and some
/// axis yields a valid impact fraction.
pub open spec fn is_strike(a: Rect, vx: int, vy: int, o: Rect) -> bool {
    broad_hit(a, vx, vy, o) && (x_hit(a, vx, o) || y_hit(a, vy, o))
}

/// Degenerate case: no axis yields a valid fraction, yet the rectangles
/// already overlap at the start position.
pub open spec fn is_inside(a: Rect, vx: int, vy: int, o: Rect) -> bool {
    &&& !x_hit(a, vx, o)
    &&& !y_hit(a, vy, o)
    &&& overlapping(a, o)
}

/// A strike's authoritative axis always has a valid fraction on that axis.
pub proof fn lemma_strike_axis_valid(a: Rect, vx: int, vy: int, o: Rect)
    requires
        is_strike(a, vx, vy, o),
    ensures
        pick_y(a, vx, vy, o) ==> y_hit(a, vy, o),
        !pick_y(a, vx, vy, o) ==> x_hit(a, vx, o),
{
}

/// Outcome of sweeping the actor against one obstacle.
#[derive(Clone, Copy, Debug, PartialEq, Eq, Structural)]
pub enum Sweep {
    /// The obstacle is not touched during this tick's travel.
    Miss,
    /// The rectangles already overlap at the start position.
    Inside,
    /// A face is crossed at fraction `gap / disp` of the displacement; the
    /// corrected displacement on the struck axis is `gap - disp`.
    Strike { surface: Surface, gap: i64, disp: i64 },
}

/// Sweep the actor's rectangle along the proposed displacement against one
/// obstacle rectangle and classify the outcome.
pub fn sweep_one(a: &Rect, v: &Velocity, o: &Rect) -> (r: Sweep)
    requires
        rect_wf(*a),
        rect_wf(*o),
        vel_wf(v.x as int, v.y as int),
    ensures
        (r is Strike) == is_strike(*a, v.x as int, v.y as int, *o),
        (r is Inside) == is_inside(*a, v.x as int, v.y as int, *o),
        r matches Sweep::Strike { surface, gap, disp } ==> {
            &&& surface == strike_surface(*a, v.x as int, v.y as int, *o)
            &&& gap == strike_gap(*a, v.x as int, v.y as int, *o)
            &&& disp == strike_disp(*a, v.x as int, v.y as int, *o)
        },
{
    let vx = v.x;
    let vy = v.y;

    // Broad check against the box swept over the whole tick.
    let sl: i64 = a.cx - a.hw + (if vx < 0 { vx } else { 0 });
    let sr: i64 = a.cx + a.hw + (if vx > 0 { vx } else { 0 });
    let sb: i64 = a.cy - a.hh + (if vy < 0 { vy } else { 0 });
    let st: i64 = a.cy + a.hh + (if vy > 0 { vy } else { 0 });
    let o_left: i64 = o.cx - o.hw;
    let o_right: i64 = o.cx + o.hw;
    let o_bottom: i64 = o.cy - o.hh;
    let o_top: i64 = o.cy + o.hh;
    if !(sl < o_right && o_left < sr && sb < o_top && o_bottom < st) {
        proof {
            if overlapping(*a, *o) {
                lemma_overlap_implies_broad(*a, vx as int, vy as int, *o);
            }
        }
        return Sweep::Miss;
    }
    // Impact fraction per axis, kept exact as (gap, displacement).
    let (xh, gx): (bool, i64) = if vx > 0 {
        let g: i64 = o_left - (a.cx + a.hw);
        (0 <= g && g <= vx, g)
    } else if vx < 0 {
        let g: i64 = o_right - (a.cx - a.hw);
        (vx <= g && g <= 0, g)
    } else {
        (false, 0)
    };
    let (yh, gy): (bool, i64) = if vy > 0 {
        let g: i64 = o_bottom - (a.cy + a.hh);
        (0 <= g && g <= vy, g)
    } else if vy < 0 {
        let g: i64 = o_top - (a.cy - a.hh);
        (vy <= g && g <= 0, g)
    } else {
        (false, 0)
    };
    if xh || yh {
        // The face actually struck lies on the axis whose edge is crossed
        // later; ties go to the vertical axis.
        let use_y: bool = if xh && yh {
            let ax: i64 = if gx < 0 { -gx } else { gx };
            let ay: i64 = if gy < 0 { -gy } else { gy };
            let avx: i64 = if vx < 0 { -vx } else { vx };
            let avy: i64 = if vy < 0 { -vy } else { vy };
            proof {
                assert(ay * avx <= 1_000_000_000_000 && ax * avy <= 1_000_000_000_000 && ay * avx
                    >= 0 && ax * avy >= 0) by (nonlinear_arith)
                    requires
                        0 <= ay <= 1_000_000,
                        0 <= avx <= 1_000_000,
                        0 <= ax <= 1_000_000,
                        0 <= avy <= 1_000_000,
                ;
            }
            ay * avx >= ax * avy
        } else {
            yh
        };
        if use_y {
            Sweep::Strike {
                surface: if vy < 0 { Surface::Top } else { Surface::Bottom },
                gap: gy,
                disp: vy,
            }
        } else {
            Sweep::Strike {
                surface: if vx > 0 { Surface::Left } else { Surface::Right },
                gap: gx,
                disp: vx,
            }
        }
    } else if overlaps(a, o) {
        Sweep::Inside
    } else {
        Sweep::Miss
    }
}

} // verus!
