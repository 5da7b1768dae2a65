//! Swept collision resolver: sweep the actor against every obstacle, honour
//! a struck face only where the obstacle's mask marks it solid, and correct
//! the proposed displacement per axis. Each struck obstacle blocks the one
//! axis its crossing was classified to; on each axis the closest honoured
//! strike — the smallest impact fraction, the earliest obstacle in the list
//! on a tie — decides that axis's correction, and an axis nothing blocks
//! keeps its full displacement.
//!
//! Two degenerate outcomes are handled deterministically:
//! - with no honoured strike at all, an actor found inside an `outside`
//!   sentinel is pushed back toward the stage centre by the smaller of the
//!   two axis moves that clear the overlap (ties prefer the vertical axis),
//!   ignoring its velocity;
//! - an actor already overlapping an ordinary obstacle at the start of the
//!   tick is an unsupported configuration: the obstacle contributes no
//!   correction and the proposed displacement stands.

use vstd::prelude::*;

verus! {

use crate::geom::{
    Rect, Velocity, rect_wf, vel_wf, left_edge, right_edge, bottom_edge, top_edge, iabs,
    MAX_COORD, MAX_SPEED,
};
use crate::surface::{Surface, SurfaceMask, Obstacle, mask_allows, side_solid};
use crate::sweep::{
    x_gap, y_gap, pick_y, strike_surface, is_strike, is_inside, Sweep, sweep_one,
    lemma_strike_axis_valid,
};

/// Every obstacle rectangle in the list is well-formed.
pub open spec fn obstacles_wf(obs: Seq<Obstacle>) -> bool {
    forall|i: int| 0 <= i < obs.len() ==> rect_wf(#[trigger] obs[i].rect)
}

/// The obstacle is struck, its crossing is classified to the horizontal
/// axis, and the struck flank is solid by its mask.
pub open spec fn honored_x(a: Rect, vx: int, vy: int, ob: Obstacle) -> bool {
    &&& is_strike(a, vx, vy, ob.rect)
    &&& !pick_y(a, vx, vy, ob.rect)
    &&& mask_allows(ob.mask, strike_surface(a, vx, vy, ob.rect))
}

/// The obstacle is struck, its crossing is classified to the vertical
/// axis, and the struck top or bottom is solid by its mask.
pub open spec fn honored_y(a: Rect, vx: int, vy: int, ob: Obstacle) -> bool {
    &&& is_strike(a, vx, vy, ob.rect)
    &&& pick_y(a, vx, vy, ob.rect)
    &&& mask_allows(ob.mask, strike_surface(a, vx, vy, ob.rect))
}

/// Index of the obstacle blocking the horizontal axis: among the strikes
/// honoured on that axis, the one with the smallest impact fraction, the
/// earliest in the list on a tie; `-1` when none. All horizontal strikes
/// share the displacement `vx`, so their fractions order by `|x_gap|`.
pub open spec fn best_x_idx(a: Rect, vx: int, vy: int, obs: Seq<Obstacle>) -> int
    decreases obs.len(),
{
    if obs.len() == 0 {
        -1
    } else {
        let prev = best_x_idx(a, vx, vy, obs.drop_last());
        let j = obs.len() - 1;
        if honored_x(a, vx, vy, obs[j]) && (prev < 0 || iabs(x_gap(a, vx, obs[j].rect)) < iabs(
            x_gap(a, vx, obs[prev].rect),
        )) {
            j
        } else {
            prev
        }
    }
}

/// Index of the obstacle blocking the vertical axis, as `best_x_idx`.
pub open spec fn best_y_idx(a: Rect, vx: int, vy: int, obs: Seq<Obstacle>) -> int
    decreases obs.len(),
{
    if obs.len() == 0 {
        -1
    } else {
        let prev = best_y_idx(a, vx, vy, obs.drop_last());
        let j = obs.len() - 1;
        if honored_y(a, vx, vy, obs[j]) && (prev < 0 || iabs(y_gap(a, vy, obs[j].rect)) < iabs(
            y_gap(a, vy, obs[prev].rect),
        )) {
            j
        } else {
            prev
        }
    }
}

/// Index of the first `outside` sentinel that the actor is already inside;
/// `-1` when there is none.
pub open spec fn sentinel_idx(a: Rect, vx: int, vy: int, obs: Seq<Obstacle>) -> int
    decreases obs.len(),
{
    if obs.len() == 0 {
        -1
    } else {
        let prev = sentinel_idx(a, vx, vy, obs.drop_last());
        if prev >= 0 {
            prev
        } else {
            let j = obs.len() - 1;
            if is_inside(a, vx, vy, obs[j].rect) && obs[j].mask.outside {
                j
            } else {
                -1
            }
        }
    }
}

/// Signed horizontal move, toward the stage centre (the origin), that
/// clears the overlap with the sentinel.
pub open spec fn push_x_amount(a: Rect, o: Rect) -> int {
    if a.cx > 0 {
        -(right_edge(a) - left_edge(o))
    } else {
        right_edge(o) - left_edge(a)
    }
}

/// Signed vertical move, toward the stage centre, that clears the overlap.
pub open spec fn push_y_amount(a: Rect, o: Rect) -> int {
    if a.cy > 0 {
        -(top_edge(a) - bottom_edge(o))
    } else {
        top_edge(o) - bottom_edge(a)
    }
}

/// The stage-boundary correction moves along the axis with the smaller
/// clearing move; ties prefer the vertical axis.
pub open spec fn push_vertical(a: Rect, o: Rect) -> bool {
    iabs(push_y_amount(a, o)) <= iabs(push_x_amount(a, o))
}

pub open spec fn push_x(a: Rect, o: Rect) -> int {
    if push_vertical(a, o) {
        0
    } else {
        push_x_amount(a, o)
    }
}

pub open spec fn push_y(a: Rect, o: Rect) -> int {
    if push_vertical(a, o) {
        push_y_amount(a, o)
    } else {
        0
    }
}

/// The off-stage push applies only when no strike is honoured on either
/// axis and the actor is inside an `outside` sentinel.
pub open spec fn pushed_off_stage(a: Rect, vx: int, vy: int, obs: Seq<Obstacle>) -> bool {
    &&& best_x_idx(a, vx, vy, obs) < 0
    &&& best_y_idx(a, vx, vy, obs) < 0
    &&& sentinel_idx(a, vx, vy, obs) >= 0
}

/// Horizontal correction to add to the proposed displacement: `x_gap - vx`
/// against the obstacle blocking the horizontal axis (leaving the actor
/// flush against its struck flank), `push - vx` for an actor inside a
/// sentinel (discarding the displacement), zero otherwise.
pub open spec fn res_dx(a: Rect, vx: int, vy: int, obs: Seq<Obstacle>) -> int {
    let bx = best_x_idx(a, vx, vy, obs);
    if bx >= 0 {
        x_gap(a, vx, obs[bx].rect) - vx
    } else if pushed_off_stage(a, vx, vy, obs) {
        push_x(a, obs[sentinel_idx(a, vx, vy, obs)].rect) - vx
    } else {
        0
    }
}

/// Vertical correction, mirroring `res_dx`.
pub open spec fn res_dy(a: Rect, vx: int, vy: int, obs: Seq<Obstacle>) -> int {
    let by = best_y_idx(a, vx, vy, obs);
    if by >= 0 {
        y_gap(a, vy, obs[by].rect) - vy
    } else if pushed_off_stage(a, vx, vy, obs) {
        push_y(a, obs[sentinel_idx(a, vx, vy, obs)].rect) - vy
    } else {
        0
    }
}

/// The grounded signal: the vertical axis is blocked by a top-face strike,
/// which only happens to a downward-moving actor against a top-solid
/// obstacle.
pub open spec fn res_grounded(a: Rect, vx: int, vy: int, obs: Seq<Obstacle>) -> bool {
    let by = best_y_idx(a, vx, vy, obs);
    by >= 0 && strike_surface(a, vx, vy, obs[by].rect) == Surface::Top
}

/// What the resolver reports for telemetry.
#[derive(Clone, Copy, Debug, PartialEq, Eq, Structural)]
pub enum HitReport {
    /// Nothing blocked the displacement.
    Clear,
    /// The given obstacle face was struck. With both axes blocked, the
    /// strike with the smaller impact fraction is the one reported; ties
    /// prefer the vertical face.
    Struck(Surface),
    /// The actor was inside an `outside` sentinel and was pushed back
    /// toward the stage centre.
    OffStage,
}

pub open spec fn res_report(a: Rect, vx: int, vy: int, obs: Seq<Obstacle>) -> HitReport {
    let bx = best_x_idx(a, vx, vy, obs);
    let by = best_y_idx(a, vx, vy, obs);
    if bx >= 0 && by >= 0 {
        if iabs(x_gap(a, vx, obs[bx].rect)) * iabs(vy) < iabs(y_gap(a, vy, obs[by].rect)) * iabs(
            vx,
        ) {
            HitReport::Struck(strike_surface(a, vx, vy, obs[bx].rect))
        } else {
            HitReport::Struck(strike_surface(a, vx, vy, obs[by].rect))
        }
    } else if by >= 0 {
        HitReport::Struck(strike_surface(a, vx, vy, obs[by].rect))
    } else if bx >= 0 {
        HitReport::Struck(strike_surface(a, vx, vy, obs[bx].rect))
    } else if sentinel_idx(a, vx, vy, obs) >= 0 {
        HitReport::OffStage
    } else {
        HitReport::Clear
    }
}

/// What `best_x_idx` selects: a valid index of a strike honoured on the
/// horizontal axis that no other such strike strictly undercuts, or `-1`
/// exactly when the axis is unblocked.
pub proof fn lemma_best_x_props(a: Rect, vx: int, vy: int, obs: Seq<Obstacle>)
    ensures
        best_x_idx(a, vx, vy, obs) >= -1,
        best_x_idx(a, vx, vy, obs) == -1 ==> forall|j: int|
            0 <= j < obs.len() ==> !honored_x(a, vx, vy, #[trigger] obs[j]),
        best_x_idx(a, vx, vy, obs) >= 0 ==> {
            let b = best_x_idx(a, vx, vy, obs);
            &&& 0 <= b < obs.len()
            &&& honored_x(a, vx, vy, obs[b])
            &&& forall|j: int|
                0 <= j < obs.len() && honored_x(a, vx, vy, #[trigger] obs[j]) ==> iabs(
                    x_gap(a, vx, obs[b].rect),
                ) <= iabs(x_gap(a, vx, obs[j].rect))
        },
    decreases obs.len(),
{
    if obs.len() == 0 {
        return ;
    }
    let pre = obs.drop_last();
    lemma_best_x_props(a, vx, vy, pre);
    assert(forall|j: int| 0 <= j < obs.len() - 1 ==> pre[j] == #[trigger] obs[j]);
}

/// What `best_y_idx` selects, as `lemma_best_x_props`.
pub proof fn lemma_best_y_props(a: Rect, vx: int, vy: int, obs: Seq<Obstacle>)
    ensures
        best_y_idx(a, vx, vy, obs) >= -1,
        best_y_idx(a, vx, vy, obs) == -1 ==> forall|j: int|
            0 <= j < obs.len() ==> !honored_y(a, vx, vy, #[trigger] obs[j]),
        best_y_idx(a, vx, vy, obs) >= 0 ==> {
            let b = best_y_idx(a, vx, vy, obs);
            &&& 0 <= b < obs.len()
            &&& honored_y(a, vx, vy, obs[b])
            &&& forall|j: int|
                0 <= j < obs.len() && honored_y(a, vx, vy, #[trigger] obs[j]) ==> iabs(
                    y_gap(a, vy, obs[b].rect),
                ) <= iabs(y_gap(a, vy, obs[j].rect))
        },
    decreases obs.len(),
{
    if obs.len() == 0 {
        return ;
    }
    let pre = obs.drop_last();
    lemma_best_y_props(a, vx, vy, pre);
    assert(forall|j: int| 0 <= j < obs.len() - 1 ==> pre[j] == #[trigger] obs[j]);
}

/// What `sentinel_idx` selects: a valid index of an `outside` sentinel the
/// actor is inside, or `-1` exactly when there is none.
pub proof fn lemma_sentinel_idx_props(a: Rect, vx: int, vy: int, obs: Seq<Obstacle>)
    ensures
        sentinel_idx(a, vx, vy, obs) >= -1,
        sentinel_idx(a, vx, vy, obs) == -1 ==> forall|j: int|
            0 <= j < obs.len() ==> !(is_inside(a, vx, vy, #[trigger] obs[j].rect)
                && obs[j].mask.outside),
        sentinel_idx(a, vx, vy, obs) >= 0 ==> {
            let s = sentinel_idx(a, vx, vy, obs);
            &&& 0 <= s < obs.len()
            &&& is_inside(a, vx, vy, obs[s].rect)
            &&& obs[s].mask.outside
        },
    decreases obs.len(),
{
    if obs.len() == 0 {
        return ;
    }
    let pre = obs.drop_last();
    lemma_sentinel_idx_props(a, vx, vy, pre);
    assert(forall|j: int| 0 <= j < obs.len() - 1 ==> pre[j] == #[trigger] obs[j]);
}

/// The resolver's output: corrections to add to the proposed displacement,
/// the grounded signal, and what was hit.
#[derive(Clone, Copy, Debug, PartialEq, Eq, Structural)]
pub struct Resolution {
    pub dx: i64,
    pub dy: i64,
    pub grounded: bool,
    pub hit: HitReport,
}

/// Sweep the actor against every obstacle and resolve the tick's
/// displacement, axis by axis: on each axis the closest honoured strike
/// clips the displacement to flush contact, an axis nothing blocks keeps
/// its displacement; with no strike at all, an actor inside an `outside`
/// sentinel is pushed back toward the stage centre; otherwise the proposed
/// displacement stands unmodified.
pub fn resolve(a: &Rect, v: &Velocity, obstacles: &Vec<Obstacle>) -> (r: Resolution)
    requires
        rect_wf(*a),
        vel_wf(v.x as int, v.y as int),
        obstacles_wf(obstacles@),
    ensures
        r.dx == res_dx(*a, v.x as int, v.y as int, obstacles@),
        r.dy == res_dy(*a, v.x as int, v.y as int, obstacles@),
        r.grounded == res_grounded(*a, v.x as int, v.y as int, obstacles@),
        r.hit == res_report(*a, v.x as int, v.y as int, obstacles@),
        -(4 * MAX_COORD + MAX_SPEED) <= r.dx <= 4 * MAX_COORD + MAX_SPEED,
        -(4 * MAX_COORD + MAX_SPEED) <= r.dy <= 4 * MAX_COORD + MAX_SPEED,
{
    let ghost vx = v.x as int;
    let ghost vy = v.y as int;
    let mut found_x = false;
    let mut surface_x = Surface::Left;
    let mut gap_x: i64 = 0;
    let ghost mut bx: int = -1;
    let mut found_y = false;
    let mut surface_y = Surface::Top;
    let mut gap_y: i64 = 0;
    let ghost mut by: int = -1;
    let mut sent_found = false;
    let mut sent_px: i64 = 0;
    let mut sent_py: i64 = 0;
    let ghost mut sidx: int = -1;
    let mut i: usize = 0;
    while i < obstacles.len()
        invariant
            0 <= i <= obstacles.len(),
            rect_wf(*a),
            vel_wf(vx, vy),
            vx == v.x as int,
            vy == v.y as int,
            obstacles_wf(obstacles@),
            bx == best_x_idx(*a, vx, vy, obstacles@.take(i as int)),
            found_x == (bx >= 0),
            bx >= 0 ==> {
                &&& 0 <= bx < i
                &&& surface_x == strike_surface(*a, vx, vy, obstacles@[bx].rect)
                &&& gap_x == x_gap(*a, vx, obstacles@[bx].rect)
                &&& iabs(gap_x as int) <= iabs(vx) <= MAX_SPEED
            },
            by == best_y_idx(*a, vx, vy, obstacles@.take(i as int)),
            found_y == (by >= 0),
            by >= 0 ==> {
                &&& 0 <= by < i
                &&& surface_y == strike_surface(*a, vx, vy, obstacles@[by].rect)
                &&& gap_y == y_gap(*a, vy, obstacles@[by].rect)
                &&& iabs(gap_y as int) <= iabs(vy) <= MAX_SPEED
            },
            sidx == sentinel_idx(*a, vx, vy, obstacles@.take(i as int)),
            sent_found == (sidx >= 0),
            sidx >= 0 ==> {
                &&& 0 <= sidx < i
                &&& sent_px == push_x(*a, obstacles@[sidx].rect)
                &&& sent_py == push_y(*a, obstacles@[sidx].rect)
                &&& iabs(sent_px as int) <= 4 * MAX_COORD
                &&& iabs(sent_py as int) <= 4 * MAX_COORD
            },
        decreases obstacles.len() - i,
    {
        let ob = obstacles[i];
        proof {
            assert(obstacles@.take(i + 1).drop_last() =~= obstacles@.take(i as int));
            assert(obstacles@.take(i + 1).last() == obstacles@[i as int]);
            assert(rect_wf(obstacles@[i as int].rect));
        }
        match sweep_one(a, v, &ob.rect) {
            Sweep::Strike { surface, gap, disp: _ } => {
                if side_solid(&ob.mask, surface) {
                    proof {
                        lemma_strike_axis_valid(*a, vx, vy, ob.rect);
                    }
                    match surface {
                        Surface::Top | Surface::Bottom => {
                            let mag: i64 = if gap < 0 { -gap } else { gap };
                            let replace_y: bool = if !found_y {
                                true
                            } else {
                                let old_mag: i64 = if gap_y < 0 { -gap_y } else { gap_y };
                                mag < old_mag
                            };
                            if replace_y {
                                found_y = true;
                                surface_y = surface;
                                gap_y = gap;
                                proof {
                                    by = i as int;
                                }
                            }
                        },
                        Surface::Left | Surface::Right => {
                            let mag: i64 = if gap < 0 { -gap } else { gap };
                            let replace_x: bool = if !found_x {
                                true
                            } else {
                                let old_mag: i64 = if gap_x < 0 { -gap_x } else { gap_x };
                                mag < old_mag
                            };
                            if replace_x {
                                found_x = true;
                                surface_x = surface;
                                gap_x = gap;
                                proof {
                                    bx = i as int;
                                }
                            }
                        },
                    }
                }
            },
            Sweep::Inside => {
                if !sent_found && ob.mask.outside {
                    let pxa: i64 = if a.cx > 0 {
                        -((a.cx + a.hw) - (ob.rect.cx - ob.rect.hw))
                    } else {
                        (ob.rect.cx + ob.rect.hw) - (a.cx - a.hw)
                    };
                    let pya: i64 = if a.cy > 0 {
                        -((a.cy + a.hh) - (ob.rect.cy - ob.rect.hh))
                    } else {
                        (ob.rect.cy + ob.rect.hh) - (a.cy - a.hh)
                    };
                    let apx: i64 = if pxa < 0 { -pxa } else { pxa };
                    let apy: i64 = if pya < 0 { -pya } else { pya };
                    if apy <= apx {
                        sent_px = 0;
                        sent_py = pya;
                    } else {
                        sent_px = pxa;
                        sent_py = 0;
                    }
                    sent_found = true;
                    proof {
                        sidx = i as int;
                    }
                }
            },
            Sweep::Miss => {},
        }
        i += 1;
    }
    proof {
        assert(obstacles@.take(obstacles.len() as int) =~= obstacles@);
    }
    let dx: i64;
    let dy: i64;
    if !found_x && !found_y && sent_found {
        dx = sent_px - v.x;
        dy = sent_py - v.y;
    } else {
        dx = if found_x { gap_x - v.x } else { 0 };
        dy = if found_y { gap_y - v.y } else { 0 };
    }
    let grounded = found_y && surface_y == Surface::Top;
    let hit = if found_x && found_y {
        let ax: i64 = if gap_x < 0 { -gap_x } else { gap_x };
        let ay: i64 = if gap_y < 0 { -gap_y } else { gap_y };
        let avx: i64 = if v.x < 0 { -v.x } else { v.x };
        let avy: i64 = if v.y < 0 { -v.y } else { v.y };
        proof {
            assert(ax * avy <= 1_000_000_000_000 && ay * avx <= 1_000_000_000_000 && ax * avy >= 0
                && ay * avx >= 0) by (nonlinear_arith)
                requires
                    0 <= ax <= 1_000_000,
                    0 <= avy <= 1_000_000,
                    0 <= ay <= 1_000_000,
                    0 <= avx <= 1_000_000,
            ;
        }
        if ax * avy < ay * avx {
            HitReport::Struck(surface_x)
        } else {
            HitReport::Struck(surface_y)
        }
    } else if found_y {
        HitReport::Struck(surface_y)
    } else if found_x {
        HitReport::Struck(surface_x)
    } else if sent_found {
        HitReport::OffStage
    } else {
        HitReport::Clear
    };
    Resolution { dx, dy, grounded, hit }
}

} // verus!
