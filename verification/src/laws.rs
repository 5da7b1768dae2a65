//! The laws the physics step obeys, stated over the resolver's and the
//! integrator's specification functions and proved once for all inputs.

use vstd::prelude::*;

verus! {

use crate::geom::{
    Rect, rect_wf, left_edge, right_edge, bottom_edge, top_edge, iabs, overlapping,
    overlapping_moved, lemma_moved_overlap_implies_broad,
};
use crate::surface::{Surface, SurfaceMask, Obstacle, mask_allows};
use crate::sweep::{
    y_gap, x_hit, y_hit, pick_y, strike_surface, is_strike, lemma_strike_axis_valid,
};
use crate::resolve::{
    obstacles_wf, honored_x, honored_y, best_x_idx, best_y_idx, sentinel_idx, pushed_off_stage,
    res_dx, res_dy, res_grounded, res_report, HitReport, lemma_best_x_props, lemma_best_y_props,
    lemma_sentinel_idx_props,
};
use crate::actor::{Actor, ControlInput, vel_x_after, vel_y_after, GRAVITY, JUMP_SPEED};

/// Striking a face leaves the actor exactly flush against it, with no
/// overshoot and no gap: sweeping rightward into a left-solid face puts the
/// actor's right edge exactly on the obstacle's left edge, and so on for
/// each blocked axis and direction of motion.
pub proof fn lemma_struck_face_flush(a: Rect, vx: int, vy: int, obs: Seq<Obstacle>)
    ensures
        best_x_idx(a, vx, vy, obs) >= 0 ==> {
            let o = obs[best_x_idx(a, vx, vy, obs)].rect;
            &&& vx > 0 ==> strike_surface(a, vx, vy, o) == Surface::Left && right_edge(a) + vx
                + res_dx(a, vx, vy, obs) == left_edge(o)
            &&& vx < 0 ==> strike_surface(a, vx, vy, o) == Surface::Right && left_edge(a) + vx
                + res_dx(a, vx, vy, obs) == right_edge(o)
            &&& vx != 0
        },
        best_y_idx(a, vx, vy, obs) >= 0 ==> {
            let o = obs[best_y_idx(a, vx, vy, obs)].rect;
            &&& vy < 0 ==> strike_surface(a, vx, vy, o) == Surface::Top && bottom_edge(a) + vy
                + res_dy(a, vx, vy, obs) == top_edge(o)
            &&& vy > 0 ==> strike_surface(a, vx, vy, o) == Surface::Bottom && top_edge(a) + vy
                + res_dy(a, vx, vy, obs) == bottom_edge(o)
            &&& vy != 0
        },
{
    lemma_best_x_props(a, vx, vy, obs);
    lemma_best_y_props(a, vx, vy, obs);
    if best_x_idx(a, vx, vy, obs) >= 0 {
        lemma_strike_axis_valid(a, vx, vy, obs[best_x_idx(a, vx, vy, obs)].rect);
    }
    if best_y_idx(a, vx, vy, obs) >= 0 {
        lemma_strike_axis_valid(a, vx, vy, obs[best_y_idx(a, vx, vy, obs)].rect);
    }
}

/// No penetration of blocking obstacles: after the corrected displacement
/// is applied, the actor overlaps no obstacle whose strike was honoured on
/// a blocked axis — it ends flush against the closest one and strictly
/// short of every farther one.
pub proof fn lemma_no_penetration_of_blocking(a: Rect, vx: int, vy: int, obs: Seq<Obstacle>)
    ensures
        best_x_idx(a, vx, vy, obs) >= 0 ==> forall|j: int|
            0 <= j < obs.len() && honored_x(a, vx, vy, #[trigger] obs[j]) ==> !overlapping_moved(
                a,
                vx + res_dx(a, vx, vy, obs),
                vy + res_dy(a, vx, vy, obs),
                obs[j].rect,
            ),
        best_y_idx(a, vx, vy, obs) >= 0 ==> forall|j: int|
            0 <= j < obs.len() && honored_y(a, vx, vy, #[trigger] obs[j]) ==> !overlapping_moved(
                a,
                vx + res_dx(a, vx, vy, obs),
                vy + res_dy(a, vx, vy, obs),
                obs[j].rect,
            ),
{
    lemma_struck_face_flush(a, vx, vy, obs);
    lemma_best_x_props(a, vx, vy, obs);
    lemma_best_y_props(a, vx, vy, obs);
    let bx = best_x_idx(a, vx, vy, obs);
    if bx >= 0 {
        assert forall|j: int|
            0 <= j < obs.len() && honored_x(a, vx, vy, #[trigger] obs[j]) implies !overlapping_moved(
            a,
            vx + res_dx(a, vx, vy, obs),
            vy + res_dy(a, vx, vy, obs),
            obs[j].rect,
        ) by {
            // Every strike honoured on this axis starts on the same side
            // and its facing edge lies at or beyond the closest one's, so
            // stopping flush at the closest face stays clear of them all.
            lemma_strike_axis_valid(a, vx, vy, obs[j].rect);
            lemma_strike_axis_valid(a, vx, vy, obs[bx].rect);
        }
    }
    let by = best_y_idx(a, vx, vy, obs);
    if by >= 0 {
        assert forall|j: int|
            0 <= j < obs.len() && honored_y(a, vx, vy, #[trigger] obs[j]) implies !overlapping_moved(
            a,
            vx + res_dx(a, vx, vy, obs),
            vy + res_dy(a, vx, vy, obs),
            obs[j].rect,
        ) by {
            lemma_strike_axis_valid(a, vx, vy, obs[j].rect);
            lemma_strike_axis_valid(a, vx, vy, obs[by].rect);
        }
    }
}

/// No-penetration invariant against a fully solid obstacle: an actor that
/// starts the tick clear of it ends the tick clear of it, whatever the
/// displacement — either the sweep honours a strike and leaves the actor
/// flush, or the motion never crosses into the obstacle at all.
pub proof fn lemma_no_penetration_single(a: Rect, vx: int, vy: int, ob: Obstacle)
    requires
        ob.mask.top,
        ob.mask.bottom,
        ob.mask.left,
        ob.mask.right,
        !overlapping(a, ob.rect),
    ensures
        !overlapping_moved(
            a,
            vx + res_dx(a, vx, vy, seq![ob]),
            vy + res_dy(a, vx, vy, seq![ob]),
            ob.rect,
        ),
{
    let obs = seq![ob];
    let o = ob.rect;
    assert(obs[0] == ob);
    lemma_best_x_props(a, vx, vy, obs);
    lemma_best_y_props(a, vx, vy, obs);
    lemma_sentinel_idx_props(a, vx, vy, obs);
    lemma_no_penetration_of_blocking(a, vx, vy, obs);
    if best_x_idx(a, vx, vy, obs) < 0 && best_y_idx(a, vx, vy, obs) < 0 {
        // Every face is solid, so an unhonoured obstacle is simply not
        // struck; and it is not an `outside` sentinel the actor sits in,
        // because the actor starts clear of it. The displacement stands.
        assert(!is_strike(a, vx, vy, o)) by {
            if is_strike(a, vx, vy, o) {
                assert(mask_allows(ob.mask, strike_surface(a, vx, vy, o)));
                if pick_y(a, vx, vy, o) {
                    assert(honored_y(a, vx, vy, ob));
                } else {
                    assert(honored_x(a, vx, vy, ob));
                }
            }
        }
        assert(sentinel_idx(a, vx, vy, obs) < 0);
        assert(res_dx(a, vx, vy, obs) == 0);
        assert(res_dy(a, vx, vy, obs) == 0);
        if overlapping_moved(a, vx, vy, o) {
            lemma_moved_overlap_implies_broad(a, vx, vy, o);
            // The start position is clear on some axis; ending overlapped
            // means that axis's facing edge was crossed, a valid hit.
            if right_edge(a) <= left_edge(o) {
                assert(vx > 0);
                assert(x_hit(a, vx, o));
            } else if left_edge(a) >= right_edge(o) {
                assert(vx < 0);
                assert(x_hit(a, vx, o));
            } else if top_edge(a) <= bottom_edge(o) {
                assert(vy > 0);
                assert(y_hit(a, vy, o));
            } else {
                assert(bottom_edge(a) >= top_edge(o));
                assert(vy < 0);
                assert(y_hit(a, vy, o));
            }
            assert(is_strike(a, vx, vy, o));
            assert(false);
        }
    }
}

/// A one-way platform — only its top face solid — never blocks an actor
/// that is not moving downward: motion upward through it or sideways along
/// it passes unmodified, reports nothing, and never grounds the actor.
pub proof fn lemma_one_way_platform(a: Rect, vx: int, vy: int, ob: Obstacle)
    requires
        ob.mask == (SurfaceMask {
            top: true,
            bottom: false,
            left: false,
            right: false,
            outside: false,
        }),
        vy >= 0,
    ensures
        res_dx(a, vx, vy, seq![ob]) == 0,
        res_dy(a, vx, vy, seq![ob]) == 0,
        !res_grounded(a, vx, vy, seq![ob]),
        res_report(a, vx, vy, seq![ob]) == HitReport::Clear,
{
    let obs = seq![ob];
    let o = ob.rect;
    assert(obs[0] == ob);
    lemma_best_x_props(a, vx, vy, obs);
    lemma_best_y_props(a, vx, vy, obs);
    lemma_sentinel_idx_props(a, vx, vy, obs);
    // Not moving downward, the struck face could only be the bottom or a
    // flank, none of which is solid here.
    assert(!honored_x(a, vx, vy, ob) && !honored_y(a, vx, vy, ob)) by {
        if is_strike(a, vx, vy, o) {
            lemma_strike_axis_valid(a, vx, vy, o);
            assert(strike_surface(a, vx, vy, o) != Surface::Top);
        }
    }
    assert(best_x_idx(a, vx, vy, obs) < 0);
    assert(best_y_idx(a, vx, vy, obs) < 0);
    assert(!ob.mask.outside);
    assert(sentinel_idx(a, vx, vy, obs) < 0);
}

/// The grounded flag is set only by striking a top-solid face while moving
/// downward: whenever the resolver grounds the actor, the vertical velocity
/// was negative and some obstacle with a solid top was struck.
pub proof fn lemma_grounded_needs_falling(a: Rect, vx: int, vy: int, obs: Seq<Obstacle>)
    ensures
        res_grounded(a, vx, vy, obs) ==> vy < 0 && exists|j: int|
            0 <= j < obs.len() && is_strike(a, vx, vy, #[trigger] obs[j].rect)
                && obs[j].mask.top,
{
    if res_grounded(a, vx, vy, obs) {
        let by = best_y_idx(a, vx, vy, obs);
        lemma_best_y_props(a, vx, vy, obs);
        lemma_strike_axis_valid(a, vx, vy, obs[by].rect);
        assert(pick_y(a, vx, vy, obs[by].rect));
        assert(is_strike(a, vx, vy, obs[by].rect) && obs[by].mask.top);
    }
}

/// Triggering a jump clears the grounded flag on that very tick, before
/// the actor has moved off the surface: the jump sets an upward velocity,
/// and an upward-moving actor cannot be grounded.
pub proof fn lemma_jump_clears_grounded(actor: Actor, input: ControlInput, obs: Seq<Obstacle>)
    requires
        actor.on_ground,
        input.jump,
    ensures
        !res_grounded(actor.rect, vel_x_after(actor, input), vel_y_after(actor, input), obs),
{
    let vx = vel_x_after(actor, input);
    let vy = vel_y_after(actor, input);
    assert(vy == JUMP_SPEED);
    lemma_grounded_needs_falling(actor.rect, vx, vy, obs);
}

/// Idempotence of rest: a grounded actor standing flush on a top-solid
/// surface, with no input, does not move — the tick's re-applied gravity is
/// cancelled exactly by the ground contact — and stays grounded.
pub proof fn lemma_rest_is_stable(actor: Actor, input: ControlInput, obs: Seq<Obstacle>, k: int)
    requires
        rect_wf(actor.rect),
        obstacles_wf(obs),
        actor.on_ground,
        !input.move_left,
        !input.move_right,
        !input.jump,
        0 <= k < obs.len(),
        obs[k].mask.top,
        bottom_edge(actor.rect) == top_edge(obs[k].rect),
        left_edge(actor.rect) < right_edge(obs[k].rect),
        left_edge(obs[k].rect) < right_edge(actor.rect),
    ensures
        ({
            let vx = vel_x_after(actor, input);
            let vy = vel_y_after(actor, input);
            &&& vx == 0
            &&& vy == -GRAVITY
            &&& vx + res_dx(actor.rect, vx, vy, obs) == 0
            &&& vy + res_dy(actor.rect, vx, vy, obs) == 0
            &&& res_grounded(actor.rect, vx, vy, obs)
        }),
{
    let a = actor.rect;
    let vx = vel_x_after(actor, input);
    let vy = vel_y_after(actor, input);
    assert(vx == 0 && vy == -GRAVITY);
    let o = obs[k].rect;
    // Standing flush on the surface, this tick's gravity is a strike of the
    // top face at fraction zero.
    assert(y_gap(a, vy, o) == 0);
    assert(y_hit(a, vy, o));
    assert(!x_hit(a, vx, o));
    assert(crate::geom::broad_hit(a, vx, vy, o));
    assert(honored_y(a, vx, vy, obs[k]));
    lemma_best_x_props(a, vx, vy, obs);
    lemma_best_y_props(a, vx, vy, obs);
    let by = best_y_idx(a, vx, vy, obs);
    assert(by >= 0);
    // Nothing undercuts a gap of zero, so the vertical block is flush too,
    // and with no horizontal motion nothing blocks the horizontal axis:
    // the correction cancels the displacement exactly.
    assert(iabs(y_gap(a, vy, obs[by].rect)) <= iabs(y_gap(a, vy, o)));
    assert(y_gap(a, vy, obs[by].rect) == 0);
    lemma_strike_axis_valid(a, vx, vy, obs[by].rect);
    assert(strike_surface(a, vx, vy, obs[by].rect) == Surface::Top);
    let bx = best_x_idx(a, vx, vy, obs);
    assert(bx < 0) by {
        if bx >= 0 {
            lemma_strike_axis_valid(a, vx, vy, obs[bx].rect);
            assert(x_hit(a, vx, obs[bx].rect));
        }
    }
    assert(!pushed_off_stage(a, vx, vy, obs));
}

} // verus!
