//! Actor integrator: the per-tick state machine. Each fixed tick, gravity
//! and control input produce a new velocity, the resolver corrects the
//! proposed displacement, and position and grounded flag are committed for
//! the next tick.
//!
//! While grounded the residual velocity carried from the previous tick is
//! discarded before gravity and control apply: walking sets the horizontal
//! velocity outright, a fresh jump press sets the vertical velocity
//! outright, and otherwise only this tick's gravity remains, which the
//! ground contact immediately cancels again. While airborne, control has no
//! effect and momentum plus gravity alone govern motion.

use vstd::prelude::*;

verus! {

use crate::geom::{Rect, Velocity, rect_wf, vel_wf, MAX_COORD, MAX_SPEED};
use crate::surface::Obstacle;
use crate::resolve::{obstacles_wf, res_dx, res_dy, res_grounded, res_report, resolve, HitReport};

/// Downward velocity added every tick, in world units per tick.
pub const GRAVITY: i64 = 4;

/// Horizontal velocity while a grounded actor walks.
pub const WALK_SPEED: i64 = 20;

/// Upward velocity set by a fresh jump press on the ground.
pub const JUMP_SPEED: i64 = 70;

/// Control intents sampled once per tick: `move_left` and `move_right` are
/// level-held, `jump` is edge-triggered by the host on the press.
#[derive(Clone, Copy, Debug, PartialEq, Eq, Structural)]
pub struct ControlInput {
    pub move_left: bool,
    pub move_right: bool,
    pub jump: bool,
}

impl ControlInput {
    /// No key held, nothing pressed.
    pub fn idle() -> (c: ControlInput)
        ensures
            c == (ControlInput { move_left: false, move_right: false, jump: false }),
    {
        ControlInput { move_left: false, move_right: false, jump: false }
    }
}

/// The one dynamic body: its rectangle, its velocity, and the grounded flag
/// derived by the previous tick's resolver run.
#[derive(Clone, Copy, Debug, PartialEq, Eq, Structural)]
pub struct Actor {
    pub rect: Rect,
    pub vel: Velocity,
    pub on_ground: bool,
}

impl Actor {
    /// A freshly spawned actor: at rest, airborne until the first tick
    /// grounds it.
    pub fn spawned_at(rect: Rect) -> (a: Actor)
        ensures
            a.rect == rect,
            a.vel == (Velocity { x: 0, y: 0 }),
            !a.on_ground,
    {
        Actor { rect, vel: Velocity { x: 0, y: 0 }, on_ground: false }
    }
}

/// The actor's state is within the ranges the resolver works in, with room
/// left to apply one tick of gravity.
pub open spec fn actor_wf(a: Actor) -> bool {
    &&& rect_wf(a.rect)
    &&& vel_wf(a.vel.x as int, a.vel.y as int)
    &&& a.vel.y - GRAVITY >= -MAX_SPEED
}

/// Horizontal velocity after gravity and control: grounded, it is set
/// outright by the held direction (right winning over left, as sampled);
/// airborne, the carried momentum stands.
pub open spec fn vel_x_after(a: Actor, input: ControlInput) -> int {
    if a.on_ground {
        if input.move_right {
            WALK_SPEED as int
        } else if input.move_left {
            -(WALK_SPEED as int)
        } else {
            0
        }
    } else {
        a.vel.x as int
    }
}

/// Vertical velocity after gravity and control: grounded, a fresh jump
/// press sets it to `JUMP_SPEED`, else the discarded residual leaves just
/// this tick's gravity; airborne, gravity accumulates on the carried
/// momentum.
pub open spec fn vel_y_after(a: Actor, input: ControlInput) -> int {
    if a.on_ground {
        if input.jump {
            JUMP_SPEED as int
        } else {
            -(GRAVITY as int)
        }
    } else {
        a.vel.y - GRAVITY
    }
}

/// Apply gravity and control input to the actor's velocity, without moving
/// it. Gravity always comes first; control input has effect only while
/// grounded.
pub fn calc_velocity(a: &Actor, input: &ControlInput) -> (v: Velocity)
    requires
        actor_wf(*a),
    ensures
        v.x == vel_x_after(*a, *input),
        v.y == vel_y_after(*a, *input),
        vel_wf(v.x as int, v.y as int),
{
    if a.on_ground {
        let mut vx: i64 = 0;
        let mut vy: i64 = -GRAVITY;
        if input.move_left {
            vx = -WALK_SPEED;
        }
        if input.move_right {
            vx = WALK_SPEED;
        }
        if input.jump {
            vy = JUMP_SPEED;
        }
        Velocity { x: vx, y: vy }
    } else {
        Velocity { x: a.vel.x, y: a.vel.y - GRAVITY }
    }
}

/// One fixed simulation tick. In order: gravity, control input (grounded
/// only), proposed displacement, collision resolution, position commit, and
/// the new grounded flag. Returns the next actor state; the caller owns the
/// one actor and threads the state from tick to tick.
pub fn tick(a: &Actor, input: &ControlInput, obstacles: &Vec<Obstacle>) -> (next: Actor)
    requires
        actor_wf(*a),
        obstacles_wf(obstacles@),
    ensures
        ({
            let vx = vel_x_after(*a, *input);
            let vy = vel_y_after(*a, *input);
            &&& next.vel.x == vx
            &&& next.vel.y == vy
            &&& next.rect.cx == a.rect.cx + vx + res_dx(a.rect, vx, vy, obstacles@)
            &&& next.rect.cy == a.rect.cy + vy + res_dy(a.rect, vx, vy, obstacles@)
            &&& next.rect.hw == a.rect.hw
            &&& next.rect.hh == a.rect.hh
            &&& next.on_ground == res_grounded(a.rect, vx, vy, obstacles@)
        }),
{
    let (next, _) = tick_reported(a, input, obstacles);
    next
}

/// `tick`, additionally reporting what the resolver hit, for telemetry such
/// as sound or animation cues.
pub fn tick_reported(a: &Actor, input: &ControlInput, obstacles: &Vec<Obstacle>) -> (out: (
    Actor,
    HitReport,
))
    requires
        actor_wf(*a),
        obstacles_wf(obstacles@),
    ensures
        ({
            let vx = vel_x_after(*a, *input);
            let vy = vel_y_after(*a, *input);
            &&& out.0.vel.x == vx
            &&& out.0.vel.y == vy
            &&& out.0.rect.cx == a.rect.cx + vx + res_dx(a.rect, vx, vy, obstacles@)
            &&& out.0.rect.cy == a.rect.cy + vy + res_dy(a.rect, vx, vy, obstacles@)
            &&& out.0.rect.hw == a.rect.hw
            &&& out.0.rect.hh == a.rect.hh
            &&& out.0.on_ground == res_grounded(a.rect, vx, vy, obstacles@)
            &&& out.1 == res_report(a.rect, vx, vy, obstacles@)
        }),
{
    let v = calc_velocity(a, input);
    let r = resolve(&a.rect, &v, obstacles);
    (
        Actor {
            rect: Rect {
                cx: a.rect.cx + v.x + r.dx,
                cy: a.rect.cy + v.y + r.dy,
                hw: a.rect.hw,
                hh: a.rect.hh,
            },
            vel: v,
            on_ground: r.grounded,
        },
        r.hit,
    )
}

} // verus!
