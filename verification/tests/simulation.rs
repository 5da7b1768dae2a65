use platformer_core::actor::{
    calc_velocity, tick, tick_reported, Actor, ControlInput, GRAVITY, JUMP_SPEED, WALK_SPEED,
};
use platformer_core::geom::{overlaps, Rect, Velocity};
use platformer_core::resolve::HitReport;
use platformer_core::stage::{
    cell_kind, cell_rect, obstacle_for_cell, spawn_actor_at_cell, CellKind, ACTOR_HALF_HEIGHT,
    ACTOR_HALF_WIDTH, CELL_SIZE,
};
use platformer_core::surface::{Obstacle, Surface, SurfaceMask};

fn rect(cx: i64, cy: i64, hw: i64, hh: i64) -> Rect {
    Rect { cx, cy, hw, hh }
}

fn floor_world() -> Vec<Obstacle> {
    // A wide floor whose top edge is at y = 0.
    vec![Obstacle { rect: rect(0, -50, 10_000, 50), mask: SurfaceMask::normal_block() }]
}

fn resting_actor() -> Actor {
    // Standing flush on the floor: bottom edge exactly at y = 0.
    Actor { rect: rect(0, 25, 10, 25), vel: Velocity { x: 0, y: 0 }, on_ground: true }
}

fn held(left: bool, right: bool, jump: bool) -> ControlInput {
    ControlInput { move_left: left, move_right: right, jump }
}

#[test]
fn velocity_update_on_ground() {
    let a = resting_actor();
    // Idle: only this tick's gravity remains.
    let v = calc_velocity(&a, &ControlInput::idle());
    assert_eq!((v.x, v.y), (0, -GRAVITY));
    // Walking sets the horizontal velocity outright.
    let v = calc_velocity(&a, &held(true, false, false));
    assert_eq!((v.x, v.y), (-WALK_SPEED, -GRAVITY));
    let v = calc_velocity(&a, &held(false, true, false));
    assert_eq!((v.x, v.y), (WALK_SPEED, -GRAVITY));
    // Both directions held: right wins, as the inputs are applied in order.
    let v = calc_velocity(&a, &held(true, true, false));
    assert_eq!((v.x, v.y), (WALK_SPEED, -GRAVITY));
    // A fresh jump press sets the vertical velocity outright.
    let v = calc_velocity(&a, &held(false, false, true));
    assert_eq!((v.x, v.y), (0, JUMP_SPEED));
}

#[test]
fn velocity_update_airborne_ignores_input() {
    let mut a = resting_actor();
    a.on_ground = false;
    a.vel = Velocity { x: 13, y: 6 };
    // Airborne, control has no effect: momentum plus gravity.
    let v = calc_velocity(&a, &held(true, true, true));
    assert_eq!((v.x, v.y), (13, 6 - GRAVITY));
}

#[test]
fn rest_is_idempotent_tick_over_tick() {
    let world = floor_world();
    let mut a = resting_actor();
    for _ in 0..5 {
        let next = tick(&a, &ControlInput::idle(), &world);
        // Gravity is re-applied and immediately cancelled by the ground:
        // the position never changes and the actor stays grounded.
        assert_eq!(next.rect, a.rect);
        assert!(next.on_ground);
        assert_eq!((next.vel.x, next.vel.y), (0, -GRAVITY));
        a = next;
    }
}

#[test]
fn grounded_turns_true_exactly_on_first_contact() {
    let world = floor_world();
    // Released from rest with its bottom edge 6 units above the floor: the
    // first tick falls 4 without touching, the second tick contacts.
    let mut a = Actor {
        rect: rect(0, 31, 10, 25),
        vel: Velocity { x: 0, y: 0 },
        on_ground: false,
    };
    a = tick(&a, &ControlInput::idle(), &world);
    assert!(!a.on_ground);
    assert_eq!(a.rect.cy, 27);
    a = tick(&a, &ControlInput::idle(), &world);
    assert!(a.on_ground);
    assert_eq!(a.rect.cy, 25);
    assert_eq!(a.rect.cy - a.rect.hh, 0);
}

#[test]
fn jump_clears_grounded_before_leaving_the_surface() {
    let world = floor_world();
    let a = resting_actor();
    let (next, hit) = tick_reported(&a, &held(false, false, true), &world);
    // The flag falls on the jump tick itself, though the actor was still
    // standing on the surface when the tick began.
    assert!(!next.on_ground);
    assert_eq!(next.vel.y, JUMP_SPEED);
    assert_eq!(next.rect.cy, 25 + JUMP_SPEED);
    assert_eq!(hit, HitReport::Clear);
}

#[test]
fn jump_arc_returns_to_the_ground() {
    let world = floor_world();
    let mut a = resting_actor();
    a = tick(&a, &held(false, false, true), &world);
    let mut airborne_ticks = 1;
    while !a.on_ground {
        a = tick(&a, &ControlInput::idle(), &world);
        airborne_ticks += 1;
        assert!(airborne_ticks < 100, "the jump must come back down");
        // The committed position never penetrates the floor.
        assert!(!overlaps(&a.rect, &world[0].rect));
    }
    // Landed flush where it started.
    assert_eq!(a.rect, resting_actor().rect);
}

#[test]
fn walk_is_blocked_by_an_edge_block() {
    // A floor to stand on and a wall-like edge block ahead: walking right,
    // the actor stops flush against the wall's left face.
    let floor = Obstacle { rect: rect(0, -50, 10_000, 50), mask: SurfaceMask::normal_block() };
    let wall = Obstacle { rect: rect(65, 25, 10, 50), mask: SurfaceMask::left_edge_block() };
    let world = vec![floor, wall];
    let mut a = resting_actor();
    // First step walks freely: 20 to the right.
    a = tick(&a, &held(false, true, false), &world);
    assert_eq!(a.rect.cx, 20);
    assert!(a.on_ground);
    a = tick(&a, &held(false, true, false), &world);
    assert_eq!(a.rect.cx, 40);
    // The third step is clipped: right edge 50 + 20 would pass the wall's
    // left edge at 55. The wall blocks the horizontal axis while the floor
    // still holds the vertical one, so the actor ends flush against the
    // wall, standing, and stays grounded; the report carries the earlier
    // contact, the floor at fraction zero.
    let (next, hit) = tick_reported(&a, &held(false, true, false), &world);
    assert_eq!(hit, HitReport::Struck(Surface::Top));
    assert!(next.on_ground);
    assert_eq!(next.rect.cx + next.rect.hw, 55);
    assert_eq!(next.rect.cy, 25);
    a = next;
    // Further pushing leaves it flush in place.
    let next = tick(&a, &held(false, true, false), &world);
    assert_eq!(next.rect, a.rect);
    assert!(next.on_ground);
    assert!(!overlaps(&next.rect, &wall.rect));
}

#[test]
fn exact_flush_arrival_grounds_on_the_next_tick() {
    // A fall that would end exactly flush is no contact yet — touching is
    // not overlapping — so the grounded flag comes one tick later, when
    // the re-applied gravity is cancelled at fraction zero.
    let world = floor_world();
    let a = Actor {
        rect: rect(0, 33, 10, 25),
        vel: Velocity { x: 0, y: -4 },
        on_ground: false,
    };
    let next = tick(&a, &ControlInput::idle(), &world);
    assert_eq!(next.rect.cy - next.rect.hh, 0);
    assert!(!next.on_ground);
    let next = tick(&next, &ControlInput::idle(), &world);
    assert_eq!(next.rect.cy - next.rect.hh, 0);
    assert!(next.on_ground);
}

#[test]
fn stage_walk_stays_inside_the_walls() {
    // A small stage built through the legend: a floor row and a wall at
    // each end. The actor falls in, walks right until the wall stops it
    // flush, then walks left to the other wall, never penetrating anything.
    let grid = ["____________", "____M_______", "]__________[", "XXXXXXXXXXXX"];
    let (gw, gh) = (12usize, 4usize);
    let mut obstacles = Vec::new();
    let mut actor = None;
    for (row, line) in grid.iter().enumerate() {
        for (col, &c) in line.as_bytes().iter().enumerate() {
            let kind = cell_kind(c);
            if let Some(ob) = obstacle_for_cell(kind, col, row, gw, gh) {
                obstacles.push(ob);
            }
            if kind == CellKind::Spawn {
                actor = Some(spawn_actor_at_cell(col, row, gw, gh));
            }
        }
    }
    let mut a = actor.expect("the grid marks a spawn cell");
    let clear_of_everything = |a: &Actor, obstacles: &[Obstacle]| {
        obstacles.iter().all(|ob| !overlaps(&a.rect, &ob.rect))
    };
    // Settle onto the floor.
    for _ in 0..10 {
        a = tick(&a, &ControlInput::idle(), &obstacles);
        assert!(clear_of_everything(&a, &obstacles));
    }
    assert!(a.on_ground);
    assert_eq!(a.rect.cy - a.rect.hh, -50);
    // Walk right into the right wall: flush against its left edge.
    for _ in 0..40 {
        a = tick(&a, &held(false, true, false), &obstacles);
        assert!(clear_of_everything(&a, &obstacles));
        assert!(a.on_ground);
    }
    assert_eq!(a.rect.cx + a.rect.hw, 500);
    // Walk left across the stage into the left wall.
    for _ in 0..60 {
        a = tick(&a, &held(true, false, false), &obstacles);
        assert!(clear_of_everything(&a, &obstacles));
        assert!(a.on_ground);
    }
    assert_eq!(a.rect.cx - a.rect.hw, -500);
}

#[test]
fn legend_maps_every_cell_kind() {
    assert_eq!(cell_kind(b'X'), CellKind::Solid);
    assert_eq!(cell_kind(b'['), CellKind::LeftEdge);
    assert_eq!(cell_kind(b']'), CellKind::RightEdge);
    assert_eq!(cell_kind(b'o'), CellKind::OutsideSentinel);
    assert_eq!(cell_kind(b'M'), CellKind::Spawn);
    assert_eq!(cell_kind(b'_'), CellKind::Empty);
    assert_eq!(cell_kind(b' '), CellKind::Empty);
}

#[test]
fn cell_geometry_matches_the_grid() {
    // A 36 x 25 grid: the top-left cell.
    let r = cell_rect(0, 0, 36, 25);
    assert_eq!((r.cx, r.cy), ((0 - 18) * CELL_SIZE + 50, 12 * CELL_SIZE));
    assert_eq!((r.hw, r.hh), (50, 50));
    // A central cell sits just right of the origin.
    let r = cell_rect(18, 12, 36, 25);
    assert_eq!((r.cx, r.cy), (50, 0));
}

#[test]
fn cells_become_the_right_obstacles() {
    let ob = obstacle_for_cell(CellKind::Solid, 3, 4, 36, 25).unwrap();
    assert_eq!(ob.mask, SurfaceMask::normal_block());
    assert_eq!(ob.rect, cell_rect(3, 4, 36, 25));
    let ob = obstacle_for_cell(CellKind::LeftEdge, 3, 4, 36, 25).unwrap();
    assert_eq!(ob.mask, SurfaceMask::left_edge_block());
    let ob = obstacle_for_cell(CellKind::RightEdge, 3, 4, 36, 25).unwrap();
    assert_eq!(ob.mask, SurfaceMask::right_edge_block());
    let ob = obstacle_for_cell(CellKind::OutsideSentinel, 3, 4, 36, 25).unwrap();
    assert_eq!(ob.mask, SurfaceMask::outside_sentinel());
    assert!(obstacle_for_cell(CellKind::Spawn, 3, 4, 36, 25).is_none());
    assert!(obstacle_for_cell(CellKind::Empty, 3, 4, 36, 25).is_none());
}

#[test]
fn spawned_actor_stands_on_its_cell() {
    let a = spawn_actor_at_cell(18, 6, 36, 25);
    let cell = cell_rect(18, 6, 36, 25);
    assert_eq!((a.rect.cx, a.rect.cy), (cell.cx, cell.cy));
    assert_eq!((a.rect.hw, a.rect.hh), (ACTOR_HALF_WIDTH, ACTOR_HALF_HEIGHT));
    assert_eq!((a.vel.x, a.vel.y), (0, 0));
    assert!(!a.on_ground);
}

#[test]
fn mask_constructors_match_the_legend() {
    let m = SurfaceMask::normal_block();
    assert_eq!((m.top, m.bottom, m.left, m.right, m.outside), (true, true, false, false, false));
    let m = SurfaceMask::left_edge_block();
    assert_eq!((m.top, m.bottom, m.left, m.right, m.outside), (true, true, true, false, false));
    let m = SurfaceMask::right_edge_block();
    assert_eq!((m.top, m.bottom, m.left, m.right, m.outside), (true, true, false, true, false));
    let m = SurfaceMask::outside_sentinel();
    assert_eq!((m.top, m.bottom, m.left, m.right, m.outside), (false, false, false, false, true));
    assert!(!m.any_solid());
    assert!(SurfaceMask::normal_block().any_solid());
}
