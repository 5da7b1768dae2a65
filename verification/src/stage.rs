//! Stage legend: the fixed mapping from a grid of cell characters to
//! obstacles and the actor spawn point. Reading the grid itself (a text
//! asset) is the host's job; this module owns the legend and the cell
//! geometry, so that every obstacle the host builds has exact, well-formed
//! coordinates.
//!
//! Cell `(col, row)` of a `grid_width x grid_height` grid is centred at
//! `((col - grid_width/2) * CELL_SIZE + CELL_SIZE/2, (grid_height/2 - row) * CELL_SIZE)`:
//! columns grow rightward, rows grow downward from the top of the grid, and
//! the stage is roughly centred on the origin.

use vstd::prelude::*;

verus! {

use crate::geom::{Rect, rect_wf};
use crate::surface::{Obstacle, SurfaceMask};
use crate::actor::Actor;

/// Side length of one stage cell, in world units.
pub const CELL_SIZE: i64 = 100;

/// Half-extents of the actor: one cell wide, one and a quarter cells tall.
pub const ACTOR_HALF_WIDTH: i64 = 100;

pub const ACTOR_HALF_HEIGHT: i64 = 125;

/// Largest grid dimension the cell geometry accepts; keeps every cell
/// centre far inside the coordinate range.
pub const MAX_GRID: usize = 10_000;

/// What one legend character stands for.
#[derive(Clone, Copy, Debug, PartialEq, Eq, Structural)]
pub enum CellKind {
    /// `X`: an interior block, solid above and below.
    Solid,
    /// `[`: the left end of a platform, additionally solid on its left face.
    LeftEdge,
    /// `]`: the right end of a platform, additionally solid on its right face.
    RightEdge,
    /// `o`: off-stage sentinel space.
    OutsideSentinel,
    /// `M`: where the actor spawns.
    Spawn,
    /// Anything else: empty space.
    Empty,
}

/// The legend.
pub open spec fn cell_kind_of(c: u8) -> CellKind {
    if c == 88 {  // 'X'
        CellKind::Solid
    } else if c == 91 {  // '['
        CellKind::LeftEdge
    } else if c == 93 {  // ']'
        CellKind::RightEdge
    } else if c == 111 {  // 'o'
        CellKind::OutsideSentinel
    } else if c == 77 {  // 'M'
        CellKind::Spawn
    } else {
        CellKind::Empty
    }
}

/// Map one grid character to what it stands for.
pub fn cell_kind(c: u8) -> (k: CellKind)
    ensures
        k == cell_kind_of(c),
{
    if c == 88 {  // 'X'
        CellKind::Solid
    } else if c == 91 {  // '['
        CellKind::LeftEdge
    } else if c == 93 {  // ']'
        CellKind::RightEdge
    } else if c == 111 {  // 'o'
        CellKind::OutsideSentinel
    } else if c == 77 {  // 'M'
        CellKind::Spawn
    } else {
        CellKind::Empty
    }
}

/// Horizontal centre of a cell, in world units.
pub open spec fn cell_center_x(col: int, grid_width: int) -> int {
    (col - grid_width / 2) * CELL_SIZE + CELL_SIZE / 2
}

/// Vertical centre of a cell: row 0 is the top row.
pub open spec fn cell_center_y(row: int, grid_height: int) -> int {
    (grid_height / 2 - row) * CELL_SIZE
}

/// The block rectangle of a cell: one cell, centred on the cell.
pub fn cell_rect(col: usize, row: usize, grid_width: usize, grid_height: usize) -> (r: Rect)
    requires
        col < grid_width <= MAX_GRID,
        row < grid_height <= MAX_GRID,
    ensures
        r.cx == cell_center_x(col as int, grid_width as int),
        r.cy == cell_center_y(row as int, grid_height as int),
        r.hw == CELL_SIZE / 2,
        r.hh == CELL_SIZE / 2,
        rect_wf(r),
{
    let half: i64 = CELL_SIZE / 2;
    let half_w: i64 = (grid_width / 2) as i64;
    let half_h: i64 = (grid_height / 2) as i64;
    let cx: i64 = (col as i64 - half_w) * CELL_SIZE + half;
    let cy: i64 = (half_h - row as i64) * CELL_SIZE;
    Rect { cx, cy, hw: half, hh: half }
}

/// The obstacle a cell contributes, if any: blocks and sentinels become
/// obstacles with their legend's surface mask; spawn markers and empty
/// space contribute none.
pub fn obstacle_for_cell(
    kind: CellKind,
    col: usize,
    row: usize,
    grid_width: usize,
    grid_height: usize,
) -> (ob: Option<Obstacle>)
    requires
        col < grid_width <= MAX_GRID,
        row < grid_height <= MAX_GRID,
    ensures
        ({
            match kind {
                CellKind::Solid => ob matches Some(o) && o.mask == (SurfaceMask {
                    top: true,
                    bottom: true,
                    left: false,
                    right: false,
                    outside: false,
                }),
                CellKind::LeftEdge => ob matches Some(o) && o.mask == (SurfaceMask {
                    top: true,
                    bottom: true,
                    left: true,
                    right: false,
                    outside: false,
                }),
                CellKind::RightEdge => ob matches Some(o) && o.mask == (SurfaceMask {
                    top: true,
                    bottom: true,
                    left: false,
                    right: true,
                    outside: false,
                }),
                CellKind::OutsideSentinel => ob matches Some(o) && o.mask == (SurfaceMask {
                    top: false,
                    bottom: false,
                    left: false,
                    right: false,
                    outside: true,
                }),
                CellKind::Spawn => ob is None,
                CellKind::Empty => ob is None,
            }
        }),
        ob matches Some(o) ==> {
            &&& o.rect.cx == cell_center_x(col as int, grid_width as int)
            &&& o.rect.cy == cell_center_y(row as int, grid_height as int)
            &&& o.rect.hw == CELL_SIZE / 2
            &&& o.rect.hh == CELL_SIZE / 2
            &&& rect_wf(o.rect)
        },
{
    let mask: Option<SurfaceMask> = match kind {
        CellKind::Solid => Some(SurfaceMask::normal_block()),
        CellKind::LeftEdge => Some(SurfaceMask::left_edge_block()),
        CellKind::RightEdge => Some(SurfaceMask::right_edge_block()),
        CellKind::OutsideSentinel => Some(SurfaceMask::outside_sentinel()),
        CellKind::Spawn => None,
        CellKind::Empty => None,
    };
    match mask {
        Some(m) => Some(Obstacle { rect: cell_rect(col, row, grid_width, grid_height), mask: m }),
        None => None,
    }
}

/// The actor spawned at a cell: the actor rectangle centred on the cell, at
/// rest and airborne until the first tick grounds it.
pub fn spawn_actor_at_cell(col: usize, row: usize, grid_width: usize, grid_height: usize) -> (a:
    Actor)
    requires
        col < grid_width <= MAX_GRID,
        row < grid_height <= MAX_GRID,
    ensures
        a.rect.cx == cell_center_x(col as int, grid_width as int),
        a.rect.cy == cell_center_y(row as int, grid_height as int),
        a.rect.hw == ACTOR_HALF_WIDTH,
        a.rect.hh == ACTOR_HALF_HEIGHT,
        rect_wf(a.rect),
        a.vel.x == 0 && a.vel.y == 0,
        !a.on_ground,
{
    let cell = cell_rect(col, row, grid_width, grid_height);
    Actor::spawned_at(
        Rect { cx: cell.cx, cy: cell.cy, hw: ACTOR_HALF_WIDTH, hh: ACTOR_HALF_HEIGHT },
    )
}

} // verus!
