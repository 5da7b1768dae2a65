//! Surface model: which face of an obstacle was struck, and per-obstacle
//! flags saying which of its faces are solid to the actor.

use vstd::prelude::*;

verus! {

use crate::geom::Rect;

/// The face of an obstacle that the actor struck: `Top` means the actor came
/// down onto the obstacle's top surface, `Left` that it ran rightward into
/// the obstacle's left side, and so on.
#[derive(Clone, Copy, Debug, PartialEq, Eq, Structural)]
pub enum Surface {
    Top,
    Bottom,
    Left,
    Right,
}

/// Per-obstacle solidity flags, one per face. A face that is not solid lets
/// the actor pass through it, which is what makes one-way platforms and edge
/// blocks possible. `outside` marks a sentinel standing for off-stage space:
/// it is not a physical surface, and an actor found inside it is pushed back
/// toward the stage centre instead of bouncing off a face.
#[derive(Clone, Copy, Debug, PartialEq, Eq, Structural)]
pub struct SurfaceMask {
    pub top: bool,
    pub bottom: bool,
    pub left: bool,
    pub right: bool,
    pub outside: bool,
}

/// A static obstacle: its rectangle and which of its faces are solid.
/// Obstacles are built once at stage load and never move.
#[derive(Clone, Copy, Debug, PartialEq, Eq, Structural)]
pub struct Obstacle {
    pub rect: Rect,
    pub mask: SurfaceMask,
}

/// Whether the mask marks the given face solid.
pub open spec fn mask_allows(m: SurfaceMask, s: Surface) -> bool {
    match s {
        Surface::Top => m.top,
        Surface::Bottom => m.bottom,
        Surface::Left => m.left,
        Surface::Right => m.right,
    }
}

impl SurfaceMask {
    /// An interior stage block: the actor stands on it or bumps its underside,
    /// but its flanks are open so a row of such blocks has no inner walls.
    pub fn normal_block() -> (m: SurfaceMask)
        ensures
            m == (SurfaceMask {
                top: true,
                bottom: true,
                left: false,
                right: false,
                outside: false,
            }),
    {
        SurfaceMask { top: true, bottom: true, left: false, right: false, outside: false }
    }

    /// The left end of a platform: additionally solid on its left face.
    pub fn left_edge_block() -> (m: SurfaceMask)
        ensures
            m == (SurfaceMask {
                top: true,
                bottom: true,
                left: true,
                right: false,
                outside: false,
            }),
    {
        SurfaceMask { top: true, bottom: true, left: true, right: false, outside: false }
    }

    /// The right end of a platform: additionally solid on its right face.
    pub fn right_edge_block() -> (m: SurfaceMask)
        ensures
            m == (SurfaceMask {
                top: true,
                bottom: true,
                left: false,
                right: true,
                outside: false,
            }),
    {
        SurfaceMask { top: true, bottom: true, left: false, right: true, outside: false }
    }

    /// The off-stage sentinel: no solid face at all, only the `outside` mark.
    pub fn outside_sentinel() -> (m: SurfaceMask)
        ensures
            m == (SurfaceMask {
                top: false,
                bottom: false,
                left: false,
                right: false,
                outside: true,
            }),
    {
        SurfaceMask { top: false, bottom: false, left: false, right: false, outside: true }
    }

    /// Whether any face is solid; obstacles without one can never block.
    pub fn any_solid(&self) -> (r: bool)
        ensures
            r == (self.top || self.bottom || self.left || self.right),
    {
        self.top || self.bottom || self.left || self.right
    }
}

/// Runtime form of `mask_allows`.
pub fn side_solid(m: &SurfaceMask, s: Surface) -> (r: bool)
    ensures
        r == mask_allows(*m, s),
{
    match s {
        Surface::Top => m.top,
        Surface::Bottom => m.bottom,
        Surface::Left => m.left,
        Surface::Right => m.right,
    }
}

} // verus!
