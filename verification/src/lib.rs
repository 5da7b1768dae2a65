//! Physics core of a 2D platformer: one dynamic actor against a set of static
//! axis-aligned rectangular obstacles.
//!
//! Each fixed tick the integrator applies gravity and control input to the
//! actor's velocity, sweeps the actor's rectangle along the proposed
//! displacement against every obstacle, clips the displacement at the first
//! solid face that would be crossed, and commits the corrected position
//! together with a grounded flag for the next tick's control decisions.
//!
//! All coordinates, sizes and velocities are integers in world units, so every
//! impact computation is exact.

pub mod actor;
pub mod geom;
pub mod laws;
pub mod resolve;
pub mod stage;
pub mod surface;
pub mod sweep;
