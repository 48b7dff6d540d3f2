//! Rendering core of a grid-based first-person raycasting engine.
//!
//! Given a player pose and a 2D tile map, each frame produces the exact set
//! of screen columns of wall texture and the exact set of depth-tested sprite
//! fragments of a pseudo-3D view, via a digital-differential-analyzer (DDA)
//! grid traversal.
//!
//! All geometry is exact: world positions are fixed-point (sub-cell units of
//! `1/FRAC` of a map cell), ray directions are integer vectors, and distances
//! along a ray are rationals represented as integer numerator/denominator
//! pairs.

use vstd::prelude::*;

pub mod cursor;
pub mod frame;
pub mod geom;
pub mod render;
pub mod slice;
pub mod sprite;
pub mod tiles;

verus! {

/// Sub-cell units per map cell: world positions count `1/FRAC` of a cell.
pub const FRAC: i64 = 256;

/// Side length, in texels, of every square texture.
pub const TEXTURE_PITCH: i64 = 64;

} // verus!
