//! Frame-level shared types: the camera, screen rectangles, colors and the
//! draw operations the renderer emits.
//!
//! The renderer never touches a canvas itself: each frame it produces an
//! ordered list of `DrawOp`s, and the surrounding program replays them on
//! whatever surface it owns.  The order of the list is the compositing
//! order: later operations overdraw earlier ones.

use vstd::prelude::*;

use crate::FRAC;
use crate::geom::{fwd_wf, Vec2i, MAX_DIM};
use crate::tiles::TextureHandle;

verus! {

/// Largest height constant and projection-plane distance the camera
/// accepts.
pub const CAM_MAX: i64 = 1048576;

/// An axis-aligned screen rectangle (pixel coordinates, y growing down).
#[derive(Clone, Copy, PartialEq, Eq, Structural, Debug)]
pub struct ScreenRect {
    pub x: i64,
    pub y: i64,
    pub w: i64,
    pub h: i64,
}

/// An RGBA color.
#[derive(Clone, Copy, PartialEq, Eq, Structural, Debug)]
pub struct ColorRgba {
    pub r: u8,
    pub g: u8,
    pub b: u8,
    pub a: u8,
}

/// One drawing operation of a frame, in compositing order.
#[derive(Clone, Copy, PartialEq, Eq, Structural, Debug)]
pub enum DrawOp {
    /// Clear the whole surface.
    Clear,
    /// Fill a rectangle with a flat color.
    FillRect { rect: ScreenRect, color: ColorRgba },
    /// Blit the source rectangle of a texture onto a screen rectangle.
    Blit { texture: TextureHandle, src: ScreenRect, dst: ScreenRect },
    /// Present the finished frame.
    Present,
}

/// The player's view: position (sub-cell units), forward vector, and the
/// two projection constants.  `height_const` is the render-height
/// proportionality constant and `proj_dist` the projection-plane distance
/// in pixels.  The forward vector need not be unit length: both the wall
/// pass and the sprite pass compute heights equal to
/// `height_const * |fwd| / perpendicular distance`, so the two passes
/// stay mutually comparable, and `proj_dist` enters only through the
/// scale-free ratio of two dot products.
#[derive(Clone, Copy, PartialEq, Eq, Structural, Debug)]
pub struct Camera {
    pub pos: Vec2i,
    pub fwd: Vec2i,
    pub height_const: i64,
    pub proj_dist: i64,
}

/// A camera is well formed when its position lies in the world's
/// coordinate range and its constants are positive and bounded.
pub open spec fn cam_wf(c: Camera) -> bool {
    &&& fwd_wf(c.fwd)
    &&& 0 <= c.pos.x <= MAX_DIM * FRAC
    &&& 0 <= c.pos.y <= MAX_DIM * FRAC
    &&& 0 < c.height_const <= CAM_MAX
    &&& 0 < c.proj_dist <= CAM_MAX
}

} // verus!
