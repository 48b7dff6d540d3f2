//! Wall-slice extraction: perpendicular distance, render height, texture
//! column selection, the door slab hit test, and the lit/unlit door-jamb
//! texture choice.

use vstd::prelude::*;

use crate::{FRAC, TEXTURE_PITCH};
use crate::cursor::{cross_frac, spec_abs, Axis, GridCursor};
use crate::geom::{lemma_mul_bound, DIR_MAX, ROT_MAX};
use crate::tiles::{TextureHandle, WallSlice};

verus! {

/// Cap on every render height, in pixels: a hit at (or immeasurably near)
/// distance zero renders at this height instead of overflowing.
pub const HEIGHT_CAP: i64 = 1048576;

/// Texture id of the lit door-jamb face.
pub const DOOR_JAMB_LIT_ID: u32 = 101;

/// Texture id of the unlit door-jamb face.
pub const DOOR_JAMB_UNLIT_ID: u32 = 102;

/// Render height of a surface at perpendicular distance `num / den`, given
/// the height constant `hc`: proportional to the reciprocal of the
/// perpendicular distance, truncated, and capped at `HEIGHT_CAP` (a hit at
/// distance zero takes the cap itself).
pub open spec fn spec_render_height(hc: int, num: int, den: int) -> int {
    if num <= 0 {
        HEIGHT_CAP as int
    } else if hc * den / num > HEIGHT_CAP {
        HEIGHT_CAP as int
    } else {
        hc * den / num
    }
}

/// Computes a render height from a perpendicular distance.
pub fn render_height(hc: i64, num: i64, den: i64) -> (r: i64)
    requires
        0 < hc <= 1048576,
        0 <= num <= 0x1000000000,
        0 < den <= FRAC * DIR_MAX,
    ensures
        r == spec_render_height(hc as int, num as int, den as int),
        0 <= r <= HEIGHT_CAP,
{
    proof {
        lemma_mul_bound(hc as int, den as int, 1048576, FRAC * DIR_MAX);
    }
    if num <= 0 {
        HEIGHT_CAP
    } else {
        let h = (hc * den) / num;
        proof {
            vstd::arithmetic::div_mod::lemma_div_is_ordered(0, hc * den, num as int);
        }
        if h > HEIGHT_CAP {
            HEIGHT_CAP
        } else {
            h
        }
    }
}

/// Texel column selected by a crossing fraction `num / den`.
pub open spec fn spec_tex_column(num: int, den: int) -> int {
    num * TEXTURE_PITCH / den
}

/// Maps a crossing fraction to a texel column in `[0, TEXTURE_PITCH)`.
pub fn tex_column(num: i64, den: i64) -> (r: i64)
    requires
        0 <= num < den,
        0 < den <= 0x4000000000,
    ensures
        r == spec_tex_column(num as int, den as int),
        0 <= r < TEXTURE_PITCH,
{
    proof {
        lemma_mul_bound(num as int, TEXTURE_PITCH as int, 0x4000000000, TEXTURE_PITCH as int);
        assert((num as int) * TEXTURE_PITCH / (den as int) < TEXTURE_PITCH) by (nonlinear_arith)
            requires 0 <= num < den && 0 < den;
        assert((num as int) * TEXTURE_PITCH / (den as int) >= 0) by (nonlinear_arith)
            requires 0 <= num && 0 < den;
    }
    num * TEXTURE_PITCH / den
}

/// Bounds every wall slice the extractor emits satisfies; the wall draw
/// pass relies on them.
pub open spec fn slice_wf(s: crate::tiles::WallSlice) -> bool {
    &&& 0 <= s.dist_num <= 0x1000000000
    &&& 0 < s.dist_den <= FRAC * DIR_MAX
    &&& 0 <= s.tex_column < TEXTURE_PITCH
}

/// The lighting predicate of the door-jamb special case: the corridor light
/// falls on the wall faces along vertical grid lines, so a hit whose last
/// crossing was an x-axis (vertical-line) crossing shows the lit jamb and
/// any other hit the unlit one.
pub open spec fn spec_jamb_lit(side: Axis) -> bool {
    side is X
}

/// Chooses between the lit and unlit door-jamb textures from the cursor's
/// current hit state.
pub fn light_texture(cursor: &GridCursor, lit: TextureHandle, unlit: TextureHandle) -> (r:
    TextureHandle)
    ensures
        r == if spec_jamb_lit(cursor.side) {
            lit
        } else {
            unlit
        },
{
    match cursor.side {
        Axis::X => lit,
        Axis::Y => unlit,
    }
}

/// A cursor whose recorded hit is coherent with its ray: the crossed axis
/// has a non-zero direction component and the recorded denominator belongs
/// to that axis.  Every cursor that has just advanced satisfies this.
pub open spec fn hit_coherent(cursor: GridCursor) -> bool {
    &&& cursor.side is X ==> cursor.dir.x != 0 && cursor.dist_den == FRAC * spec_abs(
        cursor.dir.x as int,
    ) && cursor.nx == cursor.dist_num + FRAC
    &&& cursor.side is Y ==> cursor.dir.y != 0 && cursor.dist_den == FRAC * spec_abs(
        cursor.dir.y as int,
    ) && cursor.ny == cursor.dist_num + FRAC
}

/// Ray parameter numerator of the door slab plane, over the cursor's
/// distance denominator: the slab stands half a cell past the crossing
/// through which the ray entered the door tile.
pub open spec fn door_mid_num(cursor: GridCursor) -> int {
    cursor.dist_num + FRAC / 2
}

/// Whether the ray is still inside the door tile when it reaches the slab
/// plane: the slab parameter is no later than either pending crossing.
pub open spec fn door_reaches_mid(cursor: GridCursor) -> bool {
    &&& cursor.dir.x != 0 ==> door_mid_num(cursor) * (FRAC * spec_abs(cursor.dir.x as int))
        <= cursor.nx * cursor.dist_den
    &&& cursor.dir.y != 0 ==> door_mid_num(cursor) * (FRAC * spec_abs(cursor.dir.y as int))
        <= cursor.ny * cursor.dist_den
}

/// Offset of the ray within the door cell where it meets the slab plane,
/// as a fraction of a cell scaled to the cursor's distance denominator:
/// the coordinate along the slab, reduced modulo one cell.
pub open spec fn door_lateral_num(cursor: GridCursor) -> int {
    if cursor.side is X {
        cross_frac(
            cursor.origin.y as int,
            cursor.dir.y as int,
            door_mid_num(cursor),
            spec_abs(cursor.dir.x as int),
        )
    } else {
        cross_frac(
            cursor.origin.x as int,
            cursor.dir.x as int,
            door_mid_num(cursor),
            spec_abs(cursor.dir.y as int),
        )
    }
}

/// Whether a door standing `openness` sub-units open occludes the ray: the
/// slab covers the lateral span from `openness / FRAC` to the far edge of
/// the cell, the gap the span below it.
pub open spec fn door_covers(cursor: GridCursor, openness: int) -> bool {
    door_lateral_num(cursor) * FRAC >= openness * cursor.dist_den
}

/// Whether a door standing `openness` sub-units open stops the ray: the
/// ray reaches the slab plane inside the tile and the slab covers it.
pub open spec fn door_hit(cursor: GridCursor, openness: int) -> bool {
    door_reaches_mid(cursor) && door_covers(cursor, openness)
}

/// The wall slice a door emits when it stops the ray, as a spec value.
pub open spec fn spec_door_slice(
    cursor: GridCursor,
    texture: TextureHandle,
    openness: i64,
    c_rot: i64,
) -> WallSlice {
    WallSlice {
        dist_num: (door_mid_num(cursor) * c_rot) as i64,
        dist_den: cursor.dist_den,
        texture,
        tex_column: spec_tex_column(
            door_lateral_num(cursor) * FRAC - openness * cursor.dist_den,
            cursor.dist_den * FRAC,
        ) as i64,
    }
}

/// The wall slice of a solid-wall hit, as a spec value: perpendicular
/// distance from the crossing parameter and the column's scaled cosine,
/// the texel column from the crossing fraction, and the wall's own texture
/// unless the cell just exited was a door, in which case the lighting
/// predicate picks the lit or unlit jamb.
pub open spec fn spec_wall_slice(
    cursor: GridCursor,
    tex: TextureHandle,
    prev_door: bool,
    c_rot: i64,
) -> WallSlice {
    WallSlice {
        dist_num: (cursor.dist_num * c_rot) as i64,
        dist_den: cursor.dist_den,
        texture: if prev_door {
            if spec_jamb_lit(cursor.side) {
                TextureHandle { kind: crate::tiles::TexKind::Wall, id: DOOR_JAMB_LIT_ID }
            } else {
                TextureHandle { kind: crate::tiles::TexKind::Wall, id: DOOR_JAMB_UNLIT_ID }
            }
        } else {
            tex
        },
        tex_column: spec_tex_column(cursor.frac_num as int, cursor.frac_den as int) as i64,
    }
}

/// Computes the wall slice of a door tile for a ray that has just entered
/// it, accounting for the door's partial-open offset.  Returns `None`
/// exactly when the ray leaves the tile before the slab plane or passes
/// through the open gap; otherwise the slice's distance is the slab-plane
/// hit and its texture column is taken from the lateral hit offset shifted
/// by the openness.
pub fn door_wall_slice(cursor: &GridCursor, texture: TextureHandle, openness: i64, c_rot: i64)
    -> (r: Option<WallSlice>)
    requires
        cursor.wf(),
        hit_coherent(*cursor),
        0 <= openness <= FRAC,
        0 < c_rot <= ROT_MAX,
    ensures
        r is Some <==> door_hit(*cursor, openness as int),
        r is Some ==> r.unwrap() == spec_door_slice(*cursor, texture, openness, c_rot),
        r is Some ==> {
            let s = r.unwrap();
            &&& s.dist_num == door_mid_num(*cursor) * c_rot
            &&& s.dist_den == cursor.dist_den
            &&& s.texture == texture
            &&& s.tex_column == spec_tex_column(
                door_lateral_num(*cursor) * FRAC - openness * cursor.dist_den,
                cursor.dist_den * FRAC,
            )
            &&& 0 <= s.tex_column < TEXTURE_PITCH
        },
{
    let mid = cursor.dist_num + FRAC / 2;
    // does the ray stay inside the tile up to the slab plane?
    if cursor.dir.x != 0 {
        let adx = if cursor.dir.x < 0 {
            -cursor.dir.x
        } else {
            cursor.dir.x
        };
        proof {
            assert(cursor.nx <= crate::cursor::NUM_CAP);
            lemma_mul_bound(mid as int, (FRAC * adx) as int, 0x48000, FRAC * DIR_MAX);
            lemma_mul_bound(cursor.nx as int, cursor.dist_den as int, 0x48000, FRAC * DIR_MAX);
        }
        if mid * (FRAC * adx) > cursor.nx * cursor.dist_den {
            return None;
        }
    }
    if cursor.dir.y != 0 {
        let ady = if cursor.dir.y < 0 {
            -cursor.dir.y
        } else {
            cursor.dir.y
        };
        proof {
            assert(cursor.ny <= crate::cursor::NUM_CAP);
            lemma_mul_bound(mid as int, (FRAC * ady) as int, 0x48000, FRAC * DIR_MAX);
            lemma_mul_bound(cursor.ny as int, cursor.dist_den as int, 0x48000, FRAC * DIR_MAX);
        }
        if mid * (FRAC * ady) > cursor.ny * cursor.dist_den {
            return None;
        }
    }
    // lateral offset where the ray meets the slab plane
    let lat: i64 = match cursor.side {
        Axis::X => {
            let adx = if cursor.dir.x < 0 {
                -cursor.dir.x
            } else {
                cursor.dir.x
            };
            proof {
                lemma_mul_bound(cursor.origin.y as int, adx as int, crate::geom::MAX_DIM * FRAC, DIR_MAX as int);
                lemma_mul_bound(mid as int, cursor.dir.y as int, 0x48000, DIR_MAX as int);
            }
            crate::cursor::euclid_mod(cursor.origin.y * adx + mid * cursor.dir.y, cursor.dist_den)
        },
        Axis::Y => {
            let ady = if cursor.dir.y < 0 {
                -cursor.dir.y
            } else {
                cursor.dir.y
            };
            proof {
                lemma_mul_bound(cursor.origin.x as int, ady as int, crate::geom::MAX_DIM * FRAC, DIR_MAX as int);
                lemma_mul_bound(mid as int, cursor.dir.x as int, 0x48000, DIR_MAX as int);
            }
            crate::cursor::euclid_mod(cursor.origin.x * ady + mid * cursor.dir.x, cursor.dist_den)
        },
    };
    proof {
        lemma_mul_bound(lat as int, FRAC as int, FRAC * DIR_MAX, FRAC as int);
        lemma_mul_bound(openness as int, cursor.dist_den as int, FRAC as int, FRAC * DIR_MAX);
    }
    // the slab covers the lateral span at or above the openness
    if lat * FRAC < openness * cursor.dist_den {
        return None;
    }
    proof {
        lemma_mul_bound(cursor.dist_den as int, FRAC as int, FRAC * DIR_MAX, FRAC as int);
        assert(lat * FRAC - openness * cursor.dist_den < cursor.dist_den * FRAC)
            by (nonlinear_arith)
            requires lat < cursor.dist_den && 0 <= openness && cursor.dist_den > 0 && FRAC > 0;
        lemma_mul_bound(mid as int, c_rot as int, 0x48000, ROT_MAX as int);
    }
    let col = tex_column(lat * FRAC - openness * cursor.dist_den, cursor.dist_den * FRAC);
    Some(
        WallSlice {
            dist_num: mid * c_rot,
            dist_den: cursor.dist_den,
            texture,
            tex_column: col,
        },
    )
}

} // verus!
