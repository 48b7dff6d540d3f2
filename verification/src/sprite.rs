//! Sprite projection and depth-ordered compositing.
//!
//! Every sprite collected during a frame is projected into screen space
//! (its depth along the view axis and lateral offset along the right axis
//! give its screen position and square render size), the projected records
//! are sorted far-to-near (render size ascending), and each record is
//! rasterized column by column against the per-column wall-height buffer:
//! a sprite column is drawn exactly when the wall at that column is not
//! nearer, i.e. the wall's render height does not exceed the sprite's.

use vstd::prelude::*;

use crate::FRAC;
use crate::TEXTURE_PITCH;
use crate::frame::{cam_wf, Camera, DrawOp, ScreenRect};
use crate::geom::{dot, east, lemma_mul_bound, spec_dot, Vec2i};
use crate::slice::HEIGHT_CAP;
use crate::tiles::{sprite_wf, Sprite, TextureHandle};

verus! {

/// Largest window dimension, in pixels, the renderer accepts.
pub const WIN_MAX: i64 = 4096;

/// A sprite projected into screen space for one frame.
#[derive(Clone, Copy, PartialEq, Eq, Structural, Debug)]
pub struct SpriteRenderData {
    /// Scaled depth of the sprite along the view axis (positive).
    pub depth_num: i64,
    /// Screen column of the sprite's center.
    pub screen_x: i64,
    /// Square render size, in pixels, capped at `HEIGHT_CAP`.
    pub render_height: i64,
    /// The sprite's square screen rectangle.
    pub rect: ScreenRect,
    pub texture: TextureHandle,
}

/// Division truncating toward zero, as Rust's `/` computes it.
pub open spec fn trunc_div(a: int, b: int) -> int {
    if a >= 0 {
        a / b
    } else {
        -((-a) / b)
    }
}

/// Scaled depth of a sprite: the dot product of the player-to-sprite
/// vector with the forward vector.  Positive exactly for sprites in front
/// of the player.
pub open spec fn spec_depth(cam: Camera, s: Sprite) -> int {
    (s.x - cam.pos.x) * cam.fwd.x + (s.y - cam.pos.y) * cam.fwd.y
}

/// Scaled lateral offset of a sprite: the dot product of the
/// player-to-sprite vector with the east (right-hand) vector.
pub open spec fn spec_lateral(cam: Camera, s: Sprite) -> int {
    (s.x - cam.pos.x) * cam.fwd.y + (s.y - cam.pos.y) * (-cam.fwd.x)
}

/// Screen column of a projected sprite's center.
pub open spec fn spec_screen_x(cam: Camera, s: Sprite, win_w: int) -> int {
    win_w / 2 + trunc_div(cam.proj_dist * spec_lateral(cam, s), spec_depth(cam, s))
}

/// Square render size of a projected sprite: inversely proportional to
/// its depth, capped at `HEIGHT_CAP`.  The factor `dot(fwd, fwd)` puts
/// sprite heights on the same scale as wall heights (both come out as
/// `height_const * |fwd| / perpendicular distance`), so the per-column
/// occlusion test compares like with like for any forward vector.
pub open spec fn spec_sprite_height(cam: Camera, s: Sprite) -> int {
    let h = cam.height_const * FRAC * spec_dot(cam.fwd, cam.fwd) / spec_depth(cam, s);
    if h > HEIGHT_CAP {
        HEIGHT_CAP as int
    } else {
        h
    }
}

/// The screen-space record of one sprite, as a spec value; `project_sprite`
/// returns exactly this for every positive-depth sprite.
pub open spec fn spec_project_rec(cam: Camera, s: Sprite, win_w: int, win_h: int)
    -> SpriteRenderData {
    SpriteRenderData {
        depth_num: spec_depth(cam, s) as i64,
        screen_x: spec_screen_x(cam, s, win_w) as i64,
        render_height: spec_sprite_height(cam, s) as i64,
        rect: ScreenRect {
            x: (spec_screen_x(cam, s, win_w) - spec_sprite_height(cam, s) / 2) as i64,
            y: (win_h / 2 - spec_sprite_height(cam, s) / 2) as i64,
            w: spec_sprite_height(cam, s) as i64,
            h: spec_sprite_height(cam, s) as i64,
        },
        texture: s.texture,
    }
}

/// The projected records of a sprite buffer's positive-depth sprites, in
/// buffer order.
pub open spec fn spec_projections(cam: Camera, sprites: Seq<Sprite>, win_w: int, win_h: int)
    -> Seq<SpriteRenderData>
    decreases sprites.len(),
{
    if sprites.len() == 0 {
        Seq::empty()
    } else {
        spec_projections(cam, sprites.drop_last(), win_w, win_h) + if spec_depth(
            cam,
            sprites.last(),
        ) > 0 {
            seq![spec_project_rec(cam, sprites.last(), win_w, win_h)]
        } else {
            Seq::empty()
        }
    }
}

/// Bounds every projected record satisfies; the rasterizer relies on them.
pub open spec fn srd_wf(s: SpriteRenderData) -> bool {
    &&& 0 < s.depth_num
    &&& 0 <= s.render_height <= HEIGHT_CAP
    &&& s.rect.w == s.render_height
    &&& s.rect.h == s.render_height
    &&& -0x10000000000000 <= s.rect.x <= 0x10000000000000
    &&& s.rect.x == s.screen_x - s.render_height / 2
}

/// Projects one sprite into screen space.  Returns `None` exactly when the
/// sprite's depth is not positive (it stands behind or beside the player's
/// view plane, where this projection is undefined); such a sprite is
/// excluded from the frame.
pub fn project_sprite(cam: &Camera, s: &Sprite, win_w: usize, win_h: usize) -> (r: Option<
    SpriteRenderData,
>)
    requires
        cam_wf(*cam),
        sprite_wf(*s),
        1 <= win_w <= WIN_MAX,
        1 <= win_h <= WIN_MAX,
    ensures
        r is Some <==> spec_depth(*cam, *s) > 0,
        r is Some ==> {
            let d = r.unwrap();
            &&& d == spec_project_rec(*cam, *s, win_w as int, win_h as int)
            &&& d.depth_num == spec_depth(*cam, *s)
            &&& d.screen_x == spec_screen_x(*cam, *s, win_w as int)
            &&& d.render_height == spec_sprite_height(*cam, *s)
            &&& d.rect.x == d.screen_x - d.render_height / 2
            &&& d.rect.y == win_h as int / 2 - d.render_height / 2
            &&& d.rect.w == d.render_height
            &&& d.rect.h == d.render_height
            &&& d.texture == s.texture
            &&& srd_wf(d)
        },
{
    let v = Vec2i::new(s.x - cam.pos.x, s.y - cam.pos.y);
    let depth = dot(v, cam.fwd);
    proof {
        assert(spec_dot(v, cam.fwd) == spec_depth(*cam, *s));
    }
    if depth <= 0 {
        return None;
    }
    let e = east(cam.fwd);
    let lateral = dot(v, e);
    proof {
        assert(spec_dot(v, e) == spec_lateral(*cam, *s));
        lemma_mul_bound(v.x as int, e.x as int, 0x80000, 1024);
        lemma_mul_bound(v.y as int, e.y as int, 0x80000, 1024);
        lemma_mul_bound(cam.proj_dist as int, lateral as int, 1048576, 0x40000000);
    }
    let screen_x = (win_w as i64) / 2 + trunc_div_i64(cam.proj_dist * lateral, depth);
    let f2 = dot(cam.fwd, cam.fwd);
    proof {
        lemma_mul_bound(cam.fwd.x as int, cam.fwd.x as int, 1024, 1024);
        lemma_mul_bound(cam.fwd.y as int, cam.fwd.y as int, 1024, 1024);
        assert(cam.fwd.x * cam.fwd.x >= 0) by (nonlinear_arith);
        assert(cam.fwd.y * cam.fwd.y >= 0) by (nonlinear_arith);
        lemma_mul_bound(cam.height_const as int, FRAC as int, 1048576, FRAC as int);
        lemma_mul_bound((cam.height_const * FRAC) as int, f2 as int, 0x10000000, 0x200000);
        assert(cam.height_const * FRAC * f2 >= 0) by (nonlinear_arith)
            requires cam.height_const > 0 && FRAC > 0 && f2 >= 0;
    }
    let h0 = (cam.height_const * FRAC * f2) / depth;
    proof {
        vstd::arithmetic::div_mod::lemma_div_is_ordered(
            0,
            cam.height_const * FRAC * f2,
            depth as int,
        );
    }
    let rh = if h0 > HEIGHT_CAP {
        HEIGHT_CAP
    } else {
        h0
    };
    Some(
        SpriteRenderData {
            depth_num: depth,
            screen_x,
            render_height: rh,
            rect: ScreenRect {
                x: screen_x - rh / 2,
                y: (win_h as i64) / 2 - rh / 2,
                w: rh,
                h: rh,
            },
            texture: s.texture,
        },
    )
}

/// Division truncating toward zero.
fn trunc_div_i64(a: i64, b: i64) -> (r: i64)
    requires
        0 < b,
        -0x40000000000000 <= a <= 0x40000000000000,
    ensures
        r == trunc_div(a as int, b as int),
{
    if a >= 0 {
        a / b
    } else {
        -((-a) / b)
    }
}

/// The records are in far-to-near order: render size ascending.
pub open spec fn sorted_by_height(s: Seq<SpriteRenderData>) -> bool {
    forall|i: int, j: int|
        0 <= i < j < s.len() ==> #[trigger] s[i].render_height <= #[trigger] s[j].render_height
}

/// Sorts projected sprites far-to-near (render size ascending): the
/// painter's-algorithm order, so nearer sprites are drawn later and
/// overdraw farther ones.  The result is a permutation of the input.
pub fn sort_sprites(v: Vec<SpriteRenderData>) -> (r: Vec<SpriteRenderData>)
    ensures
        sorted_by_height(r@),
        r@.to_multiset() == v@.to_multiset(),
        r@.len() == v@.len(),
{
    let mut rest = v;
    let mut out: Vec<SpriteRenderData> = Vec::new();
    proof {
        broadcast use vstd::multiset::group_multiset_axioms;

        vstd::seq_lib::to_multiset_len::<SpriteRenderData>(out@);
        vstd::multiset::lemma_multiset_empty_len::<SpriteRenderData>(out@.to_multiset());
        assert(out@.to_multiset().add(rest@.to_multiset()) =~= rest@.to_multiset());
    }
    while rest.len() > 0
        invariant
            out@.to_multiset().add(rest@.to_multiset()) == v@.to_multiset(),
            out@.len() + rest@.len() == v@.len(),
            sorted_by_height(out@),
            forall|a: int, b: int|
                0 <= a < out@.len() && 0 <= b < rest@.len() ==> #[trigger] out@[a].render_height
                    <= #[trigger] rest@[b].render_height,
        decreases rest@.len(),
    {
        // find the farthest-from-front (smallest) remaining record
        let mut min_i: usize = 0;
        let mut k: usize = 1;
        while k < rest.len()
            invariant
                min_i < k <= rest@.len(),
                rest@.len() > 0,
                forall|m: int|
                    0 <= m < k ==> rest@[min_i as int].render_height
                        <= (#[trigger] rest@[m]).render_height,
            decreases rest@.len() - k,
        {
            if rest[k].render_height < rest[min_i].render_height {
                min_i = k;
            }
            k = k + 1;
        }
        let ghost prev_rest = rest@;
        let ghost prev_out = out@;
        let x = rest.remove(min_i);
        out.push(x);
        proof {
            broadcast use vstd::multiset::group_multiset_axioms;

            vstd::seq_lib::to_multiset_remove::<SpriteRenderData>(prev_rest, min_i as int);
            vstd::seq_lib::to_multiset_build::<SpriteRenderData>(prev_out, x);
            vstd::seq_lib::to_multiset_contains::<SpriteRenderData>(prev_rest, x);
            assert(prev_rest.contains(x));
            assert(rest@.to_multiset() =~= prev_rest.to_multiset().remove(x));
            assert(out@.to_multiset() =~= prev_out.to_multiset().insert(x));
            assert(out@.to_multiset().add(rest@.to_multiset()) =~= prev_out.to_multiset().add(
                prev_rest.to_multiset(),
            ));
            assert(forall|b: int| 0 <= b < min_i ==> rest@[b] == prev_rest[b]);
            assert(forall|b: int|
                min_i <= b < rest@.len() ==> rest@[b] == prev_rest[b + 1]);
        }
    }
    proof {
        broadcast use vstd::multiset::group_multiset_axioms;

        vstd::seq_lib::to_multiset_len::<SpriteRenderData>(rest@);
        vstd::multiset::lemma_multiset_empty_len::<SpriteRenderData>(rest@.to_multiset());
        assert(out@.to_multiset().add(rest@.to_multiset()) =~= out@.to_multiset());
        assert(out@.to_multiset() == v@.to_multiset());
    }
    out
}

/// Whether sprite record `s` draws at screen column `x`: the column lies in
/// its screen rectangle and on the window, and the wall at that column is
/// not nearer (the wall's render height does not exceed the sprite's).
/// This is the renderer's sole depth test for sprites.
pub open spec fn col_drawn(s: SpriteRenderData, walls: Seq<i64>, x: int) -> bool {
    &&& s.rect.x <= x < s.rect.x + s.rect.w
    &&& 0 <= x < walls.len()
    &&& walls[x] <= s.render_height
}

/// The blit a sprite record emits at one screen column: the texel column is
/// the fractional horizontal position within the sprite's rectangle mapped
/// to the texture pitch.
pub open spec fn col_op(s: SpriteRenderData, x: int) -> DrawOp {
    DrawOp::Blit {
        texture: s.texture,
        src: ScreenRect {
            x: ((x - s.rect.x) * TEXTURE_PITCH / (s.rect.w as int)) as i64,
            y: 0,
            w: 1,
            h: TEXTURE_PITCH,
        },
        dst: ScreenRect { x: x as i64, y: s.rect.y, w: 1, h: s.rect.h },
    }
}

/// Draw operations of the first `cnt` columns of one sprite's rectangle,
/// in ascending column order, keeping only the columns that pass the depth
/// test.
pub open spec fn cols_ops(s: SpriteRenderData, walls: Seq<i64>, cnt: int) -> Seq<DrawOp>
    decreases cnt,
{
    if cnt <= 0 {
        Seq::empty()
    } else {
        cols_ops(s, walls, cnt - 1) + if col_drawn(s, walls, s.rect.x + cnt - 1) {
            seq![col_op(s, s.rect.x + cnt - 1)]
        } else {
            Seq::empty()
        }
    }
}

/// All draw operations of one sprite record.
pub open spec fn per_sprite_ops(s: SpriteRenderData, walls: Seq<i64>) -> Seq<DrawOp> {
    cols_ops(s, walls, s.rect.w as int)
}

/// Draw operations of a whole sprite buffer, sprite by sprite in buffer
/// order: all operations of an earlier record precede all operations of a
/// later one, so on a height-sorted buffer nearer sprites overdraw farther
/// ones wherever they overlap.
pub open spec fn sprite_ops(srd: Seq<SpriteRenderData>, walls: Seq<i64>) -> Seq<DrawOp>
    decreases srd.len(),
{
    if srd.len() == 0 {
        Seq::empty()
    } else {
        sprite_ops(srd.drop_last(), walls) + per_sprite_ops(srd.last(), walls)
    }
}

/// Rasterizes a buffer of projected sprites, in buffer order, column by
/// column against the wall-height buffer.
pub fn rasterize_sprites(walls: &Vec<i64>, srd: &Vec<SpriteRenderData>) -> (ops: Vec<DrawOp>)
    requires
        walls@.len() <= WIN_MAX,
        forall|i: int| 0 <= i < srd@.len() ==> srd_wf(#[trigger] srd@[i]),
    ensures
        ops@ == sprite_ops(srd@, walls@),
{
    let mut ops: Vec<DrawOp> = Vec::new();
    let mut i: usize = 0;
    proof {
        assert(srd@.take(0) =~= Seq::<SpriteRenderData>::empty());
        assert(ops@ =~= sprite_ops(srd@.take(0), walls@));
    }
    while i < srd.len()
        invariant
            i <= srd@.len(),
            walls@.len() <= WIN_MAX,
            forall|k: int| 0 <= k < srd@.len() ==> srd_wf(#[trigger] srd@[k]),
            ops@ == sprite_ops(srd@.take(i as int), walls@),
        decreases srd@.len() - i,
    {
        let s = srd[i];
        let mut x: i64 = s.rect.x;
        let end: i64 = s.rect.x + s.rect.w;
        while x < end
            invariant
                srd_wf(s),
                walls@.len() <= WIN_MAX,
                s.rect.x <= x <= end,
                end == s.rect.x + s.rect.w,
                ops@ == sprite_ops(srd@.take(i as int), walls@) + cols_ops(
                    s,
                    walls@,
                    x - s.rect.x,
                ),
            decreases end - x,
        {
            if 0 <= x && x < walls.len() as i64 {
                if walls[x as usize] <= s.render_height {
                    proof {
                        assert((x - s.rect.x) * TEXTURE_PITCH < s.rect.w * TEXTURE_PITCH)
                            by (nonlinear_arith)
                            requires x - s.rect.x < s.rect.w && TEXTURE_PITCH > 0;
                        assert((x as int - s.rect.x) * TEXTURE_PITCH / (s.rect.w as int)
                            < TEXTURE_PITCH) by (nonlinear_arith)
                            requires
                                0 <= x - s.rect.x < s.rect.w && 0 < s.rect.w
                                && TEXTURE_PITCH > 0;
                        assert((x as int - s.rect.x) * TEXTURE_PITCH / (s.rect.w as int) >= 0)
                            by (nonlinear_arith)
                            requires 0 <= x - s.rect.x && 0 < s.rect.w;
                    }
                    let tex_x = ((x - s.rect.x) * TEXTURE_PITCH) / s.rect.w;
                    let op = DrawOp::Blit {
                        texture: s.texture,
                        src: ScreenRect { x: tex_x, y: 0, w: 1, h: TEXTURE_PITCH },
                        dst: ScreenRect { x, y: s.rect.y, w: 1, h: s.rect.h },
                    };
                    ops.push(op);
                    proof {
                        assert(col_drawn(s, walls@, x as int));
                        assert(op == col_op(s, x as int));
                    }
                } else {
                    proof {
                        assert(!col_drawn(s, walls@, x as int));
                    }
                }
            } else {
                proof {
                    assert(!col_drawn(s, walls@, x as int));
                }
            }
            proof {
                let cnt = x - s.rect.x + 1;
                assert(cols_ops(s, walls@, cnt) == cols_ops(s, walls@, cnt - 1) + if col_drawn(
                    s,
                    walls@,
                    s.rect.x + cnt - 1,
                ) {
                    seq![col_op(s, s.rect.x + cnt - 1)]
                } else {
                    Seq::<DrawOp>::empty()
                });
                assert(s.rect.x + cnt - 1 == x as int);
            }
            x = x + 1;
        }
        proof {
            assert(srd@.take(i as int + 1).drop_last() =~= srd@.take(i as int));
            assert(srd@.take(i as int + 1).last() == srd@[i as int]);
            assert(sprite_ops(srd@.take(i as int + 1), walls@) == sprite_ops(
                srd@.take(i as int),
                walls@,
            ) + per_sprite_ops(srd@[i as int], walls@));
        }
        i = i + 1;
    }
    proof {
        assert(srd@.take(srd@.len() as int) =~= srd@);
    }
    ops
}

/// A drawn column's operation occurs in the sprite's own operation list.
proof fn lemma_col_in_cols_ops(s: SpriteRenderData, walls: Seq<i64>, cnt: int, x: int)
    requires
        col_drawn(s, walls, x),
        x < s.rect.x + cnt,
        cnt <= s.rect.w,
    ensures
        exists|m: int|
            0 <= m < cols_ops(s, walls, cnt).len() && cols_ops(s, walls, cnt)[m] == col_op(s, x),
    decreases cnt,
{
    let ops = cols_ops(s, walls, cnt);
    let pre = cols_ops(s, walls, cnt - 1);
    if x == s.rect.x + cnt - 1 {
        assert(ops == pre + seq![col_op(s, x)]);
        assert(ops[pre.len() as int] == col_op(s, x));
    } else {
        lemma_col_in_cols_ops(s, walls, cnt - 1, x);
        let m = choose|m: int| 0 <= m < pre.len() && pre[m] == col_op(s, x);
        assert(ops[m] == col_op(s, x));
    }
}

/// The operations of the first `p` sprites form a prefix of the whole
/// buffer's operation list.
proof fn lemma_sprite_ops_prefix(srd: Seq<SpriteRenderData>, walls: Seq<i64>, p: int)
    requires
        0 <= p <= srd.len(),
    ensures
        sprite_ops(srd.take(p), walls).len() <= sprite_ops(srd, walls).len(),
        forall|m: int|
            0 <= m < sprite_ops(srd.take(p), walls).len() ==> sprite_ops(srd, walls)[m]
                == sprite_ops(srd.take(p), walls)[m],
    decreases srd.len() - p,
{
    if p == srd.len() {
        assert(srd.take(p) =~= srd);
    } else {
        assert(srd.take(p + 1).drop_last() =~= srd.take(p));
        assert(srd.take(p + 1).last() == srd[p]);
        assert(sprite_ops(srd.take(p + 1), walls) == sprite_ops(srd.take(p), walls)
            + per_sprite_ops(srd[p], walls));
        lemma_sprite_ops_prefix(srd, walls, p + 1);
    }
}

/// Sprite compositing order (the painter's algorithm): in the operation
/// list of a height-sorted sprite buffer, when two sprites both draw at a
/// screen column, the farther one's operation comes strictly earlier than
/// the nearer one's, so after compositing the nearer sprite's pixels are
/// the ones visible at every overlapping column, regardless of the order
/// in which the sprites entered the buffer.
pub proof fn lemma_compositing_order(
    srd: Seq<SpriteRenderData>,
    walls: Seq<i64>,
    i: int,
    j: int,
    x: int,
)
    requires
        sorted_by_height(srd),
        0 <= i < j < srd.len(),
        0 <= srd[i].rect.w,
        0 <= srd[j].rect.w,
        col_drawn(srd[i], walls, x),
        col_drawn(srd[j], walls, x),
    ensures
        srd[i].render_height <= srd[j].render_height,
        exists|ki: int, kj: int|
            {
                &&& 0 <= ki < kj < sprite_ops(srd, walls).len()
                &&& sprite_ops(srd, walls)[ki] == col_op(srd[i], x)
                &&& sprite_ops(srd, walls)[kj] == col_op(srd[j], x)
            },
{
    let ops = sprite_ops(srd, walls);
    // locate sprite i's operation for column x
    lemma_col_in_cols_ops(srd[i], walls, srd[i].rect.w as int, x);
    let mi = choose|m: int|
        0 <= m < per_sprite_ops(srd[i], walls).len() && per_sprite_ops(srd[i], walls)[m]
            == col_op(srd[i], x);
    lemma_col_in_cols_ops(srd[j], walls, srd[j].rect.w as int, x);
    let mj = choose|m: int|
        0 <= m < per_sprite_ops(srd[j], walls).len() && per_sprite_ops(srd[j], walls)[m]
            == col_op(srd[j], x);

    // the operations of the first p sprites occupy the list's front
    assert(srd.take(i + 1).drop_last() =~= srd.take(i));
    assert(srd.take(i + 1).last() == srd[i]);
    assert(sprite_ops(srd.take(i + 1), walls) == sprite_ops(srd.take(i), walls)
        + per_sprite_ops(srd[i], walls));
    assert(srd.take(j + 1).drop_last() =~= srd.take(j));
    assert(srd.take(j + 1).last() == srd[j]);
    assert(sprite_ops(srd.take(j + 1), walls) == sprite_ops(srd.take(j), walls)
        + per_sprite_ops(srd[j], walls));

    let ki = sprite_ops(srd.take(i), walls).len() + mi;
    let kj = sprite_ops(srd.take(j), walls).len() + mj;
    lemma_sprite_ops_prefix(srd, walls, i + 1);
    lemma_sprite_ops_prefix(srd, walls, j + 1);
    assert(ops[ki] == sprite_ops(srd.take(i + 1), walls)[ki]);
    assert(ops[ki] == col_op(srd[i], x));
    assert(ops[kj] == sprite_ops(srd.take(j + 1), walls)[kj]);
    assert(ops[kj] == col_op(srd[j], x));

    // sprite i's operations end no later than sprite j's begin
    assert(srd.take(j).take(i + 1) =~= srd.take(i + 1));
    lemma_sprite_ops_prefix(srd.take(j), walls, i + 1);
    assert(sprite_ops(srd.take(i + 1), walls).len() <= sprite_ops(srd.take(j), walls).len());
    assert(ki < kj);
}

} // verus!
