//! The per-frame render pipeline: the renderer's frame-scoped buffers, the
//! wall-slice extractor that drives a `GridCursor` across the map per
//! screen column, the sprite collector with its per-frame tile-hit map,
//! the wall and sprite draw passes, and the frame orchestrator.

use vstd::prelude::*;

use crate::FRAC;
use crate::TEXTURE_PITCH;
use crate::cursor::GridCursor;
use crate::frame::{cam_wf, Camera, ColorRgba, DrawOp, ScreenRect};
use crate::geom::{rot_wf, rotate, MAX_DIM, ROT_MAX};
use crate::slice::{
    door_wall_slice, light_texture, render_height, slice_wf, spec_render_height, tex_column,
    DOOR_JAMB_LIT_ID, DOOR_JAMB_UNLIT_ID, HEIGHT_CAP,
};
use crate::sprite::WIN_MAX;
use crate::tiles::{sprite_wf, Sprite, TexKind, TextureHandle, Tile, TileMap, WallSlice};

verus! {

/// A vector of `n` copies of one value.
fn filled<T: Copy>(n: usize, v: T) -> (r: Vec<T>)
    ensures
        r@.len() == n,
        forall|i: int| 0 <= i < n ==> r@[i] == v,
{
    let mut r: Vec<T> = Vec::new();
    let mut i: usize = 0;
    while i < n
        invariant
            i <= n,
            r@.len() == i,
            forall|k: int| 0 <= k < i ==> r@[k] == v,
        decreases n - i,
    {
        r.push(v);
        i = i + 1;
    }
    r
}

/// What an Object or Empty tile contributes to the frame's sprite buffer:
/// the static object sprite (if any) followed by the tile's transient enemy
/// sprites.
pub open spec fn tile_contribution(m: TileMap, x: int, y: int) -> Seq<Sprite> {
    match m.spec_tile(x, y) {
        Tile::Object(s) => seq![s] + m.enemy_sprites@[m.spec_idx(x, y)]@,
        Tile::Empty => m.enemy_sprites@[m.spec_idx(x, y)]@,
        _ => Seq::empty(),
    }
}

/// The renderer: window and map geometry fixed at construction, plus the
/// frame-scoped transient buffers, all explicitly owned and explicitly
/// reset each frame.
pub struct Renderer {
    pub win_w: usize,
    pub win_h: usize,
    pub map_w: usize,
    pub map_h: usize,
    /// Per-column render height of this frame's wall slice (the implicit
    /// depth buffer for sprite occlusion).
    pub wall_heights: Vec<i64>,
    /// Per-cell flag: has this tile already contributed its sprites this
    /// frame?
    pub tile_hit: Vec<bool>,
    /// Per-column wall slice of the current frame.
    pub wall_slices: Vec<Option<WallSlice>>,
    /// This frame's collected sprites.
    pub sprites: Vec<Sprite>,
    /// Top-left corner and size of the first-person weapon overlay.
    pub weapon_x: i64,
    pub weapon_y: i64,
    pub weapon_pitch: i64,
}

impl Renderer {
    /// Well-formedness: geometry in range, each buffer sized to its
    /// domain, and every buffered value within its bounds.
    pub open spec fn wf(self) -> bool {
        &&& 1 <= self.win_w <= WIN_MAX
        &&& 1 <= self.win_h <= WIN_MAX
        &&& 1 <= self.map_w <= MAX_DIM
        &&& 1 <= self.map_h <= MAX_DIM
        &&& self.wall_heights@.len() == self.win_w
        &&& self.wall_slices@.len() == self.win_w
        &&& self.tile_hit@.len() == self.map_w * self.map_h
        &&& forall|i: int|
            0 <= i < self.win_w ==> 0 <= #[trigger] self.wall_heights@[i] <= HEIGHT_CAP
        &&& forall|i: int|
            0 <= i < self.win_w ==> (#[trigger] self.wall_slices@[i]) is Some
                ==> slice_wf(self.wall_slices@[i].unwrap())
        &&& forall|i: int| 0 <= i < self.sprites@.len() ==> sprite_wf(#[trigger] self.sprites@[i])
    }

    /// The renderer was built for this map's dimensions.
    pub open spec fn matches_map(self, m: TileMap) -> bool {
        self.map_w == m.width && self.map_h == m.height
    }

    /// Builds a renderer for a window and a map, with all frame buffers
    /// cleared and the weapon overlay square centered at the bottom of the
    /// window with half the window's width.
    pub fn new(win_w: usize, win_h: usize, map_w: usize, map_h: usize) -> (r: Renderer)
        requires
            1 <= win_w <= WIN_MAX,
            1 <= win_h <= WIN_MAX,
            1 <= map_w <= MAX_DIM,
            1 <= map_h <= MAX_DIM,
        ensures
            r.wf(),
            r.win_w == win_w,
            r.win_h == win_h,
            r.map_w == map_w,
            r.map_h == map_h,
            r.sprites@.len() == 0,
            forall|i: int| 0 <= i < win_w ==> #[trigger] r.wall_heights@[i] == 0,
            forall|i: int| 0 <= i < map_w * map_h ==> !(#[trigger] r.tile_hit@[i]),
            forall|i: int| 0 <= i < win_w ==> (#[trigger] r.wall_slices@[i]) is None,
            r.weapon_pitch == win_w as int / 2,
            r.weapon_x == win_w as int / 2 - win_w as int / 2 / 2,
            r.weapon_y == win_h - win_w as int / 2,
    {
        proof {
            assert(map_w * map_h <= MAX_DIM * MAX_DIM) by (nonlinear_arith)
                requires 1 <= map_w <= MAX_DIM && 1 <= map_h <= MAX_DIM;
        }
        let weapon_pitch = (win_w as i64) / 2;
        Renderer {
            win_w,
            win_h,
            map_w,
            map_h,
            wall_heights: filled(win_w, 0i64),
            tile_hit: filled(map_w * map_h, false),
            wall_slices: filled(win_w, Option::<WallSlice>::None),
            sprites: Vec::new(),
            weapon_x: (win_w as i64) / 2 - weapon_pitch / 2,
            weapon_y: (win_h as i64) - weapon_pitch,
            weapon_pitch,
        }
    }

    /// Resets the per-column wall-height buffer to all zero.
    pub fn reset_wall_heights(&mut self)
        requires
            old(self).wf(),
        ensures
            final(self).wf(),
            final(self).wall_heights@.len() == old(self).wall_heights@.len(),
            *final(self) == (Renderer { wall_heights: final(self).wall_heights, ..*old(self) }),
            forall|i: int|
                0 <= i < final(self).wall_heights@.len() ==> final(self).wall_heights@[i] == 0,
    {
        let n = self.wall_heights.len();
        let mut i: usize = 0;
        while i < n
            invariant
                i <= n,
                self.wall_heights@.len() == n,
                *self == (Renderer { wall_heights: self.wall_heights, ..*old(self) }),
                forall|k: int| 0 <= k < i ==> self.wall_heights@[k] == 0,
            decreases n - i,
        {
            self.wall_heights[i] = 0;
            i = i + 1;
        }
    }

    /// Resets the per-frame tile-hit map to all false: no tile has
    /// contributed sprites to the new frame yet.
    pub fn reset_tile_hit_map(&mut self)
        requires
            old(self).wf(),
        ensures
            final(self).wf(),
            *final(self) == (Renderer { tile_hit: final(self).tile_hit, ..*old(self) }),
            final(self).tile_hit@.len() == old(self).tile_hit@.len(),
            forall|i: int| 0 <= i < final(self).tile_hit@.len() ==> !final(self).tile_hit@[i],
    {
        let n = self.tile_hit.len();
        let mut i: usize = 0;
        while i < n
            invariant
                i <= n,
                self.tile_hit@.len() == n,
                *self == (Renderer { tile_hit: self.tile_hit, ..*old(self) }),
                forall|k: int| 0 <= k < i ==> !self.tile_hit@[k],
            decreases n - i,
        {
            self.tile_hit[i] = false;
            i = i + 1;
        }
    }

    /// Collects the sprites of one traversed tile, at most once per frame:
    /// if the tile-hit map already marks the cell, nothing changes; else
    /// the cell is marked and its contribution is appended to the frame's
    /// sprite buffer.  Idempotent per cell within a frame: however many
    /// ray columns cross a tile, it contributes exactly once.
    #[verifier::loop_isolation(false)]
    pub fn grab_sprites(&mut self, map: &TileMap, x: usize, y: usize)
        requires
            old(self).wf(),
            map.wf(),
            old(self).matches_map(*map),
            map.spec_within(x as int, y as int),
            map.spec_tile(x as int, y as int) is Object || map.spec_tile(
                x as int,
                y as int,
            ) is Empty,
        ensures
            final(self).wf(),
            final(self).matches_map(*map),
            final(self).win_w == old(self).win_w,
            final(self).win_h == old(self).win_h,
            final(self).map_w == old(self).map_w,
            final(self).map_h == old(self).map_h,
            final(self).wall_heights@ == old(self).wall_heights@,
            final(self).wall_slices@ == old(self).wall_slices@,
            final(self).weapon_x == old(self).weapon_x,
            final(self).weapon_y == old(self).weapon_y,
            final(self).weapon_pitch == old(self).weapon_pitch,
            final(self).tile_hit@ == old(self).tile_hit@.update(
                map.spec_idx(x as int, y as int),
                true,
            ),
            old(self).tile_hit@[map.spec_idx(x as int, y as int)] ==> final(self).sprites@
                == old(self).sprites@,
            !old(self).tile_hit@[map.spec_idx(x as int, y as int)] ==> final(self).sprites@
                == old(self).sprites@ + tile_contribution(*map, x as int, y as int),
    {
        proof {
            map.lemma_idx_bounds(x as int, y as int);
        }
        let idx = x * self.map_h + y;
        if self.tile_hit[idx] {
            proof {
                assert(old(self).tile_hit@.update(idx as int, true) =~= old(self).tile_hit@);
            }
            return ;
        }
        self.tile_hit[idx] = true;
        match map.tile(x, y) {
            Tile::Object(s) => {
                let sp = *s;
                self.sprites.push(sp);
            },
            _ => {},
        }
        match map.tile(x, y) {
            Tile::Object(_) | Tile::Empty => {
                let list = map.enemy_sprites_at(x, y);
                proof {
                    assert(forall|j: int|
                        0 <= j < list@.len() ==> sprite_wf(
                            #[trigger] map.enemy_sprites@[map.spec_idx(x as int, y as int)]@[j],
                        ));
                }
                let n = list.len();
                let mut k: usize = 0;
                let ghost base = self.sprites@;
                while k < n
                    invariant
                        k <= n,
                        n == list@.len(),
                        self.sprites@ == base + list@.take(k as int),
                        forall|j: int| 0 <= j < n ==> sprite_wf(#[trigger] list@[j]),
                        forall|j: int|
                            0 <= j < self.sprites@.len() ==> sprite_wf(
                                #[trigger] self.sprites@[j],
                            ),
                        self.win_w == old(self).win_w,
                        self.win_h == old(self).win_h,
                        self.map_w == old(self).map_w,
                        self.map_h == old(self).map_h,
                        self.wall_heights@ == old(self).wall_heights@,
                        self.wall_slices@ == old(self).wall_slices@,
                        self.weapon_x == old(self).weapon_x,
                        self.weapon_y == old(self).weapon_y,
                        self.weapon_pitch == old(self).weapon_pitch,
                        self.tile_hit@ == old(self).tile_hit@.update(
                            map.spec_idx(x as int, y as int),
                            true,
                        ),
                    decreases n - k,
                {
                    let sp = list[k];
                    self.sprites.push(sp);
                    proof {
                        assert(base + list@.take(k as int) + seq![list@[k as int]] =~= base
                            + list@.take(k as int + 1));
                    }
                    k = k + 1;
                }
                proof {
                    assert(list@.take(n as int) =~= list@);
                }
            },
            _ => {},
        }
    }
}

/// Whether a texture handle is the one of some wall or door tile of the
/// map: every slice the extractor emits carries such a texture, or one of
/// the two door-jamb handles.
pub open spec fn texture_of_map(m: TileMap, t: TextureHandle) -> bool {
    exists|x: int, y: int|
        m.spec_within(x, y) && match #[trigger] m.spec_tile(x, y) {
            Tile::Wall(tex) => tex == t,
            Tile::Door(d) => d.texture == t,
            _ => false,
        }
}

/// One of the two fixed door-jamb texture handles.
pub open spec fn jamb_texture(t: TextureHandle) -> bool {
    t == (TextureHandle { kind: TexKind::Wall, id: DOOR_JAMB_LIT_ID }) || t == (TextureHandle {
        kind: TexKind::Wall,
        id: DOOR_JAMB_UNLIT_ID,
    })
}

/// Whether cell (x, y) lies on the outer ring of the map.
pub open spec fn boundary_cell(m: TileMap, x: int, y: int) -> bool {
    x == 0 || y == 0 || x == m.width - 1 || y == m.height - 1
}

/// A map is enclosed when every cell of its outer ring is a solid wall:
/// no ray cast from strictly inside can leave the grid.
pub open spec fn enclosed(m: TileMap) -> bool {
    forall|x: int, y: int|
        m.spec_within(x, y) && boundary_cell(m, x, y) ==> #[trigger] m.spec_tile(x, y) is Wall
}

/// The camera stands strictly inside the map's outer ring.
pub open spec fn interior_start(m: TileMap, cam: Camera) -> bool {
    &&& 1 <= cam.pos.x as int / (FRAC as int) <= m.width - 2
    &&& 1 <= cam.pos.y as int / (FRAC as int) <= m.height - 2
}

/// The wall slice a ray cast produces, as a spec value: the cursor is
/// advanced crossing by crossing (`spec_advance`) until it enters a solid
/// wall (whose slice `spec_wall_slice` gives, with the jamb override when
/// the cell just exited was a door), a door slab that stops the ray
/// (`spec_door_slice`), or a cell outside the map (no slice).  `fuel`
/// bounds the walk; the executable cast supplies `traversal_measure` of
/// the start cursor, which the walk can never exhaust inside the map.
pub open spec fn spec_cast(m: TileMap, c: GridCursor, c_rot: i64, fuel: nat) -> Option<
    WallSlice,
>
    decreases fuel,
{
    if !m.spec_within(c.cell_x as int, c.cell_y as int) {
        Option::None
    } else if fuel == 0 {
        Option::None
    } else {
        let prev_door = m.spec_tile(c.cell_x as int, c.cell_y as int) is Door;
        let c2 = crate::cursor::spec_advance(c);
        if !m.spec_within(c2.cell_x as int, c2.cell_y as int) {
            Option::None
        } else {
            match m.spec_tile(c2.cell_x as int, c2.cell_y as int) {
                Tile::Wall(tex) => Option::Some(
                    crate::slice::spec_wall_slice(c2, tex, prev_door, c_rot),
                ),
                Tile::Door(d) => if crate::slice::door_hit(c2, d.openness as int) {
                    Option::Some(crate::slice::spec_door_slice(c2, d.texture, d.openness, c_rot))
                } else {
                    spec_cast(m, c2, c_rot, (fuel - 1) as nat)
                },
                Tile::Object(_) => spec_cast(m, c2, c_rot, (fuel - 1) as nat),
                Tile::Empty => spec_cast(m, c2, c_rot, (fuel - 1) as nat),
                Tile::Unset => Option::None,
            }
        }
    }
}

/// The walkable (object or empty) cells a ray cast passes through before
/// it terminates, in traversal order: the cells whose sprites the cast
/// collects.
pub open spec fn spec_cast_cells(m: TileMap, c: GridCursor, fuel: nat) -> Seq<(int, int)>
    decreases fuel,
{
    if !m.spec_within(c.cell_x as int, c.cell_y as int) {
        Seq::empty()
    } else if fuel == 0 {
        Seq::empty()
    } else {
        let c2 = crate::cursor::spec_advance(c);
        if !m.spec_within(c2.cell_x as int, c2.cell_y as int) {
            Seq::empty()
        } else {
            match m.spec_tile(c2.cell_x as int, c2.cell_y as int) {
                Tile::Wall(_) => Seq::empty(),
                Tile::Door(d) => if crate::slice::door_hit(c2, d.openness as int) {
                    Seq::empty()
                } else {
                    spec_cast_cells(m, c2, (fuel - 1) as nat)
                },
                Tile::Object(_) => seq![(c2.cell_x as int, c2.cell_y as int)] + spec_cast_cells(
                    m,
                    c2,
                    (fuel - 1) as nat,
                ),
                Tile::Empty => seq![(c2.cell_x as int, c2.cell_y as int)] + spec_cast_cells(
                    m,
                    c2,
                    (fuel - 1) as nat,
                ),
                Tile::Unset => Seq::empty(),
            }
        }
    }
}

/// The sprite buffer and tile-hit map after collecting the given cells in
/// order: a cell already marked contributes nothing; an unmarked cell is
/// marked and appends its contribution.
pub open spec fn spec_collect(
    m: TileMap,
    cells: Seq<(int, int)>,
    sprites: Seq<Sprite>,
    hits: Seq<bool>,
) -> (Seq<Sprite>, Seq<bool>)
    decreases cells.len(),
{
    if cells.len() == 0 {
        (sprites, hits)
    } else {
        let prev = spec_collect(m, cells.drop_last(), sprites, hits);
        let cell = cells.last();
        let i = m.spec_idx(cell.0, cell.1);
        if prev.1[i] {
            prev
        } else {
            (prev.0 + tile_contribution(m, cell.0, cell.1), prev.1.update(i, true))
        }
    }
}

/// The start cursor of one screen column's view ray.
pub open spec fn spec_column_start(cam: Camera, c_rot: i64, s_rot: i64) -> GridCursor {
    crate::cursor::spec_cursor_start(cam.pos, crate::geom::spec_ray_dir(cam.fwd, c_rot, s_rot))
}

/// The wall slice of one screen column, as a spec value.
pub open spec fn spec_cast_column(m: TileMap, cam: Camera, c_rot: i64, s_rot: i64) -> Option<
    WallSlice,
> {
    let c0 = spec_column_start(cam, c_rot, s_rot);
    spec_cast(m, c0, c_rot, traversal_measure(c0) as nat)
}

/// The walkable cells one screen column's ray passes through.
pub open spec fn spec_column_cells(m: TileMap, cam: Camera, c_rot: i64, s_rot: i64) -> Seq<
    (int, int),
> {
    let c0 = spec_column_start(cam, c_rot, s_rot);
    spec_cast_cells(m, c0, traversal_measure(c0) as nat)
}

/// Upper bound on the number of advances a cursor can still make before
/// its cell leaves the extended grid range: the cursor's cell moves
/// monotonically along each axis, one cell per advance.
pub open spec fn traversal_measure(cur: GridCursor) -> int {
    (if cur.dir.x > 0 {
        MAX_DIM + 2 - cur.cell_x
    } else if cur.dir.x < 0 {
        cur.cell_x + 2
    } else {
        0
    }) + (if cur.dir.y > 0 {
        MAX_DIM + 2 - cur.cell_y
    } else if cur.dir.y < 0 {
        cur.cell_y + 2
    } else {
        0
    })
}

impl Renderer {
    /// Casts the view ray of one screen column (the camera's forward
    /// vector rotated by the column's rotation pair) through the map until
    /// a terminal surface is found: a solid wall, or a door slab that
    /// occludes the ray.  Every walkable tile passed through on the way
    /// contributes its sprites to the frame's sprite buffer, at most once
    /// per frame.  A ray that leaves the grid yields no slice; on an
    /// enclosed map with the camera strictly inside, that cannot happen
    /// and a slice is always produced.  A wall reached directly out of a
    /// door tile takes the lit or unlit door-jamb texture as the lighting
    /// predicate selects it.
    #[verifier::loop_isolation(false)]
    pub fn cast_column(&mut self, map: &TileMap, cam: &Camera, c_rot: i64, s_rot: i64) -> (r:
        Option<WallSlice>)
        requires
            old(self).wf(),
            map.wf(),
            old(self).matches_map(*map),
            cam_wf(*cam),
            rot_wf(c_rot, s_rot),
        ensures
            final(self).wf(),
            final(self).matches_map(*map),
            final(self).win_w == old(self).win_w,
            final(self).win_h == old(self).win_h,
            final(self).map_w == old(self).map_w,
            final(self).map_h == old(self).map_h,
            final(self).wall_heights@ == old(self).wall_heights@,
            final(self).wall_slices@ == old(self).wall_slices@,
            final(self).weapon_x == old(self).weapon_x,
            final(self).weapon_y == old(self).weapon_y,
            final(self).weapon_pitch == old(self).weapon_pitch,
            r == spec_cast_column(*map, *cam, c_rot, s_rot),
            final(self).sprites@ == spec_collect(
                *map,
                spec_column_cells(*map, *cam, c_rot, s_rot),
                old(self).sprites@,
                old(self).tile_hit@,
            ).0,
            final(self).tile_hit@ == spec_collect(
                *map,
                spec_column_cells(*map, *cam, c_rot, s_rot),
                old(self).sprites@,
                old(self).tile_hit@,
            ).1,
            r is Some ==> slice_wf(r.unwrap()),
            r is Some ==> texture_of_map(*map, r.unwrap().texture) || jamb_texture(
                r.unwrap().texture,
            ),
            enclosed(*map) && interior_start(*map, *cam) ==> r is Some,
    {
        let dir = rotate(cam.fwd, c_rot, s_rot);
        let mut cursor = GridCursor::new(cam.pos, dir);
        let ghost enc = enclosed(*map) && interior_start(*map, *cam);
        let ghost start_x = cursor.cell_x as int;
        let ghost start_y = cursor.cell_y as int;
        let ghost c0g = spec_column_start(*cam, c_rot, s_rot);
        let ghost fuel0 = traversal_measure(c0g) as nat;
        let ghost mut cells_done: Seq<(int, int)> = Seq::empty();
        proof {
            assert(cursor == c0g);
            assert(cells_done + spec_cast_cells(*map, cursor, traversal_measure(cursor) as nat)
                =~= spec_cast_cells(*map, c0g, fuel0));
        }
        let lit = TextureHandle::new(TexKind::Wall, DOOR_JAMB_LIT_ID);
        let unlit = TextureHandle::new(TexKind::Wall, DOOR_JAMB_UNLIT_ID);
        loop
            invariant
                cursor.wf(),
                cursor.dir == dir,
                enc ==> map.spec_within(cursor.cell_x as int, cursor.cell_y as int) && (
                (cursor.cell_x == start_x && cursor.cell_y == start_y) || !(map.spec_tile(
                    cursor.cell_x as int,
                    cursor.cell_y as int,
                ) is Wall)),
                enc ==> 1 <= start_x <= map.width - 2 && 1 <= start_y <= map.height - 2,
                c0g == spec_column_start(*cam, c_rot, s_rot),
                fuel0 == traversal_measure(c0g) as nat,
                spec_cast(*map, c0g, c_rot, fuel0) == spec_cast(
                    *map,
                    cursor,
                    c_rot,
                    traversal_measure(cursor) as nat,
                ),
                spec_cast_cells(*map, c0g, fuel0) == cells_done + spec_cast_cells(
                    *map,
                    cursor,
                    traversal_measure(cursor) as nat,
                ),
                self.sprites@ == spec_collect(
                    *map,
                    cells_done,
                    old(self).sprites@,
                    old(self).tile_hit@,
                ).0,
                self.tile_hit@ == spec_collect(
                    *map,
                    cells_done,
                    old(self).sprites@,
                    old(self).tile_hit@,
                ).1,
                self.wf(),
                self.matches_map(*map),
                self.win_w == old(self).win_w,
                self.win_h == old(self).win_h,
                self.map_w == old(self).map_w,
                self.map_h == old(self).map_h,
                self.wall_heights@ == old(self).wall_heights@,
                self.wall_slices@ == old(self).wall_slices@,
                self.weapon_x == old(self).weapon_x,
                self.weapon_y == old(self).weapon_y,
                self.weapon_pitch == old(self).weapon_pitch,
            decreases traversal_measure(cursor),
        {
            if !map.within_map(cursor.cell_x, cursor.cell_y) {
                proof {
                    assert(spec_cast(*map, cursor, c_rot, traversal_measure(cursor) as nat)
                        is None);
                    assert(spec_cast_cells(*map, cursor, traversal_measure(cursor) as nat)
                        =~= Seq::<(int, int)>::empty());
                    assert(cells_done + Seq::<(int, int)>::empty() =~= cells_done);
                    assert(spec_column_cells(*map, *cam, c_rot, s_rot) == cells_done);
                }
                return None;
            }
            let cx = cursor.cell_x as usize;
            let cy = cursor.cell_y as usize;
            let prev_door: bool = if let Tile::Door(_) = map.tile(cx, cy) {
                true
            } else {
                false
            };
            let ghost prev_cursor = cursor;
            let ghost mp = traversal_measure(prev_cursor);
            cursor.go_to_next_hit();
            proof {
                assert(cursor == crate::cursor::spec_advance(prev_cursor));
                assert(mp >= 1);
                assert(traversal_measure(cursor) == mp - 1);
                if enc {
                    // the cell just left is inside the ring (it is either
                    // the interior start or a non-wall tile, and the whole
                    // ring is wall), so one step cannot leave the map
                    assert(!boundary_cell(
                        *map,
                        prev_cursor.cell_x as int,
                        prev_cursor.cell_y as int,
                    ));
                    assert(map.spec_within(cursor.cell_x as int, cursor.cell_y as int));
                }
            }
            if !map.within_map(cursor.cell_x, cursor.cell_y) {
                proof {
                    assert(spec_cast(*map, prev_cursor, c_rot, mp as nat) is None);
                    assert(spec_cast_cells(*map, prev_cursor, mp as nat) =~= Seq::<
                        (int, int),
                    >::empty());
                    assert(cells_done + Seq::<(int, int)>::empty() =~= cells_done);
                    assert(spec_column_cells(*map, *cam, c_rot, s_rot) == cells_done);
                }
                return None;
            }
            let nx = cursor.cell_x as usize;
            let ny = cursor.cell_y as usize;
            match map.tile(nx, ny) {
                Tile::Wall(tex) => {
                    let texture = if prev_door {
                        light_texture(&cursor, lit, unlit)
                    } else {
                        *tex
                    };
                    proof {
                        crate::geom::lemma_mul_bound(
                            cursor.dist_num as int,
                            c_rot as int,
                            crate::cursor::NUM_CAP as int,
                            ROT_MAX as int,
                        );
                    }
                    let col = tex_column(cursor.frac_num, cursor.frac_den);
                    let slice = WallSlice {
                        dist_num: cursor.dist_num * c_rot,
                        dist_den: cursor.dist_den,
                        texture,
                        tex_column: col,
                    };
                    proof {
                        assert(slice == crate::slice::spec_wall_slice(
                            cursor,
                            *tex,
                            prev_door,
                            c_rot,
                        ));
                        assert(spec_cast(*map, prev_cursor, c_rot, mp as nat) == Option::Some(
                            slice,
                        ));
                        assert(spec_cast_cells(*map, prev_cursor, mp as nat) =~= Seq::<
                            (int, int),
                        >::empty());
                        assert(cells_done + Seq::<(int, int)>::empty() =~= cells_done);
                        assert(spec_column_cells(*map, *cam, c_rot, s_rot) == cells_done);
                        if !prev_door {
                            assert(map.spec_within(nx as int, ny as int) && match map.spec_tile(
                                nx as int,
                                ny as int,
                            ) {
                                Tile::Wall(t) => t == texture,
                                Tile::Door(d) => d.texture == texture,
                                _ => false,
                            });
                        }
                    }
                    return Some(slice);
                },
                Tile::Door(d) => {
                    let openness = d.openness;
                    let dtex = d.texture;
                    proof {
                        map.lemma_idx_bounds(nx as int, ny as int);
                        assert(crate::tiles::tile_wf(map.spec_tile(nx as int, ny as int)));
                        crate::geom::lemma_mul_bound(
                            (cursor.dist_num + FRAC / 2) as int,
                            c_rot as int,
                            0x48000,
                            ROT_MAX as int,
                        );
                    }
                    let ds = door_wall_slice(&cursor, dtex, openness, c_rot);
                    if let Option::Some(slice) = ds {
                        proof {
                            assert(spec_cast(*map, prev_cursor, c_rot, mp as nat)
                                == Option::Some(slice));
                            assert(spec_cast_cells(*map, prev_cursor, mp as nat) =~= Seq::<
                                (int, int),
                            >::empty());
                            assert(cells_done + Seq::<(int, int)>::empty() =~= cells_done);
                            assert(spec_column_cells(*map, *cam, c_rot, s_rot) == cells_done);
                            assert(map.spec_within(nx as int, ny as int) && match map.spec_tile(
                                nx as int,
                                ny as int,
                            ) {
                                Tile::Wall(t) => t == slice.texture,
                                Tile::Door(dd) => dd.texture == slice.texture,
                                _ => false,
                            });
                        }
                        return Some(slice);
                    }
                    proof {
                        assert(spec_cast(*map, prev_cursor, c_rot, mp as nat) == spec_cast(
                            *map,
                            cursor,
                            c_rot,
                            traversal_measure(cursor) as nat,
                        ));
                        assert(spec_cast_cells(*map, prev_cursor, mp as nat)
                            == spec_cast_cells(
                            *map,
                            cursor,
                            traversal_measure(cursor) as nat,
                        ));
                    }
                },
                Tile::Object(_) | Tile::Empty => {
                    let ghost pre_sprites = self.sprites@;
                    let ghost pre_hits = self.tile_hit@;
                    self.grab_sprites(map, nx, ny);
                    proof {
                        let cell = (cursor.cell_x as int, cursor.cell_y as int);
                        let next = cells_done.push(cell);
                        assert(next.drop_last() =~= cells_done);
                        assert(next.last() == cell);
                        assert(nx as int == cell.0 && ny as int == cell.1);
                        let prev = spec_collect(
                            *map,
                            cells_done,
                            old(self).sprites@,
                            old(self).tile_hit@,
                        );
                        map.lemma_idx_bounds(cell.0, cell.1);
                        assert(pre_hits.len() == map.width * map.height);
                        if pre_hits[map.spec_idx(cell.0, cell.1)] {
                            assert(old(self).tile_hit@.len() == map.width * map.height);
                            assert(self.tile_hit@ =~= pre_hits.update(
                                map.spec_idx(cell.0, cell.1),
                                true,
                            ));
                            assert(self.tile_hit@ =~= pre_hits);
                            assert(spec_collect(
                                *map,
                                next,
                                old(self).sprites@,
                                old(self).tile_hit@,
                            ) == prev);
                        } else {
                            assert(spec_collect(
                                *map,
                                next,
                                old(self).sprites@,
                                old(self).tile_hit@,
                            ) == (
                                prev.0 + tile_contribution(*map, cell.0, cell.1),
                                prev.1.update(map.spec_idx(cell.0, cell.1), true),
                            ));
                        }
                        cells_done = next;
                        // the traversal's remaining cells start with this one
                        assert(spec_cast_cells(*map, prev_cursor, mp as nat) == seq![cell]
                            + spec_cast_cells(*map, cursor, traversal_measure(cursor) as nat));
                        assert(cells_done.drop_last() + (seq![cell] + spec_cast_cells(
                            *map,
                            cursor,
                            traversal_measure(cursor) as nat,
                        )) =~= cells_done + spec_cast_cells(
                            *map,
                            cursor,
                            traversal_measure(cursor) as nat,
                        ));
                        assert(spec_cast(*map, prev_cursor, c_rot, mp as nat) == spec_cast(
                            *map,
                            cursor,
                            c_rot,
                            traversal_measure(cursor) as nat,
                        ));
                    }
                },
                Tile::Unset => {
                    proof {
                        assert(false);
                    }
                },
            }
        }
    }
}

/// The blit of one wall slice at one screen column: the slice's texel
/// column, one pixel wide, centered on the mid-screen line with its render
/// height.
pub open spec fn wall_col_op(s: WallSlice, x: int, hc: int, win_h: int) -> DrawOp {
    DrawOp::Blit {
        texture: s.texture,
        src: ScreenRect { x: s.tex_column, y: 0, w: 1, h: TEXTURE_PITCH },
        dst: ScreenRect {
            x: x as i64,
            y: (win_h / 2 - spec_render_height(hc, s.dist_num as int, s.dist_den as int)
                / 2) as i64,
            w: 1,
            h: spec_render_height(hc, s.dist_num as int, s.dist_den as int) as i64,
        },
    }
}

/// Draw operations of the first `cnt` columns of the wall-slice buffer, in
/// column order; a column without a slice draws nothing.
pub open spec fn walls_ops(
    slices: Seq<Option<WallSlice>>,
    hc: int,
    win_h: int,
    cnt: int,
) -> Seq<DrawOp>
    decreases cnt,
{
    if cnt <= 0 {
        Seq::empty()
    } else {
        walls_ops(slices, hc, win_h, cnt - 1) + match slices[cnt - 1] {
            Option::Some(s) => seq![wall_col_op(s, cnt - 1, hc, win_h)],
            Option::None => Seq::empty(),
        }
    }
}

/// The sprite buffer and tile-hit map after the first `k` columns of a
/// frame have been cast, starting from an empty buffer and an all-false
/// hit map: the frame's collected state is a function of the map, the
/// camera and the ray table alone.
pub open spec fn spec_frame_state(m: TileMap, cam: Camera, rays: Seq<(i64, i64)>, k: int) -> (
    Seq<Sprite>,
    Seq<bool>,
)
    decreases k,
{
    if k <= 0 {
        (Seq::<Sprite>::empty(), Seq::new((m.width * m.height) as nat, |i: int| false))
    } else {
        let prev = spec_frame_state(m, cam, rays, k - 1);
        spec_collect(m, spec_column_cells(m, cam, rays[k - 1].0, rays[k - 1].1), prev.0, prev.1)
    }
}

impl Renderer {
    /// Fills the frame's wall-slice buffer and sprite buffer: clears the
    /// sprite buffer, resets the tile-hit map, then casts one ray per
    /// screen column.  Each column's slice is exactly the cast of its ray
    /// (`spec_cast_column`), and the collected sprites and hit map are the
    /// fold of the columns' traversals from the reset state — a function
    /// of map, camera and ray table only.  On an enclosed map with the
    /// camera strictly inside, every column receives a wall slice.
    #[verifier::loop_isolation(false)]
    pub fn render_into_buffers(&mut self, map: &TileMap, cam: &Camera, rays: &Vec<(i64, i64)>)
        requires
            old(self).wf(),
            map.wf(),
            old(self).matches_map(*map),
            cam_wf(*cam),
            rays@.len() == old(self).win_w,
            forall|k: int| 0 <= k < rays@.len() ==> rot_wf((#[trigger] rays@[k]).0, rays@[k].1),
        ensures
            final(self).wf(),
            final(self).matches_map(*map),
            final(self).win_w == old(self).win_w,
            final(self).win_h == old(self).win_h,
            final(self).map_w == old(self).map_w,
            final(self).map_h == old(self).map_h,
            final(self).wall_heights@ == old(self).wall_heights@,
            final(self).weapon_x == old(self).weapon_x,
            final(self).weapon_y == old(self).weapon_y,
            final(self).weapon_pitch == old(self).weapon_pitch,
            forall|x: int|
                0 <= x < final(self).win_w ==> final(self).wall_slices@[x] == spec_cast_column(
                    *map,
                    *cam,
                    (#[trigger] rays@[x]).0,
                    rays@[x].1,
                ),
            final(self).sprites@ == spec_frame_state(
                *map,
                *cam,
                rays@,
                final(self).win_w as int,
            ).0,
            final(self).tile_hit@ == spec_frame_state(
                *map,
                *cam,
                rays@,
                final(self).win_w as int,
            ).1,
            enclosed(*map) && interior_start(*map, *cam) ==> forall|x: int|
                0 <= x < final(self).win_w ==> (#[trigger] final(self).wall_slices@[x]) is Some,
    {
        self.sprites.clear();
        self.reset_tile_hit_map();
        proof {
            assert(self.sprites@ =~= spec_frame_state(*map, *cam, rays@, 0).0);
            assert(self.tile_hit@ =~= spec_frame_state(*map, *cam, rays@, 0).1);
        }
        let n = self.win_w;
        let mut x: usize = 0;
        while x < n
            invariant
                x <= n,
                n == self.win_w,
                self.wf(),
                self.matches_map(*map),
                self.win_w == old(self).win_w,
                self.win_h == old(self).win_h,
                self.map_w == old(self).map_w,
                self.map_h == old(self).map_h,
                self.wall_heights@ == old(self).wall_heights@,
                self.weapon_x == old(self).weapon_x,
                self.weapon_y == old(self).weapon_y,
                self.weapon_pitch == old(self).weapon_pitch,
                forall|k: int|
                    0 <= k < x ==> self.wall_slices@[k] == spec_cast_column(
                        *map,
                        *cam,
                        (#[trigger] rays@[k]).0,
                        rays@[k].1,
                    ),
                self.sprites@ == spec_frame_state(*map, *cam, rays@, x as int).0,
                self.tile_hit@ == spec_frame_state(*map, *cam, rays@, x as int).1,
                enclosed(*map) && interior_start(*map, *cam) ==> forall|k: int|
                    0 <= k < x ==> (#[trigger] self.wall_slices@[k]) is Some,
            decreases n - x,
        {
            let pair = rays[x];
            let slice = self.cast_column(map, cam, pair.0, pair.1);
            self.wall_slices[x] = slice;
            x = x + 1;
        }
    }

    /// Emits the two flat fills of the ceiling half and the floor half of
    /// the window.
    pub fn ceiling_and_floor_ops(&self) -> (r: Vec<DrawOp>)
        requires
            self.wf(),
        ensures
            r@.len() == 2,
            r@[0] == (DrawOp::FillRect {
                rect: ScreenRect {
                    x: 0,
                    y: 0,
                    w: self.win_w as i64,
                    h: (self.win_h / 2) as i64,
                },
                color: ColorRgba { r: 50, g: 50, b: 50, a: 255 },
            }),
            r@[1] == (DrawOp::FillRect {
                rect: ScreenRect {
                    x: 0,
                    y: (self.win_h / 2) as i64,
                    w: self.win_w as i64,
                    h: (self.win_h / 2) as i64,
                },
                color: ColorRgba { r: 96, g: 96, b: 96, a: 255 },
            }),
    {
        let half = (self.win_h as i64) / 2;
        let mut r: Vec<DrawOp> = Vec::new();
        r.push(
            DrawOp::FillRect {
                rect: ScreenRect { x: 0, y: 0, w: self.win_w as i64, h: half },
                color: ColorRgba { r: 50, g: 50, b: 50, a: 255 },
            },
        );
        r.push(
            DrawOp::FillRect {
                rect: ScreenRect { x: 0, y: half, w: self.win_w as i64, h: half },
                color: ColorRgba { r: 96, g: 96, b: 96, a: 255 },
            },
        );
        r
    }

    /// Draws the wall slices of the frame: resets the wall-height buffer,
    /// then for every column with a slice computes its render height from
    /// the slice's perpendicular distance, records it in the wall-height
    /// buffer (the sprite pass's occlusion test reads it), and emits the
    /// column's blit.
    #[verifier::loop_isolation(false)]
    pub fn draw_walls_from_buffer(&mut self, cam: &Camera) -> (ops: Vec<DrawOp>)
        requires
            old(self).wf(),
            cam_wf(*cam),
        ensures
            final(self).wf(),
            final(self).win_w == old(self).win_w,
            final(self).win_h == old(self).win_h,
            final(self).map_w == old(self).map_w,
            final(self).map_h == old(self).map_h,
            final(self).wall_slices@ == old(self).wall_slices@,
            final(self).sprites@ == old(self).sprites@,
            final(self).tile_hit@ == old(self).tile_hit@,
            final(self).weapon_x == old(self).weapon_x,
            final(self).weapon_y == old(self).weapon_y,
            final(self).weapon_pitch == old(self).weapon_pitch,
            final(self).wall_heights@.len() == old(self).win_w,
            forall|x: int|
                0 <= x < final(self).win_w ==> final(self).wall_heights@[x]
                    == match final(self).wall_slices@[x] {
                    Option::Some(s) => spec_render_height(
                        cam.height_const as int,
                        s.dist_num as int,
                        s.dist_den as int,
                    ),
                    Option::None => 0,
                },
            ops@ == walls_ops(
                final(self).wall_slices@,
                cam.height_const as int,
                final(self).win_h as int,
                final(self).win_w as int,
            ),
    {
        self.reset_wall_heights();
        let mut ops: Vec<DrawOp> = Vec::new();
        let n = self.win_w;
        let mut x: usize = 0;
        proof {
            assert(ops@ =~= walls_ops(
                self.wall_slices@,
                cam.height_const as int,
                self.win_h as int,
                0,
            ));
        }
        while x < n
            invariant
                x <= n,
                n == self.win_w,
                self.wf(),
                self.win_w == old(self).win_w,
                self.win_h == old(self).win_h,
                self.map_w == old(self).map_w,
                self.map_h == old(self).map_h,
                self.wall_slices@ == old(self).wall_slices@,
                self.sprites@ == old(self).sprites@,
                self.tile_hit@ == old(self).tile_hit@,
                self.weapon_x == old(self).weapon_x,
                self.weapon_y == old(self).weapon_y,
                self.weapon_pitch == old(self).weapon_pitch,
                self.wall_heights@.len() == n,
                forall|k: int|
                    0 <= k < x ==> self.wall_heights@[k] == match self.wall_slices@[k] {
                        Option::Some(s) => spec_render_height(
                            cam.height_const as int,
                            s.dist_num as int,
                            s.dist_den as int,
                        ),
                        Option::None => 0,
                    },
                ops@ == walls_ops(
                    self.wall_slices@,
                    cam.height_const as int,
                    self.win_h as int,
                    x as int,
                ),
            decreases n - x,
        {
            let slice = self.wall_slices[x];
            match slice {
                Option::Some(s) => {
                    let h = render_height(cam.height_const, s.dist_num, s.dist_den);
                    self.wall_heights[x] = h;
                    let op = DrawOp::Blit {
                        texture: s.texture,
                        src: ScreenRect { x: s.tex_column, y: 0, w: 1, h: TEXTURE_PITCH },
                        dst: ScreenRect {
                            x: x as i64,
                            y: (self.win_h as i64) / 2 - h / 2,
                            w: 1,
                            h,
                        },
                    };
                    ops.push(op);
                    proof {
                        assert(op == wall_col_op(
                            s,
                            x as int,
                            cam.height_const as int,
                            self.win_h as int,
                        ));
                    }
                },
                Option::None => {
                    self.wall_heights[x] = 0;
                },
            }
            proof {
                assert(walls_ops(
                    self.wall_slices@,
                    cam.height_const as int,
                    self.win_h as int,
                    x as int + 1,
                ) == walls_ops(
                    self.wall_slices@,
                    cam.height_const as int,
                    self.win_h as int,
                    x as int,
                ) + match self.wall_slices@[x as int] {
                    Option::Some(s) => seq![
                        wall_col_op(s, x as int, cam.height_const as int, self.win_h as int),
                    ],
                    Option::None => Seq::<DrawOp>::empty(),
                });
            }
            x = x + 1;
        }
        ops
    }

    /// Projects the frame's sprite buffer, sorts the projected records
    /// far-to-near, and rasterizes them column by column against the
    /// wall-height buffer, in that order.  The emitted operations are
    /// exactly those of some height-sorted permutation of the projections
    /// of the buffer's positive-depth sprites.
    #[verifier::loop_isolation(false)]
    pub fn draw_sprites_from_buffer(&self, cam: &Camera) -> (ops: Vec<DrawOp>)
        requires
            self.wf(),
            cam_wf(*cam),
        ensures
            exists|srd: Seq<crate::sprite::SpriteRenderData>|
                {
                    &&& crate::sprite::sorted_by_height(srd)
                    &&& srd.to_multiset() == crate::sprite::spec_projections(
                        *cam,
                        self.sprites@,
                        self.win_w as int,
                        self.win_h as int,
                    ).to_multiset()
                    &&& ops@ == crate::sprite::sprite_ops(srd, self.wall_heights@)
                },
    {
        let ghost ww = self.win_w as int;
        let ghost wh = self.win_h as int;
        let mut proj: Vec<crate::sprite::SpriteRenderData> = Vec::new();
        let n = self.sprites.len();
        let mut i: usize = 0;
        proof {
            assert(self.sprites@.take(0) =~= Seq::<Sprite>::empty());
            assert(proj@ =~= crate::sprite::spec_projections(
                *cam,
                self.sprites@.take(0),
                ww,
                wh,
            ));
        }
        while i < n
            invariant
                i <= n,
                n == self.sprites@.len(),
                proj@ == crate::sprite::spec_projections(*cam, self.sprites@.take(i as int), ww, wh),
                forall|k: int| 0 <= k < proj@.len() ==> crate::sprite::srd_wf(#[trigger] proj@[k]),
            decreases n - i,
        {
            let sp = self.sprites[i];
            let d = crate::sprite::project_sprite(cam, &sp, self.win_w, self.win_h);
            proof {
                assert(self.sprites@.take(i as int + 1).drop_last() =~= self.sprites@.take(
                    i as int,
                ));
                assert(self.sprites@.take(i as int + 1).last() == self.sprites@[i as int]);
            }
            if let Option::Some(rec) = d {
                proj.push(rec);
            }
            i = i + 1;
        }
        proof {
            assert(self.sprites@.take(n as int) =~= self.sprites@);
        }
        let sorted = crate::sprite::sort_sprites(proj);
        proof {
            assert forall|k: int| 0 <= k < sorted@.len() implies crate::sprite::srd_wf(
                #[trigger] sorted@[k],
            ) by {
                vstd::seq_lib::to_multiset_contains::<crate::sprite::SpriteRenderData>(
                    sorted@,
                    sorted@[k],
                );
                vstd::seq_lib::to_multiset_contains::<crate::sprite::SpriteRenderData>(
                    proj@,
                    sorted@[k],
                );
                assert(sorted@.contains(sorted@[k]));
                assert(proj@.contains(sorted@[k]));
                let m = choose|m: int| 0 <= m < proj@.len() && proj@[m] == sorted@[k];
                assert(crate::sprite::srd_wf(proj@[m]));
            }
        }
        let ops = crate::sprite::rasterize_sprites(&self.wall_heights, &sorted);
        proof {
            assert(crate::sprite::sorted_by_height(sorted@) && sorted@.to_multiset()
                == crate::sprite::spec_projections(*cam, self.sprites@, ww, wh).to_multiset()
                && ops@ == crate::sprite::sprite_ops(sorted@, self.wall_heights@));
        }
        ops
    }
}

/// Wipes the enemy sprite lists of the named cells: the per-frame rebuild
/// of transient enemy sprites starts from empty lists.
#[verifier::loop_isolation(false)]
pub fn wipe_enemy_sprites(map: &mut TileMap, cells: &Vec<(i64, i64)>)
    requires
        old(map).wf(),
        forall|k: int|
            0 <= k < cells@.len() ==> old(map).spec_within(
                (#[trigger] cells@[k]).0 as int,
                cells@[k].1 as int,
            ),
    ensures
        final(map).wf(),
        final(map).width == old(map).width,
        final(map).height == old(map).height,
        final(map).tiles@ == old(map).tiles@,
        final(map).enemy_sprites@.len() == old(map).enemy_sprites@.len(),
        forall|k: int|
            0 <= k < cells@.len() ==> (#[trigger] final(map).enemy_sprites@[old(map).spec_idx(
                cells@[k].0 as int,
                cells@[k].1 as int,
            )])@ =~= Seq::<Sprite>::empty(),
        forall|i: int|
            0 <= i < old(map).enemy_sprites@.len() && (forall|k: int|
                0 <= k < cells@.len() ==> old(map).spec_idx(
                    (#[trigger] cells@[k]).0 as int,
                    cells@[k].1 as int,
                ) != i) ==> #[trigger] final(map).enemy_sprites@[i] == old(
                map,
            ).enemy_sprites@[i],
{
    let n = cells.len();
    let mut k: usize = 0;
    while k < n
        invariant
            k <= n,
            n == cells@.len(),
            map.wf(),
            map.width == old(map).width,
            map.height == old(map).height,
            map.tiles@ == old(map).tiles@,
            map.enemy_sprites@.len() == old(map).enemy_sprites@.len(),
            forall|j: int|
                0 <= j < k ==> (#[trigger] map.enemy_sprites@[old(map).spec_idx(
                    cells@[j].0 as int,
                    cells@[j].1 as int,
                )])@ =~= Seq::<Sprite>::empty(),
            forall|i: int|
                0 <= i < old(map).enemy_sprites@.len() && (forall|j: int|
                    0 <= j < k ==> old(map).spec_idx(
                        (#[trigger] cells@[j]).0 as int,
                        cells@[j].1 as int,
                    ) != i) ==> #[trigger] map.enemy_sprites@[i] == old(map).enemy_sprites@[i],
        decreases n - k,
    {
        let c = cells[k];
        let ghost prev = map.enemy_sprites@;
        proof {
            assert(c.0 as usize as int == c.0 as int);
            assert(c.1 as usize as int == c.1 as int);
        }
        map.clear_enemy_sprites(c.0 as usize, c.1 as usize);
        proof {
            let idx = old(map).spec_idx(c.0 as int, c.1 as int);
            old(map).lemma_idx_bounds(c.0 as int, c.1 as int);
            assert forall|j: int|
                0 <= j < k + 1 implies (#[trigger] map.enemy_sprites@[old(map).spec_idx(
                cells@[j].0 as int,
                cells@[j].1 as int,
            )])@ =~= Seq::<Sprite>::empty() by {
                let ji = old(map).spec_idx(cells@[j].0 as int, cells@[j].1 as int);
                old(map).lemma_idx_bounds(cells@[j].0 as int, cells@[j].1 as int);
                if ji != idx {
                    assert(map.enemy_sprites@[ji] == prev[ji]);
                }
            }
            assert forall|i: int|
                0 <= i < old(map).enemy_sprites@.len() && (forall|j: int|
                    0 <= j < k + 1 ==> old(map).spec_idx(
                        (#[trigger] cells@[j]).0 as int,
                        cells@[j].1 as int,
                    ) != i) implies #[trigger] map.enemy_sprites@[i] == old(
                map,
            ).enemy_sprites@[i] by {
                assert(old(map).spec_idx(cells@[k as int].0 as int, cells@[k as int].1 as int)
                    != i);
                assert(map.enemy_sprites@[i] == prev[i]);
            }
        }
        k = k + 1;
    }
}

/// What the frame's enemy placements append to the enemy sprite list of
/// the cell with flat index `i`: the sprites of the placements standing in
/// a walkable (object or empty) cell with that index, in placement order.
pub open spec fn placed_at(m: TileMap, ps: Seq<(i64, i64, Sprite)>, i: int) -> Seq<Sprite>
    decreases ps.len(),
{
    if ps.len() == 0 {
        Seq::empty()
    } else {
        placed_at(m, ps.drop_last(), i) + {
            let p = ps.last();
            if m.spec_idx(p.0 as int, p.1 as int) == i && (m.spec_tile(p.0 as int, p.1 as int)
                is Object || m.spec_tile(p.0 as int, p.1 as int) is Empty) {
                seq![p.2]
            } else {
                Seq::empty()
            }
        }
    }
}

/// Injects each enemy's sprite of this frame into the enemy sprite list of
/// the cell the enemy stands in, in order; placements standing in a
/// non-walkable cell are ignored.
#[verifier::loop_isolation(false)]
pub fn place_enemy_sprites(map: &mut TileMap, ps: &Vec<(i64, i64, Sprite)>)
    requires
        old(map).wf(),
        forall|k: int|
            0 <= k < ps@.len() ==> old(map).spec_within(
                (#[trigger] ps@[k]).0 as int,
                ps@[k].1 as int,
            ) && sprite_wf(ps@[k].2),
    ensures
        final(map).wf(),
        final(map).width == old(map).width,
        final(map).height == old(map).height,
        final(map).tiles@ == old(map).tiles@,
        final(map).enemy_sprites@.len() == old(map).enemy_sprites@.len(),
        forall|i: int|
            0 <= i < old(map).enemy_sprites@.len() ==> (#[trigger] final(map).enemy_sprites@[i])@
                == old(map).enemy_sprites@[i]@ + placed_at(*old(map), ps@, i),
{
    let n = ps.len();
    let mut k: usize = 0;
    proof {
        assert(forall|i: int|
            0 <= i < old(map).enemy_sprites@.len() ==> (#[trigger] map.enemy_sprites@[i])@
                =~= old(map).enemy_sprites@[i]@ + placed_at(*old(map), ps@.take(0), i));
    }
    while k < n
        invariant
            k <= n,
            n == ps@.len(),
            map.wf(),
            map.width == old(map).width,
            map.height == old(map).height,
            map.tiles@ == old(map).tiles@,
            map.enemy_sprites@.len() == old(map).enemy_sprites@.len(),
            forall|i: int|
                0 <= i < old(map).enemy_sprites@.len() ==> (#[trigger] map.enemy_sprites@[i])@
                    == old(map).enemy_sprites@[i]@ + placed_at(*old(map), ps@.take(k as int), i),
        decreases n - k,
    {
        let p = ps[k];
        let px = p.0 as usize;
        let py = p.1 as usize;
        proof {
            assert(px as int == p.0 as int);
            assert(py as int == p.1 as int);
        }
        let ghost before = map.enemy_sprites@;
        let walkable: bool = match map.tile(px, py) {
            Tile::Object(_) | Tile::Empty => true,
            _ => false,
        };
        if walkable {
            map.push_enemy_sprite(px, py, p.2);
        }
        proof {
            assert(ps@.take(k as int + 1).drop_last() =~= ps@.take(k as int));
            assert(ps@.take(k as int + 1).last() == ps@[k as int]);
            assert forall|i: int| 0 <= i < old(map).enemy_sprites@.len() implies (
            #[trigger] map.enemy_sprites@[i])@ == old(map).enemy_sprites@[i]@ + placed_at(
                *old(map),
                ps@.take(k as int + 1),
                i,
            ) by {
                let idx = old(map).spec_idx(p.0 as int, p.1 as int);
                old(map).lemma_idx_bounds(p.0 as int, p.1 as int);
                if walkable && i == idx {
                    assert(map.enemy_sprites@[i]@ =~= before[i]@.push(p.2));
                    assert(before[i]@.push(p.2) =~= before[i]@ + seq![p.2]);
                    assert(old(map).enemy_sprites@[i]@ + placed_at(
                        *old(map),
                        ps@.take(k as int),
                        i,
                    ) + seq![p.2] =~= old(map).enemy_sprites@[i]@ + (placed_at(
                        *old(map),
                        ps@.take(k as int),
                        i,
                    ) + seq![p.2]));
                } else {
                    assert(map.enemy_sprites@[i] == before[i]);
                    assert(placed_at(*old(map), ps@.take(k as int + 1), i) =~= placed_at(
                        *old(map),
                        ps@.take(k as int),
                        i,
                    ));
                }
            }
        }
        k = k + 1;
    }
    proof {
        assert(ps@.take(n as int) =~= ps@);
    }
}

impl Renderer {
    /// Renders one frame, in strict order: clear; ceiling and floor
    /// fills; transient buffers reset and refilled by the per-column ray
    /// casts; the wall pass (which populates the wall-height buffer
    /// before any sprite is composited); the depth-ordered sprite pass;
    /// and the first-person weapon overlay, drawn last and never
    /// depth-tested, before the frame is presented.
    pub fn render_frame(
        &mut self,
        map: &TileMap,
        cam: &Camera,
        rays: &Vec<(i64, i64)>,
        weapon: TextureHandle,
    ) -> (ops: Vec<DrawOp>)
        requires
            old(self).wf(),
            map.wf(),
            old(self).matches_map(*map),
            cam_wf(*cam),
            rays@.len() == old(self).win_w,
            forall|k: int| 0 <= k < rays@.len() ==> rot_wf((#[trigger] rays@[k]).0, rays@[k].1),
        ensures
            final(self).wf(),
            final(self).matches_map(*map),
            final(self).win_w == old(self).win_w,
            final(self).win_h == old(self).win_h,
            final(self).weapon_x == old(self).weapon_x,
            final(self).weapon_y == old(self).weapon_y,
            final(self).weapon_pitch == old(self).weapon_pitch,
            ops@.len() >= 5,
            ops@[0] == DrawOp::Clear,
            ops@[1] == (DrawOp::FillRect {
                rect: ScreenRect {
                    x: 0,
                    y: 0,
                    w: final(self).win_w as i64,
                    h: (final(self).win_h / 2) as i64,
                },
                color: ColorRgba { r: 50, g: 50, b: 50, a: 255 },
            }),
            ops@[2] == (DrawOp::FillRect {
                rect: ScreenRect {
                    x: 0,
                    y: (final(self).win_h / 2) as i64,
                    w: final(self).win_w as i64,
                    h: (final(self).win_h / 2) as i64,
                },
                color: ColorRgba { r: 96, g: 96, b: 96, a: 255 },
            }),
            ops@[ops@.len() - 1] == DrawOp::Present,
            ops@[ops@.len() - 2] == (DrawOp::Blit {
                texture: weapon,
                src: ScreenRect { x: 0, y: 0, w: TEXTURE_PITCH, h: TEXTURE_PITCH },
                dst: ScreenRect {
                    x: final(self).weapon_x,
                    y: final(self).weapon_y,
                    w: final(self).weapon_pitch,
                    h: final(self).weapon_pitch,
                },
            }),
            forall|x: int|
                0 <= x < final(self).win_w ==> final(self).wall_slices@[x] == spec_cast_column(
                    *map,
                    *cam,
                    (#[trigger] rays@[x]).0,
                    rays@[x].1,
                ),
            final(self).sprites@ == spec_frame_state(
                *map,
                *cam,
                rays@,
                final(self).win_w as int,
            ).0,
            final(self).tile_hit@ == spec_frame_state(
                *map,
                *cam,
                rays@,
                final(self).win_w as int,
            ).1,
            forall|x: int|
                0 <= x < final(self).win_w ==> final(self).wall_heights@[x]
                    == match final(self).wall_slices@[x] {
                    Option::Some(s) => spec_render_height(
                        cam.height_const as int,
                        s.dist_num as int,
                        s.dist_den as int,
                    ),
                    Option::None => 0,
                },
            exists|srd: Seq<crate::sprite::SpriteRenderData>|
                {
                    &&& crate::sprite::sorted_by_height(srd)
                    &&& srd.to_multiset() == crate::sprite::spec_projections(
                        *cam,
                        final(self).sprites@,
                        final(self).win_w as int,
                        final(self).win_h as int,
                    ).to_multiset()
                    &&& ops@ =~= seq![ops@[0], ops@[1], ops@[2]] + walls_ops(
                        final(self).wall_slices@,
                        cam.height_const as int,
                        final(self).win_h as int,
                        final(self).win_w as int,
                    ) + crate::sprite::sprite_ops(srd, final(self).wall_heights@) + seq![
                        ops@[ops@.len() - 2],
                        DrawOp::Present,
                    ]
                },
            enclosed(*map) && interior_start(*map, *cam) ==> forall|x: int|
                0 <= x < final(self).win_w ==> (#[trigger] final(self).wall_slices@[x]) is Some,
    {
        let mut ops: Vec<DrawOp> = Vec::new();
        ops.push(DrawOp::Clear);
        let mut cf = self.ceiling_and_floor_ops();
        let ghost cf_seq = cf@;
        ops.append(&mut cf);
        self.render_into_buffers(map, cam, rays);
        let mut wops = self.draw_walls_from_buffer(cam);
        let ghost wops_seq = wops@;
        ops.append(&mut wops);
        let mut sops = self.draw_sprites_from_buffer(cam);
        let ghost sops_seq = sops@;
        let ghost srd = choose|srd: Seq<crate::sprite::SpriteRenderData>|
            {
                &&& crate::sprite::sorted_by_height(srd)
                &&& srd.to_multiset() == crate::sprite::spec_projections(
                    *cam,
                    self.sprites@,
                    self.win_w as int,
                    self.win_h as int,
                ).to_multiset()
                &&& sops_seq == crate::sprite::sprite_ops(srd, self.wall_heights@)
            };
        ops.append(&mut sops);
        let weapon_op = DrawOp::Blit {
            texture: weapon,
            src: ScreenRect { x: 0, y: 0, w: TEXTURE_PITCH, h: TEXTURE_PITCH },
            dst: ScreenRect {
                x: self.weapon_x,
                y: self.weapon_y,
                w: self.weapon_pitch,
                h: self.weapon_pitch,
            },
        };
        ops.push(weapon_op);
        ops.push(DrawOp::Present);
        proof {
            let n = ops@.len();
            assert(ops@[0] == DrawOp::Clear);
            assert(ops@[n - 1] == DrawOp::Present);
            assert(ops@[n - 2] == weapon_op);
            assert(ops@ =~= seq![ops@[0], ops@[1], ops@[2]] + wops_seq + crate::sprite::sprite_ops(
                srd,
                self.wall_heights@,
            ) + seq![ops@[n - 2], DrawOp::Present]);
        }
        ops
    }
}

} // verus!
