//! Tiles, sprites, texture handles, and the map grid.
//!
//! A map cell is a closed variant set: wall, door, object (a static sprite),
//! empty, or unset (invalid).  Transient per-tile enemy sprite lists are
//! owned by the map in a parallel per-cell arena addressed by cell
//! coordinate, rather than by back-references from enemies into tiles:
//! enemies push their sprite into the list of the cell they stand in each
//! frame, and the lists are wiped before they are rebuilt.

use vstd::prelude::*;

use crate::FRAC;
use crate::geom::MAX_DIM;

verus! {

/// The family a texture handle belongs to.
#[derive(Clone, Copy, PartialEq, Eq, Structural, Debug)]
pub enum TexKind {
    Wall,
    Object,
    Weapon,
}

/// An opaque handle into the asset store.
#[derive(Clone, Copy, PartialEq, Eq, Structural, Debug)]
pub struct TextureHandle {
    pub kind: TexKind,
    pub id: u32,
}

impl TextureHandle {
    /// Builds a handle from its family and index.
    pub fn new(kind: TexKind, id: u32) -> (r: TextureHandle)
        ensures
            r == (TextureHandle { kind, id }),
    {
        TextureHandle { kind, id }
    }
}

/// A world-space billboard: a location (in sub-cell units) and a texture,
/// rendered at a fixed vertical midline.
#[derive(Clone, Copy, PartialEq, Eq, Structural, Debug)]
pub struct Sprite {
    /// X location in sub-cell units.
    pub x: i64,
    /// Y location in sub-cell units.
    pub y: i64,
    pub texture: TextureHandle,
}

/// A sprite whose location lies within the world's coordinate range.
pub open spec fn sprite_wf(s: Sprite) -> bool {
    &&& 0 <= s.x <= MAX_DIM * FRAC
    &&& 0 <= s.y <= MAX_DIM * FRAC
}

/// A door tile: its slab texture and how far it presently stands open,
/// in sub-cell units from 0 (closed) to `FRAC` (fully open).
#[derive(Clone, Copy, PartialEq, Eq, Structural, Debug)]
pub struct DoorTile {
    pub texture: TextureHandle,
    pub openness: i64,
}

/// One map cell.
#[derive(Clone, Copy, PartialEq, Eq, Structural, Debug)]
pub enum Tile {
    /// A solid wall with its texture.
    Wall(TextureHandle),
    /// A door slab recessed half a cell into its tile.
    Door(DoorTile),
    /// A walkable cell holding a static object sprite.
    Object(Sprite),
    /// A walkable cell with nothing in it.
    Empty,
    /// An invalid, uninitialized cell.  A well-formed map holds none.
    Unset,
}

/// A single tile is acceptable in a map: it is initialized, an object's
/// sprite lies in the world's coordinate range, and a door's openness is
/// within its travel.
pub open spec fn tile_wf(t: Tile) -> bool {
    match t {
        Tile::Unset => false,
        Tile::Object(s) => sprite_wf(s),
        Tile::Door(d) => 0 <= d.openness <= FRAC,
        _ => true,
    }
}

/// Why a tile grid was rejected as a map.
#[derive(Clone, Copy, PartialEq, Eq, Structural, Debug)]
pub enum MapError {
    /// A dimension is zero or exceeds `MAX_DIM`.
    BadDimensions,
    /// The tile vector's length is not `width * height`.
    WrongTileCount,
    /// Some tile is unset, an object sprite is out of range, or a door's
    /// openness is out of its travel.
    InvalidTile,
}

/// The map grid: column-major tiles (`x * height + y`), plus the per-cell
/// transient enemy sprite lists.
pub struct TileMap {
    pub width: usize,
    pub height: usize,
    pub tiles: Vec<Tile>,
    pub enemy_sprites: Vec<Vec<Sprite>>,
}

impl TileMap {
    /// Index of cell (x, y) in the flat per-cell vectors.
    pub open spec fn spec_idx(self, x: int, y: int) -> int {
        x * self.height + y
    }

    /// Well-formedness: positive bounded dimensions, one tile and one
    /// enemy sprite list per cell, and no cell left unset.
    pub open spec fn wf(self) -> bool {
        &&& 1 <= self.width <= MAX_DIM
        &&& 1 <= self.height <= MAX_DIM
        &&& self.tiles@.len() == self.width * self.height
        &&& self.enemy_sprites@.len() == self.width * self.height
        &&& forall|i: int| 0 <= i < self.tiles@.len() ==> tile_wf(#[trigger] self.tiles@[i])
        &&& forall|i: int, j: int|
            0 <= i < self.enemy_sprites@.len() && 0 <= j < (#[trigger] self.enemy_sprites@[i])@.len()
                ==> sprite_wf(#[trigger] self.enemy_sprites@[i]@[j])
    }

    /// The tile at cell (x, y).
    pub open spec fn spec_tile(self, x: int, y: int) -> Tile {
        self.tiles@[self.spec_idx(x, y)]
    }

    /// Whether cell (x, y) lies within the map bounds.
    pub open spec fn spec_within(self, x: int, y: int) -> bool {
        0 <= x < self.width && 0 <= y < self.height
    }

    /// Cell indices within the bounds map to flat indices within the
    /// vectors.
    pub proof fn lemma_idx_bounds(self, x: int, y: int)
        requires
            self.wf(),
            self.spec_within(x, y),
        ensures
            0 <= self.spec_idx(x, y) < self.width * self.height,
            0 <= x * self.height,
            self.width * self.height <= MAX_DIM * MAX_DIM,
    {
        let h = self.height as int;
        let w = self.width as int;
        assert(x * h + y < w * h) by (nonlinear_arith)
            requires 0 <= x < w && 0 <= y < h && h >= 1;
        assert(x * h >= 0) by (nonlinear_arith)
            requires x >= 0 && h >= 0;
        assert(w * h <= MAX_DIM * MAX_DIM) by (nonlinear_arith)
            requires 1 <= w <= MAX_DIM && 1 <= h <= MAX_DIM;
    }

    /// Validates a tile grid and builds a map from it.  Succeeds exactly
    /// when both dimensions are in range, the vectors' length matches, and
    /// no tile is unset; otherwise reports the first violation in that
    /// order.
    pub fn new(width: usize, height: usize, tiles: Vec<Tile>) -> (r: Result<TileMap, MapError>)
        ensures
            match r {
                Ok(m) => {
                    &&& m.wf()
                    &&& m.width == width
                    &&& m.height == height
                    &&& m.tiles@ == tiles@
                    &&& 1 <= width <= MAX_DIM && 1 <= height <= MAX_DIM
                    &&& tiles@.len() == width * height
                    &&& forall|i: int| 0 <= i < tiles@.len() ==> tile_wf(#[trigger] tiles@[i])
                    &&& forall|i: int|
                        0 <= i < width * height ==> (#[trigger] m.enemy_sprites@[i])@
                            =~= Seq::<Sprite>::empty()
                },
                Err(MapError::BadDimensions) => !(1 <= width <= MAX_DIM && 1 <= height
                    <= MAX_DIM),
                Err(MapError::WrongTileCount) => {
                    &&& 1 <= width <= MAX_DIM && 1 <= height <= MAX_DIM
                    &&& tiles@.len() != width * height
                },
                Err(MapError::InvalidTile) => {
                    &&& 1 <= width <= MAX_DIM && 1 <= height <= MAX_DIM
                    &&& tiles@.len() == width * height
                    &&& exists|i: int| 0 <= i < tiles@.len() && !tile_wf(#[trigger] tiles@[i])
                },
            },
    {
        if !(1 <= width && width <= MAX_DIM as usize && 1 <= height && height <= MAX_DIM
            as usize) {
            return Err(MapError::BadDimensions);
        }
        proof {
            assert(width * height <= MAX_DIM * MAX_DIM) by (nonlinear_arith)
                requires 1 <= width <= MAX_DIM && 1 <= height <= MAX_DIM;
        }
        let n = width * height;
        if tiles.len() != n {
            return Err(MapError::WrongTileCount);
        }
        let mut i: usize = 0;
        while i < n
            invariant
                1 <= width <= MAX_DIM,
                1 <= height <= MAX_DIM,
                n == width * height,
                tiles@.len() == n,
                i <= n,
                forall|k: int| 0 <= k < i ==> tile_wf(#[trigger] tiles@[k]),
            decreases n - i,
        {
            if !tile_ok(&tiles[i]) {
                proof {
                    assert(!tile_wf(tiles@[i as int]));
                    assert(exists|k: int|
                        0 <= k < tiles@.len() && !tile_wf(#[trigger] tiles@[k]));
                }
                return Err(MapError::InvalidTile);
            }
            i = i + 1;
        }
        let mut enemy_sprites: Vec<Vec<Sprite>> = Vec::new();
        let mut j: usize = 0;
        while j < n
            invariant
                enemy_sprites@.len() == j,
                j <= n,
                forall|k: int|
                    0 <= k < j ==> (#[trigger] enemy_sprites@[k])@ =~= Seq::<Sprite>::empty(),
            decreases n - j,
        {
            enemy_sprites.push(Vec::new());
            j = j + 1;
        }
        Ok(TileMap { width, height, tiles, enemy_sprites })
    }

    /// Whether a (possibly negative) cell coordinate pair lies within the
    /// map.
    pub fn within_map(&self, x: i64, y: i64) -> (r: bool)
        requires
            self.wf(),
        ensures
            r == self.spec_within(x as int, y as int),
    {
        0 <= x && x < self.width as i64 && 0 <= y && y < self.height as i64
    }

    /// Read access to the tile at an in-bounds cell.
    pub fn tile(&self, x: usize, y: usize) -> (r: &Tile)
        requires
            self.wf(),
            self.spec_within(x as int, y as int),
        ensures
            *r == self.spec_tile(x as int, y as int),
            !(*r is Unset),
    {
        proof {
            self.lemma_idx_bounds(x as int, y as int);
        }
        &self.tiles[x * self.height + y]
    }

    /// The enemy sprites currently attached to an in-bounds cell.
    pub fn enemy_sprites_at(&self, x: usize, y: usize) -> (r: &Vec<Sprite>)
        requires
            self.wf(),
            self.spec_within(x as int, y as int),
        ensures
            r@ == self.enemy_sprites@[self.spec_idx(x as int, y as int)]@,
    {
        proof {
            self.lemma_idx_bounds(x as int, y as int);
        }
        &self.enemy_sprites[x * self.height + y]
    }

    /// Wipes the enemy sprite list of an in-bounds cell.
    pub fn clear_enemy_sprites(&mut self, x: usize, y: usize)
        requires
            old(self).wf(),
            old(self).spec_within(x as int, y as int),
        ensures
            final(self).wf(),
            final(self).width == old(self).width,
            final(self).height == old(self).height,
            final(self).tiles@ == old(self).tiles@,
            final(self).enemy_sprites@ == old(self).enemy_sprites@.update(
                old(self).spec_idx(x as int, y as int),
                final(self).enemy_sprites@[old(self).spec_idx(x as int, y as int)],
            ),
            final(self).enemy_sprites@[old(self).spec_idx(x as int, y as int)]@
                =~= Seq::<Sprite>::empty(),
    {
        proof {
            self.lemma_idx_bounds(x as int, y as int);
        }
        self.enemy_sprites[x * self.height + y].clear();
    }

    /// Attaches an enemy sprite to an in-bounds cell.
    pub fn push_enemy_sprite(&mut self, x: usize, y: usize, s: Sprite)
        requires
            old(self).wf(),
            old(self).spec_within(x as int, y as int),
            sprite_wf(s),
        ensures
            final(self).wf(),
            final(self).width == old(self).width,
            final(self).height == old(self).height,
            final(self).tiles@ == old(self).tiles@,
            final(self).enemy_sprites@ == old(self).enemy_sprites@.update(
                old(self).spec_idx(x as int, y as int),
                final(self).enemy_sprites@[old(self).spec_idx(x as int, y as int)],
            ),
            final(self).enemy_sprites@[old(self).spec_idx(x as int, y as int)]@ == old(
                self,
            ).enemy_sprites@[old(self).spec_idx(x as int, y as int)]@.push(s),
    {
        proof {
            self.lemma_idx_bounds(x as int, y as int);
        }
        self.enemy_sprites[x * self.height + y].push(s);
    }
}

/// Whether one tile may stand in a map.
fn tile_ok(t: &Tile) -> (r: bool)
    ensures
        r == tile_wf(*t),
{
    match t {
        Tile::Unset => false,
        Tile::Object(s) => 0 <= s.x && s.x <= MAX_DIM * FRAC && 0 <= s.y && s.y <= MAX_DIM
            * FRAC,
        Tile::Door(d) => 0 <= d.openness && d.openness <= FRAC,
        _ => true,
    }
}

/// A wall slice: the single visible vertical strip of wall texture at one
/// screen column.  The distance is the *perpendicular* distance of the hit
/// from the player's view plane (not the Euclidean ray length), kept as an
/// exact rational; render height is inversely proportional to it.
#[derive(Clone, Copy, PartialEq, Eq, Structural, Debug)]
pub struct WallSlice {
    /// Numerator of the perpendicular hit distance.
    pub dist_num: i64,
    /// Denominator of the perpendicular hit distance (always positive).
    pub dist_den: i64,
    /// Texture to sample.
    pub texture: TextureHandle,
    /// Texel column within the texture, in `[0, TEXTURE_PITCH)`.
    pub tex_column: i64,
}

} // verus!
