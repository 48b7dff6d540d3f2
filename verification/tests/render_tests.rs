use raycast_core::frame::{Camera, DrawOp, ScreenRect};
use raycast_core::geom::Vec2i;
use raycast_core::render::{place_enemy_sprites, wipe_enemy_sprites, Renderer};
use raycast_core::slice::{door_wall_slice, light_texture};
use raycast_core::sprite::{project_sprite, rasterize_sprites, sort_sprites, SpriteRenderData};
use raycast_core::tiles::{
    DoorTile, MapError, Sprite, TexKind, TextureHandle, Tile, TileMap,
};
use raycast_core::cursor::{Axis, GridCursor};

const F: i64 = 256;

fn wall_tex() -> TextureHandle {
    TextureHandle::new(TexKind::Wall, 1)
}

fn obj_tex() -> TextureHandle {
    TextureHandle::new(TexKind::Object, 7)
}

/// A ring of wall tiles around an empty interior.
fn ring_map(w: usize, h: usize) -> TileMap {
    let mut tiles = Vec::new();
    for x in 0..w {
        for y in 0..h {
            if x == 0 || y == 0 || x == w - 1 || y == h - 1 {
                tiles.push(Tile::Wall(wall_tex()));
            } else {
                tiles.push(Tile::Empty);
            }
        }
    }
    TileMap::new(w, h, tiles).unwrap()
}

fn cam_at_center_facing_x() -> Camera {
    Camera { pos: Vec2i::new(896, 896), fwd: Vec2i::new(1, 0), height_const: 1000, proj_dist: 2 }
}

#[test]
fn map_rejects_bad_dimensions() {
    assert!(matches!(TileMap::new(0, 3, Vec::new()), Err(MapError::BadDimensions)));
    assert!(matches!(TileMap::new(3, 2000, Vec::new()), Err(MapError::BadDimensions)));
}

#[test]
fn map_rejects_wrong_tile_count() {
    let tiles = vec![Tile::Empty; 8];
    assert!(matches!(TileMap::new(3, 3, tiles), Err(MapError::WrongTileCount)));
}

#[test]
fn map_rejects_unset_tile() {
    let mut tiles = vec![Tile::Empty; 9];
    tiles[4] = Tile::Unset;
    assert!(matches!(TileMap::new(3, 3, tiles), Err(MapError::InvalidTile)));
}

#[test]
fn tile_hit_map_dedupes_sprite_collection() {
    // A tile crossed by many columns contributes its sprites once a frame.
    let mut tiles = vec![Tile::Empty; 9];
    let s = Sprite { x: 384, y: 384, texture: obj_tex() };
    tiles[1 * 3 + 1] = Tile::Object(s);
    let map = TileMap::new(3, 3, tiles).unwrap();
    let mut r = Renderer::new(4, 4, 3, 3);
    r.grab_sprites(&map, 1, 1);
    assert_eq!(r.sprites.len(), 1);
    for _ in 0..5 {
        r.grab_sprites(&map, 1, 1);
    }
    assert_eq!(r.sprites.len(), 1, "a tile contributes exactly once per frame");
    r.reset_tile_hit_map();
    r.grab_sprites(&map, 1, 1);
    assert_eq!(r.sprites.len(), 2, "a new frame collects the tile again");
}

#[test]
fn enemy_sprites_are_wiped_and_placed_per_frame() {
    let mut map = ring_map(5, 5);
    let e1 = Sprite { x: 2 * F + 128, y: 2 * F + 128, texture: obj_tex() };
    place_enemy_sprites(&mut map, &vec![(2, 2, e1)]);
    let mut r = Renderer::new(4, 4, 5, 5);
    r.grab_sprites(&map, 2, 2);
    assert_eq!(r.sprites.len(), 1);
    assert_eq!(r.sprites[0], e1);
    // next frame: lists rebuilt from empty
    wipe_enemy_sprites(&mut map, &vec![(2, 2)]);
    let mut r2 = Renderer::new(4, 4, 5, 5);
    r2.grab_sprites(&map, 2, 2);
    assert_eq!(r2.sprites.len(), 0);
}

#[test]
fn placements_on_wall_tiles_are_ignored() {
    let mut map = ring_map(5, 5);
    let e1 = Sprite { x: 128, y: 128, texture: obj_tex() };
    place_enemy_sprites(&mut map, &vec![(0, 0, e1)]);
    assert!(map.enemy_sprites_at(0, 0).is_empty());
}

#[test]
fn sprite_behind_player_is_excluded() {
    let cam = cam_at_center_facing_x();
    let behind = Sprite { x: 896 - 2 * F, y: 896, texture: obj_tex() };
    assert!(project_sprite(&cam, &behind, 4, 4).is_none());
    let ahead = Sprite { x: 896 + 2 * F, y: 896, texture: obj_tex() };
    assert!(project_sprite(&cam, &ahead, 4, 4).is_some());
}

#[test]
fn projection_formulas_match_hand_computation() {
    // Camera at (3.5, 3.5) facing +x; sprite two cells ahead, half a cell
    // to the right (east = (0, -1), so smaller y is to the right).
    let cam = Camera {
        pos: Vec2i::new(896, 896),
        fwd: Vec2i::new(1, 0),
        height_const: 1000,
        proj_dist: 100,
    };
    let sp = Sprite { x: 896 + 2 * F, y: 896 - F / 2, texture: obj_tex() };
    let d = project_sprite(&cam, &sp, 400, 300).unwrap();
    assert_eq!(d.depth_num, 2 * F);
    // screen x = 400/2 + 100 * lateral/depth = 200 + 100 * (128/512) = 225
    assert_eq!(d.screen_x, 225);
    // render height = 1000 * 256 / 512 = 500
    assert_eq!(d.render_height, 500);
    assert_eq!(d.rect.w, 500);
    assert_eq!(d.rect.x, 225 - 250);
    assert_eq!(d.rect.y, 150 - 250);
}

fn srd(height: i64, x0: i64, tex_id: u32) -> SpriteRenderData {
    SpriteRenderData {
        depth_num: 1000 / height.max(1),
        screen_x: x0 + height / 2,
        render_height: height,
        rect: ScreenRect { x: x0, y: 0, w: height, h: height },
        texture: TextureHandle::new(TexKind::Object, tex_id),
    }
}

/// The texture of the last blit drawn at screen column `x`, if any.
fn visible_at(ops: &[DrawOp], x: i64) -> Option<TextureHandle> {
    let mut seen = None;
    for op in ops {
        if let DrawOp::Blit { texture, dst, .. } = op {
            if dst.x == x && dst.w == 1 {
                seen = Some(*texture);
            }
        }
    }
    seen
}

#[test]
fn occlusion_draws_sprite_iff_wall_not_nearer() {
    // Walls at render height 100 everywhere.
    let walls = vec![100i64; 8];
    // A sprite farther than the wall: height 50 < 100, drawn nowhere.
    let hidden = vec![srd(50, 2, 1)];
    let ops = rasterize_sprites(&walls, &hidden);
    assert_eq!(ops.len(), 0, "wall nearer: zero sprite columns drawn");
    // A sprite nearer than the wall: height 200 > 100, drawn at every
    // window column its rectangle covers (columns 2..8 of 0..8).
    let shown = vec![srd(200, 2, 1)];
    let ops = rasterize_sprites(&walls, &shown);
    assert_eq!(ops.len(), 6);
    for x in 2..8 {
        assert!(visible_at(&ops, x).is_some());
    }
    assert!(visible_at(&ops, 1).is_none(), "columns left of the rectangle are untouched");
    // Equal heights count as "not nearer": the sprite is drawn.
    let equal = vec![srd(100, 2, 1)];
    let ops = rasterize_sprites(&walls, &equal);
    assert_eq!(ops.len(), 6);
}

#[test]
fn nearer_sprite_overdraws_farther_regardless_of_insertion_order() {
    let walls = vec![0i64; 10];
    let far = srd(40, 1, 1);
    let near = srd(60, 2, 2);
    for buf in [vec![far, near], vec![near, far]] {
        let sorted = sort_sprites(buf);
        let ops = rasterize_sprites(&walls, &sorted);
        // Columns 2..10 are covered by both rectangles: the nearer
        // sprite's pixels are the ones visible after compositing.
        for x in 2..10 {
            assert_eq!(visible_at(&ops, x).unwrap().id, 2, "nearer sprite wins column {x}");
        }
        // Column 1 is covered only by the farther sprite.
        assert_eq!(visible_at(&ops, 1).unwrap().id, 1);
    }
}

#[test]
fn door_jamb_lighting_follows_crossing_axis() {
    let lit = TextureHandle::new(TexKind::Wall, 101);
    let unlit = TextureHandle::new(TexKind::Wall, 102);
    let mut c = GridCursor::new(Vec2i::new(896, 896), Vec2i::new(4, 1));
    c.go_to_next_hit();
    assert_eq!(c.side, Axis::X);
    assert_eq!(light_texture(&c, lit, unlit), lit);
    let mut c2 = GridCursor::new(Vec2i::new(896, 896), Vec2i::new(1, 4));
    c2.go_to_next_hit();
    assert_eq!(c2.side, Axis::Y);
    assert_eq!(light_texture(&c2, lit, unlit), unlit);
}

#[test]
fn wall_after_open_door_takes_jamb_texture() {
    // A fully open door at (4, 3), a wall at (5, 3): the +x ray passes
    // through the door's gap and hits the wall out of the door tile, so
    // the slice takes the lit jamb texture (vertical-line crossing).
    let mut map = ring_map(7, 7);
    map.tiles[4 * 7 + 3] = Tile::Door(DoorTile { texture: wall_tex(), openness: F });
    map.tiles[5 * 7 + 3] = Tile::Wall(wall_tex());
    let map = TileMap::new(7, 7, map.tiles).unwrap();
    let cam = cam_at_center_facing_x();
    let mut r = Renderer::new(4, 4, 7, 7);
    let slice = r.cast_column(&map, &cam, 1, 0).unwrap();
    assert_eq!(slice.texture.id, 101, "lit jamb on a vertical-line hit");

    // The same situation along +y: the wall is entered across a
    // horizontal line, which shows the unlit jamb.
    let mut map2 = ring_map(7, 7);
    map2.tiles[3 * 7 + 4] = Tile::Door(DoorTile { texture: wall_tex(), openness: F });
    map2.tiles[3 * 7 + 5] = Tile::Wall(wall_tex());
    let map2 = TileMap::new(7, 7, map2.tiles).unwrap();
    let cam2 = Camera {
        pos: Vec2i::new(896, 896),
        fwd: Vec2i::new(0, 1),
        height_const: 1000,
        proj_dist: 2,
    };
    let mut r2 = Renderer::new(4, 4, 7, 7);
    let slice2 = r2.cast_column(&map2, &cam2, 1, 0).unwrap();
    assert_eq!(slice2.texture.id, 102, "unlit jamb on a horizontal-line hit");
}

#[test]
fn closed_door_stops_ray_at_slab() {
    let mut map = ring_map(7, 7);
    let dtex = TextureHandle::new(TexKind::Wall, 9);
    map.tiles[4 * 7 + 3] = Tile::Door(DoorTile { texture: dtex, openness: 0 });
    let map = TileMap::new(7, 7, map.tiles).unwrap();
    let cam = cam_at_center_facing_x();
    let mut r = Renderer::new(4, 4, 7, 7);
    let slice = r.cast_column(&map, &cam, 1, 0).unwrap();
    assert_eq!(slice.texture, dtex);
    // entry at x = 4 (t = 0.5), slab half a cell in: perpendicular
    // distance 1.0
    assert_eq!(slice.dist_num, slice.dist_den);
}

#[test]
fn partially_open_door_occludes_or_passes_by_lateral_hit() {
    // The +x ray meets the slab plane at lateral fraction 1/2 of the
    // cell.  A door open less than that still covers the ray; one open
    // past it lets the ray through to the wall behind.
    let mut c = GridCursor::new(Vec2i::new(896, 896), Vec2i::new(1, 0));
    loop {
        c.go_to_next_hit();
        if c.cell_x == 4 {
            break;
        }
    }
    let dtex = TextureHandle::new(TexKind::Wall, 9);
    assert!(door_wall_slice(&c, dtex, 100, 1).is_some(), "door open under the hit point");
    assert!(door_wall_slice(&c, dtex, 200, 1).is_none(), "door open past the hit point");
}

#[test]
fn enclosed_room_end_to_end() {
    // A fully-enclosed square room: a ring of wall tiles around a 5 x 5
    // empty interior, the player at the exact center facing +x, a
    // 90-degree field of view over 4 screen columns (ray directions
    // (4, u) for u = -3, -1, 1, 3).  Every column must produce exactly
    // one wall slice, all four with the same texture, and all at
    // perpendicular distance 2.5: the ring's inner face is 2.5 cells
    // from the center.  The edge rays' Euclidean hit distances exceed
    // that by the expected cosine factor (2.5 / (4/5) = 3.125).
    let map = ring_map(7, 7);
    let cam = cam_at_center_facing_x();
    let rays = vec![(4i64, -3i64), (4, -1), (4, 1), (4, 3)];
    let mut r = Renderer::new(4, 4, 7, 7);
    let weapon = TextureHandle::new(TexKind::Weapon, 3);
    let ops = r.render_frame(&map, &cam, &rays, weapon);

    for x in 0..4 {
        let slice = r.wall_slices[x].expect("every column has a wall slice");
        assert_eq!(slice.texture, wall_tex());
        // perpendicular distance is exactly 5/2
        assert_eq!(2 * slice.dist_num, 5 * slice.dist_den, "column {x}");
        // render height: 1000 * den / num = 400
        assert_eq!(r.wall_heights[x], 400);
    }

    // frame structure: clear, two fills, one wall blit per column, no
    // sprites, weapon overlay, present
    assert_eq!(ops.len(), 3 + 4 + 2);
    assert!(matches!(ops[0], DrawOp::Clear));
    assert!(matches!(ops[1], DrawOp::FillRect { .. }));
    assert!(matches!(ops[2], DrawOp::FillRect { .. }));
    for x in 0..4 {
        if let DrawOp::Blit { dst, .. } = ops[3 + x] {
            assert_eq!(dst.x, x as i64);
            assert_eq!(dst.h, 400);
        } else {
            panic!("expected a wall blit");
        }
    }
    if let DrawOp::Blit { texture, dst, .. } = ops[7] {
        assert_eq!(texture, weapon);
        assert_eq!(dst.w, 2, "weapon overlay is half the window width");
    } else {
        panic!("expected the weapon overlay");
    }
    assert!(matches!(ops[8], DrawOp::Present));
}

#[test]
fn sprites_composite_against_walls_in_a_frame() {
    // A room with an object sprite ahead of the player: the frame's op
    // list contains sprite blits after the wall blits, and the sprite is
    // drawn only where it is nearer than the wall.
    let mut map = ring_map(7, 7);
    let s = Sprite { x: 896 + F, y: 896, texture: obj_tex() };
    map.tiles[4 * 7 + 3] = Tile::Object(s);
    let map = TileMap::new(7, 7, map.tiles).unwrap();
    let cam = cam_at_center_facing_x();
    let rays = vec![(4i64, -3i64), (4, -1), (4, 1), (4, 3)];
    let mut r = Renderer::new(4, 4, 7, 7);
    let ops = r.render_frame(&map, &cam, &rays, TextureHandle::new(TexKind::Weapon, 3));
    // sprite depth 1.0 < wall depth 2.5: its height 1000 exceeds the
    // walls' 400, so its columns on screen are drawn
    let sprite_blits = ops
        .iter()
        .filter(|op| matches!(op, DrawOp::Blit { texture, .. } if texture.kind == TexKind::Object))
        .count();
    assert_eq!(sprite_blits, 4, "the sprite covers the whole 4-column window");
}

#[test]
fn map_rejects_out_of_range_object_and_door() {
    let mut tiles = vec![Tile::Empty; 9];
    tiles[4] = Tile::Object(Sprite { x: -5, y: 0, texture: obj_tex() });
    assert!(matches!(TileMap::new(3, 3, tiles), Err(MapError::InvalidTile)));
    let mut tiles2 = vec![Tile::Empty; 9];
    tiles2[4] = Tile::Door(DoorTile { texture: wall_tex(), openness: 5000 });
    assert!(matches!(TileMap::new(3, 3, tiles2), Err(MapError::InvalidTile)));
}

#[test]
fn render_height_is_inverse_to_corrected_distance() {
    // Same room, cameras at center and nearer the wall: the slice's
    // perpendicular distance halves from 2.5 to 1.25 as the player moves
    // from 3.5 to 4.75, and the render height doubles.
    let map = ring_map(7, 7);
    let rays = vec![(4i64, -3i64), (4, -1), (4, 1), (4, 3)];
    let mut r = Renderer::new(4, 4, 7, 7);
    let far = cam_at_center_facing_x();
    r.render_frame(&map, &far, &rays, TextureHandle::new(TexKind::Weapon, 3));
    let h_far = r.wall_heights[1];
    let near = Camera { pos: Vec2i::new(1216, 896), ..far };
    let mut r2 = Renderer::new(4, 4, 7, 7);
    r2.render_frame(&map, &near, &rays, TextureHandle::new(TexKind::Weapon, 3));
    let h_near = r2.wall_heights[1];
    assert_eq!(h_far, 400); // 1000 / 2.5
    assert_eq!(h_near, 800); // 1000 / 1.25
}
