use raycast_core::cursor::{Axis, GridCursor};
use raycast_core::geom::Vec2i;

// World positions are in sub-cell units: 256 per cell.
const F: i64 = 256;

fn dist_le(an: i64, ad: i64, bn: i64, bd: i64) -> bool {
    an * bd <= bn * ad
}

#[test]
fn axis_aligned_ray_visits_cells_in_order() {
    // From the middle of cell (1, 1), straight along +x.
    let mut c = GridCursor::new(Vec2i::new(384, 384), Vec2i::new(1, 0));
    assert_eq!(c.cell_x, 1);
    assert_eq!(c.cell_y, 1);

    c.go_to_next_hit();
    assert_eq!((c.cell_x, c.cell_y), (2, 1));
    assert_eq!(c.side, Axis::X);
    // half a cell to the first vertical line: t = 1/2
    assert_eq!(c.dist_num * 2, c.dist_den);
    // the crossing is at y = 1.5: fraction one half
    assert_eq!(c.frac_num * 2, c.frac_den);

    c.go_to_next_hit();
    assert_eq!((c.cell_x, c.cell_y), (3, 1));
    assert_eq!(c.dist_num * 2, 3 * c.dist_den);

    c.go_to_next_hit();
    assert_eq!((c.cell_x, c.cell_y), (4, 1));
    assert_eq!(c.dist_num * 2, 5 * c.dist_den);
}

#[test]
fn diagonal_ray_steps_one_axis_at_a_time() {
    // A 45-degree ray through cell corners: the cursor must pass through a
    // von Neumann neighbor, never jumping diagonally across the corner.
    let mut c = GridCursor::new(Vec2i::new(384, 384), Vec2i::new(1, 1));
    let (mut px, mut py) = (c.cell_x, c.cell_y);
    let (mut pn, mut pd) = (c.dist_num, c.dist_den);
    for _ in 0..6 {
        c.go_to_next_hit();
        let dx = (c.cell_x - px).abs();
        let dy = (c.cell_y - py).abs();
        assert_eq!(dx + dy, 1, "exactly one grid cell per advance");
        assert!(dist_le(pn, pd, c.dist_num, c.dist_den), "distance never decreases");
        px = c.cell_x;
        py = c.cell_y;
        pn = c.dist_num;
        pd = c.dist_den;
    }
    // ties go to the x axis: X then Y at the same corner, at equal distance
    let mut c2 = GridCursor::new(Vec2i::new(384, 384), Vec2i::new(1, 1));
    c2.go_to_next_hit();
    assert_eq!(c2.side, Axis::X);
    assert_eq!((c2.cell_x, c2.cell_y), (2, 1));
    let first = (c2.dist_num, c2.dist_den);
    c2.go_to_next_hit();
    assert_eq!(c2.side, Axis::Y);
    assert_eq!((c2.cell_x, c2.cell_y), (2, 2));
    assert_eq!(first.0 * c2.dist_den, c2.dist_num * first.1, "corner crossings are equidistant");
}

#[test]
fn ray_starting_on_grid_line() {
    // Origin exactly on the vertical line x = 2, moving +x: the first
    // crossing is a whole cell ahead.
    let mut c = GridCursor::new(Vec2i::new(2 * F, 384), Vec2i::new(1, 0));
    assert_eq!(c.cell_x, 2);
    c.go_to_next_hit();
    assert_eq!(c.cell_x, 3);
    assert_eq!(c.dist_num, c.dist_den); // t = 1

    // Moving -x from the same spot: the line itself is crossed at once.
    let mut c2 = GridCursor::new(Vec2i::new(2 * F, 384), Vec2i::new(-1, 0));
    c2.go_to_next_hit();
    assert_eq!(c2.cell_x, 1);
    assert_eq!(c2.dist_num, 0); // t = 0
    let z = (c2.dist_num, c2.dist_den);
    c2.go_to_next_hit();
    assert_eq!(c2.cell_x, 0);
    assert!(dist_le(z.0, z.1, c2.dist_num, c2.dist_den));
    assert_eq!(c2.dist_num, c2.dist_den); // t = 1
}

#[test]
fn near_axis_direction_never_crosses_other_axis() {
    // A direction with a zero component never crosses that axis's lines.
    let mut c = GridCursor::new(Vec2i::new(384, 384), Vec2i::new(0, 5));
    for _ in 0..4 {
        c.go_to_next_hit();
        assert_eq!(c.side, Axis::Y);
        assert_eq!(c.cell_x, 1);
    }
    assert_eq!(c.cell_y, 5);
}

#[test]
fn euclidean_distance_relation_on_edge_ray() {
    // Direction (4, 3) from (3.5, 3.5): the crossing into column x = 6 is
    // at t = 640/1024, whose Euclidean length t * |(4,3)| is exactly
    // 3.125 while the perpendicular (corrected) advance along +x is 2.5:
    // corrected == euclidean * cos with cos = 4/5.
    let mut c = GridCursor::new(Vec2i::new(896, 896), Vec2i::new(4, 3));
    loop {
        c.go_to_next_hit();
        if c.side == Axis::X && c.cell_x == 6 {
            break;
        }
        assert!(c.cell_x <= 6 && c.cell_y <= 6);
    }
    assert_eq!(c.dist_num, 640);
    assert_eq!(c.dist_den, 1024);
    // d^2 * den^2 == num^2 * dot(dir, dir): d == 3.125
    let d2_scaled = c.dist_num * c.dist_num * (4 * 4 + 3 * 3);
    assert_eq!(d2_scaled, 10_240_000); // (3.125 * 1024)^2
}
