//! Geometry primitives: fixed-point points, integer direction vectors,
//! rotation by an exact cosine/sine pair, and dot products.
//!
//! A world position is a pair of `i64` sub-cell coordinates (`FRAC` sub-units
//! per map cell).  A direction is an integer vector, not necessarily of unit
//! length: every quantity the renderer derives from a direction is either
//! scale-free (a ratio) or carried in units that absorb the vector's length.

use vstd::prelude::*;

verus! {

/// Largest map dimension, in cells, the engine accepts.
pub const MAX_DIM: i64 = 1024;

/// Largest magnitude of a forward-vector component.
pub const FWD_MAX: i64 = 1024;

/// Largest magnitude of a rotation-pair component (exact cosine/sine scaled
/// by a common radius).
pub const ROT_MAX: i64 = 512;

/// Largest magnitude of a ray-direction component.  A ray direction is a
/// forward vector rotated by a rotation pair, so its components are bounded
/// by `2 * FWD_MAX * ROT_MAX`.
pub const DIR_MAX: i64 = 1048576;

/// An integer 2D vector.
#[derive(Clone, Copy, PartialEq, Eq, Structural, Debug)]
pub struct Vec2i {
    pub x: i64,
    pub y: i64,
}

/// Dot product of two vectors, as a spec-level integer.
pub open spec fn dot2(ax: int, ay: int, bx: int, by: int) -> int {
    ax * bx + ay * by
}

/// Dot product of two `Vec2i`, as a spec-level integer.
pub open spec fn spec_dot(a: Vec2i, b: Vec2i) -> int {
    dot2(a.x as int, a.y as int, b.x as int, b.y as int)
}

/// A forward vector is well formed when it is non-zero and small enough that
/// every product the renderer forms with it stays in range.
pub open spec fn fwd_wf(f: Vec2i) -> bool {
    &&& !(f.x == 0 && f.y == 0)
    &&& -FWD_MAX <= f.x <= FWD_MAX
    &&& -FWD_MAX <= f.y <= FWD_MAX
}

/// A rotation pair (c, s) stands for the exact cosine and sine of a column's
/// view angle, scaled by a common radius.  `c > 0` keeps every cast ray
/// strictly within a quarter turn of the forward axis, so perpendicular
/// distances stay positive.
pub open spec fn rot_wf(c: i64, s: i64) -> bool {
    &&& 0 < c <= ROT_MAX
    &&& -ROT_MAX <= s <= ROT_MAX
}

/// A ray direction is well formed when it is non-zero and bounded.
pub open spec fn dir_wf(d: Vec2i) -> bool {
    &&& !(d.x == 0 && d.y == 0)
    &&& -DIR_MAX <= d.x <= DIR_MAX
    &&& -DIR_MAX <= d.y <= DIR_MAX
}

/// X component of `f` rotated by the angle whose scaled cosine/sine pair is
/// `(c, s)`.
pub open spec fn rot_x(f: Vec2i, c: i64, s: i64) -> int {
    f.x * c - f.y * s
}

/// Y component of `f` rotated by `(c, s)`.
pub open spec fn rot_y(f: Vec2i, c: i64, s: i64) -> int {
    f.x * s + f.y * c
}

impl Vec2i {
    /// Builds a vector from its components.
    pub fn new(x: i64, y: i64) -> (r: Vec2i)
        ensures
            r.x == x,
            r.y == y,
    {
        Vec2i { x, y }
    }
}

/// Dot product of two bounded vectors.
pub fn dot(a: Vec2i, b: Vec2i) -> (r: i64)
    requires
        -DIR_MAX <= a.x <= DIR_MAX,
        -DIR_MAX <= a.y <= DIR_MAX,
        -DIR_MAX <= b.x <= DIR_MAX,
        -DIR_MAX <= b.y <= DIR_MAX,
    ensures
        r == spec_dot(a, b),
{
    proof {
        assert(a.x * b.x <= DIR_MAX * DIR_MAX && a.x * b.x >= -(DIR_MAX * DIR_MAX))
            by (nonlinear_arith)
            requires -DIR_MAX <= a.x <= DIR_MAX && -DIR_MAX <= b.x <= DIR_MAX;
        assert(a.y * b.y <= DIR_MAX * DIR_MAX && a.y * b.y >= -(DIR_MAX * DIR_MAX))
            by (nonlinear_arith)
            requires -DIR_MAX <= a.y <= DIR_MAX && -DIR_MAX <= b.y <= DIR_MAX;
    }
    a.x * b.x + a.y * b.y
}

/// Bounds a product of two bounded factors.
pub proof fn lemma_mul_bound(a: int, b: int, am: int, bm: int)
    requires
        -am <= a <= am,
        -bm <= b <= bm,
        0 <= am,
        0 <= bm,
    ensures
        -(am * bm) <= a * b <= am * bm,
{
    assert(-(am * bm) <= a * b <= am * bm) by (nonlinear_arith)
        requires -am <= a <= am && -bm <= b <= bm && 0 <= am && 0 <= bm;
}

/// The rotated forward vector as a spec value.
pub open spec fn spec_ray_dir(f: Vec2i, c: i64, s: i64) -> Vec2i {
    Vec2i { x: rot_x(f, c, s) as i64, y: rot_y(f, c, s) as i64 }
}

/// Rotates a forward vector by a rotation pair.
pub fn rotate(f: Vec2i, c: i64, s: i64) -> (r: Vec2i)
    requires
        fwd_wf(f),
        rot_wf(c, s),
    ensures
        r == spec_ray_dir(f, c, s),
        r.x == rot_x(f, c, s),
        r.y == rot_y(f, c, s),
        dir_wf(r),
{
    proof {
        lemma_mul_bound(f.x as int, c as int, FWD_MAX as int, ROT_MAX as int);
        lemma_mul_bound(f.y as int, s as int, FWD_MAX as int, ROT_MAX as int);
        lemma_mul_bound(f.x as int, s as int, FWD_MAX as int, ROT_MAX as int);
        lemma_mul_bound(f.y as int, c as int, FWD_MAX as int, ROT_MAX as int);
        lemma_rotate_nonzero(f, c, s);
    }
    Vec2i { x: f.x * c - f.y * s, y: f.x * s + f.y * c }
}

/// Expands the squared length of a rotated vector into monomials:
/// rotation by `(c, s)` scales squared length by `c * c + s * s`.
proof fn lemma_rot_sq_len(a: int, b: int, c: int, s: int)
    ensures
        (a * c - b * s) * (a * c - b * s) + (a * s + b * c) * (a * s + b * c) == (c * c + s * s)
            * (a * a + b * b),
{
    assert((a * c - b * s) * (a * c - b * s) == (a * c) * (a * c) - 2 * ((a * c) * (b * s)) + (b
        * s) * (b * s)) by (nonlinear_arith);
    assert((a * s + b * c) * (a * s + b * c) == (a * s) * (a * s) + 2 * ((a * s) * (b * c)) + (b
        * c) * (b * c)) by (nonlinear_arith);
    assert((a * c) * (b * s) == (a * s) * (b * c)) by (nonlinear_arith);
    assert((c * c + s * s) * (a * a + b * b) == (c * c) * (a * a) + (c * c) * (b * b) + (s * s)
        * (a * a) + (s * s) * (b * b)) by (nonlinear_arith);
    assert((a * c) * (a * c) == (c * c) * (a * a)) by (nonlinear_arith);
    assert((b * s) * (b * s) == (s * s) * (b * b)) by (nonlinear_arith);
    assert((a * s) * (a * s) == (s * s) * (a * a)) by (nonlinear_arith);
    assert((b * c) * (b * c) == (c * c) * (b * b)) by (nonlinear_arith);
}

/// Rotation by a pair of positive radius never sends a non-zero vector to
/// zero: the squared length of the result is the squared length of `f` times
/// the squared radius of the pair.
proof fn lemma_rotate_nonzero(f: Vec2i, c: i64, s: i64)
    requires
        fwd_wf(f),
        rot_wf(c, s),
    ensures
        !(rot_x(f, c, s) == 0 && rot_y(f, c, s) == 0),
{
    let rx = rot_x(f, c, s);
    let ry = rot_y(f, c, s);
    let fx = f.x as int;
    let fy = f.y as int;
    lemma_rot_sq_len(fx, fy, c as int, s as int);
    assert(rx * rx + ry * ry == (c * c + s * s) * (fx * fx + fy * fy));
    if rx == 0 && ry == 0 {
        assert(c * c >= 1 && s * s >= 0) by (nonlinear_arith)
            requires 0 < c;
        assert(fx * fx + fy * fy > 0) by (nonlinear_arith)
            requires !(fx == 0 && fy == 0);
        assert((c * c + s * s) * (fx * fx + fy * fy) > 0) by (nonlinear_arith)
            requires c * c + s * s >= 1 && fx * fx + fy * fy > 0;
    }
}

/// The "east" (right-hand) vector of a forward vector: `f` turned a quarter
/// turn clockwise, so that for `f` pointing along +y the result points along
/// +x.
pub fn east(f: Vec2i) -> (r: Vec2i)
    requires
        fwd_wf(f),
    ensures
        r.x == f.y,
        r.y == -f.x,
        fwd_wf(r),
{
    Vec2i { x: f.y, y: -(f.x) }
}

/// The dot product of a rotated forward vector with the forward vector
/// itself is the scaled cosine times the squared length of the forward
/// vector: rotation turns by the pair's angle and scales by its radius, so
/// the component of the ray along the forward axis carries exactly the
/// cosine factor.  This is the algebraic heart of fisheye correction.
pub proof fn lemma_rotation_forward_dot(f: Vec2i, c: i64, s: i64)
    ensures
        dot2(rot_x(f, c, s), rot_y(f, c, s), f.x as int, f.y as int) == c * spec_dot(f, f),
        dot2(rot_x(f, c, s), rot_y(f, c, s), rot_x(f, c, s), rot_y(f, c, s)) == (c * c + s * s)
            * spec_dot(f, f),
{
    let rx = rot_x(f, c, s);
    let ry = rot_y(f, c, s);
    let fx = f.x as int;
    let fy = f.y as int;
    assert((fx * c - fy * s) * fx + (fx * s + fy * c) * fy == c * (fx * fx + fy * fy))
        by (nonlinear_arith);
    lemma_rot_sq_len(fx, fy, c as int, s as int);
    assert(rx * fx + ry * fy == c * (fx * fx + fy * fy));
    assert(rx * rx + ry * ry == (c * c + s * s) * (fx * fx + fy * fy));
}

/// Fisheye (perpendicular-distance) correction, stated exactly and free of
/// square roots.  A wall hit at ray parameter `t` along the direction
/// `D = rotate(f, (c, s))` has squared Euclidean distance
/// `d2 = t * t * dot(D, D)`, and the extractor stores the corrected
/// distance `q = t * c` (the perpendicular distance in units of the
/// forward vector's length).  Squaring `corrected == euclidean * cos`
/// with `cos^2 == c^2 / (c^2 + s^2)` gives the identity proved here:
/// `q^2 * (c^2 + s^2) * dot(f, f) == d2 * c^2 * ...` reduced so that both
/// sides are polynomial.  Render height is then inversely proportional to
/// the corrected distance, per `spec_render_height`.
pub proof fn lemma_perpendicular_correction(f: Vec2i, c: i64, s: i64, t: int)
    ensures
        ((t * c) * (t * c)) * ((c * c + s * s) * spec_dot(f, f)) == (t * t * dot2(
            rot_x(f, c, s),
            rot_y(f, c, s),
            rot_x(f, c, s),
            rot_y(f, c, s),
        )) * (c * c),
{
    lemma_rotation_forward_dot(f, c, s);
    let dd = dot2(rot_x(f, c, s), rot_y(f, c, s), rot_x(f, c, s), rot_y(f, c, s));
    let f2 = spec_dot(f, f);
    let r2 = c * c + s * s;
    assert(dd == r2 * f2);
    assert(((t * c) * (t * c)) * (r2 * f2) == (t * t * (r2 * f2)) * (c * c))
        by (nonlinear_arith);
}

} // verus!
