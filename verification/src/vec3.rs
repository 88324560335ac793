//! Three-component vectors in milliunits.

use vstd::prelude::*;

verus! {

/// Positions are clamped to this many milliunits on each axis, so that
/// per-frame translation arithmetic can never overflow.
pub const POS_LIMIT: i64 = 100_000_000;

/// A vector with fixed-point components in milliunits.
#[derive(Debug, Clone, Copy, PartialEq, Eq, Structural)]
pub struct Vec3Fx {
    pub x: i64,
    pub y: i64,
    pub z: i64,
}

/// The mathematical value of a vector: unbounded integer components.
pub ghost struct Vec3V {
    pub x: int,
    pub y: int,
    pub z: int,
}

impl View for Vec3Fx {
    type V = Vec3V;

    open spec fn view(&self) -> Vec3V {
        Vec3V { x: self.x as int, y: self.y as int, z: self.z as int }
    }
}

impl Vec3Fx {
    /// Build a vector from its milliunit components.
    pub fn new(x: i64, y: i64, z: i64) -> (r: Vec3Fx)
        ensures
            r@ == (Vec3V { x: x as int, y: y as int, z: z as int }),
    {
        Vec3Fx { x, y, z }
    }
}

/// Every component of `v` lies within `[-b, b]`.
pub open spec fn vec3_bounded(v: Vec3V, b: int) -> bool {
    &&& -b <= v.x <= b
    &&& -b <= v.y <= b
    &&& -b <= v.z <= b
}

/// A coordinate clamped to the position range.
pub open spec fn clamp_coord_spec(v: int) -> int {
    if v < -POS_LIMIT {
        -POS_LIMIT as int
    } else if v > POS_LIMIT {
        POS_LIMIT as int
    } else {
        v
    }
}

/// Componentwise sum, clamped to the position range.
pub open spec fn vec3_add_clamped_spec(a: Vec3V, b: Vec3V) -> Vec3V {
    Vec3V {
        x: clamp_coord_spec(a.x + b.x),
        y: clamp_coord_spec(a.y + b.y),
        z: clamp_coord_spec(a.z + b.z),
    }
}

/// Clamp a coordinate to the position range.
pub fn clamp_coord(v: i64) -> (r: i64)
    ensures
        r == clamp_coord_spec(v as int),
{
    if v < -POS_LIMIT {
        -POS_LIMIT
    } else if v > POS_LIMIT {
        POS_LIMIT
    } else {
        v
    }
}

/// Add two vectors, clamping each component to the position range.
pub fn vec3_add_clamped(a: &Vec3Fx, b: &Vec3Fx) -> (r: Vec3Fx)
    requires
        vec3_bounded(a@, 0x1000_0000_0000_0000),
        vec3_bounded(b@, 0x1000_0000_0000_0000),
    ensures
        r@ == vec3_add_clamped_spec(a@, b@),
        vec3_bounded(r@, POS_LIMIT as int),
{
    Vec3Fx { x: clamp_coord(a.x + b.x), y: clamp_coord(a.y + b.y), z: clamp_coord(a.z + b.z) }
}

/// Squared Euclidean norm, in squared milliunits.
pub open spec fn norm_sq_spec(v: Vec3V) -> int {
    v.x * v.x + v.y * v.y + v.z * v.z
}

/// Compute the squared norm of a bounded vector.
pub fn norm_sq(v: &Vec3Fx) -> (r: i64)
    requires
        vec3_bounded(v@, 1_000_000_000),
    ensures
        r == norm_sq_spec(v@),
        0 <= r <= 3_000_000_000_000_000_000,
{
    proof {
        assert(0 <= v@.x * v@.x <= 1_000_000_000_000_000_000 && 0 <= v@.y * v@.y
            <= 1_000_000_000_000_000_000 && 0 <= v@.z * v@.z <= 1_000_000_000_000_000_000)
            by (nonlinear_arith)
            requires
                vec3_bounded(v@, 1_000_000_000),
        ;
    }
    v.x * v.x + v.y * v.y + v.z * v.z
}

} // verus!
