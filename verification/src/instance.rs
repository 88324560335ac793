//! The instance grid: one transform per grid cell, flattened for the GPU.
//!
//! The grid is a pure function of its size and spacing: `n * n` cells,
//! centered on the origin, each cell holding its position and an orientation.
//! A cell away from the origin is tilted by a fixed angle about the axis
//! pointing from the origin through it; the origin cell, whose direction is
//! degenerate, receives the identity orientation instead of a normalization
//! of the zero vector. Flattening an instance to its model and normal
//! matrices is a pure map, so the whole grid can be re-derived at any time.

use vstd::prelude::*;

verus! {

use crate::angle::{cos_fx, cos_spec, sin_fx, sin_spec};
use crate::fixed::{div_fx, isqrt, isqrt_spec, lemma_quot_bound, quot};
use crate::mat::{Mat3, Mat3V, Mat4, Mat4V};
use crate::vec3::{norm_sq, norm_sq_spec, vec3_bounded, Vec3Fx, Vec3V};

/// The tilt of every off-origin cell, in deci-degrees.
pub const GRID_TILT_DD: i64 = 450;

/// A rotation as a quaternion with fixed-point components scaled by `SCALE`.
#[derive(Debug, Clone, Copy, PartialEq, Eq, Structural)]
pub struct Quat {
    pub x: i64,
    pub y: i64,
    pub z: i64,
    pub w: i64,
}

/// The mathematical value of a quaternion.
pub ghost struct QuatV {
    pub x: int,
    pub y: int,
    pub z: int,
    pub w: int,
}

impl View for Quat {
    type V = QuatV;

    open spec fn view(&self) -> QuatV {
        QuatV { x: self.x as int, y: self.y as int, z: self.z as int, w: self.w as int }
    }
}

/// Every component of `q` lies within `[-b, b]`.
pub open spec fn quat_bounded(q: QuatV, b: int) -> bool {
    &&& -b <= q.x <= b
    &&& -b <= q.y <= b
    &&& -b <= q.z <= b
    &&& -b <= q.w <= b
}

/// The identity orientation.
pub open spec fn quat_identity() -> QuatV {
    QuatV { x: 0, y: 0, z: 0, w: 1000 }
}

/// One grid cell: a position and an orientation.
#[derive(Debug, Clone, Copy, PartialEq, Eq, Structural)]
pub struct Instance {
    pub position: Vec3Fx,
    pub rotation: Quat,
}

/// The mathematical value of an instance.
pub ghost struct InstanceV {
    pub position: Vec3V,
    pub rotation: QuatV,
}

impl View for Instance {
    type V = InstanceV;

    open spec fn view(&self) -> InstanceV {
        InstanceV { position: self.position@, rotation: self.rotation@ }
    }
}

/// The GPU-ready form of an instance: its model matrix and the 3x3 normal
/// matrix.
#[derive(Debug, Clone, Copy, PartialEq, Eq, Structural)]
pub struct InstanceRaw {
    pub model: Mat4,
    pub normal: Mat3,
}

/// The orientation of a cell at `p`: the identity at the origin, else the
/// tilt about the unit axis through `p`, as a quaternion built from the half
/// angle.
pub open spec fn grid_rotation_spec(p: Vec3V) -> QuatV {
    if p.x == 0 && p.y == 0 && p.z == 0 {
        quat_identity()
    } else {
        let len = isqrt_spec(norm_sq_spec(p) as nat) as int;
        let s = sin_spec(GRID_TILT_DD as int / 2);
        QuatV {
            x: quot(quot(p.x * 1000, len) * s, 1000),
            y: quot(quot(p.y * 1000, len) * s, 1000),
            z: quot(quot(p.z * 1000, len) * s, 1000),
            w: cos_spec(GRID_TILT_DD as int / 2),
        }
    }
}

/// Build the orientation of a cell at `p`.
pub fn grid_rotation(p: &Vec3Fx) -> (r: Quat)
    requires
        vec3_bounded(p@, 100_000_000),
    ensures
        r@ == grid_rotation_spec(p@),
        quat_bounded(r@, 1000),
{
    if p.x == 0 && p.y == 0 && p.z == 0 {
        proof {
            crate::angle::lemma_sin_bounds(225);
            crate::angle::lemma_cos_bounds(225);
        }
        Quat { x: 0, y: 0, z: 0, w: 1000 }
    } else {
        let ns = norm_sq(p);
        let len = isqrt(ns);
        proof {
            assert(0 <= p@.x * p@.x && 0 <= p@.y * p@.y && 0 <= p@.z * p@.z) by (nonlinear_arith);
            assert(1 <= norm_sq_spec(p@)) by (nonlinear_arith)
                requires
                    !(p@.x == 0 && p@.y == 0 && p@.z == 0),
                    vec3_bounded(p@, 100_000_000),
            ;
            assert(len >= 1) by (nonlinear_arith)
                requires
                    (len as int) * (len as int) <= ns as int,
                    (ns as int) < ((len as int) + 1) * ((len as int) + 1),
                    1 <= ns,
                    0 <= len,
            ;
            assert(-(len as int) <= p@.x <= len as int && -(len as int) <= p@.y <= len as int && -(
            len as int) <= p@.z <= len as int) by (nonlinear_arith)
                requires
                    (ns as int) < ((len as int) + 1) * ((len as int) + 1),
                    ns == norm_sq_spec(p@),
                    norm_sq_spec(p@) == p@.x * p@.x + p@.y * p@.y + p@.z * p@.z,
                    0 <= p@.x * p@.x,
                    0 <= p@.y * p@.y,
                    0 <= p@.z * p@.z,
                    0 <= len,
            ;
            assert(-100_000_000_000 <= p@.x * 1000 <= 100_000_000_000);
            lemma_quot_bound(p@.x * 1000, len as int, 1000);
            lemma_quot_bound(p@.y * 1000, len as int, 1000);
            lemma_quot_bound(p@.z * 1000, len as int, 1000);
        }
        let ax = div_fx(p.x * 1000, len);
        let ay = div_fx(p.y * 1000, len);
        let az = div_fx(p.z * 1000, len);
        let s = sin_fx(GRID_TILT_DD / 2);
        let c = cos_fx(GRID_TILT_DD / 2);
        proof {
            assert(-1_000_000 <= (ax as int) * (s as int) <= 1_000_000 && -1_000_000 <= (ay as int)
                * (s as int) <= 1_000_000 && -1_000_000 <= (az as int) * (s as int) <= 1_000_000)
                by (nonlinear_arith)
                requires
                    -1000 <= ax <= 1000,
                    -1000 <= ay <= 1000,
                    -1000 <= az <= 1000,
                    -1000 <= s <= 1000,
            ;
            lemma_quot_bound((ax as int) * (s as int), 1000, 1000);
            lemma_quot_bound((ay as int) * (s as int), 1000, 1000);
            lemma_quot_bound((az as int) * (s as int), 1000, 1000);
        }
        Quat {
            x: div_fx(ax * s, 1000),
            y: div_fx(ay * s, 1000),
            z: div_fx(az * s, 1000),
            w: c,
        }
    }
}

/// The rotation matrix of a quaternion, in fixed point.
pub open spec fn quat_mat3_spec(q: QuatV) -> Mat3V {
    Mat3V {
        m00: quot(1000000 - 2 * (q.y * q.y + q.z * q.z), 1000),
        m01: quot(2 * (q.x * q.y - q.w * q.z), 1000),
        m02: quot(2 * (q.x * q.z + q.w * q.y), 1000),
        m10: quot(2 * (q.x * q.y + q.w * q.z), 1000),
        m11: quot(1000000 - 2 * (q.x * q.x + q.z * q.z), 1000),
        m12: quot(2 * (q.y * q.z - q.w * q.x), 1000),
        m20: quot(2 * (q.x * q.z - q.w * q.y), 1000),
        m21: quot(2 * (q.y * q.z + q.w * q.x), 1000),
        m22: quot(1000000 - 2 * (q.x * q.x + q.y * q.y), 1000),
    }
}

/// The model matrix of an instance: its orientation's rotation block with the
/// position as the translation column.
pub open spec fn model_mat4_spec(p: Vec3V, rotm: Mat3V) -> Mat4V {
    Mat4V {
        m00: rotm.m00,
        m01: rotm.m01,
        m02: rotm.m02,
        m03: p.x,
        m10: rotm.m10,
        m11: rotm.m11,
        m12: rotm.m12,
        m13: p.y,
        m20: rotm.m20,
        m21: rotm.m21,
        m22: rotm.m22,
        m23: p.z,
        m30: 0,
        m31: 0,
        m32: 0,
        m33: 1000,
    }
}

impl Instance {
    /// Flatten to the GPU form: the normal matrix is the orientation's
    /// rotation matrix, the model matrix adds the translation column.
    pub fn to_raw(&self) -> (r: InstanceRaw)
        requires
            quat_bounded(self.rotation@, 1000),
            vec3_bounded(self.position@, 100_000_000),
        ensures
            r.normal@ == quat_mat3_spec(self.rotation@),
            r.model@ == model_mat4_spec(self.position@, quat_mat3_spec(self.rotation@)),
    {
        let q = self.rotation;
        proof {
            assert(-1_000_000 <= (q.x as int) * (q.x as int) <= 1_000_000 && -1_000_000 <= (
            q.y as int) * (q.y as int) <= 1_000_000 && -1_000_000 <= (q.z as int) * (q.z as int)
                <= 1_000_000 && -1_000_000 <= (q.x as int) * (q.y as int) <= 1_000_000 && -1_000_000
                <= (q.x as int) * (q.z as int) <= 1_000_000 && -1_000_000 <= (q.y as int) * (
            q.z as int) <= 1_000_000 && -1_000_000 <= (q.w as int) * (q.x as int) <= 1_000_000
                && -1_000_000 <= (q.w as int) * (q.y as int) <= 1_000_000 && -1_000_000 <= (
            q.w as int) * (q.z as int) <= 1_000_000) by (nonlinear_arith)
                requires
                    quat_bounded(q@, 1000),
            ;
        }
        let m00 = div_fx(1000000 - 2 * (q.y * q.y + q.z * q.z), 1000);
        let m01 = div_fx(2 * (q.x * q.y - q.w * q.z), 1000);
        let m02 = div_fx(2 * (q.x * q.z + q.w * q.y), 1000);
        let m10 = div_fx(2 * (q.x * q.y + q.w * q.z), 1000);
        let m11 = div_fx(1000000 - 2 * (q.x * q.x + q.z * q.z), 1000);
        let m12 = div_fx(2 * (q.y * q.z - q.w * q.x), 1000);
        let m20 = div_fx(2 * (q.x * q.z - q.w * q.y), 1000);
        let m21 = div_fx(2 * (q.y * q.z + q.w * q.x), 1000);
        let m22 = div_fx(1000000 - 2 * (q.x * q.x + q.y * q.y), 1000);
        let normal = Mat3 { m00, m01, m02, m10, m11, m12, m20, m21, m22 };
        let model = Mat4 {
            m00,
            m01,
            m02,
            m03: self.position.x,
            m10,
            m11,
            m12,
            m13: self.position.y,
            m20,
            m21,
            m22,
            m23: self.position.z,
            m30: 0,
            m31: 0,
            m32: 0,
            m33: 1000,
        };
        InstanceRaw { model, normal }
    }
}

/// The coordinate of grid index `i` out of `n`, centered: `i` runs over
/// `[0, n)` and the coordinate is `spacing * (2 * i - (n - 1)) / 2`.
pub open spec fn grid_coord(n: int, spacing: int, i: int) -> int {
    quot(spacing * (2 * i - (n - 1)), 2)
}

/// The cell at flat index `i` of the `n` by `n` grid: column `i % n`, row
/// `i / n`, on the ground plane, with the grid orientation of its position.
pub open spec fn grid_instance_spec(n: int, spacing: int, i: int) -> InstanceV {
    let p = Vec3V {
        x: grid_coord(n, spacing, i % n),
        y: 0,
        z: grid_coord(n, spacing, i / n),
    };
    InstanceV { position: p, rotation: grid_rotation_spec(p) }
}

/// Compute one centered grid coordinate.
fn grid_coord_fx(n: u32, spacing: i64, i: u32) -> (r: i64)
    requires
        1 <= n <= 1000,
        i < n,
        0 <= spacing <= 100_000,
    ensures
        r == grid_coord(n as int, spacing as int, i as int),
        -50_000_000 <= r <= 50_000_000,
{
    let k = 2 * (i as i64) - ((n as i64) - 1);
    proof {
        assert(-100_000_000 <= spacing as int * (k as int) <= 100_000_000) by (nonlinear_arith)
            requires
                0 <= spacing <= 100_000,
                -1000 <= k <= 1000,
        ;
        lemma_quot_bound(spacing as int * (k as int), 2, 50_000_000);
    }
    div_fx(spacing * k, 2)
}

/// Build the `n` by `n` grid: exactly the instances of
/// `grid_instance_spec`, in flat row-major order. A pure function of `n` and
/// `spacing`: two calls yield identical grids.
pub fn make_instances(n: u32, spacing: i64) -> (r: Vec<Instance>)
    requires
        1 <= n <= 1000,
        0 <= spacing <= 100_000,
    ensures
        r@.len() == n * n,
        forall|i: int|
            0 <= i < n * n ==> (#[trigger] r@[i])@ == grid_instance_spec(
                n as int,
                spacing as int,
                i,
            ),
{
    proof {
        assert(n * n <= 1_000_000) by (nonlinear_arith)
            requires
                1 <= n <= 1000,
        ;
    }
    let total = n * n;
    let mut r: Vec<Instance> = Vec::new();
    let mut i: u32 = 0;
    while i < total
        invariant
            total == n * n,
            1 <= n <= 1000,
            0 <= spacing <= 100_000,
            0 <= i <= total,
            r@.len() == i,
            forall|j: int|
                0 <= j < i ==> (#[trigger] r@[j])@ == grid_instance_spec(
                    n as int,
                    spacing as int,
                    j,
                ),
        decreases total - i,
    {
        let x = i % n;
        let z = i / n;
        proof {
            assert(z < n) by (nonlinear_arith)
                requires
                    i < n * n,
                    z == i / n,
                    1 <= n,
            ;
        }
        let px = grid_coord_fx(n, spacing, x);
        let pz = grid_coord_fx(n, spacing, z);
        let position = Vec3Fx { x: px, y: 0, z: pz };
        let rotation = grid_rotation(&position);
        r.push(Instance { position, rotation });
        i = i + 1;
    }
    r
}

/// Law: the grid is deterministic. Any two sequences that both satisfy the
/// grid contract are equal, element for element.
pub proof fn lemma_grid_deterministic(s1: Seq<InstanceV>, s2: Seq<InstanceV>, n: int, spacing: int)
    requires
        s1.len() == n * n,
        s2.len() == n * n,
        forall|i: int| 0 <= i < n * n ==> #[trigger] s1[i] == grid_instance_spec(n, spacing, i),
        forall|i: int| 0 <= i < n * n ==> #[trigger] s2[i] == grid_instance_spec(n, spacing, i),
    ensures
        s1 == s2,
{
    assert(s1 =~= s2);
}

/// Law: the origin cell, when the grid has one, receives exactly the
/// identity orientation, never a normalization of its zero direction.
pub proof fn lemma_grid_origin_identity(n: int, spacing: int, i: int)
    requires
        grid_instance_spec(n, spacing, i).position == (Vec3V { x: 0, y: 0, z: 0 }),
    ensures
        grid_instance_spec(n, spacing, i).rotation == quat_identity(),
{
}

} // verus!
