//! The free-flying camera: pose, derived matrices, and input handling.
//!
//! The pose is a position in milliunits plus yaw and pitch accumulators in
//! deci-degrees, kept normalized. The rotation convention is fixed: yaw turns
//! about the world up axis, pitch about the world right axis, composed as
//! pitch after yaw. The inverse of a rotation is taken to be its transpose,
//! so a movement key translates the position along a row of the rotation
//! matrix. Mouse input scales into the yaw and pitch accumulators and the
//! rotation matrix is recomputed from them at once; the view matrix is
//! recomputed from position and rotation before it can be read.

use vstd::prelude::*;

verus! {

use crate::angle::{angle_norm, is_angle, norm_angle};
use crate::fixed::{div_fx, lemma_quot_bound, quot};
use crate::mat::{
    dot3, lemma_dot3_fits, mat3_bounded, mat3_mul, mat3_mul_spec, mat4_bounded, mat4_ident,
    mat4_mul, mat4_mul_spec, perspective, perspective_spec, rotation_x, rotation_x_spec,
    rotation_y, rotation_y_spec, view_mat4_spec, view_matrix, Mat3, Mat3V, Mat4, Mat4V,
};
use crate::vec3::{
    vec3_add_clamped, vec3_add_clamped_spec, vec3_bounded, Vec3Fx, Vec3V, POS_LIMIT,
};

/// A movement key, already decoded from the platform's scancodes.
#[derive(Debug, Clone, Copy, PartialEq, Eq, Structural)]
pub enum Key {
    Forward,
    Backward,
    Left,
    Right,
    Up,
    Down,
}

/// Whether `keys` holds `k`.
pub fn has_key(keys: &Vec<Key>, k: Key) -> (r: bool)
    ensures
        r == keys@.contains(k),
{
    let mut i: usize = 0;
    while i < keys.len()
        invariant
            0 <= i <= keys@.len(),
            forall|j: int| 0 <= j < i ==> keys@[j] != k,
        decreases keys@.len() - i,
    {
        if keys[i] == k {
            assert(keys@[i as int] == k);
            return true;
        }
        i = i + 1;
    }
    false
}

/// The mathematical pose of a camera: what every derived matrix is a
/// function of.
pub ghost struct CameraPose {
    pub position: Vec3V,
    pub yaw: int,
    pub pitch: int,
}

/// The camera: pose, projection parameters, and derived matrices.
#[derive(Debug, Clone, Copy, PartialEq, Eq, Structural)]
pub struct Camera {
    /// Position in milliunits.
    pub position: Vec3Fx,
    /// Yaw about the world up axis, deci-degrees in `[0, TURN)`.
    pub yaw: i64,
    /// Pitch about the world right axis, deci-degrees in `[0, TURN)`.
    pub pitch: i64,
    /// Derived: always the rotation of the current yaw and pitch.
    pub rotation_matrix: Mat3,
    /// Derived: always the view matrix of the current pose.
    pub view_matrix: Mat4,
    /// Width over height, in milliunits.
    pub aspect: i64,
    /// Vertical field of view, deci-degrees.
    pub fovy: i64,
    /// Near plane, milliunits.
    pub znear: i64,
    /// Far plane, milliunits.
    pub zfar: i64,
    /// Translation per held key per frame, milliunits.
    pub distance: i64,
    /// Deci-degrees of turn per mouse count.
    pub sensitivity: i64,
}

/// The rotation of a pose: pitch about X composed after yaw about Y.
pub open spec fn rotation_spec(yaw: int, pitch: int) -> Mat3V {
    mat3_mul_spec(rotation_x_spec(pitch), rotation_y_spec(yaw))
}

impl Camera {
    /// The pose this camera's derived matrices are a function of.
    pub open spec fn pose(&self) -> CameraPose {
        CameraPose { position: self.position@, yaw: self.yaw as int, pitch: self.pitch as int }
    }

    /// Well-formedness: angles normalized, parameters in range, and the
    /// derived matrices exactly those of the current pose.
    pub open spec fn wf(&self) -> bool {
        &&& is_angle(self.yaw as int)
        &&& is_angle(self.pitch as int)
        &&& vec3_bounded(self.position@, POS_LIMIT as int)
        &&& 1 <= self.aspect <= 100_000_000
        &&& 100 <= self.fovy <= 1700
        &&& 1 <= self.znear
        &&& 2 * self.znear <= self.zfar <= 2_000_000
        &&& 0 <= self.distance <= 1_000_000
        &&& 0 <= self.sensitivity <= 3600
        &&& self.rotation_matrix@ == rotation_spec(self.yaw as int, self.pitch as int)
        &&& self.view_matrix@ == view_mat4_spec(self.rotation_matrix@, self.position@)
    }
}

/// Any composed rotation has entries within `[-3001, 3001]`.
pub proof fn lemma_rotation_bounded(yaw: int, pitch: int)
    ensures
        mat3_bounded(rotation_spec(yaw, pitch), 3001),
{
    crate::angle::lemma_sin_bounds(yaw);
    crate::angle::lemma_cos_bounds(yaw);
    crate::angle::lemma_sin_bounds(pitch);
    crate::angle::lemma_cos_bounds(pitch);
    let a = rotation_x_spec(pitch);
    let b = rotation_y_spec(yaw);
    lemma_dot3_fits(a.m00, a.m01, a.m02, b.m00, b.m10, b.m20, 1000, 1000);
    lemma_dot3_fits(a.m00, a.m01, a.m02, b.m01, b.m11, b.m21, 1000, 1000);
    lemma_dot3_fits(a.m00, a.m01, a.m02, b.m02, b.m12, b.m22, 1000, 1000);
    lemma_dot3_fits(a.m10, a.m11, a.m12, b.m00, b.m10, b.m20, 1000, 1000);
    lemma_dot3_fits(a.m10, a.m11, a.m12, b.m01, b.m11, b.m21, 1000, 1000);
    lemma_dot3_fits(a.m10, a.m11, a.m12, b.m02, b.m12, b.m22, 1000, 1000);
    lemma_dot3_fits(a.m20, a.m21, a.m22, b.m00, b.m10, b.m20, 1000, 1000);
    lemma_dot3_fits(a.m20, a.m21, a.m22, b.m01, b.m11, b.m21, 1000, 1000);
    lemma_dot3_fits(a.m20, a.m21, a.m22, b.m02, b.m12, b.m22, 1000, 1000);
    lemma_quot_bound(dot3(a.m00, a.m01, a.m02, b.m00, b.m10, b.m20), 1000, 3001);
    lemma_quot_bound(dot3(a.m00, a.m01, a.m02, b.m01, b.m11, b.m21), 1000, 3001);
    lemma_quot_bound(dot3(a.m00, a.m01, a.m02, b.m02, b.m12, b.m22), 1000, 3001);
    lemma_quot_bound(dot3(a.m10, a.m11, a.m12, b.m00, b.m10, b.m20), 1000, 3001);
    lemma_quot_bound(dot3(a.m10, a.m11, a.m12, b.m01, b.m11, b.m21), 1000, 3001);
    lemma_quot_bound(dot3(a.m10, a.m11, a.m12, b.m02, b.m12, b.m22), 1000, 3001);
    lemma_quot_bound(dot3(a.m20, a.m21, a.m22, b.m00, b.m10, b.m20), 1000, 3001);
    lemma_quot_bound(dot3(a.m20, a.m21, a.m22, b.m01, b.m11, b.m21), 1000, 3001);
    lemma_quot_bound(dot3(a.m20, a.m21, a.m22, b.m02, b.m12, b.m22), 1000, 3001);
}

/// The view matrix of a bounded rotation and position is bounded.
pub proof fn lemma_view_bounded(rot: Mat3V, pos: Vec3V)
    requires
        mat3_bounded(rot, 3300),
        vec3_bounded(pos, 100_000_000),
    ensures
        mat4_bounded(view_mat4_spec(rot, pos), 1_000_000_000),
{
    lemma_dot3_fits(rot.m00, rot.m01, rot.m02, pos.x, pos.y, pos.z, 3300, 100_000_000);
    lemma_dot3_fits(rot.m10, rot.m11, rot.m12, pos.x, pos.y, pos.z, 3300, 100_000_000);
    lemma_dot3_fits(rot.m20, rot.m21, rot.m22, pos.x, pos.y, pos.z, 3300, 100_000_000);
    lemma_quot_bound(dot3(rot.m00, rot.m01, rot.m02, pos.x, pos.y, pos.z), 1000, 990_000_000);
    lemma_quot_bound(dot3(rot.m10, rot.m11, rot.m12, pos.x, pos.y, pos.z), 1000, 990_000_000);
    lemma_quot_bound(dot3(rot.m20, rot.m21, rot.m22, pos.x, pos.y, pos.z), 1000, 990_000_000);
}

/// The position translated by `d` along the row `(r0, r1, r2)` of a rotation,
/// clamped to the position range.
pub open spec fn translated_spec(p: Vec3V, r0: int, r1: int, r2: int, d: int) -> Vec3V {
    vec3_add_clamped_spec(
        p,
        (Vec3V { x: quot(d * r0, 1000), y: quot(d * r1, 1000), z: quot(d * r2, 1000) }),
    )
}

/// Where one held key moves the position: forward and backward along the
/// third row of the rotation, right and left along the first, up and down
/// along the second.
pub open spec fn move_key_spec(p: Vec3V, rot: Mat3V, k: Key, d: int) -> Vec3V {
    match k {
        Key::Forward => translated_spec(p, rot.m20, rot.m21, rot.m22, d),
        Key::Backward => translated_spec(p, rot.m20, rot.m21, rot.m22, -d),
        Key::Right => translated_spec(p, rot.m00, rot.m01, rot.m02, d),
        Key::Left => translated_spec(p, rot.m00, rot.m01, rot.m02, -d),
        Key::Up => translated_spec(p, rot.m10, rot.m11, rot.m12, d),
        Key::Down => translated_spec(p, rot.m10, rot.m11, rot.m12, -d),
    }
}

/// The held keys applied in the fixed order forward, backward, right, left,
/// up, down.
pub open spec fn moved_all_spec(p: Vec3V, rot: Mat3V, keys: Seq<Key>, d: int) -> Vec3V {
    let p1 = if keys.contains(Key::Forward) {
        move_key_spec(p, rot, Key::Forward, d)
    } else {
        p
    };
    let p2 = if keys.contains(Key::Backward) {
        move_key_spec(p1, rot, Key::Backward, d)
    } else {
        p1
    };
    let p3 = if keys.contains(Key::Right) {
        move_key_spec(p2, rot, Key::Right, d)
    } else {
        p2
    };
    let p4 = if keys.contains(Key::Left) {
        move_key_spec(p3, rot, Key::Left, d)
    } else {
        p3
    };
    let p5 = if keys.contains(Key::Up) {
        move_key_spec(p4, rot, Key::Up, d)
    } else {
        p4
    };
    if keys.contains(Key::Down) {
        move_key_spec(p5, rot, Key::Down, d)
    } else {
        p5
    }
}

/// One frame of input applied to a pose: translation along the current
/// rotation's rows, then, only when relative mouse look is on, mouse deltas
/// scaled into the yaw and pitch accumulators.
pub open spec fn transform_pose_spec(
    p: CameraPose,
    keys: Seq<Key>,
    dx: int,
    dy: int,
    relative_mouse: bool,
    d: int,
    sens: int,
) -> CameraPose {
    let rot = rotation_spec(p.yaw, p.pitch);
    let npos = moved_all_spec(p.position, rot, keys, d);
    if relative_mouse {
        CameraPose {
            position: npos,
            yaw: angle_norm(p.yaw + dx * sens),
            pitch: angle_norm(p.pitch + dy * sens),
        }
    } else {
        CameraPose { position: npos, yaw: p.yaw, pitch: p.pitch }
    }
}

/// The combined view-projection of a pose: the perspective projection times
/// the view matrix of the pose. A pure function of pose and parameters.
pub open spec fn view_proj_spec(
    p: CameraPose,
    aspect: int,
    fovy: int,
    znear: int,
    zfar: int,
) -> Mat4V {
    mat4_mul_spec(
        perspective_spec(aspect, fovy, znear, zfar),
        view_mat4_spec(rotation_spec(p.yaw, p.pitch), p.position),
    )
}

impl Camera {
    /// Build a well-formed camera: the derived matrices are computed from the
    /// given pose before the camera can be read.
    pub fn new(
        position: Vec3Fx,
        yaw: i64,
        pitch: i64,
        aspect: i64,
        fovy: i64,
        znear: i64,
        zfar: i64,
        distance: i64,
        sensitivity: i64,
    ) -> (r: Camera)
        requires
            is_angle(yaw as int),
            is_angle(pitch as int),
            vec3_bounded(position@, POS_LIMIT as int),
            1 <= aspect <= 100_000_000,
            100 <= fovy <= 1700,
            1 <= znear,
            2 * znear <= zfar <= 2_000_000,
            0 <= distance <= 1_000_000,
            0 <= sensitivity <= 3600,
        ensures
            r.wf(),
            r.pose() == (CameraPose {
                position: position@,
                yaw: yaw as int,
                pitch: pitch as int,
            }),
            r.aspect == aspect,
            r.fovy == fovy,
            r.znear == znear,
            r.zfar == zfar,
            r.distance == distance,
            r.sensitivity == sensitivity,
    {
        let mut c = Camera {
            position,
            yaw,
            pitch,
            rotation_matrix: crate::mat::mat3_ident(),
            view_matrix: mat4_ident(),
            aspect,
            fovy,
            znear,
            zfar,
            distance,
            sensitivity,
        };
        c.update_rotation_matrix();
        c.update_affine_matrix();
        c
    }

    /// Recompute the rotation matrix from the current yaw and pitch.
    pub fn update_rotation_matrix(&mut self)
        requires
            is_angle(old(self).yaw as int),
            is_angle(old(self).pitch as int),
        ensures
            *final(self) == (Camera { rotation_matrix: final(self).rotation_matrix, ..*old(self) }),
            final(self).rotation_matrix@ == rotation_spec(final(self).yaw as int, final(self).pitch as int),
            mat3_bounded(final(self).rotation_matrix@, 3001),
    {
        proof {
            lemma_rotation_bounded(self.yaw as int, self.pitch as int);
        }
        let pitch_matrix = rotation_x(self.pitch);
        let yaw_matrix = rotation_y(self.yaw);
        self.rotation_matrix = mat3_mul(&pitch_matrix, &yaw_matrix);
    }

    /// Recompute the view matrix from the current rotation and position.
    pub fn update_affine_matrix(&mut self)
        requires
            mat3_bounded(old(self).rotation_matrix@, 3300),
            vec3_bounded(old(self).position@, POS_LIMIT as int),
        ensures
            *final(self) == (Camera { view_matrix: final(self).view_matrix, ..*old(self) }),
            final(self).view_matrix@ == view_mat4_spec(final(self).rotation_matrix@, final(self).position@),
    {
        self.view_matrix = view_matrix(&self.rotation_matrix, &self.position);
    }

    /// The combined view-projection matrix of the current pose. Deterministic:
    /// the result is exactly `view_proj_spec` of the pose and parameters, so
    /// two calls without an intervening mutation return equal matrices.
    pub fn build_view_projection_matrix(&self) -> (r: Mat4)
        requires
            self.wf(),
        ensures
            r@ == view_proj_spec(
                self.pose(),
                self.aspect as int,
                self.fovy as int,
                self.znear as int,
                self.zfar as int,
            ),
    {
        proof {
            lemma_rotation_bounded(self.yaw as int, self.pitch as int);
            lemma_view_bounded(self.rotation_matrix@, self.position@);
        }
        let p = perspective(self.aspect, self.fovy, self.znear, self.zfar);
        mat4_mul(&p, &self.view_matrix)
    }

    /// Translate the position by `d` along the row `(r0, r1, r2)`.
    fn translate_along(&mut self, r0: i64, r1: i64, r2: i64, d: i64)
        requires
            -3300 <= r0 <= 3300,
            -3300 <= r1 <= 3300,
            -3300 <= r2 <= 3300,
            -1_000_000 <= d <= 1_000_000,
            vec3_bounded(old(self).position@, POS_LIMIT as int),
        ensures
            *final(self) == (Camera { position: final(self).position, ..*old(self) }),
            final(self).position@ == translated_spec(
                old(self).position@,
                r0 as int,
                r1 as int,
                r2 as int,
                d as int,
            ),
            vec3_bounded(final(self).position@, POS_LIMIT as int),
    {
        proof {
            assert(-3_300_000_000 <= d as int * r0 <= 3_300_000_000 && -3_300_000_000 <= d as int
                * r1 <= 3_300_000_000 && -3_300_000_000 <= d as int * r2 <= 3_300_000_000)
                by (nonlinear_arith)
                requires
                    -3300 <= r0 <= 3300,
                    -3300 <= r1 <= 3300,
                    -3300 <= r2 <= 3300,
                    -1_000_000 <= d <= 1_000_000,
            ;
        }
        let delta = Vec3Fx {
            x: div_fx(d * r0, 1000),
            y: div_fx(d * r1, 1000),
            z: div_fx(d * r2, 1000),
        };
        self.position = vec3_add_clamped(&self.position, &delta);
    }

    /// Move forward: along the third row of the rotation.
    pub fn move_forward(&mut self, distance: i64)
        requires
            mat3_bounded(old(self).rotation_matrix@, 3300),
            -1_000_000 <= distance <= 1_000_000,
            vec3_bounded(old(self).position@, POS_LIMIT as int),
        ensures
            *final(self) == (Camera { position: final(self).position, ..*old(self) }),
            final(self).position@ == translated_spec(
                old(self).position@,
                old(self).rotation_matrix@.m20,
                old(self).rotation_matrix@.m21,
                old(self).rotation_matrix@.m22,
                distance as int,
            ),
            vec3_bounded(final(self).position@, POS_LIMIT as int),
    {
        let m = self.rotation_matrix;
        self.translate_along(m.m20, m.m21, m.m22, distance);
    }

    /// Move backward: forward by the negated distance.
    pub fn move_backward(&mut self, distance: i64)
        requires
            mat3_bounded(old(self).rotation_matrix@, 3300),
            -1_000_000 <= distance <= 1_000_000,
            vec3_bounded(old(self).position@, POS_LIMIT as int),
        ensures
            *final(self) == (Camera { position: final(self).position, ..*old(self) }),
            final(self).position@ == translated_spec(
                old(self).position@,
                old(self).rotation_matrix@.m20,
                old(self).rotation_matrix@.m21,
                old(self).rotation_matrix@.m22,
                -(distance as int),
            ),
            vec3_bounded(final(self).position@, POS_LIMIT as int),
    {
        self.move_forward(-distance);
    }

    /// Move right: along the first row of the rotation.
    pub fn move_right(&mut self, distance: i64)
        requires
            mat3_bounded(old(self).rotation_matrix@, 3300),
            -1_000_000 <= distance <= 1_000_000,
            vec3_bounded(old(self).position@, POS_LIMIT as int),
        ensures
            *final(self) == (Camera { position: final(self).position, ..*old(self) }),
            final(self).position@ == translated_spec(
                old(self).position@,
                old(self).rotation_matrix@.m00,
                old(self).rotation_matrix@.m01,
                old(self).rotation_matrix@.m02,
                distance as int,
            ),
            vec3_bounded(final(self).position@, POS_LIMIT as int),
    {
        let m = self.rotation_matrix;
        self.translate_along(m.m00, m.m01, m.m02, distance);
    }

    /// Move left: right by the negated distance.
    pub fn move_left(&mut self, distance: i64)
        requires
            mat3_bounded(old(self).rotation_matrix@, 3300),
            -1_000_000 <= distance <= 1_000_000,
            vec3_bounded(old(self).position@, POS_LIMIT as int),
        ensures
            *final(self) == (Camera { position: final(self).position, ..*old(self) }),
            final(self).position@ == translated_spec(
                old(self).position@,
                old(self).rotation_matrix@.m00,
                old(self).rotation_matrix@.m01,
                old(self).rotation_matrix@.m02,
                -(distance as int),
            ),
            vec3_bounded(final(self).position@, POS_LIMIT as int),
    {
        self.move_right(-distance);
    }

    /// Move up: along the second row of the rotation.
    pub fn move_up(&mut self, distance: i64)
        requires
            mat3_bounded(old(self).rotation_matrix@, 3300),
            -1_000_000 <= distance <= 1_000_000,
            vec3_bounded(old(self).position@, POS_LIMIT as int),
        ensures
            *final(self) == (Camera { position: final(self).position, ..*old(self) }),
            final(self).position@ == translated_spec(
                old(self).position@,
                old(self).rotation_matrix@.m10,
                old(self).rotation_matrix@.m11,
                old(self).rotation_matrix@.m12,
                distance as int,
            ),
            vec3_bounded(final(self).position@, POS_LIMIT as int),
    {
        let m = self.rotation_matrix;
        self.translate_along(m.m10, m.m11, m.m12, distance);
    }

    /// Move down: up by the negated distance.
    pub fn move_down(&mut self, distance: i64)
        requires
            mat3_bounded(old(self).rotation_matrix@, 3300),
            -1_000_000 <= distance <= 1_000_000,
            vec3_bounded(old(self).position@, POS_LIMIT as int),
        ensures
            *final(self) == (Camera { position: final(self).position, ..*old(self) }),
            final(self).position@ == translated_spec(
                old(self).position@,
                old(self).rotation_matrix@.m10,
                old(self).rotation_matrix@.m11,
                old(self).rotation_matrix@.m12,
                -(distance as int),
            ),
            vec3_bounded(final(self).position@, POS_LIMIT as int),
    {
        self.move_up(-distance);
    }

    /// Turn the yaw accumulator by `rotation` mouse counts at `sensitivity`
    /// deci-degrees per count, keeping it normalized.
    pub fn rotate_yaw(&mut self, rotation: i64, sensitivity: i64)
        requires
            is_angle(old(self).yaw as int),
            -1_000_000 <= rotation <= 1_000_000,
            0 <= sensitivity <= 3600,
        ensures
            *final(self) == (Camera { yaw: final(self).yaw, ..*old(self) }),
            final(self).yaw == angle_norm(old(self).yaw + rotation * sensitivity),
            is_angle(final(self).yaw as int),
    {
        proof {
            assert(-3_600_000_000 <= rotation as int * sensitivity <= 3_600_000_000)
                by (nonlinear_arith)
                requires
                    -1_000_000 <= rotation <= 1_000_000,
                    0 <= sensitivity <= 3600,
            ;
        }
        self.yaw = norm_angle(self.yaw + rotation * sensitivity);
    }

    /// Turn the pitch accumulator, as `rotate_yaw` does the yaw.
    pub fn rotate_pitch(&mut self, rotation: i64, sensitivity: i64)
        requires
            is_angle(old(self).pitch as int),
            -1_000_000 <= rotation <= 1_000_000,
            0 <= sensitivity <= 3600,
        ensures
            *final(self) == (Camera { pitch: final(self).pitch, ..*old(self) }),
            final(self).pitch == angle_norm(old(self).pitch + rotation * sensitivity),
            is_angle(final(self).pitch as int),
    {
        proof {
            assert(-3_600_000_000 <= rotation as int * sensitivity <= 3_600_000_000)
                by (nonlinear_arith)
                requires
                    -1_000_000 <= rotation <= 1_000_000,
                    0 <= sensitivity <= 3600,
            ;
        }
        self.pitch = norm_angle(self.pitch + rotation * sensitivity);
    }

    /// One frame of input: held keys translate the position, and, when
    /// relative mouse look is on, the mouse delta turns yaw and pitch and the
    /// rotation matrix is recomputed. The view matrix is recomputed in
    /// either case, so the camera stays well-formed.
    pub fn transform_camera(
        &mut self,
        keys: &Vec<Key>,
        mouse_dx: i64,
        mouse_dy: i64,
        relative_mouse: bool,
    )
        requires
            old(self).wf(),
            -1_000_000 <= mouse_dx <= 1_000_000,
            -1_000_000 <= mouse_dy <= 1_000_000,
        ensures
            final(self).wf(),
            final(self).pose() == transform_pose_spec(
                old(self).pose(),
                keys@,
                mouse_dx as int,
                mouse_dy as int,
                relative_mouse,
                old(self).distance as int,
                old(self).sensitivity as int,
            ),
            final(self).aspect == old(self).aspect,
            final(self).fovy == old(self).fovy,
            final(self).znear == old(self).znear,
            final(self).zfar == old(self).zfar,
            final(self).distance == old(self).distance,
            final(self).sensitivity == old(self).sensitivity,
    {
        proof {
            lemma_rotation_bounded(self.yaw as int, self.pitch as int);
        }
        let d = self.distance;
        if has_key(keys, Key::Forward) {
            self.move_forward(d);
        }
        if has_key(keys, Key::Backward) {
            self.move_backward(d);
        }
        if has_key(keys, Key::Right) {
            self.move_right(d);
        }
        if has_key(keys, Key::Left) {
            self.move_left(d);
        }
        if has_key(keys, Key::Up) {
            self.move_up(d);
        }
        if has_key(keys, Key::Down) {
            self.move_down(d);
        }
        if relative_mouse {
            let s = self.sensitivity;
            self.rotate_yaw(mouse_dx, s);
            self.rotate_pitch(mouse_dy, s);
            self.update_rotation_matrix();
        }
        self.update_affine_matrix();
    }
}

/// Translation-only input leaves the rotation alone: any sequence of
/// movement-key frames with zero mouse delta keeps yaw, pitch, and therefore
/// the rotation matrix, exactly unchanged.
pub open spec fn moves_only_spec(
    p: CameraPose,
    frames: Seq<Seq<Key>>,
    d: int,
    sens: int,
) -> CameraPose
    decreases frames.len(),
{
    if frames.len() == 0 {
        p
    } else {
        moves_only_spec(
            transform_pose_spec(p, frames[0], 0, 0, true, d, sens),
            frames.drop_first(),
            d,
            sens,
        )
    }
}

/// Law: for every pose with normalized angles and every sequence of
/// movement-key frames with zero mouse delta, the final pose has the same yaw
/// and pitch, hence the same rotation matrix.
pub proof fn lemma_translation_only_keeps_rotation(
    p: CameraPose,
    frames: Seq<Seq<Key>>,
    d: int,
    sens: int,
)
    requires
        is_angle(p.yaw),
        is_angle(p.pitch),
    ensures
        moves_only_spec(p, frames, d, sens).yaw == p.yaw,
        moves_only_spec(p, frames, d, sens).pitch == p.pitch,
        rotation_spec(moves_only_spec(p, frames, d, sens).yaw, moves_only_spec(p, frames, d, sens).pitch)
            == rotation_spec(p.yaw, p.pitch),
    decreases frames.len(),
{
    if frames.len() > 0 {
        let q = transform_pose_spec(p, frames[0], 0, 0, true, d, sens);
        assert(q.yaw == angle_norm(p.yaw + 0 * sens));
        assert(q.yaw == p.yaw);
        assert(q.pitch == p.pitch);
        lemma_translation_only_keeps_rotation(q, frames.drop_first(), d, sens);
    }
}

/// Law (at the quarter-turn angles, where the fixed-point trigonometry is
/// exact): the rotation matrix of the pose is exactly orthonormal. At other
/// angles the fixed-point rounding makes orthonormality hold only to within
/// the scale's granularity, which is checked by tests rather than proved.
pub proof fn lemma_rotation_orthonormal_quarters(yaw: int, pitch: int)
    requires
        yaw == 0 || yaw == 900 || yaw == 1800 || yaw == 2700,
        pitch == 0 || pitch == 900 || pitch == 1800 || pitch == 2700,
    ensures
        crate::mat::mat3_orthonormal(rotation_spec(yaw, pitch)),
{
    crate::angle::lemma_sin_quarters();
    crate::fixed::lemma_quot_units();
    let sy = crate::angle::sin_spec(yaw);
    let cy = crate::angle::cos_spec(yaw);
    let sp = crate::angle::sin_spec(pitch);
    let cp = crate::angle::cos_spec(pitch);
    crate::fixed::lemma_unit_prod(sp, sy);
    crate::fixed::lemma_unit_prod(sp, cy);
    crate::fixed::lemma_unit_prod(cp, sy);
    crate::fixed::lemma_unit_prod(cp, cy);
    let m = rotation_spec(yaw, pitch);
    crate::fixed::lemma_unit_prod(m.m00, m.m00);
    crate::fixed::lemma_unit_prod(m.m10, m.m10);
    crate::fixed::lemma_unit_prod(m.m20, m.m20);
    crate::fixed::lemma_unit_prod(m.m01, m.m01);
    crate::fixed::lemma_unit_prod(m.m11, m.m11);
    crate::fixed::lemma_unit_prod(m.m21, m.m21);
    crate::fixed::lemma_unit_prod(m.m02, m.m02);
    crate::fixed::lemma_unit_prod(m.m12, m.m12);
    crate::fixed::lemma_unit_prod(m.m22, m.m22);
    crate::fixed::lemma_unit_prod(m.m00, m.m01);
    crate::fixed::lemma_unit_prod(m.m10, m.m11);
    crate::fixed::lemma_unit_prod(m.m20, m.m21);
    crate::fixed::lemma_unit_prod(m.m00, m.m02);
    crate::fixed::lemma_unit_prod(m.m10, m.m12);
    crate::fixed::lemma_unit_prod(m.m20, m.m22);
    crate::fixed::lemma_unit_prod(m.m01, m.m02);
    crate::fixed::lemma_unit_prod(m.m11, m.m12);
    crate::fixed::lemma_unit_prod(m.m21, m.m22);
}

/// Law: the view-projection matrix is a pure function of the pose and the
/// projection parameters; two cameras in the same state derive bit-identical
/// matrices.
pub proof fn lemma_view_projection_deterministic(c1: Camera, c2: Camera)
    requires
        c1.pose() == c2.pose(),
        c1.aspect == c2.aspect,
        c1.fovy == c2.fovy,
        c1.znear == c2.znear,
        c1.zfar == c2.zfar,
    ensures
        view_proj_spec(
            c1.pose(),
            c1.aspect as int,
            c1.fovy as int,
            c1.znear as int,
            c1.zfar as int,
        ) == view_proj_spec(
            c2.pose(),
            c2.aspect as int,
            c2.fovy as int,
            c2.znear as int,
            c2.zfar as int,
        ),
{
}

/// The GPU-visible snapshot of the camera: its world position and the
/// combined view-projection matrix, both in fixed point.
#[derive(Debug, Clone, Copy, PartialEq, Eq, Structural)]
pub struct CameraUniform {
    pub view_pos: Vec3Fx,
    pub view_proj: Mat4,
}

impl CameraUniform {
    /// A fresh snapshot: origin position and the identity matrix.
    pub fn new() -> (r: CameraUniform)
        ensures
            r.view_pos@ == (Vec3V { x: 0, y: 0, z: 0 }),
            r.view_proj@ == crate::mat::mat4_identity(),
    {
        CameraUniform { view_pos: Vec3Fx { x: 0, y: 0, z: 0 }, view_proj: mat4_ident() }
    }

    /// Refresh the snapshot from the camera: the position is copied and the
    /// view-projection recomputed from the current pose.
    pub fn update_view_proj(&mut self, camera: &Camera)
        requires
            camera.wf(),
        ensures
            final(self).view_pos == camera.position,
            final(self).view_proj@ == view_proj_spec(
                camera.pose(),
                camera.aspect as int,
                camera.fovy as int,
                camera.znear as int,
                camera.zfar as int,
            ),
    {
        self.view_pos = camera.position;
        self.view_proj = camera.build_view_projection_matrix();
    }
}

} // verus!
