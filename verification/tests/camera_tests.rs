use gamezap::camera::{Camera, CameraUniform, Key};
use gamezap::mat::Mat3;
use gamezap::vec3::Vec3Fx;

fn start_camera() -> Camera {
    Camera::new(Vec3Fx::new(0, 0, -2000), 0, 0, 1333, 450, 100, 100_000, 100, 10)
}

fn column_norms(m: &Mat3) -> [f64; 3] {
    let e = |v: i64| v as f64 / 1000.0;
    [
        (e(m.m00).powi(2) + e(m.m10).powi(2) + e(m.m20).powi(2)).sqrt(),
        (e(m.m01).powi(2) + e(m.m11).powi(2) + e(m.m21).powi(2)).sqrt(),
        (e(m.m02).powi(2) + e(m.m12).powi(2) + e(m.m22).powi(2)).sqrt(),
    ]
}

#[test]
fn view_projection_is_deterministic() {
    let mut c = start_camera();
    c.transform_camera(&vec![Key::Forward, Key::Left], 37, -12, true);
    let first = c.build_view_projection_matrix();
    let second = c.build_view_projection_matrix();
    assert_eq!(first, second);
}

#[test]
fn movement_keys_leave_the_rotation_alone() {
    let mut c = start_camera();
    c.transform_camera(&vec![Key::Left], -250, 40, true);
    let rotation_before = c.rotation_matrix;
    let frames = [
        vec![Key::Forward],
        vec![Key::Forward, Key::Left],
        vec![Key::Up, Key::Down, Key::Backward],
        vec![],
        vec![Key::Right],
    ];
    for keys in frames.iter() {
        c.transform_camera(keys, 0, 0, true);
    }
    assert_eq!(c.rotation_matrix, rotation_before);
}

#[test]
fn rotation_is_orthonormal_exactly_at_quarter_turns() {
    for yaw in [0i64, 900, 1800, 2700] {
        for pitch in [0i64, 900, 1800, 2700] {
            let c = Camera::new(
                Vec3Fx::new(0, 0, 0),
                yaw,
                pitch,
                1000,
                450,
                100,
                100_000,
                100,
                10,
            );
            let m = c.rotation_matrix;
            let dot = |a: (i64, i64, i64), b: (i64, i64, i64)| a.0 * b.0 + a.1 * b.1 + a.2 * b.2;
            let c0 = (m.m00, m.m10, m.m20);
            let c1 = (m.m01, m.m11, m.m21);
            let c2 = (m.m02, m.m12, m.m22);
            assert_eq!(dot(c0, c0), 1_000_000);
            assert_eq!(dot(c1, c1), 1_000_000);
            assert_eq!(dot(c2, c2), 1_000_000);
            assert_eq!(dot(c0, c1), 0);
            assert_eq!(dot(c0, c2), 0);
            assert_eq!(dot(c1, c2), 0);
        }
    }
}

#[test]
fn rotation_is_orthonormal_within_tolerance_everywhere() {
    for yaw in [137i64, 300, 777, 1234, 2001, 3300] {
        for pitch in [89i64, 450, 950, 1800, 2650] {
            let c = Camera::new(
                Vec3Fx::new(0, 0, 0),
                yaw,
                pitch,
                1000,
                450,
                100,
                100_000,
                100,
                10,
            );
            let norms = column_norms(&c.rotation_matrix);
            for n in norms {
                assert!((n - 1.0).abs() < 0.01, "yaw {yaw} pitch {pitch}: column norm {n}");
            }
        }
    }
}

#[test]
fn holding_forward_moves_one_step_toward_positive_z() {
    // Starting at (0, 0, -2) with the identity rotation, one forward step of
    // 0.1 lands on (0, 0, -1.9).
    let mut c = start_camera();
    c.transform_camera(&vec![Key::Forward], 0, 0, true);
    assert_eq!(c.position, Vec3Fx::new(0, 0, -1900));
    let z = c.position.z as f32 / 1000.0;
    assert!((z - (-1.9f32)).abs() < 1e-6);
    assert_eq!(c.position.x, 0);
    assert_eq!(c.position.y, 0);
}

#[test]
fn mouse_delta_scales_by_sensitivity() {
    let mut c = start_camera();
    c.transform_camera(&vec![], 25, -4, true);
    // 25 counts at 10 deci-degrees per count.
    assert_eq!(c.yaw, 250);
    // -40 deci-degrees, normalized into one turn.
    assert_eq!(c.pitch, 3560);
}

#[test]
fn mouse_is_ignored_without_relative_mouse_look() {
    let mut c = start_camera();
    let rotation_before = c.rotation_matrix;
    c.transform_camera(&vec![Key::Forward], 500, 500, false);
    assert_eq!(c.yaw, 0);
    assert_eq!(c.pitch, 0);
    assert_eq!(c.rotation_matrix, rotation_before);
    assert_eq!(c.position, Vec3Fx::new(0, 0, -1900));
}

#[test]
fn strafing_moves_along_the_rotated_right_axis() {
    let mut c = start_camera();
    c.transform_camera(&vec![Key::Right], 0, 0, true);
    assert_eq!(c.position, Vec3Fx::new(100, 0, -2000));
    c.transform_camera(&vec![Key::Left], 0, 0, true);
    c.transform_camera(&vec![Key::Up], 0, 0, true);
    assert_eq!(c.position, Vec3Fx::new(0, 100, -2000));
    c.transform_camera(&vec![Key::Down, Key::Backward], 0, 0, true);
    assert_eq!(c.position, Vec3Fx::new(0, 0, -2100));
}

#[test]
fn camera_uniform_snapshots_the_camera() {
    let mut c = start_camera();
    let mut u = CameraUniform::new();
    assert_eq!(u.view_proj, gamezap::mat::mat4_ident());
    u.update_view_proj(&c);
    assert_eq!(u.view_pos, c.position);
    assert_eq!(u.view_proj, c.build_view_projection_matrix());
    c.transform_camera(&vec![Key::Forward], 11, 7, true);
    u.update_view_proj(&c);
    assert_eq!(u.view_pos, c.position);
    assert_eq!(u.view_proj, c.build_view_projection_matrix());
}
