use gamezap::instance::{make_instances, Instance, Quat};
use gamezap::vec3::Vec3Fx;

#[test]
fn a_ten_by_ten_grid_has_a_hundred_instances() {
    let grid = make_instances(10, 3000);
    assert_eq!(grid.len(), 100);
    // The corner cell of the centered layout sits at (-13.5, 0, -13.5).
    assert_eq!(grid[0].position, Vec3Fx::new(-13_500, 0, -13_500));
    let x = grid[0].position.x as f32 / 1000.0;
    let z = grid[0].position.z as f32 / 1000.0;
    assert!((x - (-13.5f32)).abs() < 1e-6);
    assert!((z - (-13.5f32)).abs() < 1e-6);
    // The far corner mirrors it.
    assert_eq!(grid[99].position, Vec3Fx::new(13_500, 0, 13_500));
}

#[test]
fn the_innermost_cells_ring_the_origin_symmetrically() {
    let grid = make_instances(10, 3000);
    // Cells (4,4), (5,4), (4,5), (5,5) of the even grid surround the origin.
    let at = |x: usize, z: usize| grid[z * 10 + x].position;
    assert_eq!(at(4, 4), Vec3Fx::new(-1500, 0, -1500));
    assert_eq!(at(5, 4), Vec3Fx::new(1500, 0, -1500));
    assert_eq!(at(4, 5), Vec3Fx::new(-1500, 0, 1500));
    assert_eq!(at(5, 5), Vec3Fx::new(1500, 0, 1500));
}

#[test]
fn grid_generation_is_deterministic() {
    let first = make_instances(10, 3000);
    let second = make_instances(10, 3000);
    assert_eq!(first, second);
    let small1 = make_instances(3, 500);
    let small2 = make_instances(3, 500);
    assert_eq!(small1, small2);
}

#[test]
fn the_origin_cell_gets_the_identity_rotation() {
    // An odd grid has a center cell exactly at the origin.
    let grid = make_instances(3, 3000);
    let center = grid[4];
    assert_eq!(center.position, Vec3Fx::new(0, 0, 0));
    assert_eq!(center.rotation, Quat { x: 0, y: 0, z: 0, w: 1000 });
    // Every other cell is tilted: its orientation is not the identity.
    for (i, inst) in grid.iter().enumerate() {
        if i != 4 {
            assert!(inst.rotation != Quat { x: 0, y: 0, z: 0, w: 1000 });
        }
    }
}

#[test]
fn off_origin_rotations_are_nearly_unit_quaternions() {
    let grid = make_instances(10, 3000);
    for inst in grid.iter() {
        let q = inst.rotation;
        let n = (q.x as f64 / 1000.0).powi(2) + (q.y as f64 / 1000.0).powi(2) + (q.z as f64
            / 1000.0).powi(2) + (q.w as f64 / 1000.0).powi(2);
        assert!((n - 1.0).abs() < 0.02, "norm {n}");
    }
}

#[test]
fn flattening_the_identity_instance_is_the_identity_transform() {
    let inst = Instance {
        position: Vec3Fx::new(1500, -2500, 4000),
        rotation: Quat { x: 0, y: 0, z: 0, w: 1000 },
    };
    let raw = inst.to_raw();
    // The normal matrix is the scaled identity.
    assert_eq!(raw.normal, gamezap::mat::mat3_ident());
    // The model matrix carries the position in its translation column.
    assert_eq!(raw.model.m03, 1500);
    assert_eq!(raw.model.m13, -2500);
    assert_eq!(raw.model.m23, 4000);
    assert_eq!(raw.model.m00, 1000);
    assert_eq!(raw.model.m11, 1000);
    assert_eq!(raw.model.m22, 1000);
    assert_eq!(raw.model.m33, 1000);
    assert_eq!(raw.model.m30, 0);
    assert_eq!(raw.model.m01, 0);
}

#[test]
fn flattening_is_a_pure_map() {
    let grid = make_instances(4, 2000);
    for inst in grid.iter() {
        assert_eq!(inst.to_raw(), inst.to_raw());
        // The model's rotation block always matches the normal matrix.
        let raw = inst.to_raw();
        assert_eq!(raw.model.m00, raw.normal.m00);
        assert_eq!(raw.model.m12, raw.normal.m12);
        assert_eq!(raw.model.m21, raw.normal.m21);
        assert_eq!(raw.model.m03, inst.position.x);
        assert_eq!(raw.model.m13, inst.position.y);
        assert_eq!(raw.model.m23, inst.position.z);
    }
}
