use gamezap::light::LightUniform;
use gamezap::vec3::Vec3Fx;

fn start_light() -> LightUniform {
    LightUniform::new(Vec3Fx::new(2000, 2000, 2000), Vec3Fx::new(1000, 1000, 1000))
}

#[test]
fn advance_only_moves_the_phase() {
    let mut l = start_light();
    l.advance(57);
    assert_eq!(l.phase, 57);
    assert_eq!(l.base, Vec3Fx::new(2000, 2000, 2000));
    assert_eq!(l.color, Vec3Fx::new(1000, 1000, 1000));
    l.advance(-100);
    assert_eq!(l.phase, 3557);
    l.advance(43);
    assert_eq!(l.phase, 0);
}

#[test]
fn axis_distance_is_invariant_under_advance() {
    let mut l = start_light();
    let radius_sq_before = l.base.x * l.base.x + l.base.z * l.base.z;
    for step in [1i64, 57, 60, 900, 3599, -57] {
        l.advance(step);
        let radius_sq_after = l.base.x * l.base.x + l.base.z * l.base.z;
        assert_eq!(radius_sq_after, radius_sq_before);
    }
}

#[test]
fn orbiting_position_keeps_its_magnitude_within_epsilon() {
    let mut l = start_light();
    let start = l.position();
    let mag = |v: &Vec3Fx| {
        let x = v.x as f64 / 1000.0;
        let y = v.y as f64 / 1000.0;
        let z = v.z as f64 / 1000.0;
        (x * x + y * y + z * z).sqrt()
    };
    let m0 = mag(&start);
    for _ in 0..100 {
        l.advance(57);
        let m = mag(&l.position());
        assert!((m - m0).abs() < 0.05, "magnitude drifted: {m} vs {m0}");
    }
}

#[test]
fn a_full_orbit_returns_the_light_exactly() {
    // 360 steps of one degree accumulate to one full turn.
    let mut l = start_light();
    let before = l;
    let position_before = l.position();
    for _ in 0..360 {
        l.advance(10);
    }
    assert_eq!(l, before);
    assert_eq!(l.position(), position_before);
    assert_eq!(l.position(), Vec3Fx::new(2000, 2000, 2000));
}

#[test]
fn position_rotates_about_the_vertical_axis() {
    let mut l = LightUniform::new(Vec3Fx::new(2000, 500, 0), Vec3Fx::new(1000, 1000, 1000));
    assert_eq!(l.position(), Vec3Fx::new(2000, 500, 0));
    l.advance(900);
    // A quarter turn takes (2, 0.5, 0) to (0, 0.5, -2) exactly.
    assert_eq!(l.position(), Vec3Fx::new(0, 500, -2000));
    l.advance(900);
    assert_eq!(l.position(), Vec3Fx::new(-2000, 500, 0));
}
