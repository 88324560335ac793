use gamezap::angle::{cos_fx, norm_angle, sin_fx};
use gamezap::fixed::{div_fx, div_nn, isqrt};
use gamezap::mat::{mat3_ident, mat3_mul, perspective};

#[test]
fn sine_is_exact_at_quarter_turns() {
    assert_eq!(sin_fx(0), 0);
    assert_eq!(sin_fx(900), 1000);
    assert_eq!(sin_fx(1800), 0);
    assert_eq!(sin_fx(2700), -1000);
    assert_eq!(cos_fx(0), 1000);
    assert_eq!(cos_fx(900), 0);
    assert_eq!(cos_fx(1800), -1000);
    assert_eq!(cos_fx(2700), 0);
}

#[test]
fn sine_is_exact_at_thirty_degrees() {
    // 300 deci-degrees is 30 degrees; the rational approximation gives
    // exactly one half there.
    assert_eq!(sin_fx(300), 500);
    assert_eq!(cos_fx(600), 500);
}

#[test]
fn sine_tracks_the_real_sine() {
    let mut a: i64 = 0;
    while a < 3600 {
        let approx = sin_fx(a) as f64 / 1000.0;
        let exact = (a as f64 * std::f64::consts::PI / 1800.0).sin();
        assert!((approx - exact).abs() < 0.003, "angle {a}: {approx} vs {exact}");
        a += 37;
    }
}

#[test]
fn angles_normalize_into_one_turn() {
    assert_eq!(norm_angle(0), 0);
    assert_eq!(norm_angle(3600), 0);
    assert_eq!(norm_angle(3700), 100);
    assert_eq!(norm_angle(-100), 3500);
    assert_eq!(norm_angle(-3600), 0);
    assert_eq!(norm_angle(-7300), 3500);
}

#[test]
fn division_rounds_toward_zero() {
    assert_eq!(div_fx(1500, 1000), 1);
    assert_eq!(div_fx(-1500, 1000), -1);
    assert_eq!(div_fx(999, 1000), 0);
    assert_eq!(div_fx(-999, 1000), 0);
    assert_eq!(div_nn(7, 2), 3);
}

#[test]
fn integer_square_roots() {
    assert_eq!(isqrt(0), 0);
    assert_eq!(isqrt(1), 1);
    assert_eq!(isqrt(8), 2);
    assert_eq!(isqrt(9), 3);
    assert_eq!(isqrt(12_000_000), 3464);
    assert_eq!(isqrt(3_000_000_000_000_000_000), 1_732_050_807);
}

#[test]
fn identity_matrices_multiply_to_identity() {
    let i = mat3_ident();
    let p = mat3_mul(&i, &i);
    assert_eq!(p, i);
}

#[test]
fn perspective_matrix_entries() {
    // aspect 1.333, field of view 45 degrees, near 0.1, far 100.
    let m = perspective(1333, 450, 100, 100_000);
    // f = SCALE / tan(22.5 degrees), in milliunits.
    assert_eq!(m.m11, 2415);
    assert_eq!(m.m00, 1811);
    assert_eq!(m.m22, -1002);
    assert_eq!(m.m23, -200);
    assert_eq!(m.m32, -1000);
    assert_eq!(m.m33, 0);
    assert_eq!(m.m01, 0);
    assert_eq!(m.m30, 0);
    // The milliunit entries track the real perspective matrix.
    let f = 1.0 / (22.5f64.to_radians().tan());
    assert!((m.m11 as f64 / 1000.0 - f).abs() < 0.01);
    assert!((m.m00 as f64 / 1000.0 - f / 1.333).abs() < 0.01);
}
