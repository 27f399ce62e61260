use magcal::derive::{ellipsoid_to_calibration, SqrtMatrix};
use magcal::fit::{assemble_coefficients, constraint_inverse_times4, constraint_matrix,
    design_column, ellipsoid_fit, EllipsoidCoefficients};
use magcal::num::{div_trunc, isqrt};
use magcal::samples::{Sample, SampleSet, MAX_COORD};
use magcal::transform::{calibrated_sample, CalibrationTransform, FX_ONE};
use magcal::FitError;

fn sample(x: i64, y: i64, z: i64) -> Sample {
    Sample { x, y, z }
}

#[test]
fn design_column_monomials_in_order() {
    let s = sample(1, 2, 3);
    let col = design_column(&s);
    assert_eq!(col, vec![1, 4, 9, 12, 6, 4, 2, 4, 6, 1]);
}

#[test]
fn design_column_negative_components() {
    let s = sample(-2, 5, -7);
    let col = design_column(&s);
    assert_eq!(col, vec![4, 25, 49, -70, 28, -20, -4, 10, -14, 1]);
}

#[test]
fn sample_set_rejects_out_of_range() {
    let mut set = SampleSet::new();
    assert!(set.push(sample(MAX_COORD, -MAX_COORD, 0)));
    assert!(!set.push(sample(MAX_COORD + 1, 0, 0)));
    assert!(!set.push(sample(0, 0, -MAX_COORD - 1)));
    assert_eq!(set.len(), 1);
}

#[test]
fn freeze_keeps_samples() {
    let mut set = SampleSet::new();
    for i in 0..10 {
        let v: i64 = i;
        assert!(set.push(sample(v, v + 1, v + 2)));
    }
    let frozen = set.freeze();
    assert_eq!(frozen.len(), 10);
    assert_eq!(frozen.sample_at(3), sample(3, 4, 5));
}

#[test]
fn fit_needs_nine_samples() {
    let mut set = SampleSet::new();
    for i in 0..8 {
        let v: i64 = i * 17 + 1;
        assert!(set.push(sample(v, -v, v * 2)));
    }
    let frozen = set.freeze();
    let r = ellipsoid_fit(&frozen);
    assert_eq!(r.err(), Some(FitError::InsufficientSamples));
}

#[test]
fn fit_scatter_of_constant_samples() {
    let mut set = SampleSet::new();
    for _ in 0..9 {
        assert!(set.push(sample(1, 1, 1)));
    }
    let blocks = ellipsoid_fit(&set.freeze()).unwrap();
    // the monomial vector of (1,1,1) is (1,1,1,2,2,2,2,2,2,1)
    assert_eq!(blocks.s11[0][0], 9);
    assert_eq!(blocks.s11[3][3], 36);
    assert_eq!(blocks.s11[0][3], 18);
    assert_eq!(blocks.s12[0][3], 9);
    assert_eq!(blocks.s12[5][0], 36);
    assert_eq!(blocks.s22[0][0], 36);
    assert_eq!(blocks.s22[3][3], 9);
    assert_eq!(blocks.s22[2][3], 18);
}

#[test]
fn constraint_matrix_values() {
    let c = constraint_matrix();
    let expected: Vec<Vec<i64>> = vec![
        vec![-1, 1, 1, 0, 0, 0],
        vec![1, -1, 1, 0, 0, 0],
        vec![1, 1, -1, 0, 0, 0],
        vec![0, 0, 0, -4, 0, 0],
        vec![0, 0, 0, 0, -4, 0],
        vec![0, 0, 0, 0, 0, -4],
    ];
    assert_eq!(c, expected);
}

#[test]
fn constraint_inverse_is_inverse() {
    let c = constraint_matrix();
    let ci = constraint_inverse_times4();
    for i in 0..6 {
        for j in 0..6 {
            let mut acc: i64 = 0;
            for k in 0..6 {
                acc += c[i][k] * ci[k][j];
            }
            let expected: i64 = if i == j { 4 } else { 0 };
            assert_eq!(acc, expected);
        }
    }
}

#[test]
fn assemble_places_coefficients() {
    let v1: [i128; 6] = [3, 4, 5, 6, 7, 8];
    let v2: [i128; 4] = [10, 11, 12, -13];
    let c = assemble_coefficients(&v1, &v2);
    assert_eq!(c.m00, 3);
    assert_eq!(c.m11, 4);
    assert_eq!(c.m22, 5);
    assert_eq!(c.m12, 6);
    assert_eq!(c.m02, 7);
    assert_eq!(c.m01, 8);
    assert_eq!(c.n0, 10);
    assert_eq!(c.n1, 11);
    assert_eq!(c.n2, 12);
    assert_eq!(c.d, -13);
}

#[test]
fn assemble_canonicalizes_sign() {
    let v1: [i128; 6] = [-3, 4, -5, 6, -7, 8];
    let v2: [i128; 4] = [10, -11, 12, -13];
    let flipped = assemble_coefficients(&v1, &v2);
    let w1: [i128; 6] = [3, -4, 5, -6, 7, -8];
    let w2: [i128; 4] = [-10, 11, -12, 13];
    let canonical = assemble_coefficients(&w1, &w2);
    assert_eq!(flipped, canonical);
    assert_eq!(flipped.m00, 3);
    assert_eq!(flipped.d, 13);
}

#[test]
fn isqrt_exact_values() {
    assert_eq!(isqrt(0), 0);
    assert_eq!(isqrt(1), 1);
    assert_eq!(isqrt(15), 3);
    assert_eq!(isqrt(16), 4);
    assert_eq!(isqrt(17), 4);
    let big: u128 = 1u128 << 80;
    assert_eq!(isqrt(big), 1u128 << 40);
    assert_eq!(isqrt(big - 1), (1u128 << 40) - 1);
}

#[test]
fn div_trunc_rounds_toward_zero() {
    assert_eq!(div_trunc(7, 2), 3);
    assert_eq!(div_trunc(-7, 2), -3);
    assert_eq!(div_trunc(7, -2), -3);
    assert_eq!(div_trunc(-7, -2), 3);
    assert_eq!(div_trunc(6, 3), 2);
    assert_eq!(div_trunc(-6, 3), -2);
}

#[test]
fn identity_transform_returns_reading_unchanged() {
    let t = CalibrationTransform::identity();
    let s = sample(12345, -678, 9);
    assert_eq!(calibrated_sample(&s, &t), s);
    let s2 = sample(-MAX_COORD, MAX_COORD, 0);
    assert_eq!(calibrated_sample(&s2, &t), s2);
}

#[test]
fn calibrated_sample_subtracts_offset_and_scales() {
    // a matrix of 1/2 on the diagonal, offset (10, 20, 30)
    let half: i64 = FX_ONE / 2;
    let t = CalibrationTransform {
        a00: half,
        a01: 0,
        a02: 0,
        a10: 0,
        a11: half,
        a12: 0,
        a20: 0,
        a21: 0,
        a22: half,
        b0: 10,
        b1: 20,
        b2: 30,
    };
    let r = calibrated_sample(&sample(110, 220, -70), &t);
    assert_eq!(r, sample(50, 100, -50));
}

fn identity_sqrt() -> SqrtMatrix {
    SqrtMatrix {
        r00: 65536,
        r01: 0,
        r02: 0,
        r10: 0,
        r11: 65536,
        r12: 0,
        r20: 0,
        r21: 0,
        r22: 65536,
    }
}

#[test]
fn derivation_rejects_singular_matrix() {
    let c = EllipsoidCoefficients {
        m00: 0,
        m01: 0,
        m02: 0,
        m11: 0,
        m12: 0,
        m22: 0,
        n0: 1,
        n1: 2,
        n2: 3,
        d: -5,
    };
    let r = ellipsoid_to_calibration(&c, 1000, &identity_sqrt());
    assert_eq!(r.err(), Some(FitError::SingularMatrix));
}

#[test]
fn derivation_rejects_non_positive_scale() {
    // the unit quadratic matrix with no linear part and positive d gives
    // k = -d < 0
    let c = EllipsoidCoefficients {
        m00: 1,
        m01: 0,
        m02: 0,
        m11: 1,
        m12: 0,
        m22: 1,
        n0: 0,
        n1: 0,
        n2: 0,
        d: 5,
    };
    let r = ellipsoid_to_calibration(&c, 1000, &identity_sqrt());
    assert_eq!(r.err(), Some(FitError::NotPositiveDefinite));
    // k exactly zero is rejected too
    let c0 = EllipsoidCoefficients { d: 0, ..c };
    let r0 = ellipsoid_to_calibration(&c0, 1000, &identity_sqrt());
    assert_eq!(r0.err(), Some(FitError::NotPositiveDefinite));
}

#[test]
fn derivation_unit_sphere_coefficients() {
    // x . x - r^2 = 0 with M = I, n = 0, d = -r^2: center 0, k = r^2,
    // A^-1 = (f / r) I
    let radius: i128 = 1000;
    let c = EllipsoidCoefficients {
        m00: 1,
        m01: 0,
        m02: 0,
        m11: 1,
        m12: 0,
        m22: 1,
        n0: 0,
        n1: 0,
        n2: 0,
        d: -radius * radius,
    };
    let t = ellipsoid_to_calibration(&c, 500, &identity_sqrt()).unwrap();
    assert_eq!(t.b0, 0);
    assert_eq!(t.b1, 0);
    assert_eq!(t.b2, 0);
    // f * 65536 * r00 / sqrt(k) = 500 * 65536 * 65536 / 1000
    assert_eq!(t.a00, 500 * 65536 * 65536 / 1000);
    assert_eq!(t.a01, 0);
    assert_eq!(t.a11, t.a00);
    assert_eq!(t.a22, t.a00);
    // the corrected reading of a surface point has magnitude f
    let r = calibrated_sample(&Sample { x: 1000, y: 0, z: 0 }, &t);
    assert_eq!(r, Sample { x: 500, y: 0, z: 0 });
}
