//! Derivation of the affine correction from fitted ellipsoid coefficients:
//! the ellipsoid center b = -M^-1 n, the scale k = n . (M^-1 n) - d, and
//! A^-1 = (F / sqrt(k)) sqrt(M). The inverse of M is exact through its
//! adjugate; the scalar root is an exact integer floor root. Only the
//! principal square root of M itself is irrational: the caller computes it
//! (an eigen decomposition) and hands it in, and everything done with it
//! here is exact.

use vstd::prelude::*;

use crate::fit::{EllipsoidCoefficients, COEF_D_MAX, COEF_M_MAX, COEF_N_MAX};
use crate::num::{div_trunc, iabs, isqrt, lemma_mul_abs_bound, lemma_tdiv_abs_bound, tdiv};
use crate::transform::{CalibrationTransform, CAL_A_MAX, CAL_B_MAX};
use crate::FitError;

verus! {

/// Fixed-point unit of the square-root matrix handed to the derivation:
/// its entries count 1/SQRT_UNIT.
pub const SQRT_UNIT: i64 = 65536;

/// Magnitude bound on the square-root matrix entries.
pub const SQRT_ENTRY_MAX: i64 = 4294967296;

/// Magnitude bound on the target field magnitude, in sensor units.
pub const FIELD_MAX: i64 = 4294967296;

/// The principal square root of the fitted quadratic matrix M, in
/// 1/SQRT_UNIT units, as the caller's symmetric eigen decomposition
/// produced it.
#[derive(Clone, Copy, PartialEq, Eq, Structural, Debug)]
pub struct SqrtMatrix {
    pub r00: i64,
    pub r01: i64,
    pub r02: i64,
    pub r10: i64,
    pub r11: i64,
    pub r12: i64,
    pub r20: i64,
    pub r21: i64,
    pub r22: i64,
}

impl SqrtMatrix {
    pub open spec fn wf(&self) -> bool {
        &&& -SQRT_ENTRY_MAX <= self.r00 <= SQRT_ENTRY_MAX
        &&& -SQRT_ENTRY_MAX <= self.r01 <= SQRT_ENTRY_MAX
        &&& -SQRT_ENTRY_MAX <= self.r02 <= SQRT_ENTRY_MAX
        &&& -SQRT_ENTRY_MAX <= self.r10 <= SQRT_ENTRY_MAX
        &&& -SQRT_ENTRY_MAX <= self.r11 <= SQRT_ENTRY_MAX
        &&& -SQRT_ENTRY_MAX <= self.r12 <= SQRT_ENTRY_MAX
        &&& -SQRT_ENTRY_MAX <= self.r20 <= SQRT_ENTRY_MAX
        &&& -SQRT_ENTRY_MAX <= self.r21 <= SQRT_ENTRY_MAX
        &&& -SQRT_ENTRY_MAX <= self.r22 <= SQRT_ENTRY_MAX
    }
}

/// Adjugate of the symmetric matrix M, entry (0,0).
pub open spec fn adj00(c: EllipsoidCoefficients) -> int {
    c.m11 * c.m22 - c.m12 * c.m12
}

pub open spec fn adj01(c: EllipsoidCoefficients) -> int {
    c.m02 * c.m12 - c.m01 * c.m22
}

pub open spec fn adj02(c: EllipsoidCoefficients) -> int {
    c.m01 * c.m12 - c.m11 * c.m02
}

pub open spec fn adj11(c: EllipsoidCoefficients) -> int {
    c.m00 * c.m22 - c.m02 * c.m02
}

pub open spec fn adj12(c: EllipsoidCoefficients) -> int {
    c.m01 * c.m02 - c.m00 * c.m12
}

pub open spec fn adj22(c: EllipsoidCoefficients) -> int {
    c.m00 * c.m11 - c.m01 * c.m01
}

/// Determinant of M, by Laplace expansion along the first row.
pub open spec fn det3(c: EllipsoidCoefficients) -> int {
    c.m00 * adj00(c) + c.m01 * adj01(c) + c.m02 * adj02(c)
}

/// Component i of adj(M) * n.
pub open spec fn adjn0(c: EllipsoidCoefficients) -> int {
    adj00(c) * c.n0 + adj01(c) * c.n1 + adj02(c) * c.n2
}

pub open spec fn adjn1(c: EllipsoidCoefficients) -> int {
    adj01(c) * c.n0 + adj11(c) * c.n1 + adj12(c) * c.n2
}

pub open spec fn adjn2(c: EllipsoidCoefficients) -> int {
    adj02(c) * c.n0 + adj12(c) * c.n1 + adj22(c) * c.n2
}

/// Numerator of the ellipsoid center b = -M^-1 n = -adj(M) n / det(M).
pub open spec fn center_num0(c: EllipsoidCoefficients) -> int {
    -adjn0(c)
}

pub open spec fn center_num1(c: EllipsoidCoefficients) -> int {
    -adjn1(c)
}

pub open spec fn center_num2(c: EllipsoidCoefficients) -> int {
    -adjn2(c)
}

/// Numerator of the scale k = n . (M^-1 n) - d over the denominator det(M).
pub open spec fn knum(c: EllipsoidCoefficients) -> int {
    c.n0 * adjn0(c) + c.n1 * adjn1(c) + c.n2 * adjn2(c) - c.d * det3(c)
}

/// The scale k as an integer quotient, truncated toward zero.
pub open spec fn scale_q(c: EllipsoidCoefficients) -> int {
    tdiv(knum(c), det3(c))
}

/// s is the floor of the square root of x.
pub open spec fn is_sqrt_floor(s: int, x: int) -> bool {
    &&& 0 <= s
    &&& s * s <= x
    &&& x < (s + 1) * (s + 1)
}

/// The transform the derivation produces, given the floor root s of the
/// scale: A^-1 entries are F * sqrt(M) / sqrt(k), carried from 1/SQRT_UNIT
/// into 1/FX_ONE units, and b is the exact integer center.
pub open spec fn derived_transform(
    c: EllipsoidCoefficients,
    f: int,
    r: SqrtMatrix,
    s: int,
) -> CalibrationTransform {
    CalibrationTransform {
        a00: tdiv(f * SQRT_UNIT * r.r00, s) as i64,
        a01: tdiv(f * SQRT_UNIT * r.r01, s) as i64,
        a02: tdiv(f * SQRT_UNIT * r.r02, s) as i64,
        a10: tdiv(f * SQRT_UNIT * r.r10, s) as i64,
        a11: tdiv(f * SQRT_UNIT * r.r11, s) as i64,
        a12: tdiv(f * SQRT_UNIT * r.r12, s) as i64,
        a20: tdiv(f * SQRT_UNIT * r.r20, s) as i64,
        a21: tdiv(f * SQRT_UNIT * r.r21, s) as i64,
        a22: tdiv(f * SQRT_UNIT * r.r22, s) as i64,
        b0: tdiv(center_num0(c), det3(c)) as i64,
        b1: tdiv(center_num1(c), det3(c)) as i64,
        b2: tdiv(center_num2(c), det3(c)) as i64,
    }
}

/// Whether the derived values stay inside the transform's representable
/// range. A geometry degenerate enough to push them out is reported as
/// `SingularMatrix` rather than silently clipped.
pub open spec fn derived_fits(c: EllipsoidCoefficients, f: int, r: SqrtMatrix, s: int) -> bool {
    &&& iabs(tdiv(f * SQRT_UNIT * r.r00, s)) <= CAL_A_MAX
    &&& iabs(tdiv(f * SQRT_UNIT * r.r01, s)) <= CAL_A_MAX
    &&& iabs(tdiv(f * SQRT_UNIT * r.r02, s)) <= CAL_A_MAX
    &&& iabs(tdiv(f * SQRT_UNIT * r.r10, s)) <= CAL_A_MAX
    &&& iabs(tdiv(f * SQRT_UNIT * r.r11, s)) <= CAL_A_MAX
    &&& iabs(tdiv(f * SQRT_UNIT * r.r12, s)) <= CAL_A_MAX
    &&& iabs(tdiv(f * SQRT_UNIT * r.r20, s)) <= CAL_A_MAX
    &&& iabs(tdiv(f * SQRT_UNIT * r.r21, s)) <= CAL_A_MAX
    &&& iabs(tdiv(f * SQRT_UNIT * r.r22, s)) <= CAL_A_MAX
    &&& iabs(tdiv(center_num0(c), det3(c))) <= CAL_B_MAX
    &&& iabs(tdiv(center_num1(c), det3(c))) <= CAL_B_MAX
    &&& iabs(tdiv(center_num2(c), det3(c))) <= CAL_B_MAX
}


/// Distributing one matrix entry over a matrix-vector product component.
/// Derives the affine correction from the fitted coefficients, the target
/// field magnitude f (in sensor units) and the caller-computed principal
/// square root of M. Fails with `SingularMatrix` when M is not invertible
/// (or the correction falls outside the representable range), and with
/// `NotPositiveDefinite` when the scale k is not positive.
pub fn ellipsoid_to_calibration(c: &EllipsoidCoefficients, f: i64, r: &SqrtMatrix) -> (res: Result<
    CalibrationTransform,
    FitError,
>)
    requires
        c.wf(),
        r.wf(),
        0 < f <= FIELD_MAX,
    ensures
        match res {
            Ok(t) => {
                &&& det3(*c) != 0
                &&& scale_q(*c) > 0
                &&& exists|s: int|
                    #[trigger] is_sqrt_floor(s, scale_q(*c)) && derived_fits(*c, f as int, *r, s)
                        && t == derived_transform(*c, f as int, *r, s)
                &&& t.wf()
            },
            Err(e) => {
                &&& (e == FitError::SingularMatrix <==> det3(*c) == 0 || (scale_q(*c) > 0
                    && exists|s: int|
                    #[trigger] is_sqrt_floor(s, scale_q(*c)) && !derived_fits(*c, f as int, *r, s)))
                &&& (e == FitError::NotPositiveDefinite <==> det3(*c) != 0 && scale_q(*c) <= 0)
                &&& e != FitError::InsufficientSamples
            },
        },
{
    proof {
        let mm = COEF_M_MAX as int;
        lemma_mul_abs_bound(c.m11 as int, c.m22 as int, mm, mm);
        lemma_mul_abs_bound(c.m12 as int, c.m12 as int, mm, mm);
        lemma_mul_abs_bound(c.m02 as int, c.m12 as int, mm, mm);
        lemma_mul_abs_bound(c.m01 as int, c.m22 as int, mm, mm);
        lemma_mul_abs_bound(c.m01 as int, c.m12 as int, mm, mm);
        lemma_mul_abs_bound(c.m11 as int, c.m02 as int, mm, mm);
        lemma_mul_abs_bound(c.m00 as int, c.m22 as int, mm, mm);
        lemma_mul_abs_bound(c.m02 as int, c.m02 as int, mm, mm);
        lemma_mul_abs_bound(c.m01 as int, c.m02 as int, mm, mm);
        lemma_mul_abs_bound(c.m00 as int, c.m12 as int, mm, mm);
        lemma_mul_abs_bound(c.m00 as int, c.m11 as int, mm, mm);
        lemma_mul_abs_bound(c.m01 as int, c.m01 as int, mm, mm);
    }
    let aj00: i128 = (c.m11 as i128) * (c.m22 as i128) - (c.m12 as i128) * (c.m12 as i128);
    let aj01: i128 = (c.m02 as i128) * (c.m12 as i128) - (c.m01 as i128) * (c.m22 as i128);
    let aj02: i128 = (c.m01 as i128) * (c.m12 as i128) - (c.m11 as i128) * (c.m02 as i128);
    let aj11: i128 = (c.m00 as i128) * (c.m22 as i128) - (c.m02 as i128) * (c.m02 as i128);
    let aj12: i128 = (c.m01 as i128) * (c.m02 as i128) - (c.m00 as i128) * (c.m12 as i128);
    let aj22: i128 = (c.m00 as i128) * (c.m11 as i128) - (c.m01 as i128) * (c.m01 as i128);
    proof {
        let am = 137438953472int;
        lemma_mul_abs_bound(c.m00 as int, aj00 as int, COEF_M_MAX as int, am);
        lemma_mul_abs_bound(c.m01 as int, aj01 as int, COEF_M_MAX as int, am);
        lemma_mul_abs_bound(c.m02 as int, aj02 as int, COEF_M_MAX as int, am);
        lemma_mul_abs_bound(aj00 as int, c.n0 as int, am, COEF_N_MAX as int);
        lemma_mul_abs_bound(aj01 as int, c.n1 as int, am, COEF_N_MAX as int);
        lemma_mul_abs_bound(aj02 as int, c.n2 as int, am, COEF_N_MAX as int);
        lemma_mul_abs_bound(aj01 as int, c.n0 as int, am, COEF_N_MAX as int);
        lemma_mul_abs_bound(aj11 as int, c.n1 as int, am, COEF_N_MAX as int);
        lemma_mul_abs_bound(aj12 as int, c.n2 as int, am, COEF_N_MAX as int);
        lemma_mul_abs_bound(aj02 as int, c.n0 as int, am, COEF_N_MAX as int);
        lemma_mul_abs_bound(aj12 as int, c.n1 as int, am, COEF_N_MAX as int);
        lemma_mul_abs_bound(aj22 as int, c.n2 as int, am, COEF_N_MAX as int);
    }
    let det: i128 = (c.m00 as i128) * aj00 + (c.m01 as i128) * aj01 + (c.m02 as i128) * aj02;
    let an0: i128 = aj00 * (c.n0 as i128) + aj01 * (c.n1 as i128) + aj02 * (c.n2 as i128);
    let an1: i128 = aj01 * (c.n0 as i128) + aj11 * (c.n1 as i128) + aj12 * (c.n2 as i128);
    let an2: i128 = aj02 * (c.n0 as i128) + aj12 * (c.n1 as i128) + aj22 * (c.n2 as i128);
    proof {
        let anm = 453347182355485940514816int;
        let dm = 108086391056891904int;
        lemma_mul_abs_bound(c.n0 as int, an0 as int, COEF_N_MAX as int, anm);
        lemma_mul_abs_bound(c.n1 as int, an1 as int, COEF_N_MAX as int, anm);
        lemma_mul_abs_bound(c.n2 as int, an2 as int, COEF_N_MAX as int, anm);
        lemma_mul_abs_bound(c.d as int, det as int, COEF_D_MAX as int, dm);
    }
    let kn: i128 = (c.n0 as i128) * an0 + (c.n1 as i128) * an1 + (c.n2 as i128) * an2 - c.d * det;
    proof {
        assert(aj00 as int == adj00(*c));
        assert(aj01 as int == adj01(*c));
        assert(aj02 as int == adj02(*c));
        assert(aj11 as int == adj11(*c));
        assert(aj12 as int == adj12(*c));
        assert(aj22 as int == adj22(*c));
        assert(det as int == det3(*c));
        assert(an0 as int == adjn0(*c));
        assert(an1 as int == adjn1(*c));
        assert(an2 as int == adjn2(*c));
        assert(kn as int == knum(*c));
    }
    if det == 0 {
        return Err(FitError::SingularMatrix);
    }
    proof {
        lemma_tdiv_abs_bound(kn as int, det as int);
    }
    let kq: i128 = div_trunc(kn, det);
    if kq <= 0 {
        return Err(FitError::NotPositiveDefinite);
    }
    let s: u128 = isqrt(kq as u128);
    proof {
        assert(kq as int == scale_q(*c));
        assert(is_sqrt_floor(s as int, scale_q(*c)));
        if s == 0 {
            assert(((s as int) + 1) * ((s as int) + 1) == 1) by (nonlinear_arith)
                requires
                    s == 0u128,
            ;
            assert(scale_q(*c) < 1);
            assert(false);
        }
        let fm = 281474976710656int;
        lemma_mul_abs_bound(f as int * (SQRT_UNIT as int), r.r00 as int, fm, SQRT_ENTRY_MAX as int);
        lemma_mul_abs_bound(f as int * (SQRT_UNIT as int), r.r01 as int, fm, SQRT_ENTRY_MAX as int);
        lemma_mul_abs_bound(f as int * (SQRT_UNIT as int), r.r02 as int, fm, SQRT_ENTRY_MAX as int);
        lemma_mul_abs_bound(f as int * (SQRT_UNIT as int), r.r10 as int, fm, SQRT_ENTRY_MAX as int);
        lemma_mul_abs_bound(f as int * (SQRT_UNIT as int), r.r11 as int, fm, SQRT_ENTRY_MAX as int);
        lemma_mul_abs_bound(f as int * (SQRT_UNIT as int), r.r12 as int, fm, SQRT_ENTRY_MAX as int);
        lemma_mul_abs_bound(f as int * (SQRT_UNIT as int), r.r20 as int, fm, SQRT_ENTRY_MAX as int);
        lemma_mul_abs_bound(f as int * (SQRT_UNIT as int), r.r21 as int, fm, SQRT_ENTRY_MAX as int);
        lemma_mul_abs_bound(f as int * (SQRT_UNIT as int), r.r22 as int, fm, SQRT_ENTRY_MAX as int);
    }
    let si: i128 = s as i128;
    let fs: i128 = (f as i128) * (SQRT_UNIT as i128);
    let ta00: i128 = div_trunc(fs * (r.r00 as i128), si);
    let ta01: i128 = div_trunc(fs * (r.r01 as i128), si);
    let ta02: i128 = div_trunc(fs * (r.r02 as i128), si);
    let ta10: i128 = div_trunc(fs * (r.r10 as i128), si);
    let ta11: i128 = div_trunc(fs * (r.r11 as i128), si);
    let ta12: i128 = div_trunc(fs * (r.r12 as i128), si);
    let ta20: i128 = div_trunc(fs * (r.r20 as i128), si);
    let ta21: i128 = div_trunc(fs * (r.r21 as i128), si);
    let ta22: i128 = div_trunc(fs * (r.r22 as i128), si);
    let tb0: i128 = div_trunc(-an0, det);
    let tb1: i128 = div_trunc(-an1, det);
    let tb2: i128 = div_trunc(-an2, det);
    let am: i128 = CAL_A_MAX as i128;
    let bm: i128 = CAL_B_MAX as i128;
    if ta00 < -am || ta00 > am || ta01 < -am || ta01 > am || ta02 < -am || ta02 > am || ta10 < -am
        || ta10 > am || ta11 < -am || ta11 > am || ta12 < -am || ta12 > am || ta20 < -am || ta20
        > am || ta21 < -am || ta21 > am || ta22 < -am || ta22 > am || tb0 < -bm || tb0 > bm || tb1
        < -bm || tb1 > bm || tb2 < -bm || tb2 > bm {
        proof {
            assert(is_sqrt_floor(s as int, scale_q(*c)) && !derived_fits(*c, f as int, *r, s as int));
        }
        return Err(FitError::SingularMatrix);
    }
    let t = CalibrationTransform {
        a00: ta00 as i64,
        a01: ta01 as i64,
        a02: ta02 as i64,
        a10: ta10 as i64,
        a11: ta11 as i64,
        a12: ta12 as i64,
        a20: ta20 as i64,
        a21: ta21 as i64,
        a22: ta22 as i64,
        b0: tb0 as i64,
        b1: tb1 as i64,
        b2: tb2 as i64,
    };
    proof {
        assert(is_sqrt_floor(s as int, scale_q(*c)) && derived_fits(*c, f as int, *r, s as int)
            && t == derived_transform(*c, f as int, *r, s as int));
    }
    Ok(t)
}

} // verus!
