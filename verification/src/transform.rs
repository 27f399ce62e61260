//! The derived affine correction and its application to raw readings:
//! calibrated = A^-1 (raw - b), exact over fixed-point integers.

use vstd::prelude::*;

use crate::num::{div_trunc, iabs, lemma_mul_abs_bound, tdiv};
use crate::samples::{valid_sample, Sample};

verus! {

/// Fixed-point unit of the correction matrix: its entries count 1/FX_ONE.
pub const FX_ONE: i64 = 4294967296;

/// Magnitude bound on correction-matrix entries.
pub const CAL_A_MAX: i64 = 1125899906842624;

/// Magnitude bound on the offset components.
pub const CAL_B_MAX: i64 = 17179869184;

/// The affine correction: calibrated = A^-1 (raw - b), with the soft-iron
/// matrix A^-1 in 1/FX_ONE units and the hard-iron offset b in sensor units.
/// A value of this type is immutable; a fresh derivation replaces it whole,
/// so concurrent readers never observe a half-updated correction.
#[derive(Clone, Copy, PartialEq, Eq, Structural, Debug)]
pub struct CalibrationTransform {
    pub a00: i64,
    pub a01: i64,
    pub a02: i64,
    pub a10: i64,
    pub a11: i64,
    pub a12: i64,
    pub a20: i64,
    pub a21: i64,
    pub a22: i64,
    pub b0: i64,
    pub b1: i64,
    pub b2: i64,
}

impl CalibrationTransform {
    /// Bounds under which applying the correction cannot overflow.
    pub open spec fn wf(&self) -> bool {
        &&& -CAL_A_MAX <= self.a00 <= CAL_A_MAX
        &&& -CAL_A_MAX <= self.a01 <= CAL_A_MAX
        &&& -CAL_A_MAX <= self.a02 <= CAL_A_MAX
        &&& -CAL_A_MAX <= self.a10 <= CAL_A_MAX
        &&& -CAL_A_MAX <= self.a11 <= CAL_A_MAX
        &&& -CAL_A_MAX <= self.a12 <= CAL_A_MAX
        &&& -CAL_A_MAX <= self.a20 <= CAL_A_MAX
        &&& -CAL_A_MAX <= self.a21 <= CAL_A_MAX
        &&& -CAL_A_MAX <= self.a22 <= CAL_A_MAX
        &&& -CAL_B_MAX <= self.b0 <= CAL_B_MAX
        &&& -CAL_B_MAX <= self.b1 <= CAL_B_MAX
        &&& -CAL_B_MAX <= self.b2 <= CAL_B_MAX
    }

    /// The identity correction: unit matrix, zero offset.
    pub open spec fn identity_spec() -> CalibrationTransform {
        CalibrationTransform {
            a00: FX_ONE,
            a01: 0,
            a02: 0,
            a10: 0,
            a11: FX_ONE,
            a12: 0,
            a20: 0,
            a21: 0,
            a22: FX_ONE,
            b0: 0,
            b1: 0,
            b2: 0,
        }
    }

    /// The defined default before any calibration has been derived.
    pub fn identity() -> (t: CalibrationTransform)
        ensures
            t == CalibrationTransform::identity_spec(),
            t.wf(),
    {
        CalibrationTransform {
            a00: FX_ONE,
            a01: 0,
            a02: 0,
            a10: 0,
            a11: FX_ONE,
            a12: 0,
            a20: 0,
            a21: 0,
            a22: FX_ONE,
            b0: 0,
            b1: 0,
            b2: 0,
        }
    }
}

/// One output component: (matrix row) . (s - b), scaled back to sensor
/// units by a quotient truncated toward zero.
pub open spec fn calibrated_component(
    ax: int,
    ay: int,
    az: int,
    t: CalibrationTransform,
    s: Sample,
) -> int {
    tdiv(ax * (s.x - t.b0) + ay * (s.y - t.b1) + az * (s.z - t.b2), FX_ONE as int)
}

/// The corrected reading, component by component.
pub open spec fn calibrated_spec(s: Sample, t: CalibrationTransform) -> Sample {
    Sample {
        x: calibrated_component(t.a00 as int, t.a01 as int, t.a02 as int, t, s) as i64,
        y: calibrated_component(t.a10 as int, t.a11 as int, t.a12 as int, t, s) as i64,
        z: calibrated_component(t.a20 as int, t.a21 as int, t.a22 as int, t, s) as i64,
    }
}

/// Magnitude bound for one computed component of a corrected reading.
proof fn lemma_component_bound(ax: int, ay: int, az: int, t: CalibrationTransform, s: Sample)
    requires
        t.wf(),
        valid_sample(s),
        -CAL_A_MAX <= ax <= CAL_A_MAX,
        -CAL_A_MAX <= ay <= CAL_A_MAX,
        -CAL_A_MAX <= az <= CAL_A_MAX,
    ensures
        iabs(
            ax * (s.x - t.b0) + ay * (s.y - t.b1) + az * (s.z - t.b2),
        ) < 0x8000_0000_0000_0000_0000_0000int,
        iabs(calibrated_component(ax, ay, az, t, s)) < 0x8000_0000_0000_0000int,
{
    let dmax = 0x8_4000_0000int;
    lemma_mul_abs_bound(ax, s.x - t.b0, CAL_A_MAX as int, dmax);
    lemma_mul_abs_bound(ay, s.y - t.b1, CAL_A_MAX as int, dmax);
    lemma_mul_abs_bound(az, s.z - t.b2, CAL_A_MAX as int, dmax);
    let num = ax * (s.x - t.b0) + ay * (s.y - t.b1) + az * (s.z - t.b2);
    vstd::arithmetic::div_mod::lemma_div_is_ordered(
        iabs(num),
        0x8000_0000_0000_0000_0000_0000int - 1,
        FX_ONE as int,
    );
    vstd::arithmetic::div_mod::lemma_div_pos_is_pos(iabs(num), FX_ONE as int);
}

/// Applies the correction to one raw reading. Pure and stateless: safe for
/// any number of concurrent readers of one published transform.
pub fn calibrated_sample(s: &Sample, t: &CalibrationTransform) -> (r: Sample)
    requires
        t.wf(),
        valid_sample(*s),
    ensures
        r == calibrated_spec(*s, *t),
{
    proof {
        lemma_component_bound(t.a00 as int, t.a01 as int, t.a02 as int, *t, *s);
        lemma_component_bound(t.a10 as int, t.a11 as int, t.a12 as int, *t, *s);
        lemma_component_bound(t.a20 as int, t.a21 as int, t.a22 as int, *t, *s);
        let dmax = 0x8_4000_0000int;
        lemma_mul_abs_bound(t.a00 as int, s.x - t.b0, CAL_A_MAX as int, dmax);
        lemma_mul_abs_bound(t.a01 as int, s.y - t.b1, CAL_A_MAX as int, dmax);
        lemma_mul_abs_bound(t.a02 as int, s.z - t.b2, CAL_A_MAX as int, dmax);
        lemma_mul_abs_bound(t.a10 as int, s.x - t.b0, CAL_A_MAX as int, dmax);
        lemma_mul_abs_bound(t.a11 as int, s.y - t.b1, CAL_A_MAX as int, dmax);
        lemma_mul_abs_bound(t.a12 as int, s.z - t.b2, CAL_A_MAX as int, dmax);
        lemma_mul_abs_bound(t.a20 as int, s.x - t.b0, CAL_A_MAX as int, dmax);
        lemma_mul_abs_bound(t.a21 as int, s.y - t.b1, CAL_A_MAX as int, dmax);
        lemma_mul_abs_bound(t.a22 as int, s.z - t.b2, CAL_A_MAX as int, dmax);
    }
    let dx: i128 = (s.x as i128) - (t.b0 as i128);
    let dy: i128 = (s.y as i128) - (t.b1 as i128);
    let dz: i128 = (s.z as i128) - (t.b2 as i128);
    let nx: i128 = (t.a00 as i128) * dx + (t.a01 as i128) * dy + (t.a02 as i128) * dz;
    let ny: i128 = (t.a10 as i128) * dx + (t.a11 as i128) * dy + (t.a12 as i128) * dz;
    let nz: i128 = (t.a20 as i128) * dx + (t.a21 as i128) * dy + (t.a22 as i128) * dz;
    let rx: i128 = div_trunc(nx, FX_ONE as i128);
    let ry: i128 = div_trunc(ny, FX_ONE as i128);
    let rz: i128 = div_trunc(nz, FX_ONE as i128);
    Sample { x: rx as i64, y: ry as i64, z: rz as i64 }
}

/// Before a calibration exists the identity correction is in effect, and it
/// returns every raw reading unchanged.
pub proof fn lemma_identity_is_neutral(s: Sample)
    requires
        valid_sample(s),
    ensures
        calibrated_spec(s, CalibrationTransform::identity_spec()) == s,
{
    let f = FX_ONE as int;
    lemma_identity_component(s.x as int);
    lemma_identity_component(s.y as int);
    lemma_identity_component(s.z as int);
    assert(calibrated_component(
        f,
        0,
        0,
        CalibrationTransform::identity_spec(),
        s,
    ) == tdiv(f * s.x, f));
    assert(calibrated_component(
        0,
        f,
        0,
        CalibrationTransform::identity_spec(),
        s,
    ) == tdiv(f * s.y, f));
    assert(calibrated_component(
        0,
        0,
        f,
        CalibrationTransform::identity_spec(),
        s,
    ) == tdiv(f * s.z, f));
}

/// Scaling by the fixed-point unit and dividing it back is exact.
proof fn lemma_identity_component(v: int)
    ensures
        tdiv(FX_ONE as int * v, FX_ONE as int) == v,
{
    let f = FX_ONE as int;
    assert(iabs(f * v) == f * iabs(v));
    vstd::arithmetic::div_mod::lemma_div_multiples_vanish(iabs(v), f);
}

} // verus!
