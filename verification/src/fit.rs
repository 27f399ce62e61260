//! Least-squares ellipsoid fitting: the design monomials, the scatter matrix
//! and its block partition, the fixed constraint matrix, and the assembly of
//! the algebraic coefficients from the selected eigen solution.
//!
//! The reduced matrix whose eigen decomposition selects the solution is
//! rational, and the decomposition itself is irrational; both are computed by
//! the caller in floating point from the exact blocks returned here. Every
//! step on either side of that decomposition is exact and verified.

use vstd::prelude::*;

use crate::FitError;
use crate::num::lemma_mul_abs_bound;
use crate::samples::{FrozenSamples, Sample, valid_sample, MAX_COORD, MIN_SAMPLES};

verus! {

/// Largest magnitude of any design monomial of a valid sample.
pub const MONO_MAX: i64 = 9007199254740992;

/// Largest magnitude of a product of two design monomials.
pub const MONO_PROD_MAX: i128 = 81129638414606681695789005144064;

/// Row `i` of the design matrix for sample `s`: the monomials
/// x^2, y^2, z^2, 2yz, 2xz, 2xy, 2x, 2y, 2z, 1, in this exact order.
pub open spec fn mono(s: Sample, i: int) -> int {
    if i == 0 {
        s.x * s.x
    } else if i == 1 {
        s.y * s.y
    } else if i == 2 {
        s.z * s.z
    } else if i == 3 {
        2 * s.y * s.z
    } else if i == 4 {
        2 * s.x * s.z
    } else if i == 5 {
        2 * s.x * s.y
    } else if i == 6 {
        2 * s.x
    } else if i == 7 {
        2 * s.y
    } else if i == 8 {
        2 * s.z
    } else {
        1
    }
}

pub proof fn lemma_mono_bound(s: Sample, i: int)
    requires
        valid_sample(s),
        0 <= i < 10,
    ensures
        -MONO_MAX <= mono(s, i) <= MONO_MAX,
{
    lemma_mul_abs_bound(s.x as int, s.x as int, MAX_COORD as int, MAX_COORD as int);
    lemma_mul_abs_bound(s.y as int, s.y as int, MAX_COORD as int, MAX_COORD as int);
    lemma_mul_abs_bound(s.z as int, s.z as int, MAX_COORD as int, MAX_COORD as int);
    lemma_mul_abs_bound(2 * s.y, s.z as int, 2 * MAX_COORD as int, MAX_COORD as int);
    lemma_mul_abs_bound(2 * s.x, s.z as int, 2 * MAX_COORD as int, MAX_COORD as int);
    lemma_mul_abs_bound(2 * s.x, s.y as int, 2 * MAX_COORD as int, MAX_COORD as int);
}

/// One design monomial, computed exactly.
fn mono_val(s: &Sample, i: usize) -> (m: i64)
    requires
        valid_sample(*s),
        i < 10,
    ensures
        m == mono(*s, i as int),
{
    proof {
        lemma_mono_bound(*s, i as int);
    }
    if i == 0 {
        s.x * s.x
    } else if i == 1 {
        s.y * s.y
    } else if i == 2 {
        s.z * s.z
    } else if i == 3 {
        2 * s.y * s.z
    } else if i == 4 {
        2 * s.x * s.z
    } else if i == 5 {
        2 * s.x * s.y
    } else if i == 6 {
        2 * s.x
    } else if i == 7 {
        2 * s.y
    } else if i == 8 {
        2 * s.z
    } else {
        1
    }
}

/// The full design-matrix column of one sample, its ten monomials in order.
pub fn design_column(s: &Sample) -> (col: Vec<i64>)
    requires
        valid_sample(*s),
    ensures
        col@.len() == 10,
        forall|i: int| 0 <= i < 10 ==> #[trigger] col@[i] == mono(*s, i),
{
    let mut col: Vec<i64> = Vec::new();
    let mut i: usize = 0;
    while i < 10
        invariant
            valid_sample(*s),
            i <= 10,
            col@.len() == i,
            forall|k: int| 0 <= k < i ==> #[trigger] col@[k] == mono(*s, k),
        decreases 10 - i,
    {
        col.push(mono_val(s, i));
        i = i + 1;
    }
    col
}

/// Entry (i, j) of the scatter matrix D * D^t: the sum over all samples of
/// the product of design monomials i and j.
pub open spec fn scatter_sum(samples: Seq<Sample>, i: int, j: int) -> int
    decreases samples.len(),
{
    if samples.len() == 0 {
        0
    } else {
        scatter_sum(samples.drop_last(), i, j) + mono(samples.last(), i) * mono(samples.last(), j)
    }
}

/// The scatter matrix is symmetric, so the 4 x 6 block below the diagonal is
/// the transpose of the 6 x 4 block right of it.
pub proof fn lemma_scatter_symmetric(samples: Seq<Sample>, i: int, j: int)
    ensures
        scatter_sum(samples, i, j) == scatter_sum(samples, j, i),
    decreases samples.len(),
{
    if samples.len() > 0 {
        lemma_scatter_symmetric(samples.drop_last(), i, j);
        let s = samples.last();
        assert(mono(s, i) * mono(s, j) == mono(s, j) * mono(s, i)) by (nonlinear_arith);
    }
}

/// One scatter entry, accumulated exactly over the frozen samples.
fn scatter_entry(fs: &FrozenSamples, i: usize, j: usize) -> (e: i128)
    requires
        fs.wf(),
        i < 10,
        j < 10,
    ensures
        e == scatter_sum(fs@, i as int, j as int),
{
    let n = fs.len();
    let mut acc: i128 = 0;
    let mut k: usize = 0;
    while k < n
        invariant
            fs.wf(),
            i < 10,
            j < 10,
            k <= n,
            n == fs@.len(),
            acc == scatter_sum(fs@.take(k as int), i as int, j as int),
            -(k as int) * MONO_PROD_MAX <= acc <= (k as int) * MONO_PROD_MAX,
        decreases n - k,
    {
        let s = fs.sample_at(k);
        let mi = mono_val(&s, i);
        let mj = mono_val(&s, j);
        proof {
            lemma_mono_bound(s, i as int);
            lemma_mono_bound(s, j as int);
            lemma_mul_abs_bound(mi as int, mj as int, MONO_MAX as int, MONO_MAX as int);
            assert(fs@.take(k as int + 1).drop_last() =~= fs@.take(k as int));
            assert(fs@.take(k as int + 1).last() == s);
        }
        let p: i128 = (mi as i128) * (mj as i128);
        acc = acc + p;
        k = k + 1;
    }
    proof {
        assert(fs@.take(n as int) =~= fs@);
    }
    acc
}

/// The scatter matrix partitioned for the constrained eigenproblem:
/// `s11` is the 6 x 6 quadratic block, `s12` the 6 x 4 mixed block and
/// `s22` the 4 x 4 affine block. The block below the diagonal is the
/// transpose of `s12` (`lemma_scatter_symmetric`) and is not stored.
pub struct FitBlocks {
    pub s11: Vec<Vec<i128>>,
    pub s12: Vec<Vec<i128>>,
    pub s22: Vec<Vec<i128>>,
}

impl FitBlocks {
    pub open spec fn wf(&self) -> bool {
        &&& self.s11@.len() == 6
        &&& forall|i: int| 0 <= i < 6 ==> (#[trigger] self.s11@[i])@.len() == 6
        &&& self.s12@.len() == 6
        &&& forall|i: int| 0 <= i < 6 ==> (#[trigger] self.s12@[i])@.len() == 4
        &&& self.s22@.len() == 4
        &&& forall|i: int| 0 <= i < 4 ==> (#[trigger] self.s22@[i])@.len() == 4
    }
}

/// Builds the exact scatter matrix of the frozen samples and partitions it.
/// Fails with `InsufficientSamples` exactly when fewer than `MIN_SAMPLES`
/// samples were collected: ten quadric coefficients with the scale fixed by
/// the constraint leave nine degrees of freedom.
pub fn ellipsoid_fit(fs: &FrozenSamples) -> (r: Result<FitBlocks, FitError>)
    requires
        fs.wf(),
    ensures
        match r {
            Err(e) => e == FitError::InsufficientSamples && fs@.len() < MIN_SAMPLES,
            Ok(fb) => {
                &&& fs@.len() >= MIN_SAMPLES
                &&& fb.wf()
                &&& forall|i: int, j: int|
                    0 <= i < 6 && 0 <= j < 6 ==> (#[trigger] fb.s11@[i]@[j]) == scatter_sum(
                        fs@,
                        i,
                        j,
                    )
                &&& forall|i: int, j: int|
                    0 <= i < 6 && 0 <= j < 4 ==> (#[trigger] fb.s12@[i]@[j]) == scatter_sum(
                        fs@,
                        i,
                        6 + j,
                    )
                &&& forall|i: int, j: int|
                    0 <= i < 4 && 0 <= j < 4 ==> (#[trigger] fb.s22@[i]@[j]) == scatter_sum(
                        fs@,
                        6 + i,
                        6 + j,
                    )
            },
        },
{
    if fs.len() < MIN_SAMPLES {
        return Err(FitError::InsufficientSamples);
    }
    let mut s11: Vec<Vec<i128>> = Vec::new();
    let mut i: usize = 0;
    while i < 6
        invariant
            fs.wf(),
            i <= 6,
            s11@.len() == i,
            forall|a: int| 0 <= a < i ==> (#[trigger] s11@[a])@.len() == 6,
            forall|a: int, b: int|
                0 <= a < i && 0 <= b < 6 ==> (#[trigger] s11@[a]@[b]) == scatter_sum(fs@, a, b),
        decreases 6 - i,
    {
        let mut row: Vec<i128> = Vec::new();
        let mut j: usize = 0;
        while j < 6
            invariant
                fs.wf(),
                i < 6,
                j <= 6,
                row@.len() == j,
                forall|b: int| 0 <= b < j ==> (#[trigger] row@[b]) == scatter_sum(fs@, i as int, b),
            decreases 6 - j,
        {
            row.push(scatter_entry(fs, i, j));
            j = j + 1;
        }
        s11.push(row);
        i = i + 1;
    }
    let mut s12: Vec<Vec<i128>> = Vec::new();
    let mut i: usize = 0;
    while i < 6
        invariant
            fs.wf(),
            i <= 6,
            s12@.len() == i,
            forall|a: int| 0 <= a < i ==> (#[trigger] s12@[a])@.len() == 4,
            forall|a: int, b: int|
                0 <= a < i && 0 <= b < 4 ==> (#[trigger] s12@[a]@[b]) == scatter_sum(fs@, a, 6 + b),
        decreases 6 - i,
    {
        let mut row: Vec<i128> = Vec::new();
        let mut j: usize = 0;
        while j < 4
            invariant
                fs.wf(),
                i < 6,
                j <= 4,
                row@.len() == j,
                forall|b: int|
                    0 <= b < j ==> (#[trigger] row@[b]) == scatter_sum(fs@, i as int, 6 + b),
            decreases 4 - j,
        {
            row.push(scatter_entry(fs, i, 6 + j));
            j = j + 1;
        }
        s12.push(row);
        i = i + 1;
    }
    let mut s22: Vec<Vec<i128>> = Vec::new();
    let mut i: usize = 0;
    while i < 4
        invariant
            fs.wf(),
            i <= 4,
            s22@.len() == i,
            forall|a: int| 0 <= a < i ==> (#[trigger] s22@[a])@.len() == 4,
            forall|a: int, b: int|
                0 <= a < i && 0 <= b < 4 ==> (#[trigger] s22@[a]@[b]) == scatter_sum(
                    fs@,
                    6 + a,
                    6 + b,
                ),
        decreases 4 - i,
    {
        let mut row: Vec<i128> = Vec::new();
        let mut j: usize = 0;
        while j < 4
            invariant
                fs.wf(),
                i < 4,
                j <= 4,
                row@.len() == j,
                forall|b: int|
                    0 <= b < j ==> (#[trigger] row@[b]) == scatter_sum(fs@, 6 + i as int, 6 + b),
            decreases 4 - j,
        {
            row.push(scatter_entry(fs, 6 + i, 6 + j));
            j = j + 1;
        }
        s22.push(row);
        i = i + 1;
    }
    Ok(FitBlocks { s11, s12, s22 })
}

/// Entry (i, j) of the fixed 6 x 6 constraint matrix C of the constrained
/// eigenproblem: rows (-1,1,1,0,0,0), (1,-1,1,0,0,0), (1,1,-1,0,0,0) and a
/// lower diagonal of -4.
pub open spec fn constraint_entry(i: int, j: int) -> int {
    if 0 <= i < 3 {
        if !(0 <= j < 3) {
            0
        } else if i == j {
            -1
        } else {
            1
        }
    } else {
        if i == j {
            -4
        } else {
            0
        }
    }
}

/// Entry (i, j) of 4 * C^-1, which is integral: the reduced matrix the
/// caller hands to the eigensolver is (4 * C^-1) * (S11 - S12 * S22^-1 * S21)
/// divided by 4.
pub open spec fn constraint_inv4_entry(i: int, j: int) -> int {
    if 0 <= i < 3 {
        if !(0 <= j < 3) {
            0
        } else if i == j {
            0
        } else {
            2
        }
    } else {
        if i == j {
            -1
        } else {
            0
        }
    }
}

/// Entry (i, j) of the product C * (4 * C^-1).
pub open spec fn constraint_prod_entry(i: int, j: int) -> int {
    constraint_entry(i, 0) * constraint_inv4_entry(0, j) + constraint_entry(i, 1)
        * constraint_inv4_entry(1, j) + constraint_entry(i, 2) * constraint_inv4_entry(2, j)
        + constraint_entry(i, 3) * constraint_inv4_entry(3, j) + constraint_entry(i, 4)
        * constraint_inv4_entry(4, j) + constraint_entry(i, 5) * constraint_inv4_entry(5, j)
}

/// The constraint matrix is invertible, with the stated integral inverse
/// scaled by 4: C * (4 * C^-1) is 4 times the identity. The fit therefore
/// never fails on inverting C.
pub proof fn lemma_constraint_invertible(i: int, j: int)
    requires
        0 <= i < 6,
        0 <= j < 6,
    ensures
        constraint_prod_entry(i, j) == if i == j {
            4int
        } else {
            0int
        },
{
}

fn constraint_entry_val(i: usize, j: usize) -> (e: i64)
    requires
        i < 6,
        j < 6,
    ensures
        e == constraint_entry(i as int, j as int),
{
    if i < 3 {
        if j >= 3 {
            0
        } else if i == j {
            -1
        } else {
            1
        }
    } else {
        if i == j {
            -4
        } else {
            0
        }
    }
}

fn constraint_inv4_entry_val(i: usize, j: usize) -> (e: i64)
    requires
        i < 6,
        j < 6,
    ensures
        e == constraint_inv4_entry(i as int, j as int),
{
    if i < 3 {
        if j >= 3 {
            0
        } else if i == j {
            0
        } else {
            2
        }
    } else {
        if i == j {
            -1
        } else {
            0
        }
    }
}

/// The fixed constraint matrix C, row by row.
pub fn constraint_matrix() -> (c: Vec<Vec<i64>>)
    ensures
        c@.len() == 6,
        forall|i: int| 0 <= i < 6 ==> (#[trigger] c@[i])@.len() == 6,
        forall|i: int, j: int|
            0 <= i < 6 && 0 <= j < 6 ==> (#[trigger] c@[i]@[j]) == constraint_entry(i, j),
{
    let mut c: Vec<Vec<i64>> = Vec::new();
    let mut i: usize = 0;
    while i < 6
        invariant
            i <= 6,
            c@.len() == i,
            forall|a: int| 0 <= a < i ==> (#[trigger] c@[a])@.len() == 6,
            forall|a: int, b: int|
                0 <= a < i && 0 <= b < 6 ==> (#[trigger] c@[a]@[b]) == constraint_entry(a, b),
        decreases 6 - i,
    {
        let mut row: Vec<i64> = Vec::new();
        let mut j: usize = 0;
        while j < 6
            invariant
                i < 6,
                j <= 6,
                row@.len() == j,
                forall|b: int|
                    0 <= b < j ==> (#[trigger] row@[b]) == constraint_entry(i as int, b),
            decreases 6 - j,
        {
            row.push(constraint_entry_val(i, j));
            j = j + 1;
        }
        c.push(row);
        i = i + 1;
    }
    c
}

/// 4 * C^-1, row by row (see `lemma_constraint_invertible`).
pub fn constraint_inverse_times4() -> (c: Vec<Vec<i64>>)
    ensures
        c@.len() == 6,
        forall|i: int| 0 <= i < 6 ==> (#[trigger] c@[i])@.len() == 6,
        forall|i: int, j: int|
            0 <= i < 6 && 0 <= j < 6 ==> (#[trigger] c@[i]@[j]) == constraint_inv4_entry(i, j),
{
    let mut c: Vec<Vec<i64>> = Vec::new();
    let mut i: usize = 0;
    while i < 6
        invariant
            i <= 6,
            c@.len() == i,
            forall|a: int| 0 <= a < i ==> (#[trigger] c@[a])@.len() == 6,
            forall|a: int, b: int|
                0 <= a < i && 0 <= b < 6 ==> (#[trigger] c@[a]@[b]) == constraint_inv4_entry(a, b),
        decreases 6 - i,
    {
        let mut row: Vec<i64> = Vec::new();
        let mut j: usize = 0;
        while j < 6
            invariant
                i < 6,
                j <= 6,
                row@.len() == j,
                forall|b: int|
                    0 <= b < j ==> (#[trigger] row@[b]) == constraint_inv4_entry(i as int, b),
            decreases 6 - j,
        {
            row.push(constraint_inv4_entry_val(i, j));
            j = j + 1;
        }
        c.push(row);
        i = i + 1;
    }
    c
}

/// Magnitude bound on the six quadratic coefficients handed to assembly.
pub const COEF_M_MAX: i128 = 262144;

/// Magnitude bound on the three linear coefficients.
pub const COEF_N_MAX: i128 = 1099511627776;

/// Magnitude bound on the constant coefficient.
pub const COEF_D_MAX: i128 = 295147905179352825856;

/// The algebraic ellipsoid coefficients: a symmetric quadratic matrix M
/// (stored as its upper triangle), a linear vector n and a constant d, with
/// x . (M x) + 2 n . x + d = 0 on the fitted surface. All entries are exact
/// integers; a caller working from a unit eigenvector scales the whole
/// solution by one factor before assembly, which the fit's later use
/// (center and correction) is invariant to.
#[derive(Clone, Copy, PartialEq, Eq, Structural, Debug)]
pub struct EllipsoidCoefficients {
    pub m00: i64,
    pub m01: i64,
    pub m02: i64,
    pub m11: i64,
    pub m12: i64,
    pub m22: i64,
    pub n0: i64,
    pub n1: i64,
    pub n2: i64,
    pub d: i128,
}

impl EllipsoidCoefficients {
    /// Bounds under which the derivation's exact arithmetic cannot overflow.
    pub open spec fn wf(&self) -> bool {
        &&& -COEF_M_MAX <= self.m00 <= COEF_M_MAX
        &&& -COEF_M_MAX <= self.m01 <= COEF_M_MAX
        &&& -COEF_M_MAX <= self.m02 <= COEF_M_MAX
        &&& -COEF_M_MAX <= self.m11 <= COEF_M_MAX
        &&& -COEF_M_MAX <= self.m12 <= COEF_M_MAX
        &&& -COEF_M_MAX <= self.m22 <= COEF_M_MAX
        &&& -COEF_N_MAX <= self.n0 <= COEF_N_MAX
        &&& -COEF_N_MAX <= self.n1 <= COEF_N_MAX
        &&& -COEF_N_MAX <= self.n2 <= COEF_N_MAX
        &&& -COEF_D_MAX <= self.d <= COEF_D_MAX
    }
}

/// The coefficients assembled from an eigen solution (v1, v2), after sign
/// canonicalization: if the first component of v1 is negative the whole
/// solution is negated, so the assembled coefficients are unique for a given
/// eigen direction. The diagonal of M is v1[0..3), M[1,2] = v1[3],
/// M[0,2] = v1[4], M[0,1] = v1[5]; n is v2[0..3) and d is v2[3].
pub open spec fn assemble_spec(v1: Seq<i128>, v2: Seq<i128>) -> EllipsoidCoefficients {
    if v1[0] < 0 {
        EllipsoidCoefficients {
            m00: (-v1[0]) as i64,
            m11: (-v1[1]) as i64,
            m22: (-v1[2]) as i64,
            m12: (-v1[3]) as i64,
            m02: (-v1[4]) as i64,
            m01: (-v1[5]) as i64,
            n0: (-v2[0]) as i64,
            n1: (-v2[1]) as i64,
            n2: (-v2[2]) as i64,
            d: (-v2[3]) as i128,
        }
    } else {
        EllipsoidCoefficients {
            m00: v1[0] as i64,
            m11: v1[1] as i64,
            m22: v1[2] as i64,
            m12: v1[3] as i64,
            m02: v1[4] as i64,
            m01: v1[5] as i64,
            n0: v2[0] as i64,
            n1: v2[1] as i64,
            n2: v2[2] as i64,
            d: v2[3],
        }
    }
}

/// Bounds under which assembly neither overflows nor loses a value.
pub open spec fn assemble_input_ok(v1: Seq<i128>, v2: Seq<i128>) -> bool {
    &&& v1.len() == 6
    &&& v2.len() == 4
    &&& forall|k: int| 0 <= k < 6 ==> -COEF_M_MAX <= #[trigger] v1[k] <= COEF_M_MAX
    &&& forall|k: int| 0 <= k < 3 ==> -COEF_N_MAX <= #[trigger] v2[k] <= COEF_N_MAX
    &&& -COEF_D_MAX <= v2[3] <= COEF_D_MAX
}

/// Assembles the ellipsoid coefficients from the eigenvector v1 selected for
/// the largest eigenvalue and the back-substituted v2 = -S22^-1 * S21 * v1,
/// canonicalizing the overall sign.
pub fn assemble_coefficients(v1: &[i128; 6], v2: &[i128; 4]) -> (c: EllipsoidCoefficients)
    requires
        assemble_input_ok(v1@, v2@),
    ensures
        c == assemble_spec(v1@, v2@),
        c.wf(),
{
    let flip = v1[0] < 0;
    let c = if flip {
        EllipsoidCoefficients {
            m00: (-v1[0]) as i64,
            m11: (-v1[1]) as i64,
            m22: (-v1[2]) as i64,
            m12: (-v1[3]) as i64,
            m02: (-v1[4]) as i64,
            m01: (-v1[5]) as i64,
            n0: (-v2[0]) as i64,
            n1: (-v2[1]) as i64,
            n2: (-v2[2]) as i64,
            d: -v2[3],
        }
    } else {
        EllipsoidCoefficients {
            m00: v1[0] as i64,
            m11: v1[1] as i64,
            m22: v1[2] as i64,
            m12: v1[3] as i64,
            m02: v1[4] as i64,
            m01: v1[5] as i64,
            n0: v2[0] as i64,
            n1: v2[1] as i64,
            n2: v2[2] as i64,
            d: v2[3],
        }
    };
    c
}

/// The same sequence with every component negated.
pub open spec fn seq_neg(s: Seq<i128>) -> Seq<i128> {
    Seq::new(s.len(), |i: int| (-s[i]) as i128)
}

/// Sign determinism of the fit: assembling a globally sign-flipped eigen
/// solution yields exactly the same coefficients, so repeated fits of one
/// sample set agree whichever of the two opposite eigenvectors the solver
/// returns. The one direction canonicalization cannot fix, an eigenvector
/// whose first component is exactly zero, is excluded.
pub proof fn lemma_assembly_sign_invariant(v1: Seq<i128>, v2: Seq<i128>)
    requires
        assemble_input_ok(v1, v2),
        v1[0] != 0,
    ensures
        assemble_spec(seq_neg(v1), seq_neg(v2)) == assemble_spec(v1, v2),
{
    let w1 = seq_neg(v1);
    let w2 = seq_neg(v2);
    assert forall|k: int| 0 <= k < 6 implies #[trigger] w1[k] == -v1[k] by {}
    assert forall|k: int| 0 <= k < 4 implies #[trigger] w2[k] == -v2[k] by {}
    assert(assemble_spec(w1, w2) == assemble_spec(v1, v2));
}

} // verus!
