//! Magnetometer calibration core: least-squares ellipsoid fitting over exact
//! fixed-point arithmetic, and derivation of the affine correction that maps
//! raw readings onto a sphere of a configured magnitude.

use vstd::prelude::*;

pub mod derive;
pub mod fit;
pub mod num;
pub mod samples;
pub mod transform;

verus! {

/// Why a fit or a derivation failed.
#[derive(Clone, Copy, PartialEq, Eq, Structural, Debug)]
pub enum FitError {
    /// Fewer samples than the ten-coefficient quadric needs.
    InsufficientSamples,
    /// A matrix that the algorithm must invert has determinant zero.
    SingularMatrix,
    /// The derived scale factor is not positive, so no real square root exists.
    NotPositiveDefinite,
}

} // verus!
