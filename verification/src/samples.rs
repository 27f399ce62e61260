//! Raw sample collection: an append-only set of 3-axis readings gathered
//! while the operator rotates the sensor, frozen once before fitting.

use vstd::prelude::*;

verus! {

/// Fitting a ten-coefficient quadric with one degree of freedom fixed
/// needs at least nine samples.
pub const MIN_SAMPLES: usize = 9;

/// Capacity bound that keeps every scatter-matrix entry inside `i128`.
pub const MAX_SAMPLES: usize = 65536;

/// Component magnitude bound that keeps every design monomial inside `i64`.
pub const MAX_COORD: i64 = 67108864;

/// One raw magnetometer reading, in integer sensor units. A caller that
/// measures fractional units scales all readings by one fixed power of two;
/// the fit and the derived correction are invariant under that choice.
#[derive(Clone, Copy, PartialEq, Eq, Structural, Debug)]
pub struct Sample {
    pub x: i64,
    pub y: i64,
    pub z: i64,
}

/// A reading the fitter accepts: every component within `MAX_COORD`.
pub open spec fn valid_sample(s: Sample) -> bool {
    &&& -MAX_COORD <= s.x <= MAX_COORD
    &&& -MAX_COORD <= s.y <= MAX_COORD
    &&& -MAX_COORD <= s.z <= MAX_COORD
}

/// The growing collection of raw readings during the collection phase.
pub struct SampleSet {
    samples: Vec<Sample>,
}

/// A collection frozen at the end of the collection phase: read-only input
/// to the fitter, never mutated again.
pub struct FrozenSamples {
    samples: Vec<Sample>,
}

impl View for SampleSet {
    type V = Seq<Sample>;

    closed spec fn view(&self) -> Seq<Sample> {
        self.samples@
    }
}

impl View for FrozenSamples {
    type V = Seq<Sample>;

    closed spec fn view(&self) -> Seq<Sample> {
        self.samples@
    }
}

impl SampleSet {
    /// Every accepted reading is valid and the set is within capacity.
    pub open spec fn wf(&self) -> bool {
        &&& self@.len() <= MAX_SAMPLES
        &&& forall|i: int| 0 <= i < self@.len() ==> valid_sample(#[trigger] self@[i])
    }

    /// An empty set, starting a collection phase.
    pub fn new() -> (s: SampleSet)
        ensures
            s@ == Seq::<Sample>::empty(),
            s.wf(),
    {
        SampleSet { samples: Vec::new() }
    }

    pub fn len(&self) -> (n: usize)
        ensures
            n == self@.len(),
    {
        self.samples.len()
    }

    /// Appends one reading. An out-of-range reading, or one beyond capacity,
    /// is rejected and leaves the set unchanged.
    pub fn push(&mut self, s: Sample) -> (accepted: bool)
        requires
            old(self).wf(),
        ensures
            final(self).wf(),
            accepted == (valid_sample(s) && old(self)@.len() < MAX_SAMPLES),
            accepted ==> final(self)@ == old(self)@.push(s),
            !accepted ==> final(self)@ == old(self)@,
    {
        if self.samples.len() < MAX_SAMPLES && -MAX_COORD <= s.x && s.x <= MAX_COORD
            && -MAX_COORD <= s.y && s.y <= MAX_COORD && -MAX_COORD <= s.z && s.z <= MAX_COORD {
            self.samples.push(s);
            true
        } else {
            false
        }
    }

    /// Ends the collection phase: the set becomes read-only fit input.
    pub fn freeze(self) -> (f: FrozenSamples)
        requires
            self.wf(),
        ensures
            f@ == self@,
            f.wf(),
    {
        FrozenSamples { samples: self.samples }
    }
}

impl FrozenSamples {
    /// Carried over from the set that was frozen.
    pub open spec fn wf(&self) -> bool {
        &&& self@.len() <= MAX_SAMPLES
        &&& forall|i: int| 0 <= i < self@.len() ==> valid_sample(#[trigger] self@[i])
    }

    pub fn len(&self) -> (n: usize)
        ensures
            n == self@.len(),
    {
        self.samples.len()
    }

    pub fn sample_at(&self, i: usize) -> (s: Sample)
        requires
            i < self@.len(),
        ensures
            s == self@[i as int],
    {
        self.samples[i]
    }
}

} // verus!
