use vstd::prelude::*;

use crate::density::Density;
use crate::length::Length;
use crate::output::Output;

verus! {

/// A Euclidean pattern change for one channel, with the step index the
/// scheduler last reported, if any.
#[derive(Clone, Copy, Debug, PartialEq, Eq, Structural)]
pub struct SequenceState {
    pub density: Density,
    pub index: Option<usize>,
    pub length: Length,
    pub output: Output,
}

impl SequenceState {
    pub fn new(output: Output, length: Length, density: Density) -> (r: SequenceState)
        ensures
            r == (SequenceState { density, index: None::<usize>, length, output }),
    {
        SequenceState { density, index: None, length, output }
    }
}

} // verus!
