use vstd::prelude::*;

use crate::prob::Prob;
use crate::pwm::Pwm;
use crate::rate::Rate;

verus! {

/// The slice of a channel's settings that gate mode reads.
#[derive(Clone, Copy, Debug, PartialEq, Eq, Structural)]
pub struct GateState {
    pub rate: Rate,
    pub pwm: Pwm,
    pub prob: Prob,
}

impl GateState {
    /// Unity rate, half duty, certain firing.
    pub fn new() -> (r: GateState)
        ensures
            r.rate == Rate::Unity,
            r.pwm == Pwm::P50,
            r.prob == Prob::P100,
    {
        GateState { rate: Rate::Unity, pwm: Pwm::P50, prob: Prob::P100 }
    }
}

impl Default for GateState {
    fn default() -> (r: GateState)
        ensures
            r.rate == Rate::Unity,
            r.pwm == Pwm::P50,
            r.prob == Prob::P100,
    {
        GateState::new()
    }
}

} // verus!
