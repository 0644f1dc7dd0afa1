use vstd::prelude::*;

use crate::density::Density;
use crate::length::Length;
use crate::output_type::OutputType;
use crate::prob::Prob;
use crate::pwm::Pwm;
use crate::rate::Rate;

verus! {

/// Everything the user can set on one channel. The reducer owns a mirror of
/// the four configurations; the tick scheduler re-derives its runtime state
/// from them as changes arrive.
#[derive(Clone, Copy, Debug, PartialEq, Eq, Structural)]
pub struct OutputConfig {
    pub rate: Rate,
    pub pwm: Pwm,
    pub prob: Prob,
    pub length: Length,
    pub density: Density,
    pub output_type: OutputType,
}

impl OutputConfig {
    pub open spec fn wf(self) -> bool {
        &&& self.rate.wf()
        &&& self.length.wf()
        &&& self.density.wf()
        &&& self.density.0 <= self.length.0
    }

    /// A fresh gate-mode channel: unity rate, half duty, certain firing, and
    /// a four-over-sixteen pattern ready should the channel turn Euclidean.
    pub fn new() -> (r: OutputConfig)
        ensures
            r == OutputConfig::initial(),
            r.wf(),
    {
        OutputConfig {
            rate: Rate::Unity,
            pwm: Pwm::P50,
            prob: Prob::P100,
            length: Length(16),
            density: Density(4),
            output_type: OutputType::Gate,
        }
    }

    pub open spec fn initial() -> OutputConfig {
        OutputConfig {
            rate: Rate::Unity,
            pwm: Pwm::P50,
            prob: Prob::P100,
            length: Length(16),
            density: Density(4),
            output_type: OutputType::Gate,
        }
    }

    pub fn rate(&self) -> (r: Rate)
        ensures
            r == self.rate,
    {
        self.rate
    }

    pub fn pwm(&self) -> (r: Pwm)
        ensures
            r == self.pwm,
    {
        self.pwm
    }

    pub fn prob(&self) -> (r: Prob)
        ensures
            r == self.prob,
    {
        self.prob
    }

    pub fn length(&self) -> (r: Length)
        ensures
            r == self.length,
    {
        self.length
    }

    pub fn density(&self) -> (r: Density)
        ensures
            r == self.density,
    {
        self.density
    }

    pub fn output_type(&self) -> (r: OutputType)
        ensures
            r == self.output_type,
    {
        self.output_type
    }

    pub fn set_rate(&mut self, rate: Rate)
        ensures
            *final(self) == (OutputConfig { rate, ..*old(self) }),
    {
        self.rate = rate;
    }

    pub fn set_pwm(&mut self, pwm: Pwm)
        ensures
            *final(self) == (OutputConfig { pwm, ..*old(self) }),
    {
        self.pwm = pwm;
    }

    pub fn set_prob(&mut self, prob: Prob)
        ensures
            *final(self) == (OutputConfig { prob, ..*old(self) }),
    {
        self.prob = prob;
    }

    pub fn set_output_type(&mut self, output_type: OutputType)
        ensures
            *final(self) == (OutputConfig { output_type, ..*old(self) }),
    {
        self.output_type = output_type;
    }

    /// Sets the Euclidean pattern size and active-step count together; the
    /// caller keeps the density at or below the length.
    pub fn set_sequence(&mut self, length: Length, density: Density)
        requires
            length.wf(),
            density.wf(),
            density.0 <= length.0,
        ensures
            *final(self) == (OutputConfig { length, density, ..*old(self) }),
    {
        self.length = length;
        self.density = density;
    }
}

} // verus!
