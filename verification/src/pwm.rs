use vstd::prelude::*;

verus! {

/// Duty cycle of a gate-mode channel: nine 10%-steps plus `Pew`, a minimal
/// one-tick pulse below the 10% level. Ordered from shortest to longest.
#[derive(Clone, Copy, Debug, PartialEq, Eq, Structural)]
pub enum Pwm {
    Pew,
    P10,
    P20,
    P30,
    P40,
    P50,
    P60,
    P70,
    P80,
    P90,
}

impl Pwm {
    /// Position in the short-to-long order; 0 is `Pew`, 9 is `P90`.
    pub open spec fn position(self) -> int {
        match self {
            Pwm::Pew => 0,
            Pwm::P10 => 1,
            Pwm::P20 => 2,
            Pwm::P30 => 3,
            Pwm::P40 => 4,
            Pwm::P50 => 5,
            Pwm::P60 => 6,
            Pwm::P70 => 7,
            Pwm::P80 => 8,
            Pwm::P90 => 9,
        }
    }

    /// Duty cycle in percent; `Pew` stands below the 10% step.
    pub open spec fn spec_percent(self) -> int {
        match self {
            Pwm::Pew => 0,
            Pwm::P10 => 10,
            Pwm::P20 => 20,
            Pwm::P30 => 30,
            Pwm::P40 => 40,
            Pwm::P50 => 50,
            Pwm::P60 => 60,
            Pwm::P70 => 70,
            Pwm::P80 => 80,
            Pwm::P90 => 90,
        }
    }

    pub open spec fn spec_next(self) -> Option<Pwm> {
        match self {
            Pwm::Pew => Some(Pwm::P10),
            Pwm::P10 => Some(Pwm::P20),
            Pwm::P20 => Some(Pwm::P30),
            Pwm::P30 => Some(Pwm::P40),
            Pwm::P40 => Some(Pwm::P50),
            Pwm::P50 => Some(Pwm::P60),
            Pwm::P60 => Some(Pwm::P70),
            Pwm::P70 => Some(Pwm::P80),
            Pwm::P80 => Some(Pwm::P90),
            Pwm::P90 => None,
        }
    }

    pub open spec fn spec_prev(self) -> Option<Pwm> {
        match self {
            Pwm::Pew => None,
            Pwm::P10 => Some(Pwm::Pew),
            Pwm::P20 => Some(Pwm::P10),
            Pwm::P30 => Some(Pwm::P20),
            Pwm::P40 => Some(Pwm::P30),
            Pwm::P50 => Some(Pwm::P40),
            Pwm::P60 => Some(Pwm::P50),
            Pwm::P70 => Some(Pwm::P60),
            Pwm::P80 => Some(Pwm::P70),
            Pwm::P90 => Some(Pwm::P80),
        }
    }

    /// The next longer duty cycle, saturating at `P90`.
    pub fn next(&self) -> (r: Option<Pwm>)
        ensures
            r == self.spec_next(),
    {
        match *self {
            Pwm::Pew => Some(Pwm::P10),
            Pwm::P10 => Some(Pwm::P20),
            Pwm::P20 => Some(Pwm::P30),
            Pwm::P30 => Some(Pwm::P40),
            Pwm::P40 => Some(Pwm::P50),
            Pwm::P50 => Some(Pwm::P60),
            Pwm::P60 => Some(Pwm::P70),
            Pwm::P70 => Some(Pwm::P80),
            Pwm::P80 => Some(Pwm::P90),
            Pwm::P90 => None,
        }
    }

    /// The next shorter duty cycle, saturating at `Pew`.
    pub fn prev(&self) -> (r: Option<Pwm>)
        ensures
            r == self.spec_prev(),
    {
        match *self {
            Pwm::Pew => None,
            Pwm::P10 => Some(Pwm::Pew),
            Pwm::P20 => Some(Pwm::P10),
            Pwm::P30 => Some(Pwm::P20),
            Pwm::P40 => Some(Pwm::P30),
            Pwm::P50 => Some(Pwm::P40),
            Pwm::P60 => Some(Pwm::P50),
            Pwm::P70 => Some(Pwm::P60),
            Pwm::P80 => Some(Pwm::P70),
            Pwm::P90 => Some(Pwm::P80),
        }
    }
}

} // verus!
