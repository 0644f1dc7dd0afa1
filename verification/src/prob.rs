use vstd::prelude::*;

verus! {

/// Probability that a gate-mode onset fires, in 10%-steps from 10% to 100%.
#[derive(Clone, Copy, Debug, PartialEq, Eq, Structural)]
pub enum Prob {
    P10,
    P20,
    P30,
    P40,
    P50,
    P60,
    P70,
    P80,
    P90,
    P100,
}

impl Prob {
    /// Firing chance in percent.
    pub open spec fn spec_percent(self) -> int {
        match self {
            Prob::P10 => 10,
            Prob::P20 => 20,
            Prob::P30 => 30,
            Prob::P40 => 40,
            Prob::P50 => 50,
            Prob::P60 => 60,
            Prob::P70 => 70,
            Prob::P80 => 80,
            Prob::P90 => 90,
            Prob::P100 => 100,
        }
    }

    pub open spec fn spec_next(self) -> Option<Prob> {
        match self {
            Prob::P10 => Some(Prob::P20),
            Prob::P20 => Some(Prob::P30),
            Prob::P30 => Some(Prob::P40),
            Prob::P40 => Some(Prob::P50),
            Prob::P50 => Some(Prob::P60),
            Prob::P60 => Some(Prob::P70),
            Prob::P70 => Some(Prob::P80),
            Prob::P80 => Some(Prob::P90),
            Prob::P90 => Some(Prob::P100),
            Prob::P100 => None,
        }
    }

    pub open spec fn spec_prev(self) -> Option<Prob> {
        match self {
            Prob::P10 => None,
            Prob::P20 => Some(Prob::P10),
            Prob::P30 => Some(Prob::P20),
            Prob::P40 => Some(Prob::P30),
            Prob::P50 => Some(Prob::P40),
            Prob::P60 => Some(Prob::P50),
            Prob::P70 => Some(Prob::P60),
            Prob::P80 => Some(Prob::P70),
            Prob::P90 => Some(Prob::P80),
            Prob::P100 => Some(Prob::P90),
        }
    }

    /// The next higher probability, saturating at `P100`.
    pub fn next(&self) -> (r: Option<Prob>)
        ensures
            r == self.spec_next(),
    {
        match *self {
            Prob::P10 => Some(Prob::P20),
            Prob::P20 => Some(Prob::P30),
            Prob::P30 => Some(Prob::P40),
            Prob::P40 => Some(Prob::P50),
            Prob::P50 => Some(Prob::P60),
            Prob::P60 => Some(Prob::P70),
            Prob::P70 => Some(Prob::P80),
            Prob::P80 => Some(Prob::P90),
            Prob::P90 => Some(Prob::P100),
            Prob::P100 => None,
        }
    }

    /// The next lower probability, saturating at `P10`.
    pub fn prev(&self) -> (r: Option<Prob>)
        ensures
            r == self.spec_prev(),
    {
        match *self {
            Prob::P10 => None,
            Prob::P20 => Some(Prob::P10),
            Prob::P30 => Some(Prob::P20),
            Prob::P40 => Some(Prob::P30),
            Prob::P50 => Some(Prob::P40),
            Prob::P60 => Some(Prob::P50),
            Prob::P70 => Some(Prob::P60),
            Prob::P80 => Some(Prob::P70),
            Prob::P90 => Some(Prob::P80),
            Prob::P100 => Some(Prob::P90),
        }
    }

    /// Firing chance in percent, for comparing against a fresh draw.
    pub fn percent(&self) -> (p: u32)
        ensures
            p == self.spec_percent(),
    {
        match *self {
            Prob::P10 => 10,
            Prob::P20 => 20,
            Prob::P30 => 30,
            Prob::P40 => 40,
            Prob::P50 => 50,
            Prob::P60 => 60,
            Prob::P70 => 70,
            Prob::P80 => 80,
            Prob::P90 => 90,
            Prob::P100 => 100,
        }
    }
}

/// The percentage label of a probability, as shown on gate-mode screens.
pub struct ProbString(pub &'static str);

impl ProbString {
    pub fn of(val: Prob) -> (r: ProbString)
        ensures
            (match val {
                Prob::P10 => r.0@ == "10%"@,
                Prob::P20 => r.0@ == "20%"@,
                Prob::P30 => r.0@ == "30%"@,
                Prob::P40 => r.0@ == "40%"@,
                Prob::P50 => r.0@ == "50%"@,
                Prob::P60 => r.0@ == "60%"@,
                Prob::P70 => r.0@ == "70%"@,
                Prob::P80 => r.0@ == "80%"@,
                Prob::P90 => r.0@ == "90%"@,
                Prob::P100 => r.0@ == "100%"@,
            }),
    {
        match val {
            Prob::P10 => ProbString("10%"),
            Prob::P20 => ProbString("20%"),
            Prob::P30 => ProbString("30%"),
            Prob::P40 => ProbString("40%"),
            Prob::P50 => ProbString("50%"),
            Prob::P60 => ProbString("60%"),
            Prob::P70 => ProbString("70%"),
            Prob::P80 => ProbString("80%"),
            Prob::P90 => ProbString("90%"),
            Prob::P100 => ProbString("100%"),
        }
    }
}

} // verus!
