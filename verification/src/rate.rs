use vstd::prelude::*;

verus! {

/// Playback rate of one channel relative to the master tempo: `Div(n)` makes
/// the channel `n` times slower than a unity-rate beat, `Mult(n)` makes it
/// `n` times faster.
#[derive(Clone, Copy, Debug, PartialEq, Eq, Structural)]
pub enum Rate {
    Div(u32),
    Unity,
    Mult(u32),
}

/// Master ticks per unity-rate beat: 10 pulse-width steps times the largest
/// rate multiplier, chosen so that every supported rate yields a whole number
/// of ticks per channel period.
pub const RESOLUTION: u32 = 1920;

/// The rate factors the module supports, the same set for `Div` and `Mult`.
pub open spec fn valid_factor(n: u32) -> bool {
    n == 2 || n == 3 || n == 4 || n == 5 || n == 8 || n == 16 || n == 32 || n == 64
}

/// The table of all rates, ordered from slowest (`Div(64)`) to fastest
/// (`Mult(64)`); positions run from 0 to 16.
pub open spec fn rate_at(i: int) -> Rate {
    if i <= 0 {
        Rate::Div(64)
    } else if i == 1 {
        Rate::Div(32)
    } else if i == 2 {
        Rate::Div(16)
    } else if i == 3 {
        Rate::Div(8)
    } else if i == 4 {
        Rate::Div(5)
    } else if i == 5 {
        Rate::Div(4)
    } else if i == 6 {
        Rate::Div(3)
    } else if i == 7 {
        Rate::Div(2)
    } else if i == 8 {
        Rate::Unity
    } else if i == 9 {
        Rate::Mult(2)
    } else if i == 10 {
        Rate::Mult(3)
    } else if i == 11 {
        Rate::Mult(4)
    } else if i == 12 {
        Rate::Mult(5)
    } else if i == 13 {
        Rate::Mult(8)
    } else if i == 14 {
        Rate::Mult(16)
    } else if i == 15 {
        Rate::Mult(32)
    } else {
        Rate::Mult(64)
    }
}

impl Rate {
    pub open spec fn wf(self) -> bool {
        match self {
            Rate::Div(n) => valid_factor(n),
            Rate::Unity => true,
            Rate::Mult(n) => valid_factor(n),
        }
    }

    /// Position of this rate in the slow-to-fast table.
    pub open spec fn position(self) -> int {
        match self {
            Rate::Div(n) => (
                if n == 64 {
                    0int
                } else if n == 32 {
                    1
                } else if n == 16 {
                    2
                } else if n == 8 {
                    3
                } else if n == 5 {
                    4
                } else if n == 4 {
                    5
                } else if n == 3 {
                    6
                } else {
                    7
                }
            ),
            Rate::Unity => 8,
            Rate::Mult(n) => (
                if n == 2 {
                    9int
                } else if n == 3 {
                    10
                } else if n == 4 {
                    11
                } else if n == 5 {
                    12
                } else if n == 8 {
                    13
                } else if n == 16 {
                    14
                } else if n == 32 {
                    15
                } else {
                    16
                }
            ),
        }
    }

    /// The next faster rate, or `None` at the fast end of the table.
    pub open spec fn spec_next(self) -> Option<Rate> {
        if self.position() < 16 {
            Some(rate_at(self.position() + 1))
        } else {
            None
        }
    }

    /// The next slower rate, or `None` at the slow end of the table.
    pub open spec fn spec_prev(self) -> Option<Rate> {
        if self.position() > 0 {
            Some(rate_at(self.position() - 1))
        } else {
            None
        }
    }

    pub fn next(&self) -> (r: Option<Rate>)
        requires
            self.wf(),
        ensures
            r == self.spec_next(),
    {
        match *self {
            Rate::Div(n) => {
                if n == 64 {
                    Some(Rate::Div(32))
                } else if n == 32 {
                    Some(Rate::Div(16))
                } else if n == 16 {
                    Some(Rate::Div(8))
                } else if n == 8 {
                    Some(Rate::Div(5))
                } else if n == 5 {
                    Some(Rate::Div(4))
                } else if n == 4 {
                    Some(Rate::Div(3))
                } else if n == 3 {
                    Some(Rate::Div(2))
                } else {
                    Some(Rate::Unity)
                }
            },
            Rate::Unity => Some(Rate::Mult(2)),
            Rate::Mult(n) => {
                if n == 2 {
                    Some(Rate::Mult(3))
                } else if n == 3 {
                    Some(Rate::Mult(4))
                } else if n == 4 {
                    Some(Rate::Mult(5))
                } else if n == 5 {
                    Some(Rate::Mult(8))
                } else if n == 8 {
                    Some(Rate::Mult(16))
                } else if n == 16 {
                    Some(Rate::Mult(32))
                } else if n == 32 {
                    Some(Rate::Mult(64))
                } else {
                    None
                }
            },
        }
    }

    pub fn prev(&self) -> (r: Option<Rate>)
        requires
            self.wf(),
        ensures
            r == self.spec_prev(),
    {
        match *self {
            Rate::Div(n) => {
                if n == 64 {
                    None
                } else if n == 32 {
                    Some(Rate::Div(64))
                } else if n == 16 {
                    Some(Rate::Div(32))
                } else if n == 8 {
                    Some(Rate::Div(16))
                } else if n == 5 {
                    Some(Rate::Div(8))
                } else if n == 4 {
                    Some(Rate::Div(5))
                } else if n == 3 {
                    Some(Rate::Div(4))
                } else {
                    Some(Rate::Div(3))
                }
            },
            Rate::Unity => Some(Rate::Div(2)),
            Rate::Mult(n) => {
                if n == 2 {
                    Some(Rate::Unity)
                } else if n == 3 {
                    Some(Rate::Mult(2))
                } else if n == 4 {
                    Some(Rate::Mult(3))
                } else if n == 5 {
                    Some(Rate::Mult(4))
                } else if n == 8 {
                    Some(Rate::Mult(5))
                } else if n == 16 {
                    Some(Rate::Mult(8))
                } else if n == 32 {
                    Some(Rate::Mult(16))
                } else {
                    Some(Rate::Mult(32))
                }
            },
        }
    }
}

impl Rate {
    /// Master ticks per channel period: `Div(n)` stretches the unity period
    /// by `n`, `Mult(n)` shrinks it by `n`.
    pub open spec fn spec_period_ticks(self) -> int {
        match self {
            Rate::Div(n) => RESOLUTION * n,
            Rate::Unity => RESOLUTION as int,
            Rate::Mult(n) => RESOLUTION as int / n as int,
        }
    }

    /// The channel period this rate yields, in master ticks.
    pub fn period_ticks(&self) -> (r: u32)
        requires
            self.wf(),
        ensures
            r == self.spec_period_ticks(),
            1 <= r <= 122_880,
    {
        match *self {
            Rate::Div(n) => RESOLUTION * n,
            Rate::Unity => RESOLUTION,
            Rate::Mult(n) => RESOLUTION / n,
        }
    }
}

/// Every supported rate divides the master resolution without remainder:
/// the channel period is a whole number of ticks, and multiplying it back
/// by the rate factor recovers `RESOLUTION` exactly.
pub proof fn lemma_period_exact(r: Rate)
    requires
        r.wf(),
    ensures
        r.spec_period_ticks() >= 1,
        (match r {
            Rate::Div(n) => r.spec_period_ticks() == RESOLUTION * n,
            Rate::Unity => r.spec_period_ticks() == RESOLUTION,
            Rate::Mult(n) => r.spec_period_ticks() * n == RESOLUTION,
        }),
{
}

/// The short label of a rate, as shown on the channel screens: `/n` for a
/// division, `xn` for a multiplication.
pub struct RateString(pub &'static str);

impl RateString {
    pub fn of(val: &Rate) -> (r: RateString)
        requires
            val.wf(),
        ensures
            (match *val {
                Rate::Div(n) => (if n == 64 {
                    r.0@ == "/64"@
                } else if n == 32 {
                    r.0@ == "/32"@
                } else if n == 16 {
                    r.0@ == "/16"@
                } else if n == 8 {
                    r.0@ == "/8"@
                } else if n == 5 {
                    r.0@ == "/5"@
                } else if n == 4 {
                    r.0@ == "/4"@
                } else if n == 3 {
                    r.0@ == "/3"@
                } else {
                    r.0@ == "/2"@
                }),
                Rate::Unity => r.0@ == "x1"@,
                Rate::Mult(n) => (if n == 64 {
                    r.0@ == "x64"@
                } else if n == 32 {
                    r.0@ == "x32"@
                } else if n == 16 {
                    r.0@ == "x16"@
                } else if n == 8 {
                    r.0@ == "x8"@
                } else if n == 5 {
                    r.0@ == "x5"@
                } else if n == 4 {
                    r.0@ == "x4"@
                } else if n == 3 {
                    r.0@ == "x3"@
                } else {
                    r.0@ == "x2"@
                }),
            }),
    {
        match *val {
            Rate::Div(n) => {
                if n == 64 {
                    RateString("/64")
                } else if n == 32 {
                    RateString("/32")
                } else if n == 16 {
                    RateString("/16")
                } else if n == 8 {
                    RateString("/8")
                } else if n == 5 {
                    RateString("/5")
                } else if n == 4 {
                    RateString("/4")
                } else if n == 3 {
                    RateString("/3")
                } else {
                    RateString("/2")
                }
            },
            Rate::Unity => RateString("x1"),
            Rate::Mult(n) => {
                if n == 64 {
                    RateString("x64")
                } else if n == 32 {
                    RateString("x32")
                } else if n == 16 {
                    RateString("x16")
                } else if n == 8 {
                    RateString("x8")
                } else if n == 5 {
                    RateString("x5")
                } else if n == 4 {
                    RateString("x4")
                } else if n == 3 {
                    RateString("x3")
                } else {
                    RateString("x2")
                }
            },
        }
    }
}

/// Stepping to the neighbouring rate and back returns the starting rate;
/// at either end of the table the outward step reports no change instead
/// of wrapping around.
pub proof fn lemma_rate_next_prev(r: Rate)
    requires
        r.wf(),
    ensures
        (match r.spec_prev() {
            Some(p) => p.wf() && p.spec_next() == Some(r),
            None => r == Rate::Div(64u32),
        }),
        (match r.spec_next() {
            Some(x) => x.wf() && x.spec_prev() == Some(r),
            None => r == Rate::Mult(64u32),
        }),
{
}

} // verus!
