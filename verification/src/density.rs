use vstd::prelude::*;

use crate::length::MAX_STEPS;

verus! {

/// Number of active steps in a Euclidean pattern, between 1 and the pattern's
/// length; the reducer clamps it whenever the length shrinks below it.
#[derive(Clone, Copy, Debug, PartialEq, Eq, Structural)]
pub struct Density(pub u32);

impl Density {
    pub open spec fn wf(self) -> bool {
        1 <= self.0 <= MAX_STEPS
    }

    pub open spec fn spec_next(self) -> Option<Density> {
        if self.0 == MAX_STEPS {
            None
        } else {
            Some(Density((self.0 + 1) as u32))
        }
    }

    pub open spec fn spec_prev(self) -> Option<Density> {
        if self.0 == 1 {
            None
        } else {
            Some(Density((self.0 - 1) as u32))
        }
    }

    /// One active step more, saturating at `MAX_STEPS`.
    pub fn next(&self) -> (r: Option<Density>)
        requires
            self.wf(),
        ensures
            r == self.spec_next(),
    {
        if self.0 == MAX_STEPS {
            None
        } else {
            Some(Density(self.0 + 1))
        }
    }

    /// One active step fewer, saturating at 1.
    pub fn prev(&self) -> (r: Option<Density>)
        requires
            self.wf(),
        ensures
            r == self.spec_prev(),
    {
        if self.0 == 1 {
            None
        } else {
            Some(Density(self.0 - 1))
        }
    }
}

} // verus!
