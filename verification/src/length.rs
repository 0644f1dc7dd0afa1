use vstd::prelude::*;

verus! {

/// Number of steps in a Euclidean pattern, between 1 and 16.
#[derive(Clone, Copy, Debug, PartialEq, Eq, Structural)]
pub struct Length(pub u32);

/// Largest supported Euclidean pattern size.
pub const MAX_STEPS: u32 = 16;

impl Length {
    pub open spec fn wf(self) -> bool {
        1 <= self.0 <= MAX_STEPS
    }

    pub open spec fn spec_next(self) -> Option<Length> {
        if self.0 == MAX_STEPS {
            None
        } else {
            Some(Length((self.0 + 1) as u32))
        }
    }

    pub open spec fn spec_prev(self) -> Option<Length> {
        if self.0 == 1 {
            None
        } else {
            Some(Length((self.0 - 1) as u32))
        }
    }

    /// One step longer, saturating at `MAX_STEPS`.
    pub fn next(&self) -> (r: Option<Length>)
        requires
            self.wf(),
        ensures
            r == self.spec_next(),
    {
        if self.0 == MAX_STEPS {
            None
        } else {
            Some(Length(self.0 + 1))
        }
    }

    /// One step shorter, saturating at 1.
    pub fn prev(&self) -> (r: Option<Length>)
        requires
            self.wf(),
        ensures
            r == self.spec_prev(),
    {
        if self.0 == 1 {
            None
        } else {
            Some(Length(self.0 - 1))
        }
    }
}

} // verus!
