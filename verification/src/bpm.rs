use vstd::prelude::*;

verus! {

pub const MIN_BPM: u32 = 1;

pub const MAX_BPM: u32 = 300;

/// Master tempo in beats per minute, between `MIN_BPM` and `MAX_BPM`.
#[derive(Clone, Copy, Debug, PartialEq, Eq, Structural)]
pub struct Bpm(pub u32);

impl Bpm {
    pub open spec fn wf(self) -> bool {
        MIN_BPM <= self.0 <= MAX_BPM
    }

    pub open spec fn spec_next(self) -> Option<Bpm> {
        if self.0 == MAX_BPM {
            None
        } else {
            Some(Bpm((self.0 + 1) as u32))
        }
    }

    pub open spec fn spec_prev(self) -> Option<Bpm> {
        if self.0 == MIN_BPM {
            None
        } else {
            Some(Bpm((self.0 - 1) as u32))
        }
    }

    /// One beat per minute faster, saturating at `MAX_BPM`.
    pub fn next(&self) -> (r: Option<Bpm>)
        requires
            self.wf(),
        ensures
            r == self.spec_next(),
    {
        if self.0 == MAX_BPM {
            None
        } else {
            Some(Bpm(self.0 + 1))
        }
    }

    /// One beat per minute slower, saturating at `MIN_BPM`.
    pub fn prev(&self) -> (r: Option<Bpm>)
        requires
            self.wf(),
        ensures
            r == self.spec_prev(),
    {
        if self.0 == MIN_BPM {
            None
        } else {
            Some(Bpm(self.0 - 1))
        }
    }
}

} // verus!
