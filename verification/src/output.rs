use vstd::prelude::*;

verus! {

/// One of the four physical trigger outputs.
#[derive(Clone, Copy, Debug, PartialEq, Eq, Structural)]
pub enum Output {
    A,
    B,
    C,
    D,
}

impl Output {
    pub open spec fn spec_index(self) -> int {
        match self {
            Output::A => 0,
            Output::B => 1,
            Output::C => 2,
            Output::D => 3,
        }
    }

    /// The output at a channel index below 4.
    pub fn into_output(idx: usize) -> (r: Output)
        requires
            idx < 4,
        ensures
            r.spec_index() == idx,
    {
        match idx {
            0 => Output::A,
            1 => Output::B,
            2 => Output::C,
            _ => Output::D,
        }
    }

    /// The channel index of this output.
    pub fn index(&self) -> (r: usize)
        ensures
            r == self.spec_index(),
    {
        match *self {
            Output::A => 0,
            Output::B => 1,
            Output::C => 2,
            Output::D => 3,
        }
    }
}

} // verus!
