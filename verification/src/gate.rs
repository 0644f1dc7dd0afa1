use vstd::prelude::*;

verus! {

/// One of the four gate pins, as named by the output hardware.
#[derive(Clone, Copy, Debug, PartialEq, Eq, Hash, Structural)]
pub enum Gate {
    A,
    B,
    C,
    D,
}

impl Gate {
    pub open spec fn spec_index(self) -> int {
        match self {
            Gate::A => 0,
            Gate::B => 1,
            Gate::C => 2,
            Gate::D => 3,
        }
    }

    /// The channel index of this gate.
    pub fn index(&self) -> (r: usize)
        ensures
            r == self.spec_index(),
    {
        match *self {
            Gate::A => 0,
            Gate::B => 1,
            Gate::C => 2,
            Gate::D => 3,
        }
    }
}

} // verus!
