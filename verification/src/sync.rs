use vstd::prelude::*;

verus! {

/// Tempo source: `Int` follows the stored BPM alone, `Ext` additionally lets
/// tap-tempo presses re-estimate it.
#[derive(Clone, Copy, Debug, PartialEq, Eq, Structural)]
pub enum Sync {
    Int,
    Ext,
}

impl Sync {
    pub open spec fn spec_next(self) -> Option<Sync> {
        match self {
            Sync::Int => Some(Sync::Ext),
            Sync::Ext => None,
        }
    }

    pub open spec fn spec_prev(self) -> Option<Sync> {
        match self {
            Sync::Int => None,
            Sync::Ext => Some(Sync::Int),
        }
    }

    pub fn next(&self) -> (r: Option<Sync>)
        ensures
            r == self.spec_next(),
    {
        match *self {
            Sync::Int => Some(Sync::Ext),
            Sync::Ext => None,
        }
    }

    pub fn prev(&self) -> (r: Option<Sync>)
        ensures
            r == self.spec_prev(),
    {
        match *self {
            Sync::Int => None,
            Sync::Ext => Some(Sync::Int),
        }
    }
}

} // verus!
