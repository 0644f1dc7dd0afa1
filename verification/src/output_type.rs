use vstd::prelude::*;

verus! {

/// What drives a channel: `Gate` uses rate, pulse width and probability;
/// `Euclid` uses rate, pattern length and density.
#[derive(Clone, Copy, Debug, PartialEq, Eq, Structural)]
pub enum OutputType {
    Gate,
    Euclid,
}

impl OutputType {
    pub open spec fn spec_next(self) -> Option<OutputType> {
        match self {
            OutputType::Gate => Some(OutputType::Euclid),
            OutputType::Euclid => None,
        }
    }

    pub open spec fn spec_prev(self) -> Option<OutputType> {
        match self {
            OutputType::Gate => None,
            OutputType::Euclid => Some(OutputType::Gate),
        }
    }

    pub fn next(&self) -> (r: Option<OutputType>)
        ensures
            r == self.spec_next(),
    {
        match *self {
            OutputType::Gate => Some(OutputType::Euclid),
            OutputType::Euclid => None,
        }
    }

    pub fn prev(&self) -> (r: Option<OutputType>)
        ensures
            r == self.spec_prev(),
    {
        match *self {
            OutputType::Gate => None,
            OutputType::Euclid => Some(OutputType::Gate),
        }
    }
}

/// Single-letter label of an output type, as shown on the channel screens.
pub struct OutputTypeString(pub &'static str);

impl OutputTypeString {
    pub fn of(val: &OutputType) -> (r: OutputTypeString)
        ensures
            (match *val {
                OutputType::Gate => r.0@ == "G"@,
                OutputType::Euclid => r.0@ == "E"@,
            }),
    {
        match *val {
            OutputType::Gate => OutputTypeString("G"),
            OutputType::Euclid => OutputTypeString("E"),
        }
    }
}

} // verus!
