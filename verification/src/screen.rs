use vstd::prelude::*;

use crate::output::Output;
use crate::output_type::OutputType;

verus! {

/// What the display shows: the home page or one channel's page, the latter
/// remembering which mode that channel was in.
#[derive(Clone, Copy, Debug, PartialEq, Eq, Structural)]
pub enum Screen {
    Home,
    Output(Output, OutputType),
}

impl Screen {
    /// Whether this screen shows the given output in Euclidean mode.
    pub fn is_euclid(&self, current_output: Output) -> (r: bool)
        ensures
            r == (match *self {
                Screen::Output(output, output_type) => output == current_output && output_type
                    == OutputType::Euclid,
                Screen::Home => false,
            }),
    {
        if let Screen::Output(output, output_type) = self {
            if current_output == *output {
                matches!(output_type, OutputType::Euclid)
            } else {
                false
            }
        } else {
            false
        }
    }
}

} // verus!
