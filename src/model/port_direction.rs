use vstd::prelude::*;

verus! {

/// A port's dataflow direction (either input or output).
#[derive(Clone, Copy, Debug, PartialEq, Eq, Structural, Hash, PartialOrd, Ord)]
pub enum PortDirection {
    Input,
    Output,
}

impl PortDirection {
    /// Checks whether the port is an input port.
    pub fn is_input(&self) -> (r: bool)
        ensures
            r == (*self == PortDirection::Input),
    {
        *self == PortDirection::Input
    }

    /// Checks whether the port is an output port.
    pub fn is_output(&self) -> (r: bool)
        ensures
            r == (*self == PortDirection::Output),
    {
        *self == PortDirection::Output
    }

    /// The lowercase name of this direction.
    pub open spec fn spec_str(self) -> &'static str {
        match self {
            PortDirection::Input => "input",
            PortDirection::Output => "output",
        }
    }

    /// Returns the lowercase name of this direction.
    pub fn as_str(&self) -> (r: &'static str)
        ensures
            r == self.spec_str(),
    {
        match self {
            PortDirection::Input => "input",
            PortDirection::Output => "output",
        }
    }
}

} // verus!
