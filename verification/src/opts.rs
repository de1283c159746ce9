//! Operator-facing options that the pipeline passes on to its stages.

use vstd::prelude::*;

verus! {

/// How much subprocess output the operator wants to see.
#[derive(Clone, Copy, Debug, PartialEq, Eq, Structural)]
pub enum NoiseLevel {
    Polite,
    LoudAndProud,
    FranklyQuitePedantic,
}

impl NoiseLevel {
    /// Whether this is the most verbose setting.
    pub open spec fn is_pedantic(self) -> bool {
        self is FranklyQuitePedantic
    }

    /// Whether this is the most verbose setting.
    pub fn pedantic(self) -> (res: bool)
        ensures
            res == self.is_pedantic(),
    {
        match self {
            NoiseLevel::FranklyQuitePedantic => true,
            _ => false,
        }
    }
}

/// The build profile a stage is run with.
#[derive(Clone, Copy, Debug, PartialEq, Eq, Structural)]
pub enum Profile {
    Debug,
    Release,
}

} // verus!
