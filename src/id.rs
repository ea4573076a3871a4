use vstd::prelude::*;

verus! {

/// Identifier of a node, unique within a simulation.
#[derive(PartialEq, Eq, Structural, Clone, Copy, Debug, Hash)]
pub struct Id(pub u32);

impl Id {
    /// The raw number behind the identifier.
    pub fn value(&self) -> (r: u32)
        ensures
            r == self.0,
    {
        self.0
    }
}

} // verus!
