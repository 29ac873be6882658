//! Opaque references to agents and nests.

use vstd::prelude::*;

verus! {

/// A reference to an agent or a nest that lives outside this library.
///
/// The library stores handles and compares them; it never looks behind one, and it
/// does not ask whether the thing referred to still exists.
#[derive(Clone, Copy, Debug, PartialEq, Eq, Structural, Hash)]
pub struct Handle(pub u64);

impl Handle {
    pub fn new(bits: u64) -> (h: Handle)
        ensures
            h == Handle(bits),
    {
        Handle(bits)
    }

    /// The number that identifies what the handle refers to.
    pub fn bits(self) -> (b: u64)
        ensures
            b == self.0,
    {
        self.0
    }
}

} // verus!
