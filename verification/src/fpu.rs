//! Floating-point context state of the processor: whether a
//! floating-point context is currently active.

use vstd::prelude::*;

verus! {

/// Whether the processor allocated a floating-point context.
#[derive(Copy, Clone, Debug, PartialEq, Eq, Structural)]
pub enum Fpca {
    Active,
    Inactive,
}

impl Fpca {
    /// Whether a floating-point context is active.
    pub fn is_active(&self) -> (r: bool)
        ensures
            r == (*self == Fpca::Active),
    {
        matches!(*self, Fpca::Active)
    }

    /// Whether no floating-point context is active.
    pub fn is_inactive(&self) -> (r: bool)
        ensures
            r == (*self == Fpca::Inactive),
    {
        matches!(*self, Fpca::Inactive)
    }
}

} // verus!
