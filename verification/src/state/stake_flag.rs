//! Flags of a delegated stake account.
use vstd::prelude::*;

verus! {

/// Flag bits kept beside a delegation.
#[derive(Clone, Copy, Debug, PartialEq, Eq, Structural)]
pub struct StakeFlags {
    pub bits: u8,
}

impl StakeFlags {
    /// No flag set.
    pub fn empty() -> (r: Self)
        ensures
            r.bits == 0,
    {
        Self { bits: 0 }
    }

    /// The flags set in either.
    pub fn union(self, other: Self) -> (r: Self)
        ensures
            r.bits == self.bits | other.bits,
    {
        Self { bits: self.bits | other.bits }
    }
}

} // verus!
