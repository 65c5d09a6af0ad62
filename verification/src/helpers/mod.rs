//! Shared helpers: checked arithmetic, constants.
use vstd::prelude::*;

pub mod authorize;
pub mod constant;
pub mod merge;
pub mod serialization;
pub mod utils;

use crate::error::ProgramError;

verus! {

/// `a + b`, or `InsufficientFunds` where the sum does not fit in a `u64`.
pub fn checked_add(a: u64, b: u64) -> (r: Result<u64, ProgramError>)
    ensures
        a + b <= u64::MAX ==> r == Ok::<u64, ProgramError>((a + b) as u64),
        a + b > u64::MAX ==> r == Err::<u64, ProgramError>(ProgramError::InsufficientFunds),
{
    match a.checked_add(b) {
        Some(v) => Ok(v),
        None => Err(ProgramError::InsufficientFunds),
    }
}

} // verus!
