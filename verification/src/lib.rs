//! A verified model of the Solana stake program: stake account states and
//! their byte layout, the stake state machine and every instruction handler,
//! run over a plain model of the accounts that an instruction receives.
use vstd::prelude::*;

pub mod bytes;
pub mod entrypoint;
pub mod error;
pub mod helpers;
pub mod instruction;
pub mod pubkey;
pub mod state;
pub mod sysvars;
pub mod vote_state;

use crate::pubkey::Pubkey;

verus! {

/// Address of the stake program (`Stake11111111111111111111111111111111111111`).
pub const ID: Pubkey = [
    6, 161, 216, 23, 145, 55, 84, 42, 152, 52, 55, 189, 254, 42, 122, 178, 85, 127, 83, 92, 138, 120,
    114, 43, 104, 164, 157, 192, 0, 0, 0, 0,
];

/// The stake program's address.
pub fn id() -> (r: Pubkey)
    ensures
        r == ID,
{
    ID
}

} // verus!
