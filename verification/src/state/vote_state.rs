//! The part of a vote account that delegation reads.
use vstd::prelude::*;

use crate::pubkey::{Pubkey, DEFAULT_PUBKEY};

verus! {

/// Vote account fields read at delegation: node, authorized voter,
/// commission and earned credits.
#[derive(Clone, Copy, Debug)]
pub struct VoteState {
    pub node_pubkey: Pubkey,
    pub authorized_voter: Pubkey,
    pub commission: u8,
    pub credits: u64,
}

impl Default for VoteState {
    fn default() -> (r: Self)
        ensures
            r.node_pubkey == DEFAULT_PUBKEY,
            r.authorized_voter == DEFAULT_PUBKEY,
            r.commission == 0,
            r.credits == 0,
    {
        VoteState { node_pubkey: DEFAULT_PUBKEY, authorized_voter: DEFAULT_PUBKEY, commission: 0, credits: 0 }
    }
}

impl VoteState {
    pub fn credits(&self) -> (r: u64)
        ensures
            r == self.credits,
    {
        self.credits
    }
}

} // verus!
