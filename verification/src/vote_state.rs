//! The epoch credits of a vote account.
use vstd::prelude::*;

use crate::bytes::{le_u32_at, le_u64_at, read_u32_le, read_u64_le};
use crate::error::ProgramError;
use crate::pubkey::{Pubkey, DEFAULT_PUBKEY};
use crate::state::account_info::AccountInfo;

verus! {

/// (epoch, credits, previous credits).
pub type EpochCredits = (u64, u64, u64);

/// Most epoch-credit entries kept.
pub const MAX_EPOCH_CREDITS: usize = 64;

/// What a list holding `s` holds after `ec` is pushed: `ec` appended, unless
/// 64 entries are held already.
pub open spec fn spec_push(s: Seq<EpochCredits>, ec: EpochCredits) -> Seq<EpochCredits> {
    if s.len() < MAX_EPOCH_CREDITS {
        s.push(ec)
    } else {
        s
    }
}

/// What a new list holds after `items` are pushed onto it in order.
pub open spec fn spec_push_all(items: Seq<EpochCredits>) -> Seq<EpochCredits>
    decreases items.len(),
{
    if items.len() == 0 {
        Seq::empty()
    } else {
        spec_push(spec_push_all(items.drop_last()), items.last())
    }
}

/// Pushing entries one by one onto a new list leaves it holding the first
/// 64 of them (all of them, where there are fewer), in the order pushed.
pub proof fn lemma_push_all_keeps_first(items: Seq<EpochCredits>)
    ensures
        spec_push_all(items) == items.take(if items.len() < MAX_EPOCH_CREDITS { items.len() as int } else { MAX_EPOCH_CREDITS as int }),
    decreases items.len(),
{
    if items.len() == 0 {
        assert(items.take(0) =~= Seq::<EpochCredits>::empty());
    } else {
        let init = items.drop_last();
        lemma_push_all_keeps_first(init);
        if init.len() < MAX_EPOCH_CREDITS {
            assert(init.take(init.len() as int).push(items.last()) =~= items.take(items.len() as int));
        } else {
            assert(init.take(MAX_EPOCH_CREDITS as int) =~= items.take(MAX_EPOCH_CREDITS as int));
        }
    }
}

/// A bounded list of epoch credits, oldest first.
#[derive(Debug)]
pub struct EpochCreditsList {
    items: Vec<EpochCredits>,
}

impl View for EpochCreditsList {
    type V = Seq<EpochCredits>;

    closed spec fn view(&self) -> Seq<EpochCredits> {
        self.items@
    }
}

impl EpochCreditsList {
    /// A list never holds more than 64 entries.
    pub open spec fn well_formed(&self) -> bool {
        self@.len() <= MAX_EPOCH_CREDITS
    }

    /// An empty list.
    pub fn new() -> (r: Self)
        ensures
            r@ == Seq::<EpochCredits>::empty(),
            r.well_formed(),
    {
        EpochCreditsList { items: Vec::new() }
    }

    /// Appends an entry, unless 64 are held already; says whether it did.
    pub fn push(&mut self, ec: EpochCredits) -> (r: bool)
        ensures
            r == (old(self)@.len() < MAX_EPOCH_CREDITS),
            final(self)@ == spec_push(old(self)@, ec),
            old(self).well_formed() ==> final(self).well_formed(),
    {
        if self.items.len() >= MAX_EPOCH_CREDITS {
            return false;
        }
        self.items.push(ec);
        true
    }

    /// The entries held.
    pub fn as_slice(&self) -> (r: &[EpochCredits])
        ensures
            r@ == self@,
    {
        self.items.as_slice()
    }
}

/// The `i`-th (epoch, credits, previous credits) entry after the 4-byte count.
pub open spec fn epoch_credit_at(data: Seq<u8>, i: int) -> EpochCredits {
    (le_u64_at(data, 4 + 24 * i), le_u64_at(data, 4 + 24 * i + 8), le_u64_at(data, 4 + 24 * i + 16))
}

/// What parsing epoch credits gives: a little-endian `u32` count and that
/// many 24-byte entries must be present; the first 64 entries are kept.
pub open spec fn spec_parse_epoch_credits(data: Seq<u8>) -> Option<Seq<EpochCredits>> {
    if data.len() < 4 {
        None
    } else {
        let n = le_u32_at(data, 0) as int;
        if data.len() < 4 + 24 * n {
            None
        } else {
            let kept = if n < MAX_EPOCH_CREDITS { n } else { MAX_EPOCH_CREDITS as int };
            Some(Seq::new(kept as nat, |i: int| epoch_credit_at(data, i)))
        }
    }
}

/// Parses the epoch credits of vote account data.
pub fn parse_epoch_credits(data: &[u8]) -> (r: Option<EpochCreditsList>)
    ensures
        match spec_parse_epoch_credits(data@) {
            Some(s) => r matches Some(l) && l@ == s && l.well_formed(),
            None => r is None,
        },
{
    if data.len() < 4 {
        return None;
    }
    let n = read_u32_le(data, 0) as u64;
    let need: u64 = 4 + n * 24;
    if (data.len() as u64) < need {
        return None;
    }
    let mut list = EpochCreditsList::new();
    let mut off: usize = 4;
    let mut i: u64 = 0;
    while i < n
        invariant
            0 <= i <= n,
            n < 0x1_0000_0000,
            4 + n * 24 <= data.len(),
            off == 4 + 24 * i,
            list@ == Seq::new(if i < 64 { i as nat } else { 64 }, |j: int| epoch_credit_at(data@, j)),
        decreases n - i,
    {
        proof {
            assert(24 * (i + 1) <= 24 * n) by (nonlinear_arith)
                requires
                    i + 1 <= n,
            ;
        }
        let e = read_u64_le(data, off);
        let c = read_u64_le(data, off + 8);
        let p = read_u64_le(data, off + 16);
        let ghost before = list@;
        let _ = list.push((e, c, p));
        proof {
            if i < 64 {
                assert(list@ =~= Seq::new((i + 1) as nat, |j: int| epoch_credit_at(data@, j)));
            } else {
                assert(list@ =~= Seq::new(64, |j: int| epoch_credit_at(data@, j)));
            }
        }
        off = off + 24;
        i = i + 1;
    }
    proof {
        let kept = if n < 64 { n as int } else { 64 };
        assert(list@ =~= Seq::new(kept as nat, |j: int| epoch_credit_at(data@, j)));
    }
    Some(list)
}

/// Same as `parse_epoch_credits`.
pub fn parse_epoch_credits_slice(data: &[u8]) -> (r: Option<EpochCreditsList>)
    ensures
        match spec_parse_epoch_credits(data@) {
            Some(s) => r matches Some(l) && l@ == s,
            None => r is None,
        },
{
    parse_epoch_credits(data)
}

/// A vote account's epoch credits.
#[derive(Debug)]
pub struct VoteState {
    pub epoch_credits: EpochCreditsList,
}

impl VoteState {
    pub fn epoch_credits_as_slice(&self) -> (r: &[EpochCredits])
        ensures
            r@ == self.epoch_credits@,
    {
        self.epoch_credits.as_slice()
    }

    /// The vote state that account data holds; `InvalidAccountData` where
    /// its epoch credits do not parse.
    pub fn from_bytes(data: &[u8]) -> (r: Result<Self, ProgramError>)
        ensures
            match spec_parse_epoch_credits(data@) {
                Some(s) => r matches Ok(v) && v.epoch_credits@ == s,
                None => r == Err::<VoteState, ProgramError>(ProgramError::InvalidAccountData),
            },
    {
        match parse_epoch_credits(data) {
            Some(list) => Ok(VoteState { epoch_credits: list }),
            None => Err(ProgramError::InvalidAccountData),
        }
    }

    /// The vote state of a vote account.
    pub fn from_account_info(ai: &AccountInfo) -> (r: Result<Self, ProgramError>)
        ensures
            match spec_parse_epoch_credits(ai.data@) {
                Some(s) => r matches Ok(v) && v.epoch_credits@ == s,
                None => r == Err::<VoteState, ProgramError>(ProgramError::InvalidAccountData),
            },
    {
        Self::from_bytes(ai.data.as_slice())
    }
}

/// The vote program address this build checks vote accounts against; zero,
/// which turns the check off.
pub fn vote_program_id() -> (r: Pubkey)
    ensures
        r == DEFAULT_PUBKEY,
{
    DEFAULT_PUBKEY
}

} // verus!
