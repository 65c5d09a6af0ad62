//! Stake history entries, the activation status of a delegation, and the
//! byte layout of the stake history sysvar.
use vstd::prelude::*;

use crate::bytes::le_u64_at;

verus! {

/// Most epochs that the stake history holds.
pub const MAX_STAKE_HISTORY_ENTRIES: usize = 512;

/// Bytes of one serialized history entry: epoch, effective, activating, deactivating.
pub const EPOCH_AND_ENTRY_SERIALIZED_SIZE: u64 = 32;

/// Cluster-wide (or one delegation's) stake at an epoch.
#[derive(Clone, Copy, Debug, PartialEq, Eq, Structural)]
pub struct StakeHistoryEntry {
    /// Effective stake.
    pub effective: u64,
    /// Stake not yet fully warmed up.
    pub activating: u64,
    /// Stake requested to cool down and not yet fully deactivated.
    pub deactivating: u64,
}

/// How much of a delegation is effective, activating and deactivating at an epoch.
pub type StakeActivationStatus = StakeHistoryEntry;

impl Default for StakeHistoryEntry {
    fn default() -> (r: Self)
        ensures
            r.effective == 0,
            r.activating == 0,
            r.deactivating == 0,
    {
        StakeHistoryEntry { effective: 0, activating: 0, deactivating: 0 }
    }
}

impl StakeHistoryEntry {
    /// In-memory size: three 8-byte fields.
    pub fn size() -> (r: usize)
        ensures
            r == 24,
    {
        24
    }

    pub fn with_effective(effective: u64) -> (r: Self)
        ensures
            r == (StakeHistoryEntry { effective: effective, activating: 0, deactivating: 0 }),
    {
        StakeHistoryEntry { effective, activating: 0, deactivating: 0 }
    }

    pub fn with_effective_and_activating(effective: u64, activating: u64) -> (r: Self)
        ensures
            r == (StakeHistoryEntry { effective: effective, activating: activating, deactivating: 0 }),
    {
        StakeHistoryEntry { effective, activating, deactivating: 0 }
    }

    /// All of `deactivating` is still effective.
    pub fn with_deactivating(deactivating: u64) -> (r: Self)
        ensures
            r == (StakeHistoryEntry { effective: deactivating, activating: 0, deactivating: deactivating }),
    {
        StakeHistoryEntry { effective: deactivating, activating: 0, deactivating }
    }

    /// The effective stake.
    pub fn effective_u64(&self) -> (r: u64)
        ensures
            r == self.effective,
    {
        self.effective
    }
}

/// A bounded list of history entries, oldest first: the first `len` slots
/// of a fixed array of 512.
pub struct StakeHistory {
    /// Fixed-size array of stake history entries.
    pub entries: [StakeHistoryEntry; MAX_STAKE_HISTORY_ENTRIES],
    /// Number of valid entries in the array.
    pub len: usize,
}

impl View for StakeHistory {
    type V = Seq<StakeHistoryEntry>;

    open spec fn view(&self) -> Seq<StakeHistoryEntry> {
        self.entries@.subrange(0, self.len as int)
    }
}

impl StakeHistory {
    /// The count of valid entries never exceeds the 512 slots.
    pub open spec fn well_formed(&self) -> bool {
        self.len <= MAX_STAKE_HISTORY_ENTRIES
    }

    /// An empty history.
    pub fn new() -> (r: Self)
        ensures
            r@ == Seq::<StakeHistoryEntry>::empty(),
            r.well_formed(),
    {
        let zero = StakeHistoryEntry { effective: 0, activating: 0, deactivating: 0 };
        StakeHistory { entries: [zero; 512], len: 0 }
    }

    /// A history read from sysvar data; the data is not read, so it is empty.
    pub fn from_account_data(_data: &[u8], _current_epoch: u64) -> (r: Self)
        ensures
            r@ == Seq::<StakeHistoryEntry>::empty(),
            r.well_formed(),
    {
        Self::new()
    }

    /// Entries held.
    pub fn len(&self) -> (r: usize)
        ensures
            r == self.len,
            self.well_formed() ==> r == self@.len(),
    {
        self.len
    }

    /// Appends an entry; fails, unchanged, once 512 entries are held.
    pub fn push(&mut self, entry: StakeHistoryEntry) -> (r: Result<(), &'static str>)
        ensures
            old(self).well_formed() ==> final(self).well_formed(),
            old(self).len < MAX_STAKE_HISTORY_ENTRIES ==> r is Ok && final(self)@ == old(self)@.push(entry),
            old(self).len >= MAX_STAKE_HISTORY_ENTRIES ==> r == Err::<(), &str>("StakeHistory is full") && *final(self) == *old(self),
    {
        if self.len >= MAX_STAKE_HISTORY_ENTRIES {
            return Err("StakeHistory is full");
        }
        let ghost before = self@;
        self.entries[self.len] = entry;
        self.len = self.len + 1;
        proof {
            assert(self@ =~= before.push(entry));
        }
        Ok(())
    }

    /// The entry at `index`, if held.
    pub fn get(&self, index: usize) -> (r: Option<&StakeHistoryEntry>)
        requires
            index < self.len ==> index < MAX_STAKE_HISTORY_ENTRIES,
        ensures
            index < self.len ==> r == Some(&self.entries@[index as int]),
            index >= self.len ==> r is None,
    {
        if index < self.len {
            Some(&self.entries[index])
        } else {
            None
        }
    }
}

/// Where in the stake history sysvar the entry for `target_epoch` lies, seen
/// at `current_epoch`: eight bytes of vector length, then one 32-byte entry
/// per epoch, newest (`current_epoch - 1`) first. `None` at epoch zero, for a
/// target older than the 512 kept epochs, and for a target not yet in the past.
pub open spec fn spec_entry_offset(current_epoch: u64, target_epoch: u64) -> Option<u64> {
    if current_epoch == 0 {
        None
    } else if target_epoch < (if current_epoch < 512 { 0 } else { current_epoch - 512 }) {
        None
    } else if target_epoch > current_epoch - 1 {
        None
    } else {
        Some((((current_epoch - 1) - target_epoch) * 32 + 8) as u64)
    }
}

/// How the stake history lays out entries: the newest kept epoch (the one
/// before the current) sits right after the 8-byte length, each older epoch
/// 32 bytes further on, and at most 512 epochs are kept, all in the past.
pub proof fn lemma_entry_offsets_step_by_entry(current_epoch: u64, target_epoch: u64)
    ensures
        current_epoch > 0 ==> spec_entry_offset(current_epoch, (current_epoch - 1) as u64) == Some(8u64),
        spec_entry_offset(current_epoch, target_epoch) is Some ==> target_epoch < current_epoch && current_epoch - target_epoch <= 512,
        spec_entry_offset(current_epoch, target_epoch) is Some && target_epoch > 0 && spec_entry_offset(current_epoch, (target_epoch - 1) as u64) is Some
            ==> spec_entry_offset(current_epoch, (target_epoch - 1) as u64)->Some_0 == spec_entry_offset(current_epoch, target_epoch)->Some_0 + 32,
        target_epoch < current_epoch && current_epoch - target_epoch <= 512 ==> spec_entry_offset(current_epoch, target_epoch) is Some,
{
}

/// Decoding a history entry reads four little-endian words: the epoch, then
/// the effective, activating and deactivating stake.
pub proof fn lemma_decode_entry_reads_words(epoch: u64, entry: StakeHistoryEntry)
    ensures
        spec_decode_entry(crate::bytes::le_bytes(epoch) + crate::bytes::le_bytes(entry.effective)
            + crate::bytes::le_bytes(entry.activating) + crate::bytes::le_bytes(entry.deactivating)) == (epoch, entry),
{
    let b = crate::bytes::le_bytes(epoch) + crate::bytes::le_bytes(entry.effective)
        + crate::bytes::le_bytes(entry.activating) + crate::bytes::le_bytes(entry.deactivating);
    crate::bytes::lemma_le_roundtrip();
    assert(b.subrange(0, 8) =~= crate::bytes::le_bytes(epoch));
    assert(b.subrange(8, 16) =~= crate::bytes::le_bytes(entry.effective));
    assert(b.subrange(16, 24) =~= crate::bytes::le_bytes(entry.activating));
    assert(b.subrange(24, 32) =~= crate::bytes::le_bytes(entry.deactivating));
}

/// The offset of `target_epoch`'s entry in the stake history sysvar.
pub fn stake_history_entry_offset(current_epoch: u64, target_epoch: u64) -> (r: Option<u64>)
    ensures
        r == spec_entry_offset(current_epoch, target_epoch),
{
    let newest_historical_epoch = match current_epoch.checked_sub(1) {
        Some(e) => e,
        None => return None,
    };
    let oldest_historical_epoch = current_epoch.saturating_sub(MAX_STAKE_HISTORY_ENTRIES as u64);
    if target_epoch < oldest_historical_epoch {
        return None;
    }
    let epoch_delta = match newest_historical_epoch.checked_sub(target_epoch) {
        Some(d) => d,
        None => return None,
    };
    let offset = epoch_delta * EPOCH_AND_ENTRY_SERIALIZED_SIZE + 8;
    Some(offset)
}

/// The epoch and entry of a 32-byte serialized history entry.
pub open spec fn spec_decode_entry(buf: Seq<u8>) -> (u64, StakeHistoryEntry) {
    (
        le_u64_at(buf, 0),
        StakeHistoryEntry {
            effective: le_u64_at(buf, 8),
            activating: le_u64_at(buf, 16),
            deactivating: le_u64_at(buf, 24),
        },
    )
}

/// Decodes a 32-byte serialized history entry.
pub fn decode_stake_history_entry(buf: &[u8; 32]) -> (r: (u64, StakeHistoryEntry))
    ensures
        r == spec_decode_entry(buf@),
{
    let s = buf.as_slice();
    (
        crate::bytes::read_u64_le(s, 0),
        StakeHistoryEntry {
            effective: crate::bytes::read_u64_le(s, 8),
            activating: crate::bytes::read_u64_le(s, 16),
            deactivating: crate::bytes::read_u64_le(s, 24),
        },
    )
}

} // verus!
