//! The accounts that an instruction receives, as plain values.
use vstd::prelude::*;

use crate::pubkey::Pubkey;

verus! {

/// One account passed to an instruction: its address, owning program,
/// balance, data, and whether it signed and may be written.
#[derive(Debug)]
pub struct AccountInfo {
    pub key: Pubkey,
    pub owner: Pubkey,
    pub lamports: u64,
    pub data: Vec<u8>,
    pub is_signer: bool,
    pub is_writable: bool,
}

/// An account as a mathematical value.
pub struct AccountState {
    pub key: Pubkey,
    pub owner: Pubkey,
    pub lamports: u64,
    pub data: Seq<u8>,
    pub is_signer: bool,
    pub is_writable: bool,
}

impl View for AccountInfo {
    type V = AccountState;

    open spec fn view(&self) -> AccountState {
        AccountState {
            key: self.key,
            owner: self.owner,
            lamports: self.lamports,
            data: self.data@,
            is_signer: self.is_signer,
            is_writable: self.is_writable,
        }
    }
}

/// `a` with balance `lamports`.
pub open spec fn with_lamports(a: AccountState, lamports: u64) -> AccountState {
    AccountState { lamports: lamports, ..a }
}

/// `a` with data `data`.
pub open spec fn with_data(a: AccountState, data: Seq<u8>) -> AccountState {
    AccountState { data: data, ..a }
}

/// The addresses of the accounts that signed, in order.
pub open spec fn signer_keys(accs: Seq<AccountState>) -> Seq<Pubkey>
    decreases accs.len(),
{
    if accs.len() == 0 {
        Seq::empty()
    } else {
        let rest = signer_keys(accs.drop_last());
        if accs.last().is_signer {
            rest.push(accs.last().key)
        } else {
            rest
        }
    }
}

/// Whether an account with address `k` signed.
pub open spec fn signed_by(accs: Seq<AccountState>, k: Pubkey) -> bool {
    exists|i: int| 0 <= i < accs.len() && accs[i].is_signer && accs[i].key == k
}

/// The signer list holds exactly the addresses of the accounts that signed.
pub proof fn lemma_signer_keys_contains(accs: Seq<AccountState>, k: Pubkey)
    ensures
        signer_keys(accs).contains(k) <==> signed_by(accs, k),
    decreases accs.len(),
{
    if accs.len() > 0 {
        let init = accs.drop_last();
        lemma_signer_keys_contains(init, k);
        if signed_by(init, k) {
            let i = choose|i: int| 0 <= i < init.len() && init[i].is_signer && init[i].key == k;
            assert(accs[i] == init[i]);
        }
        if signed_by(accs, k) && !signed_by(init, k) {
            let i = choose|i: int| 0 <= i < accs.len() && accs[i].is_signer && accs[i].key == k;
            if i < init.len() {
                assert(init[i] == accs[i]);
            }
            assert(i == accs.len() - 1);
        }
        if signer_keys(accs).contains(k) && accs.last().is_signer && !signer_keys(init).contains(k) {
            let j = choose|j: int| 0 <= j < signer_keys(accs).len() && signer_keys(accs)[j] == k;
            assert(j == signer_keys(init).len());
            assert(accs.last().key == k);
            assert(signed_by(accs, k)) by {
                assert(accs[accs.len() - 1].is_signer && accs[accs.len() - 1].key == k);
            }
        }
        if signer_keys(init).contains(k) {
            let j = choose|j: int| 0 <= j < signer_keys(init).len() && signer_keys(init)[j] == k;
            if accs.last().is_signer {
                assert(signer_keys(accs)[j] == k);
            }
        }
        if accs.last().is_signer && accs.last().key == k {
            assert(signer_keys(accs)[signer_keys(init).len() as int] == k);
        }
    }
}

/// Accounts with the same addresses and signatures have the same signers.
pub proof fn lemma_signer_keys_same(a: Seq<AccountState>, b: Seq<AccountState>)
    requires
        a.len() == b.len(),
        forall|j: int| 0 <= j < a.len() ==> #[trigger] a[j].key == b[j].key && a[j].is_signer == b[j].is_signer,
    ensures
        signer_keys(a) == signer_keys(b),
    decreases a.len(),
{
    if a.len() > 0 {
        let (a0, b0) = (a.drop_last(), b.drop_last());
        assert forall|j: int| 0 <= j < a0.len() implies #[trigger] a0[j].key == b0[j].key && a0[j].is_signer
            == b0[j].is_signer by {
            assert(a0[j] == a[j] && b0[j] == b[j]);
        }
        lemma_signer_keys_same(a0, b0);
        assert(a.last().key == b.last().key && a.last().is_signer == b.last().is_signer) by {
            assert(a.last() == a[a.len() - 1] && b.last() == b[b.len() - 1]);
        }
    }
}

/// A prefix has no more signers than the whole.
pub proof fn lemma_signer_keys_prefix(accs: Seq<AccountState>, i: int)
    requires
        0 <= i <= accs.len(),
    ensures
        signer_keys(accs.subrange(0, i)).len() <= signer_keys(accs).len(),
    decreases accs.len() - i,
{
    if i < accs.len() {
        lemma_signer_keys_prefix(accs, i + 1);
        assert(accs.subrange(0, i + 1).drop_last() =~= accs.subrange(0, i));
    } else {
        assert(accs.subrange(0, i) =~= accs);
    }
}

/// The lamports that all of `accs` hold together.
pub open spec fn total_lamports(accs: Seq<AccountState>) -> int
    decreases accs.len(),
{
    if accs.len() == 0 {
        0
    } else {
        total_lamports(accs.drop_last()) + accs.last().lamports
    }
}

/// Whether `b` holds the accounts of `a` in the same order, each with the
/// same address, owner, flags and data length: only balances and data
/// contents may differ.
pub open spec fn same_layout(a: Seq<AccountState>, b: Seq<AccountState>) -> bool {
    &&& a.len() == b.len()
    &&& forall|j: int|
        #![trigger b[j]]
        0 <= j < a.len() ==> b[j].key == a[j].key && b[j].owner == a[j].owner && b[j].is_signer == a[j].is_signer
            && b[j].is_writable == a[j].is_writable && b[j].data.len() == a[j].data.len()
}

/// Replacing one account changes the total by the change of its balance.
pub proof fn lemma_total_lamports_update(accs: Seq<AccountState>, i: int, a: AccountState)
    requires
        0 <= i < accs.len(),
    ensures
        total_lamports(accs.update(i, a)) == total_lamports(accs) - accs[i].lamports + a.lamports,
    decreases accs.len(),
{
    let u = accs.update(i, a);
    if i == accs.len() - 1 {
        assert(u.drop_last() =~= accs.drop_last());
    } else {
        lemma_total_lamports_update(accs.drop_last(), i, a);
        assert(u.drop_last() =~= accs.drop_last().update(i, a));
    }
}

/// The accounts of an instruction as values.
pub open spec fn states(accounts: Seq<AccountInfo>) -> Seq<AccountState> {
    Seq::new(accounts.len(), |i: int| accounts[i]@)
}

impl AccountInfo {
    /// A copy of this account, its data included.
    pub fn duplicate(&self) -> (r: AccountInfo)
        ensures
            r@ == self@,
    {
        AccountInfo {
            key: self.key,
            owner: self.owner,
            lamports: self.lamports,
            data: vstd::slice::slice_to_vec(self.data.as_slice()),
            is_signer: self.is_signer,
            is_writable: self.is_writable,
        }
    }
}

/// A copy of every account, in order.
pub fn copy_accounts(accounts: &Vec<AccountInfo>) -> (r: Vec<AccountInfo>)
    ensures
        r@.len() == accounts@.len(),
        states(r@) == states(accounts@),
{
    let mut out: Vec<AccountInfo> = Vec::new();
    let mut i: usize = 0;
    while i < accounts.len()
        invariant
            0 <= i <= accounts@.len(),
            out@.len() == i,
            forall|j: int| 0 <= j < i ==> #[trigger] out@[j]@ == accounts@[j]@,
        decreases accounts@.len() - i,
    {
        out.push(accounts[i].duplicate());
        i = i + 1;
    }
    proof {
        assert(states(out@) =~= states(accounts@));
    }
    out
}

impl AccountInfo {
    pub fn key(&self) -> (r: &Pubkey)
        ensures
            *r == self.key,
    {
        &self.key
    }

    pub fn owner(&self) -> (r: &Pubkey)
        ensures
            *r == self.owner,
    {
        &self.owner
    }

    pub fn lamports(&self) -> (r: u64)
        ensures
            r == self.lamports,
    {
        self.lamports
    }

    pub fn data_len(&self) -> (r: usize)
        ensures
            r == self.data@.len(),
    {
        self.data.len()
    }

    pub fn is_signer(&self) -> (r: bool)
        ensures
            r == self.is_signer,
    {
        self.is_signer
    }

    pub fn is_writable(&self) -> (r: bool)
        ensures
            r == self.is_writable,
    {
        self.is_writable
    }
}

} // verus!
