use vstd::prelude::*;

use crate::key::Key;

verus! {

/// No key occurs twice in `owners`.
pub open spec fn owners_distinct(owners: Seq<Key>) -> bool {
    forall|i: int, j: int| 0 <= i < j < owners.len() ==> owners[i]@ != owners[j]@
}

/// `k` is one of `owners`.
pub open spec fn is_owner(owners: Seq<Key>, k: Key) -> bool {
    exists|i: int| 0 <= i < owners.len() && owners[i]@ == k@
}

/// The position of `k` in `owners`; meaningful where `is_owner(owners, k)` holds and
/// the owners are distinct, so that the position is the only one.
pub open spec fn owner_position(owners: Seq<Key>, k: Key) -> int {
    choose|i: int| 0 <= i < owners.len() && owners[i]@ == k@
}

/// The number of `true` entries in an approval bitmap.
pub open spec fn count_true(s: Seq<bool>) -> nat
    decreases s.len(),
{
    if s.len() == 0 {
        0
    } else {
        count_true(s.drop_last()) + if s.last() {
            1nat
        } else {
            0nat
        }
    }
}

/// The bitmap of a fresh proposal: `n` entries, only the one at `i` set.
pub open spec fn single_approval(n: nat, i: int) -> Seq<bool> {
    Seq::new(n, |j: int| j == i)
}

/// With distinct owners, an owner's position is the one place that holds its key.
pub proof fn lemma_owner_position_unique(owners: Seq<Key>, k: Key, i: int)
    requires
        owners_distinct(owners),
        0 <= i < owners.len(),
        owners[i]@ == k@,
    ensures
        is_owner(owners, k),
        owner_position(owners, k) == i,
{
    assert(is_owner(owners, k));
    let p = owner_position(owners, k);
    if p < i {
        assert(owners[p]@ != owners[i]@);
    } else if i < p {
        assert(owners[i]@ != owners[p]@);
    }
}

/// A wallet: the owners that control it, how many of them must approve a
/// proposal, and the counters that give proposals their identity.
#[derive(Clone, Debug, PartialEq, Eq)]
pub struct MultisigWalletState {
    /// The index the wallet was created under.
    pub idx: u64,
    /// The wallet's identity, which its proposals refer to.
    pub address: Key,
    /// The owners; a proposal's approval bitmap is indexed like this list.
    pub owners: Vec<Key>,
    /// How many owners must approve before a proposal may run.
    pub threshold: u64,
    /// The id the next proposal will get.
    pub proposal_counter: u64,
    /// Changes whenever the owners or the threshold change.
    pub owner_set_version: u64,
}

impl MultisigWalletState {
    /// The wallet's invariant: distinct owners, at least one, and a threshold
    /// between one and the number of owners.
    pub open spec fn wf(&self) -> bool {
        &&& owners_distinct(self.owners@)
        &&& self.owners@.len() > 0
        &&& 1 <= self.threshold <= self.owners@.len()
    }
}

/// A proposal to move `amount` from a wallet to `to`.
#[derive(Clone, Debug, PartialEq, Eq)]
pub struct TransactionState {
    /// The identity of the wallet the proposal belongs to.
    pub multisig_wallet_address: Key,
    /// The wallet's proposal counter when the proposal was made.
    pub proposal_id: u64,
    /// Where the amount goes.
    pub to: Key,
    /// How much is to be moved.
    pub amount: u64,
    /// `approvers[i]` is true once the wallet's owner at `i` has approved.
    pub approvers: Vec<bool>,
    /// The wallet's owner-set version when the proposal was made.
    pub owner_set_version: u64,
    /// Set once the proposal has run; it never runs again.
    pub did_execute: bool,
}

impl TransactionState {
    /// The proposal was made under `w` as `w` stands now: same wallet, same owner set.
    pub open spec fn current_for(&self, w: MultisigWalletState) -> bool {
        &&& self.multisig_wallet_address@ == w.address@
        &&& self.owner_set_version == w.owner_set_version
    }

    /// What holds between a proposal and a wallet: where the proposal is current
    /// for the wallet, its bitmap has one entry per owner.
    pub open spec fn agrees_with(&self, w: MultisigWalletState) -> bool {
        self.current_for(w) ==> self.approvers@.len() == w.owners@.len()
    }

    /// How many owners have approved.
    pub open spec fn approval_count(&self) -> nat {
        count_true(self.approvers@)
    }
}

} // verus!
