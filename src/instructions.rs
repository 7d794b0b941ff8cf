use vstd::prelude::*;

use crate::checks::{assert_unique_owners, count_approvals, owner_index, transfer_lamports};
use crate::error::MultiSigError;
use crate::key::Key;
use crate::state::{
    is_owner, lemma_owner_position_unique, owner_position, owners_distinct, single_approval,
    MultisigWalletState, TransactionState,
};

verus! {

/// What creating a wallet is given besides its owners and threshold: the identity
/// of the record that will hold it.
#[derive(Clone, Copy, Debug)]
pub struct InitializeNewMultisigWallet {
    pub multisig_wallet_address: Key,
}

/// The records a proposal is made against: the wallet and the caller.
#[derive(Clone, Debug)]
pub struct ProposeTransaction {
    pub multisig_wallet_account: MultisigWalletState,
    pub proposer: Key,
}

/// The records an approval is made against: the wallet, the proposal and the caller.
#[derive(Clone, Debug)]
pub struct ApproveTransaction {
    pub multisig_wallet_account: MultisigWalletState,
    pub transaction_account: TransactionState,
    pub approver: Key,
}

/// The records an execution is made against: the wallet, the proposal, the
/// balance the wallet controls and the balance of the proposal's destination.
#[derive(Clone, Debug)]
pub struct ExecuteTransaction {
    pub multisig_wallet_account: MultisigWalletState,
    pub transaction_account: TransactionState,
    pub wallet_lamports: u64,
    pub recipient_lamports: u64,
}

/// Why a wallet with these owners and this threshold cannot be created, if it cannot.
pub open spec fn create_error(owners: Seq<Key>, threshold: u64) -> Option<MultiSigError> {
    if !owners_distinct(owners) {
        Some(MultiSigError::DuplicateOwner)
    } else if owners.len() == 0 {
        Some(MultiSigError::EmptyOwnerSet)
    } else if threshold < 1 || threshold > owners.len() {
        Some(MultiSigError::InvalidThreshold)
    } else {
        None
    }
}

/// Why a proposal cannot be made, if it cannot.
pub open spec fn propose_error(c: ProposeTransaction) -> Option<MultiSigError> {
    let w = c.multisig_wallet_account;
    if !is_owner(w.owners@, c.proposer) {
        Some(MultiSigError::UnauthorizedCaller)
    } else if w.proposal_counter == u64::MAX {
        Some(MultiSigError::ArithmeticOverflow)
    } else {
        None
    }
}

/// The outcome of a proposal for `to` and `amount` made in `pre`: on success the
/// wallet's counter moves on by one, the other records stay, and `r` holds the new
/// proposal, approved by the proposer alone; on failure nothing changes.
pub open spec fn propose_outcome(
    pre: ProposeTransaction,
    post: ProposeTransaction,
    to: Key,
    amount: u64,
    r: Result<TransactionState, MultiSigError>,
) -> bool {
    let w = pre.multisig_wallet_account;
    match propose_error(pre) {
        Some(e) => r == Err::<TransactionState, MultiSigError>(e) && post == pre,
        None => {
            &&& post == (ProposeTransaction {
                multisig_wallet_account: MultisigWalletState {
                    proposal_counter: (w.proposal_counter + 1) as u64,
                    ..w
                },
                ..pre
            })
            &&& r matches Ok(t) && t == (TransactionState {
                multisig_wallet_address: w.address,
                proposal_id: w.proposal_counter,
                to,
                amount,
                approvers: t.approvers,
                owner_set_version: w.owner_set_version,
                did_execute: false,
            }) && t.approvers@ == single_approval(
                w.owners@.len(),
                owner_position(w.owners@, pre.proposer),
            )
        },
    }
}

/// Why an approval cannot be recorded, if it cannot.
pub open spec fn approve_error(c: ApproveTransaction) -> Option<MultiSigError> {
    let w = c.multisig_wallet_account;
    let t = c.transaction_account;
    if t.multisig_wallet_address@ != w.address@ {
        Some(MultiSigError::WalletMismatch)
    } else if !is_owner(w.owners@, c.approver) {
        Some(MultiSigError::UnauthorizedCaller)
    } else if t.did_execute {
        Some(MultiSigError::AlreadyExecuted)
    } else if t.owner_set_version != w.owner_set_version {
        Some(MultiSigError::StaleMandate)
    } else {
        None
    }
}

/// The outcome of an approval made in `pre`: on success the approver's entry of the
/// bitmap is set and nothing else changes; on failure nothing changes.
pub open spec fn approve_outcome(
    pre: ApproveTransaction,
    post: ApproveTransaction,
    r: Result<(), MultiSigError>,
) -> bool {
    let w = pre.multisig_wallet_account;
    let t = pre.transaction_account;
    match approve_error(pre) {
        Some(e) => r == Err::<(), MultiSigError>(e) && post == pre,
        None => {
            &&& r == Ok::<(), MultiSigError>(())
            &&& post == (ApproveTransaction {
                transaction_account: TransactionState {
                    approvers: post.transaction_account.approvers,
                    ..t
                },
                ..pre
            })
            &&& post.transaction_account.approvers@ == t.approvers@.update(
                owner_position(w.owners@, pre.approver),
                true,
            )
        },
    }
}

/// Why a proposal cannot be executed, if it cannot; the checks come in this order.
pub open spec fn execute_error(c: ExecuteTransaction) -> Option<MultiSigError> {
    let w = c.multisig_wallet_account;
    let t = c.transaction_account;
    if t.did_execute {
        Some(MultiSigError::AlreadyExecuted)
    } else if t.multisig_wallet_address@ != w.address@ {
        Some(MultiSigError::WalletMismatch)
    } else if t.owner_set_version != w.owner_set_version {
        Some(MultiSigError::StaleMandate)
    } else if t.approval_count() < w.threshold {
        Some(MultiSigError::InsufficientApprovals)
    } else if t.amount > c.wallet_lamports {
        Some(MultiSigError::InsufficientFunds)
    } else if c.recipient_lamports + t.amount > u64::MAX {
        Some(MultiSigError::ArithmeticOverflow)
    } else {
        None
    }
}

/// The outcome of executing in `pre`: on success the amount has moved from the
/// wallet's balance to the recipient's and the proposal is marked executed, all at
/// once; on failure nothing changes.
pub open spec fn execute_outcome(
    pre: ExecuteTransaction,
    post: ExecuteTransaction,
    r: Result<(), MultiSigError>,
) -> bool {
    let t = pre.transaction_account;
    match execute_error(pre) {
        Some(e) => r == Err::<(), MultiSigError>(e) && post == pre,
        None => {
            &&& r == Ok::<(), MultiSigError>(())
            &&& post == (ExecuteTransaction {
                transaction_account: TransactionState { did_execute: true, ..t },
                wallet_lamports: (pre.wallet_lamports - t.amount) as u64,
                recipient_lamports: (pre.recipient_lamports + t.amount) as u64,
                ..pre
            })
        },
    }
}

/// Creates a wallet controlled by `owners`, of whom `threshold` must approve a
/// proposal, with both counters at zero.
pub fn initialize_new_multisig_wallet(
    ctx: &InitializeNewMultisigWallet,
    wallet_idx: u64,
    owners: Vec<Key>,
    threshold: u64,
) -> (r: Result<MultisigWalletState, MultiSigError>)
    ensures
        r is Ok <==> owners_distinct(owners@) && owners@.len() > 0 && 1 <= threshold
            <= owners@.len(),
        r matches Err(e) ==> create_error(owners@, threshold) == Some(e),
        r matches Ok(w) ==> {
            &&& w.wf()
            &&& w.idx == wallet_idx
            &&& w.address == ctx.multisig_wallet_address
            &&& w.owners@ == owners@
            &&& w.threshold == threshold
            &&& w.proposal_counter == 0
            &&& w.owner_set_version == 0
        },
{
    if let Err(e) = assert_unique_owners(owners.as_slice()) {
        return Err(e);
    }
    if owners.len() == 0 {
        return Err(MultiSigError::EmptyOwnerSet);
    }
    if threshold == 0 || threshold > owners.len() as u64 {
        return Err(MultiSigError::InvalidThreshold);
    }
    Ok(
        MultisigWalletState {
            idx: wallet_idx,
            address: ctx.multisig_wallet_address,
            owners,
            threshold,
            proposal_counter: 0,
            owner_set_version: 0,
        },
    )
}

/// Runs a proposal once enough owners have approved it: moves its amount from the
/// wallet's balance to the recipient's and marks it executed, or changes nothing
/// and says why, checking in the order `execute_error` gives.
pub fn execute_transaction(ctx: &mut ExecuteTransaction) -> (r: Result<(), MultiSigError>)
    ensures
        execute_outcome(*old(ctx), *final(ctx), r),
{
    if ctx.transaction_account.did_execute {
        return Err(MultiSigError::AlreadyExecuted);
    }
    if !ctx.transaction_account.multisig_wallet_address.same_as(
        &ctx.multisig_wallet_account.address,
    ) {
        return Err(MultiSigError::WalletMismatch);
    }
    if ctx.transaction_account.owner_set_version != ctx.multisig_wallet_account.owner_set_version {
        return Err(MultiSigError::StaleMandate);
    }
    let sig_count = count_approvals(&ctx.transaction_account.approvers);
    if sig_count < ctx.multisig_wallet_account.threshold {
        return Err(MultiSigError::InsufficientApprovals);
    }
    let amount = ctx.transaction_account.amount;
    if ctx.wallet_lamports < amount {
        return Err(MultiSigError::InsufficientFunds);
    }
    if let Err(e) = transfer_lamports(&mut ctx.wallet_lamports, &mut ctx.recipient_lamports, amount) {
        return Err(e);
    }
    ctx.transaction_account.did_execute = true;
    Ok(())
}

/// Makes a proposal to send `amount` to `to`, approved by the proposer, with the
/// wallet's counter as its id; the counter then moves on by one.
pub fn propose_transaction(ctx: &mut ProposeTransaction, to: Key, amount: u64) -> (r: Result<
    TransactionState,
    MultiSigError,
>)
    requires
        old(ctx).multisig_wallet_account.wf(),
    ensures
        propose_outcome(*old(ctx), *final(ctx), to, amount, r),
        final(ctx).multisig_wallet_account.wf(),
        r matches Ok(t) ==> t.agrees_with(final(ctx).multisig_wallet_account),
{
    let position = match owner_index(&ctx.multisig_wallet_account.owners, &ctx.proposer) {
        Some(i) => i,
        None => return Err(MultiSigError::UnauthorizedCaller),
    };
    if ctx.multisig_wallet_account.proposal_counter == u64::MAX {
        return Err(MultiSigError::ArithmeticOverflow);
    }
    proof {
        lemma_owner_position_unique(
            ctx.multisig_wallet_account.owners@,
            ctx.proposer,
            position as int,
        );
    }
    let n = ctx.multisig_wallet_account.owners.len();
    let mut approvers: Vec<bool> = Vec::new();
    let mut j: usize = 0;
    while j < n
        invariant
            j <= n,
            approvers@ =~= single_approval(n as nat, position as int).subrange(0, j as int),
        decreases n - j,
    {
        approvers.push(j == position);
        j = j + 1;
    }
    assert(approvers@ =~= single_approval(n as nat, position as int));
    let wallet = &mut ctx.multisig_wallet_account;
    let transaction = TransactionState {
        multisig_wallet_address: wallet.address,
        proposal_id: wallet.proposal_counter,
        to,
        amount,
        approvers,
        owner_set_version: wallet.owner_set_version,
        did_execute: false,
    };
    wallet.proposal_counter = wallet.proposal_counter + 1;
    Ok(transaction)
}

/// Records the caller's approval of a proposal. Approving again is no error and
/// changes nothing.
pub fn approve_transaction(ctx: &mut ApproveTransaction) -> (r: Result<(), MultiSigError>)
    requires
        old(ctx).multisig_wallet_account.wf(),
        old(ctx).transaction_account.agrees_with(old(ctx).multisig_wallet_account),
    ensures
        approve_outcome(*old(ctx), *final(ctx), r),
        final(ctx).transaction_account.agrees_with(final(ctx).multisig_wallet_account),
{
    if !ctx.transaction_account.multisig_wallet_address.same_as(
        &ctx.multisig_wallet_account.address,
    ) {
        return Err(MultiSigError::WalletMismatch);
    }
    let position = match owner_index(&ctx.multisig_wallet_account.owners, &ctx.approver) {
        Some(i) => i,
        None => return Err(MultiSigError::UnauthorizedCaller),
    };
    if ctx.transaction_account.did_execute {
        return Err(MultiSigError::AlreadyExecuted);
    }
    if ctx.transaction_account.owner_set_version != ctx.multisig_wallet_account.owner_set_version {
        return Err(MultiSigError::StaleMandate);
    }
    proof {
        lemma_owner_position_unique(
            ctx.multisig_wallet_account.owners@,
            ctx.approver,
            position as int,
        );
    }
    ctx.transaction_account.approvers.set(position, true);
    Ok(())
}

} // verus!
