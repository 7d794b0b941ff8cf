use vstd::prelude::*;

use crate::error::MultiSigError;
use crate::instructions::{
    approve_outcome, execute_outcome, propose_outcome, ApproveTransaction, ExecuteTransaction,
    ProposeTransaction,
};
use crate::key::Key;
use crate::state::{lemma_owner_position_unique, owner_position, TransactionState};

verus! {

/// `calls[k]` is made against the wallet that call `k - 1` left behind, and ends in
/// `posts[k]` with `results[k]`.
pub open spec fn proposal_run(
    calls: Seq<ProposeTransaction>,
    posts: Seq<ProposeTransaction>,
    tos: Seq<Key>,
    amounts: Seq<u64>,
    results: Seq<Result<TransactionState, MultiSigError>>,
) -> bool {
    &&& posts.len() == calls.len()
    &&& tos.len() == calls.len()
    &&& amounts.len() == calls.len()
    &&& results.len() == calls.len()
    &&& forall|k: int|
        0 <= k < calls.len() ==> #[trigger] propose_outcome(
            calls[k],
            posts[k],
            tos[k],
            amounts[k],
            results[k],
        )
    &&& forall|k: int|
        0 < k < calls.len() ==> #[trigger] calls[k].multisig_wallet_account
            == posts[k - 1].multisig_wallet_account
}

/// Along a run of proposal calls, the wallet's counter never goes back.
proof fn lemma_counter_never_decreases(
    calls: Seq<ProposeTransaction>,
    posts: Seq<ProposeTransaction>,
    tos: Seq<Key>,
    amounts: Seq<u64>,
    results: Seq<Result<TransactionState, MultiSigError>>,
    a: int,
    b: int,
)
    requires
        proposal_run(calls, posts, tos, amounts, results),
        0 <= a < b < calls.len(),
    ensures
        posts[a].multisig_wallet_account.proposal_counter
            <= calls[b].multisig_wallet_account.proposal_counter,
    decreases b - a,
{
    assert(calls[b].multisig_wallet_account == posts[b - 1].multisig_wallet_account);
    if b - 1 > a {
        lemma_counter_never_decreases(calls, posts, tos, amounts, results, a, b - 1);
        assert(propose_outcome(calls[b - 1], posts[b - 1], tos[b - 1], amounts[b - 1], results[b - 1]));
    }
}

/// Proposal ids are unique and increasing: along any run of proposal calls against
/// one wallet, a proposal made later has a larger id than one made earlier.
pub proof fn lemma_proposal_ids_increase(
    calls: Seq<ProposeTransaction>,
    posts: Seq<ProposeTransaction>,
    tos: Seq<Key>,
    amounts: Seq<u64>,
    results: Seq<Result<TransactionState, MultiSigError>>,
    a: int,
    b: int,
)
    requires
        proposal_run(calls, posts, tos, amounts, results),
        0 <= a < b < calls.len(),
        results[a] is Ok,
        results[b] is Ok,
    ensures
        results[a]->Ok_0.proposal_id < results[b]->Ok_0.proposal_id,
{
    assert(propose_outcome(calls[a], posts[a], tos[a], amounts[a], results[a]));
    assert(propose_outcome(calls[b], posts[b], tos[b], amounts[b], results[b]));
    lemma_counter_never_decreases(calls, posts, tos, amounts, results, a, b);
}

/// A fresh proposal is approved by its proposer alone: if the proposer is the
/// owner at `i`, entry `i` of the bitmap is set and every other entry is clear.
pub proof fn lemma_self_approval(
    pre: ProposeTransaction,
    post: ProposeTransaction,
    to: Key,
    amount: u64,
    r: Result<TransactionState, MultiSigError>,
    i: int,
)
    requires
        pre.multisig_wallet_account.wf(),
        propose_outcome(pre, post, to, amount, r),
        r is Ok,
        0 <= i < pre.multisig_wallet_account.owners@.len(),
        pre.multisig_wallet_account.owners@[i]@ == pre.proposer@,
    ensures
        r->Ok_0.approvers@.len() == pre.multisig_wallet_account.owners@.len(),
        r->Ok_0.approvers@[i],
        forall|j: int|
            0 <= j < r->Ok_0.approvers@.len() && j != i ==> !r->Ok_0.approvers@[j],
{
    lemma_owner_position_unique(pre.multisig_wallet_account.owners@, pre.proposer, i);
}

/// Approving is idempotent: a second approval by the same owner gives the same
/// result as the first and leaves the bitmap as the first left it.
pub proof fn lemma_approve_idempotent(
    c0: ApproveTransaction,
    c1: ApproveTransaction,
    r1: Result<(), MultiSigError>,
    c2: ApproveTransaction,
    r2: Result<(), MultiSigError>,
)
    requires
        c0.multisig_wallet_account.wf(),
        c0.transaction_account.agrees_with(c0.multisig_wallet_account),
        approve_outcome(c0, c1, r1),
        approve_outcome(c1, c2, r2),
    ensures
        r2 == r1,
        c2.transaction_account.approvers@ == c1.transaction_account.approvers@,
        c2 == (ApproveTransaction {
            transaction_account: TransactionState {
                approvers: c2.transaction_account.approvers,
                ..c1.transaction_account
            },
            ..c1
        }),
{
    if r1 is Ok {
        let a0 = c0.transaction_account.approvers@;
        let a1 = c1.transaction_account.approvers@;
        let a2 = c2.transaction_account.approvers@;
        let p = owner_position(c0.multisig_wallet_account.owners@, c0.approver);
        assert(a1 == a0.update(p, true));
        assert(a2 == a1.update(p, true));
        assert(a2 =~= a1);
    }
}

/// Execution needs a quorum: where fewer owners approved than the threshold asks
/// for, execution fails and changes nothing; for a pending proposal of the wallet
/// as it stands, the failure is `InsufficientApprovals`.
pub proof fn lemma_execution_requires_quorum(
    pre: ExecuteTransaction,
    post: ExecuteTransaction,
    r: Result<(), MultiSigError>,
)
    requires
        execute_outcome(pre, post, r),
        pre.transaction_account.approval_count() < pre.multisig_wallet_account.threshold,
    ensures
        r is Err,
        post == pre,
        !pre.transaction_account.did_execute && pre.transaction_account.current_for(
            pre.multisig_wallet_account,
        ) ==> r == Err::<(), MultiSigError>(MultiSigError::InsufficientApprovals),
{
}

/// A proposal runs at most once: after a successful execution, any further
/// execution of the same proposal, against any wallet and balances, fails with
/// `AlreadyExecuted` and changes nothing.
pub proof fn lemma_execute_once(
    c0: ExecuteTransaction,
    c1: ExecuteTransaction,
    r1: Result<(), MultiSigError>,
    c2: ExecuteTransaction,
    c3: ExecuteTransaction,
    r2: Result<(), MultiSigError>,
)
    requires
        execute_outcome(c0, c1, r1),
        r1 is Ok,
        c2.transaction_account == c1.transaction_account,
        execute_outcome(c2, c3, r2),
    ensures
        r2 == Err::<(), MultiSigError>(MultiSigError::AlreadyExecuted),
        c3 == c2,
{
}

/// Execution never overdraws: where the amount exceeds the wallet's balance,
/// execution fails and both balances stay; once the earlier checks pass, the
/// failure is `InsufficientFunds`.
pub proof fn lemma_funds_bound(
    pre: ExecuteTransaction,
    post: ExecuteTransaction,
    r: Result<(), MultiSigError>,
)
    requires
        execute_outcome(pre, post, r),
        pre.transaction_account.amount > pre.wallet_lamports,
    ensures
        r is Err,
        post == pre,
        post.wallet_lamports == pre.wallet_lamports,
        post.recipient_lamports == pre.recipient_lamports,
        !pre.transaction_account.did_execute && pre.transaction_account.current_for(
            pre.multisig_wallet_account,
        ) && pre.transaction_account.approval_count() >= pre.multisig_wallet_account.threshold
            ==> r == Err::<(), MultiSigError>(MultiSigError::InsufficientFunds),
{
}

} // verus!
