use multisig::checks::{assert_unique_owners, count_approvals, owner_index, transfer_lamports};
use multisig::error::MultiSigError;
use multisig::instructions::{
    approve_transaction, execute_transaction, initialize_new_multisig_wallet,
    propose_transaction, ApproveTransaction, ExecuteTransaction, InitializeNewMultisigWallet,
    ProposeTransaction,
};
use multisig::key::Key;
use multisig::state::{MultisigWalletState, TransactionState};

fn key(b: u8) -> Key {
    Key::new([b; 32])
}

fn wallet(owners: Vec<Key>, threshold: u64) -> MultisigWalletState {
    let ctx = InitializeNewMultisigWallet { multisig_wallet_address: key(200) };
    initialize_new_multisig_wallet(&ctx, 7, owners, threshold).unwrap()
}

fn propose(w: MultisigWalletState, proposer: Key, to: Key, amount: u64)
    -> (MultisigWalletState, Result<TransactionState, MultiSigError>) {
    let mut ctx = ProposeTransaction { multisig_wallet_account: w, proposer };
    let r = propose_transaction(&mut ctx, to, amount);
    (ctx.multisig_wallet_account, r)
}

fn approve(w: MultisigWalletState, t: TransactionState, approver: Key)
    -> (MultisigWalletState, TransactionState, Result<(), MultiSigError>) {
    let mut ctx = ApproveTransaction { multisig_wallet_account: w, transaction_account: t, approver };
    let r = approve_transaction(&mut ctx);
    (ctx.multisig_wallet_account, ctx.transaction_account, r)
}

fn execute(w: MultisigWalletState, t: TransactionState, wallet_lamports: u64, recipient_lamports: u64)
    -> (ExecuteTransaction, Result<(), MultiSigError>) {
    let mut ctx = ExecuteTransaction {
        multisig_wallet_account: w,
        transaction_account: t,
        wallet_lamports,
        recipient_lamports,
    };
    let r = execute_transaction(&mut ctx);
    (ctx, r)
}

#[test]
fn scenario_two_of_three_executes_once() {
    let (a, b, c, d) = (key(1), key(2), key(3), key(4));
    let w = wallet(vec![a, b, c], 2);
    let (w, t) = propose(w, a, d, 100);
    let t = t.unwrap();
    assert_eq!(t.proposal_id, 0);
    assert_eq!(t.approvers, vec![true, false, false]);
    let (w, t, r) = approve(w, t, b);
    assert_eq!(r, Ok(()));
    assert_eq!(t.approvers, vec![true, true, false]);
    let (ctx, r) = execute(w, t, 1000, 5);
    assert_eq!(r, Ok(()));
    assert_eq!(ctx.wallet_lamports, 900);
    assert_eq!(ctx.recipient_lamports, 105);
    assert!(ctx.transaction_account.did_execute);
    let (again, r) = execute(ctx.multisig_wallet_account, ctx.transaction_account, 900, 105);
    assert_eq!(r, Err(MultiSigError::AlreadyExecuted));
    assert_eq!(again.wallet_lamports, 900);
    assert_eq!(again.recipient_lamports, 105);
}

#[test]
fn scenario_two_of_two_needs_both() {
    let (a, b, d) = (key(1), key(2), key(4));
    let w = wallet(vec![a, b], 2);
    let (w, t) = propose(w, a, d, 10);
    let (ctx, r) = execute(w, t.unwrap(), 1000, 0);
    assert_eq!(r, Err(MultiSigError::InsufficientApprovals));
    assert_eq!(ctx.wallet_lamports, 1000);
    assert!(!ctx.transaction_account.did_execute);
}

#[test]
fn scenario_creation_errors() {
    let (a, b) = (key(1), key(2));
    let ctx = InitializeNewMultisigWallet { multisig_wallet_address: key(200) };
    assert_eq!(
        initialize_new_multisig_wallet(&ctx, 0, vec![a, a, b], 2).unwrap_err(),
        MultiSigError::DuplicateOwner
    );
    assert_eq!(
        initialize_new_multisig_wallet(&ctx, 0, vec![a, b], 0).unwrap_err(),
        MultiSigError::InvalidThreshold
    );
    assert_eq!(
        initialize_new_multisig_wallet(&ctx, 0, vec![], 1).unwrap_err(),
        MultiSigError::EmptyOwnerSet
    );
}

#[test]
fn creation_fills_the_record() {
    let (a, b) = (key(1), key(2));
    let ctx = InitializeNewMultisigWallet { multisig_wallet_address: key(200) };
    let w = initialize_new_multisig_wallet(&ctx, 42, vec![a, b], 2).unwrap();
    assert_eq!(w.idx, 42);
    assert_eq!(w.address, key(200));
    assert_eq!(w.owners, vec![a, b]);
    assert_eq!(w.threshold, 2);
    assert_eq!(w.proposal_counter, 0);
    assert_eq!(w.owner_set_version, 0);
}

#[test]
fn creation_threshold_bounds() {
    let (a, b, c) = (key(1), key(2), key(3));
    let ctx = InitializeNewMultisigWallet { multisig_wallet_address: key(200) };
    assert!(initialize_new_multisig_wallet(&ctx, 0, vec![a, b, c], 1).is_ok());
    assert!(initialize_new_multisig_wallet(&ctx, 0, vec![a, b, c], 3).is_ok());
    assert_eq!(
        initialize_new_multisig_wallet(&ctx, 0, vec![a, b, c], 4).unwrap_err(),
        MultiSigError::InvalidThreshold
    );
    assert_eq!(
        initialize_new_multisig_wallet(&ctx, 0, vec![], 0).unwrap_err(),
        MultiSigError::EmptyOwnerSet
    );
    assert_eq!(
        initialize_new_multisig_wallet(&ctx, 0, vec![a, b, a], 9).unwrap_err(),
        MultiSigError::DuplicateOwner
    );
}

#[test]
fn keys_differing_in_last_byte_are_distinct() {
    let mut bytes = [5u8; 32];
    let a = Key::new(bytes);
    bytes[31] = 6;
    let b = Key::new(bytes);
    assert!(!a.same_as(&b));
    assert!(a.same_as(&Key::new([5u8; 32])));
    assert!(assert_unique_owners(&[a, b]).is_ok());
    assert_eq!(assert_unique_owners(&[a, b, a]), Err(MultiSigError::DuplicateOwner));
    assert!(assert_unique_owners(&[]).is_ok());
}

#[test]
fn owner_index_finds_first_position() {
    let owners = vec![key(1), key(2), key(3)];
    assert_eq!(owner_index(&owners, &key(3)), Some(2));
    assert_eq!(owner_index(&owners, &key(1)), Some(0));
    assert_eq!(owner_index(&owners, &key(9)), None);
    assert_eq!(owner_index(&vec![], &key(1)), None);
}

#[test]
fn count_approvals_counts_set_entries() {
    assert_eq!(count_approvals(&vec![]), 0);
    assert_eq!(count_approvals(&vec![true, false, true, true]), 3);
    assert_eq!(count_approvals(&vec![false, false]), 0);
}

#[test]
fn transfer_moves_or_changes_nothing() {
    let (mut from, mut to) = (100u64, 5u64);
    assert_eq!(transfer_lamports(&mut from, &mut to, 40), Ok(()));
    assert_eq!((from, to), (60, 45));
    assert_eq!(transfer_lamports(&mut from, &mut to, 61), Err(MultiSigError::ArithmeticUnderflow));
    assert_eq!((from, to), (60, 45));
    let mut full = u64::MAX - 1;
    assert_eq!(transfer_lamports(&mut from, &mut full, 2), Err(MultiSigError::ArithmeticOverflow));
    assert_eq!((from, full), (60, u64::MAX - 1));
    assert_eq!(transfer_lamports(&mut from, &mut full, 1), Ok(()));
    assert_eq!((from, full), (59, u64::MAX));
}

#[test]
fn proposal_ids_increase_across_proposers() {
    let (a, b, c) = (key(1), key(2), key(3));
    let w = wallet(vec![a, b, c], 2);
    let (w, t0) = propose(w, a, c, 1);
    let (w, bad) = propose(w, key(9), c, 1);
    assert_eq!(bad.unwrap_err(), MultiSigError::UnauthorizedCaller);
    let (w, t1) = propose(w, c, a, 2);
    let (w, t2) = propose(w, b, a, 3);
    assert_eq!(t0.unwrap().proposal_id, 0);
    assert_eq!(t1.unwrap().proposal_id, 1);
    assert_eq!(t2.unwrap().proposal_id, 2);
    assert_eq!(w.proposal_counter, 3);
}

#[test]
fn proposal_records_its_request() {
    let (a, b, c) = (key(1), key(2), key(3));
    let w = wallet(vec![a, b, c], 1);
    let (w, t) = propose(w, c, key(8), 77);
    let t = t.unwrap();
    assert_eq!(t.approvers, vec![false, false, true]);
    assert_eq!(t.to, key(8));
    assert_eq!(t.amount, 77);
    assert_eq!(t.multisig_wallet_address, key(200));
    assert_eq!(t.owner_set_version, 0);
    assert!(!t.did_execute);
    assert_eq!(w.proposal_counter, 1);
}

#[test]
fn proposal_counter_overflow_is_refused() {
    let a = key(1);
    let mut w = wallet(vec![a], 1);
    w.proposal_counter = u64::MAX;
    let (w, r) = propose(w, a, a, 1);
    assert_eq!(r.unwrap_err(), MultiSigError::ArithmeticOverflow);
    assert_eq!(w.proposal_counter, u64::MAX);
}

#[test]
fn approving_twice_is_idempotent() {
    let (a, b, c) = (key(1), key(2), key(3));
    let w = wallet(vec![a, b, c], 3);
    let (w, t) = propose(w, a, c, 5);
    let (w, once, r1) = approve(w, t.unwrap(), c);
    let (_, twice, r2) = approve(w, once.clone(), c);
    assert_eq!(r1, Ok(()));
    assert_eq!(r2, Ok(()));
    assert_eq!(once.approvers, vec![true, false, true]);
    assert_eq!(twice, once);
}

#[test]
fn approval_errors() {
    let (a, b, c) = (key(1), key(2), key(3));
    let w = wallet(vec![a, b], 2);
    let (w, t) = propose(w, a, c, 5);
    let t = t.unwrap();

    let (w, t2, r) = approve(w, t.clone(), c);
    assert_eq!(r, Err(MultiSigError::UnauthorizedCaller));
    assert_eq!(t2, t);

    let mut foreign = t.clone();
    foreign.multisig_wallet_address = key(201);
    let (w, t2, r) = approve(w, foreign.clone(), b);
    assert_eq!(r, Err(MultiSigError::WalletMismatch));
    assert_eq!(t2, foreign);

    let mut done = t.clone();
    done.did_execute = true;
    let (w, t2, r) = approve(w, done.clone(), b);
    assert_eq!(r, Err(MultiSigError::AlreadyExecuted));
    assert_eq!(t2, done);

    let mut stale = t.clone();
    stale.owner_set_version = 1;
    let (_, t2, r) = approve(w, stale.clone(), b);
    assert_eq!(r, Err(MultiSigError::StaleMandate));
    assert_eq!(t2, stale);
}

#[test]
fn execution_errors_in_order() {
    let (a, b, d) = (key(1), key(2), key(4));
    let w = wallet(vec![a, b], 1);
    let (w, t) = propose(w, a, d, 50);
    let t = t.unwrap();

    let mut stale = t.clone();
    stale.owner_set_version = 3;
    let (ctx, r) = execute(w.clone(), stale, 10, 0);
    assert_eq!(r, Err(MultiSigError::StaleMandate));
    assert_eq!((ctx.wallet_lamports, ctx.recipient_lamports), (10, 0));

    let mut foreign = t.clone();
    foreign.multisig_wallet_address = key(201);
    let (_, r) = execute(w.clone(), foreign, 10, 0);
    assert_eq!(r, Err(MultiSigError::WalletMismatch));

    let (ctx, r) = execute(w.clone(), t.clone(), 49, 0);
    assert_eq!(r, Err(MultiSigError::InsufficientFunds));
    assert_eq!((ctx.wallet_lamports, ctx.recipient_lamports), (49, 0));
    assert!(!ctx.transaction_account.did_execute);

    let (ctx, r) = execute(w.clone(), t.clone(), 50, u64::MAX - 49);
    assert_eq!(r, Err(MultiSigError::ArithmeticOverflow));
    assert_eq!((ctx.wallet_lamports, ctx.recipient_lamports), (50, u64::MAX - 49));
    assert!(!ctx.transaction_account.did_execute);

    let (ctx, r) = execute(w, t, 50, u64::MAX - 50);
    assert_eq!(r, Ok(()));
    assert_eq!((ctx.wallet_lamports, ctx.recipient_lamports), (0, u64::MAX));
}

#[test]
fn already_executed_comes_before_other_checks() {
    let (a, b, d) = (key(1), key(2), key(4));
    let w = wallet(vec![a, b], 2);
    let (w, t) = propose(w, a, d, 50);
    let mut t = t.unwrap();
    t.did_execute = true;
    t.owner_set_version = 9;
    let (ctx, r) = execute(w, t, 0, 0);
    assert_eq!(r, Err(MultiSigError::AlreadyExecuted));
    assert_eq!((ctx.wallet_lamports, ctx.recipient_lamports), (0, 0));
}
