use vstd::prelude::*;

verus! {

/// Every way an operation on a wallet or a proposal can be refused.
#[derive(Clone, Copy, Debug, PartialEq, Eq, Structural)]
pub enum MultiSigError {
    /// Two entries of the owner list are the same key.
    DuplicateOwner,
    /// The owner list is empty.
    EmptyOwnerSet,
    /// The threshold is zero or larger than the number of owners.
    InvalidThreshold,
    /// The caller is not one of the wallet's owners.
    UnauthorizedCaller,
    /// The proposal belongs to another wallet.
    WalletMismatch,
    /// The proposal has already been executed.
    AlreadyExecuted,
    /// The wallet's owner set changed after the proposal was made.
    StaleMandate,
    /// Fewer owners approved the proposal than the threshold asks for.
    InsufficientApprovals,
    /// The wallet holds less than the proposed amount.
    InsufficientFunds,
    /// A balance or a counter would exceed its largest value.
    ArithmeticOverflow,
    /// A balance would drop below zero.
    ArithmeticUnderflow,
}

} // verus!
