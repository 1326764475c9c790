use vstd::prelude::*;

verus! {

/// Everything an operation of the ledger can fail with.
#[derive(Clone, Copy, Debug, PartialEq, Eq, Structural)]
pub enum CustomError {
    /// The caller is not the identity the operation requires.
    Unauthorized,
    /// A text field is longer than its bound.
    StringTooLong,
    /// An amount is zero.
    InvalidAmount,
    /// The source of funds holds less than the amount asked for.
    InsufficientFunds,
    /// A royalty split is empty, or a record names another work.
    InvalidRoyaltySplit,
    /// Shares do not add up to 100%, a share is zero, or a holder's allocation is exceeded.
    InvalidRoyaltyShares,
    /// Nothing is claimable.
    NoRevenueToClaim,
    /// More collaborators than a split may hold.
    TooManyCollaborators,
    /// The platform fee consumes the whole claim.
    AmountTooSmall,
    /// A fee rate above 100%.
    InvalidFeePercentage,
    /// The destination is not the treasury wallet.
    InvalidTreasuryWallet,
    /// An empty batch.
    InvalidData,
    /// A batch with more records than allowed.
    BatchTooLarge,
    /// A checked addition or multiplication left the range of `u64`.
    Overflow,
    /// A royalty split already exists for the work.
    AlreadyExists,
    /// No royalty split exists for the work.
    RoyaltySplitNotFound,
}

} // verus!
