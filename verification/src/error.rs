use vstd::prelude::*;

verus! {

/// The error a staking, airdrop or administrative operation can end with.
///
/// Every guard failure aborts the whole operation: the caller gets the
/// specific error and the state is left exactly as it was.
#[derive(Clone, Debug, PartialEq, Eq, Structural)]
pub enum ContractError {
    /// A non-owner attempted an owner-gated operation.
    Unauthorized {},
    /// The system-wide kill switch is engaged.
    Disabled {},
    /// A deposit or renewal arrived while no airdrop epoch is active.
    NotStarted {},
    /// A deposit notification came from a contract other than the configured
    /// collection.
    InvalidCw721Token {},
    /// A payment was made in a token other than the configured one.
    InvalidCw20Token {},
    /// Forwarding the early-exit fee failed.
    UnstakeFeeFailed {},
    /// A deposit notification's claimed sender or item does not match the
    /// transfer it announces, or the item is already staked by that account.
    InvalidCw721Msg {},
    /// A fungible-token notification could not be understood.
    InvalidCw20Msg {},
    /// The operation targets an item the account does not have staked.
    NoStakedNft {},
    /// An airdrop was announced while no staked item is still locked.
    NoUnexpiredNft {},
    /// A claim was made on a record whose accrued reward is zero.
    NoReward {},
    /// The contract's token balance is too low for the requested amount.
    InsufficientCw20 {},
    /// The announced airdrop amount is below the eligible population, so the
    /// per-item share would truncate to zero.
    OverNftCount { nft_count: u128 },
    /// The announced airdrop amount is not strictly positive.
    InvalidAirdrop {},
    /// A lock gate was violated: withdrawing a still-locked item without the
    /// exact fee payment, or renewing a lock that has not yet expired.
    Locktime {},
    /// The ledger scan for an airdrop found nothing to read.
    NoAirdropNft {},
}

} // verus!
