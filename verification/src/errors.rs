use vstd::prelude::*;

verus! {

/// Why an auction operation was rejected.
///
/// Every rejection is terminal and synchronous: retrying the same call
/// with the same inputs fails the same way, and a rejected operation
/// leaves every record unchanged.
#[derive(Clone, Copy, Debug, PartialEq, Eq, Structural)]
pub enum AuctionError {
    /// The clock has not yet reached the auction's `start_time`.
    NotStarted,
    /// The clock has reached the auction's `deadline`; bidding is over.
    Ended,
    /// The clock has not yet reached the `deadline`; claims must wait.
    NotEnded,
    /// The offered amount does not strictly exceed the current floor.
    BidTooLow,
    /// The caller's view of the preceding bidder is stale.
    BadPrecedingBidder,
    /// The caller does not control the account the operation needs.
    Unauthorized,
    /// The caller is neither the winning bidder nor, absent any bid,
    /// the maker.
    WrongClaimant,
    /// The asset's collection membership is absent or unverified.
    InvalidCollection,
}

} // verus!
