use vstd::prelude::*;

verus! {

/// Every way an auction operation can fail.
///
/// Each operation aborts with the first failing check and leaves all state
/// untouched; the variant names the check that failed.
#[derive(Clone, Copy, Debug, PartialEq, Eq, Structural)]
pub enum AuctionError {
    /// The clock has not yet reached the auction's start time.
    AuctionNotStarted,
    /// The clock has reached the auction's deadline, so bidding is closed.
    AuctionEnded,
    /// The offered amount does not meet the required bid threshold.
    BidTooLow,
    /// The supplied refund target does not match the recorded current bidder.
    BadPrecedingBidder,
    /// The caller is not the party entitled to this claim.
    BadAccount,
    /// The clock has not yet reached the deadline, so claims are closed.
    AuctionNotEnded,
    /// The referrer whitelist already holds its maximum number of entries.
    ReferrersListFull,
    /// The referrer is already on the whitelist.
    ExistingReferrer,
}

} // verus!
