use vstd::prelude::*;

use crate::english_auction::Auction;
use crate::errors::AuctionError;
use crate::referrers::{Referrers, MAX_REFERRERS};

verus! {

/// The call context of a whitelist append: the seller, the auction the
/// whitelist belongs to, the whitelist itself, and the identity to add.
pub struct WhitelistReferrer {
    /// Address of the caller; only the auction's seller may extend the
    /// whitelist, which the storage constraints enforce before this call.
    pub maker: u64,
    pub auction: Auction,
    /// The auction's whitelist, created empty on the first append.
    pub referrer_whitelist: Referrers,
    /// The identity to make eligible for referral fees.
    pub referrer: u64,
}

impl WhitelistReferrer {
    /// Appends the referrer to the auction's bounded whitelist.
    ///
    /// Fails with `ReferrersListFull` at capacity and with
    /// `ExistingReferrer` on a duplicate; either failure leaves the
    /// whitelist unchanged.
    pub fn whitelist_referrer(&mut self) -> (r: Result<(), AuctionError>)
        requires
            old(self).maker == old(self).auction.maker,
            old(self).referrer_whitelist.wf(),
        ensures
            final(self).referrer_whitelist.wf(),
            final(self).maker == old(self).maker,
            final(self).auction == old(self).auction,
            final(self).referrer == old(self).referrer,
            final(self).referrer_whitelist.bump == old(self).referrer_whitelist.bump,
            old(self).referrer_whitelist.referrers@.len() >= MAX_REFERRERS ==> {
                &&& r == Err::<(), AuctionError>(AuctionError::ReferrersListFull)
                &&& *final(self) == *old(self)
            },
            old(self).referrer_whitelist.referrers@.len() < MAX_REFERRERS && old(
                self,
            ).referrer_whitelist.spec_contains(old(self).referrer) ==> {
                &&& r == Err::<(), AuctionError>(AuctionError::ExistingReferrer)
                &&& *final(self) == *old(self)
            },
            old(self).referrer_whitelist.referrers@.len() < MAX_REFERRERS && !old(
                self,
            ).referrer_whitelist.spec_contains(old(self).referrer) ==> {
                &&& r == Ok::<(), AuctionError>(())
                &&& final(self).referrer_whitelist.referrers@ == old(
                    self,
                ).referrer_whitelist.referrers@.push(old(self).referrer)
            },
    {
        let referrer = self.referrer;
        self.referrer_whitelist.whitelist_referrer(referrer)
    }
}

} // verus!
