use vstd::prelude::*;

use crate::english_auction::Auction;
use crate::errors::AuctionError;
use crate::transfer::Transfer;

verus! {

/// The call context of a post-deadline payment claim: the claiming seller,
/// the record, and the vault with its balance at entry.
pub struct ClaimPayment {
    /// Address of the party attempting the claim; only the seller may
    /// collect the proceeds.
    pub maker: u64,
    pub auction: Auction,
    /// Address of the vault holding the winning bid's funds.
    pub vault: u64,
    /// Lamports the vault holds when the call starts.
    pub vault_balance: u64,
}

/// The first check a payment claim fails, or `None` when the claim is
/// allowed: the claimant must be the recorded seller and the deadline must
/// have passed.
pub open spec fn claim_payment_check(pre: ClaimPayment, current_time: i64) -> Option<
    AuctionError,
> {
    if pre.maker != pre.auction.maker {
        Some(AuctionError::BadAccount)
    } else if current_time < pre.auction.deadline {
        Some(AuctionError::AuctionNotEnded)
    } else {
        None
    }
}

impl ClaimPayment {
    /// Settles the proceeds after the deadline: drains the vault down to its
    /// fixed minimum reserve towards the seller. The reserve itself is never
    /// spent.
    ///
    /// When no bid was ever placed the call succeeds as a no-op and returns
    /// no transfer. No settled flag is stored: a repeated claim finds the
    /// vault already vacated to its reserve and pays zero, another no-op.
    pub fn claim_payment(&mut self, current_time: i64, reserve: u64) -> (r: Result<
        Option<Transfer>,
        AuctionError,
    >)
        requires
            reserve <= old(self).vault_balance,
        ensures
            *final(self) == *old(self),
            claim_payment_check(*old(self), current_time) matches Some(e) ==> r == Err::<
                Option<Transfer>,
                AuctionError,
            >(e),
            claim_payment_check(*old(self), current_time) is None && old(self).auction.current_bid
                is Some && old(self).auction.current_bid->0 != 0 ==> r == Ok::<
                Option<Transfer>,
                AuctionError,
            >(
                Some(
                    Transfer {
                        from: old(self).vault,
                        to: old(self).maker,
                        lamports: (old(self).vault_balance - reserve) as u64,
                    },
                ),
            ),
            claim_payment_check(*old(self), current_time) is None && (old(
                self,
            ).auction.current_bid is None || old(self).auction.current_bid == Some(0u64)) ==> r
                == Ok::<Option<Transfer>, AuctionError>(None),
    {
        if self.maker != self.auction.maker {
            return Err(AuctionError::BadAccount);
        }
        if current_time < self.auction.deadline {
            return Err(AuctionError::AuctionNotEnded);
        }

        let current_bid = match self.auction.current_bid {
            Some(amount) => amount,
            None => 0,
        };
        if current_bid != 0 {
            Ok(Some(Transfer {
                from: self.vault,
                to: self.maker,
                lamports: self.vault_balance - reserve,
            }))
        } else {
            Ok(None)
        }
    }
}

} // verus!
