use vstd::prelude::*;

use crate::english_auction::Auction;
use crate::errors::AuctionError;
use crate::transfer::AssetTransfer;

verus! {

/// The call context of a post-deadline asset claim: the claimant, the record
/// that names who may claim, and the escrow holding with what is left in it.
pub struct ClaimNFT {
    /// Address of the party attempting the claim.
    pub signer: u64,
    /// The claimant's receiving holding of the asset.
    pub signer_ata: u64,
    pub auction: Auction,
    /// The auction's escrow holding of the asset.
    pub vault_ata: u64,
    /// Asset units still in escrow when the call starts: one until the
    /// asset is claimed, zero afterwards.
    pub vault_ata_balance: u64,
}

/// The first check an asset claim fails, or `None` when the claim is
/// allowed: the deadline must have passed, and the claimant must be the
/// recorded winner, or the seller when no bid was ever placed.
pub open spec fn claim_nft_check(pre: ClaimNFT, current_time: i64) -> Option<AuctionError> {
    if current_time < pre.auction.deadline {
        Some(AuctionError::AuctionNotEnded)
    } else {
        match pre.auction.current_bidder {
            Some(winner) => if pre.signer == winner {
                None
            } else {
                Some(AuctionError::BadAccount)
            },
            None => if pre.signer == pre.auction.maker {
                None
            } else {
                Some(AuctionError::BadAccount)
            },
        }
    }
}

impl ClaimNFT {
    /// Settles the asset after the deadline: moves the one escrowed unit to
    /// the winner's holding, or back to the seller's when the auction closed
    /// unbid.
    ///
    /// No settled flag is stored; whether anything is left to move is read
    /// off the escrow balance. A repeated claim therefore finds the escrow
    /// empty and succeeds as a no-op, returning no transfer.
    pub fn claim_nft(&mut self, current_time: i64) -> (r: Result<
        Option<AssetTransfer>,
        AuctionError,
    >)
        ensures
            *final(self) == *old(self),
            claim_nft_check(*old(self), current_time) matches Some(e) ==> r == Err::<
                Option<AssetTransfer>,
                AuctionError,
            >(e),
            claim_nft_check(*old(self), current_time) is None && old(self).vault_ata_balance >= 1
                ==> r == Ok::<Option<AssetTransfer>, AuctionError>(
                Some(
                    AssetTransfer {
                        mint: old(self).auction.mint,
                        from: old(self).vault_ata,
                        to: old(self).signer_ata,
                        amount: 1,
                    },
                ),
            ),
            claim_nft_check(*old(self), current_time) is None && old(self).vault_ata_balance == 0
                ==> r == Ok::<Option<AssetTransfer>, AuctionError>(None),
    {
        if current_time < self.auction.deadline {
            return Err(AuctionError::AuctionNotEnded);
        }
        match self.auction.current_bidder {
            Some(winner) => {
                if self.signer != winner {
                    return Err(AuctionError::BadAccount);
                }
            },
            None => {
                if self.signer != self.auction.maker {
                    return Err(AuctionError::BadAccount);
                }
            },
        }
        if self.vault_ata_balance == 0 {
            return Ok(None);
        }
        Ok(
            Some(
                AssetTransfer {
                    mint: self.auction.mint,
                    from: self.vault_ata,
                    to: self.signer_ata,
                    amount: 1,
                },
            ),
        )
    }
}

} // verus!
