use vstd::prelude::*;

use crate::english_auction::{Auction, ReferralStructure};
use crate::transfer::AssetTransfer;

verus! {

/// The call context of auction creation: the seller, the asset being sold,
/// the seller's holding it leaves, the escrow holding it enters, and the
/// record to be written.
pub struct CreateAuction {
    /// Address of the seller opening the auction.
    pub user: u64,
    /// Identifier of the one asset unit being auctioned.
    pub mint: u64,
    /// The seller's holding of the asset.
    pub user_ata: u64,
    /// The auction's escrow holding of the asset.
    pub vault_ata: u64,
    /// The record this call writes; allocation of its storage guarantees no
    /// record existed for this auction before the call.
    pub auction: Auction,
}

impl CreateAuction {
    /// Opens the auction: writes the record with the bid fields unset and
    /// moves exactly one asset unit from the seller's holding into escrow.
    ///
    /// The returned transfer and the record are one atomic unit: if the
    /// runtime cannot perform the transfer (insufficient balance, wrong
    /// asset), the whole call is rolled back. The bidding window must be
    /// ordered and any fee terms must be on the basis-point scale; both are
    /// the record's invariant.
    pub fn create(
        &mut self,
        start_time: i64,
        deadline: i64,
        min_price: u64,
        min_increment: u64,
        referral_structure: Option<ReferralStructure>,
        bump: u8,
        vault_bump: u8,
    ) -> (t: AssetTransfer)
        requires
            start_time < deadline,
            referral_structure matches Some(terms) ==> terms.wf(),
        ensures
            final(self).auction == (Auction {
                start_time,
                deadline,
                min_price,
                current_bidder: None,
                current_bid: None,
                min_increment,
                mint: old(self).mint,
                maker: old(self).user,
                referral_structure,
                bump,
                vault_bump,
            }),
            final(self).auction.wf(),
            t == (AssetTransfer {
                mint: old(self).mint,
                from: old(self).user_ata,
                to: old(self).vault_ata,
                amount: 1,
            }),
            final(self).user == old(self).user,
            final(self).mint == old(self).mint,
            final(self).user_ata == old(self).user_ata,
            final(self).vault_ata == old(self).vault_ata,
    {
        self.auction = Auction {
            start_time,
            deadline,
            min_price,
            current_bidder: None,
            current_bid: None,
            min_increment,
            mint: self.mint,
            maker: self.user,
            referral_structure,
            bump,
            vault_bump,
        };
        AssetTransfer { mint: self.mint, from: self.user_ata, to: self.vault_ata, amount: 1 }
    }
}

} // verus!
