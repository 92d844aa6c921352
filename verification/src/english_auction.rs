use vstd::prelude::*;

verus! {

/// Parts-per-ten-thousand denominator for all fee computations.
pub const BPS_DENOMINATOR: u64 = 10_000;

/// Fee terms attached to an auction at creation, immutable thereafter.
///
/// Both rates are in basis points (parts per ten thousand) and must lie in
/// `[0, 10_000]`.
#[derive(Clone, Copy, Debug, PartialEq, Eq, Structural)]
pub struct ReferralStructure {
    pub base_fee_bps: u16,
    pub buyer_discount_bps: u16,
}

impl ReferralStructure {
    /// Both rates stay within the basis-point scale.
    pub open spec fn wf(self) -> bool {
        self.base_fee_bps <= BPS_DENOMINATOR && self.buyer_discount_bps <= BPS_DENOMINATOR
    }
}

/// The authoritative lifecycle record of one auction.
///
/// Created once at auction creation and mutated only by accepted bids; it
/// stays behind as settlement history after the deadline. Account addresses
/// (`current_bidder`, `maker`) and the asset identifier (`mint`) are the
/// plain integer form of the ledger's addresses.
#[derive(Clone, Copy, Debug, PartialEq, Eq, Structural)]
pub struct Auction {
    pub start_time: i64,
    pub deadline: i64,
    pub min_price: u64,
    pub current_bidder: Option<u64>,
    pub current_bid: Option<u64>,
    pub min_increment: u64,
    pub mint: u64,
    pub maker: u64,
    pub referral_structure: Option<ReferralStructure>,
    /// Allocator marker for the record's own address; not business data.
    pub bump: u8,
    /// Allocator marker for the vault's address; not business data.
    pub vault_bump: u8,
}

impl Auction {
    /// The record's invariant: the bidding window is ordered, a bid amount is
    /// recorded exactly when a bidder is, and any attached fee terms are on
    /// the basis-point scale.
    pub open spec fn wf(self) -> bool {
        &&& self.start_time < self.deadline
        &&& self.current_bid is Some <==> self.current_bidder is Some
        &&& self.referral_structure matches Some(rs) ==> rs.wf()
    }

    /// The record as it stands after an accepted bid of `amount` by `bidder`:
    /// only the bid fields change.
    pub open spec fn with_bid(self, bidder: u64, amount: u64) -> Auction {
        Auction {
            current_bidder: Some(bidder),
            current_bid: Some(amount),
            ..self
        }
    }
}

} // verus!
