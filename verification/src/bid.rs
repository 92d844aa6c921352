use vstd::arithmetic::div_mod::{lemma_div_is_ordered, lemma_div_multiples_vanish};
use vstd::arithmetic::mul::{lemma_mul_inequality, lemma_mul_is_commutative};
use vstd::prelude::*;

use crate::english_auction::{Auction, ReferralStructure, BPS_DENOMINATOR};
use crate::errors::AuctionError;
use crate::referrers::Referrers;
use crate::transfer::Transfer;

verus! {

/// How an accepted bid is split: the part escrowed in the vault and the part
/// paid out to the referrer.
#[derive(Clone, Copy, Debug, PartialEq, Eq, Structural)]
pub struct DistributionScheme {
    pub to_vault: u64,
    pub to_referrer: u64,
}

/// The basis-point share of `amount` at rate `bps`, rounded down; zero when
/// the product overflows the machine word (the computation saturates to zero
/// rather than aborting).
pub open spec fn fee_part(amount: u64, bps: u16) -> int {
    if amount * bps > u64::MAX {
        0
    } else {
        (amount * bps) / (BPS_DENOMINATOR as int)
    }
}

/// The referral fee taken out of a bid of `amount`: the base-fee share when a
/// whitelisted referrer was supplied and fee terms are attached, nothing
/// otherwise.
pub open spec fn fee_of(terms: Option<ReferralStructure>, amount: u64, is_referred: bool) -> int {
    if is_referred && terms is Some {
        fee_part(amount, terms->0.base_fee_bps)
    } else {
        0
    }
}

/// The bidder's discount taken out of the referral fee, under the same
/// conditions as [`fee_of`].
pub open spec fn discount_of(
    terms: Option<ReferralStructure>,
    amount: u64,
    is_referred: bool,
) -> int {
    if is_referred && terms is Some {
        fee_part(amount, terms->0.buyer_discount_bps)
    } else {
        0
    }
}

/// A basis-point share never exceeds the amount it is taken from, as long as
/// the rate stays on the basis-point scale.
pub proof fn lemma_fee_part_le(amount: u64, bps: u16)
    requires
        bps <= BPS_DENOMINATOR,
    ensures
        0 <= fee_part(amount, bps) <= amount,
{
    if amount * bps <= u64::MAX {
        lemma_mul_inequality(bps as int, BPS_DENOMINATOR as int, amount as int);
        lemma_mul_is_commutative(bps as int, amount as int);
        lemma_mul_is_commutative(BPS_DENOMINATOR as int, amount as int);
        lemma_div_is_ordered(
            amount * bps,
            amount * (BPS_DENOMINATOR as int),
            BPS_DENOMINATOR as int,
        );
        lemma_div_multiples_vanish(amount as int, BPS_DENOMINATOR as int);
        lemma_div_is_ordered(0, amount * bps, BPS_DENOMINATOR as int);
    }
}

/// The authoritative bid-threshold rule: with no prior bid, the offer must
/// strictly exceed the minimum price; with a prior bid it must reach the
/// prior bid plus the minimum increment, or strictly exceed the prior bid
/// when the increment is zero.
pub open spec fn meets_threshold(auction: Auction, lamports: u64) -> bool {
    match auction.current_bid {
        Some(current_bid) => if auction.min_increment == 0 {
            lamports > current_bid
        } else {
            lamports >= current_bid + auction.min_increment
        },
        None => lamports > auction.min_price,
    }
}

/// The call context of one bid attempt: the offering bidder, the record it
/// is judged against, the vault and its balance at entry, the caller's
/// asserted refund target, and the optional referral path.
pub struct Bid {
    /// Address of the account making the offer.
    pub bidder: u64,
    pub auction: Auction,
    /// Address of the vault holding the leading bid's funds.
    pub vault: u64,
    /// Lamports the vault holds when the call starts.
    pub vault_balance: u64,
    /// The party the caller asserts should be refunded; checked against the
    /// record's `current_bidder`.
    pub preceding_bidder: Option<u64>,
    /// The auction's whitelist, where one was ever created.
    pub referrer_whitelist: Option<Referrers>,
    /// The referrer the bidder credits for this bid, if any.
    pub referrer: Option<u64>,
}

/// The first check a bid attempt fails, in the order the checks are made, or
/// `None` when the bid is accepted.
pub open spec fn bid_check(pre: Bid, current_time: i64, lamports: u64) -> Option<AuctionError> {
    if current_time < pre.auction.start_time {
        Some(AuctionError::AuctionNotStarted)
    } else if current_time >= pre.auction.deadline {
        Some(AuctionError::AuctionEnded)
    } else if !meets_threshold(pre.auction, lamports) {
        Some(AuctionError::BidTooLow)
    } else if pre.preceding_bidder != pre.auction.current_bidder {
        Some(AuctionError::BadPrecedingBidder)
    } else {
        None
    }
}

impl Bid {
    /// The context is judged against a well-formed record whose vault keeps
    /// at least the given reserve.
    pub open spec fn wf(self, reserve: u64) -> bool {
        &&& self.auction.wf()
        &&& reserve <= self.vault_balance
        &&& self.referrer_whitelist matches Some(w) ==> w.wf()
    }

    /// Whether the referral fee applies: a referrer was supplied, a whitelist
    /// exists for this auction, and the referrer is on it.
    pub open spec fn spec_is_referred(self) -> bool {
        match (self.referrer, self.referrer_whitelist) {
            (Some(referrer), Some(whitelist)) => whitelist.spec_contains(referrer),
            _ => false,
        }
    }

    /// The referral fee this bid context takes out of an offer of `lamports`.
    pub open spec fn spec_fee(self, lamports: u64) -> int {
        fee_of(self.auction.referral_structure, lamports, self.spec_is_referred())
    }

    /// The bidder discount this bid context takes out of the fee.
    pub open spec fn spec_discount(self, lamports: u64) -> int {
        discount_of(self.auction.referral_structure, lamports, self.spec_is_referred())
    }

    /// The exact transfers an accepted bid of `lamports` performs, in order:
    /// the vault is vacated down to `reserve` towards the prior bidder where
    /// one exists, the bidder escrows the offer minus the fee, and a referred
    /// bid pays the referrer the fee minus the discount.
    pub open spec fn spec_transfers(self, reserve: u64, lamports: u64) -> Seq<Transfer> {
        let refund = match self.auction.current_bidder {
            Some(prior) => seq![
                Transfer {
                    from: self.vault,
                    to: prior,
                    lamports: (self.vault_balance - reserve) as u64,
                },
            ],
            None => Seq::<Transfer>::empty(),
        };
        let escrow = seq![
            Transfer {
                from: self.bidder,
                to: self.vault,
                lamports: (lamports - self.spec_fee(lamports)) as u64,
            },
        ];
        let referral = if self.spec_is_referred() {
            seq![
                Transfer {
                    from: self.bidder,
                    to: self.referrer->0,
                    lamports: (self.spec_fee(lamports) - self.spec_discount(lamports)) as u64,
                },
            ]
        } else {
            Seq::<Transfer>::empty()
        };
        refund + escrow + referral
    }

    /// Validates and accepts one bid.
    ///
    /// The checks run in order and the first failure aborts the whole call
    /// with no effect: temporal gating, the bid threshold, and the refund
    /// target. An accepted bid updates the record's bid fields and returns
    /// the exact fund movements to perform; the runtime executes them as one
    /// atomic unit.
    ///
    /// The two `requires` clauses beyond well-formedness exclude the inputs
    /// on which the computation would abort mid-call: a prior bid whose
    /// increment-raised threshold exceeds the machine word, and fee terms
    /// whose discount share exceeds the fee share (the split has no guard
    /// against a discount rate above the fee rate).
    pub fn bid(&mut self, current_time: i64, reserve: u64, lamports: u64) -> (r: Result<
        Vec<Transfer>,
        AuctionError,
    >)
        requires
            old(self).wf(reserve),
            old(self).auction.current_bid is Some && old(self).auction.min_increment > 0 ==> old(
                self,
            ).auction.current_bid->0 + old(self).auction.min_increment <= u64::MAX,
            old(self).spec_discount(lamports) <= old(self).spec_fee(lamports),
        ensures
            bid_check(*old(self), current_time, lamports) matches Some(e) ==> {
                &&& r == Err::<Vec<Transfer>, AuctionError>(e)
                &&& *final(self) == *old(self)
            },
            bid_check(*old(self), current_time, lamports) is None ==> {
                &&& r matches Ok(transfers) && transfers@ == old(self).spec_transfers(
                    reserve,
                    lamports,
                )
                &&& final(self).auction == old(self).auction.with_bid(old(self).bidder, lamports)
                &&& final(self).auction.wf()
                &&& final(self).bidder == old(self).bidder
                &&& final(self).vault == old(self).vault
                &&& final(self).vault_balance == old(self).vault_balance
                &&& final(self).preceding_bidder == old(self).preceding_bidder
                &&& final(self).referrer_whitelist == old(self).referrer_whitelist
                &&& final(self).referrer == old(self).referrer
            },
    {
        // Temporal gating: the bid must land inside [start_time, deadline).
        if current_time < self.auction.start_time {
            return Err(AuctionError::AuctionNotStarted);
        }
        if current_time >= self.auction.deadline {
            return Err(AuctionError::AuctionEnded);
        }

        // The bid threshold; see `meets_threshold` for the authoritative rule.
        let high_enough = match self.auction.current_bid {
            Some(current_bid) => {
                if self.auction.min_increment == 0 {
                    lamports > current_bid
                } else {
                    lamports >= current_bid + self.auction.min_increment
                }
            },
            None => lamports > self.auction.min_price,
        };
        if !high_enough {
            return Err(AuctionError::BidTooLow);
        }

        // The caller-asserted refund target must match the record, the
        // no-prior-bidder case included.
        let target_matches = match (self.auction.current_bidder, self.preceding_bidder) {
            (Some(recorded), Some(asserted)) => recorded == asserted,
            (None, None) => true,
            _ => false,
        };
        if !target_matches {
            return Err(AuctionError::BadPrecedingBidder);
        }

        let mut transfers: Vec<Transfer> = Vec::new();

        // Refund the prior bidder with the entire vault balance above the
        // reserve, so the vault is fully vacated between bid cycles.
        match self.auction.current_bidder {
            Some(prior) => {
                let refund = self.refund(prior, reserve);
                transfers.push(refund);
            },
            None => {},
        }

        let is_referred = match (&self.referrer, &self.referrer_whitelist) {
            (Some(referrer), Some(whitelist)) => whitelist.contains(*referrer),
            _ => false,
        };
        let scheme = self.compute_distribution(lamports, is_referred);
        let escrow = self.fund(scheme.to_vault, self.vault);
        transfers.push(escrow);
        if is_referred {
            let referrer = self.referrer.unwrap();
            let referral = self.fund(scheme.to_referrer, referrer);
            transfers.push(referral);
        }

        // The record is updated only once every transfer is decided.
        self.auction.current_bid = Some(lamports);
        self.auction.current_bidder = Some(self.bidder);

        proof {
            assert(transfers@ =~= old(self).spec_transfers(reserve, lamports));
        }
        Ok(transfers)
    }

    /// Splits an offer of `lamports` between the vault and the referrer:
    /// with attached fee terms and an applicable referral, the fee share
    /// leaves the escrowed part and the fee minus the bidder's discount goes
    /// to the referrer; otherwise the whole offer is escrowed.
    pub fn compute_distribution(&self, lamports: u64, is_referred: bool) -> (d: DistributionScheme)
        requires
            self.auction.referral_structure matches Some(terms) ==> terms.wf(),
            discount_of(self.auction.referral_structure, lamports, is_referred) <= fee_of(
                self.auction.referral_structure,
                lamports,
                is_referred,
            ),
        ensures
            d.to_vault == lamports - fee_of(self.auction.referral_structure, lamports, is_referred),
            d.to_referrer == fee_of(self.auction.referral_structure, lamports, is_referred)
                - discount_of(self.auction.referral_structure, lamports, is_referred),
    {
        let terms_slot = self.auction.referral_structure;
        if is_referred && terms_slot.is_some() {
            let terms = terms_slot.unwrap();
            let fee: u64 = match lamports.checked_mul(terms.base_fee_bps as u64) {
                Some(product) => product / BPS_DENOMINATOR,
                None => 0,
            };
            let discount: u64 = match lamports.checked_mul(terms.buyer_discount_bps as u64) {
                Some(product) => product / BPS_DENOMINATOR,
                None => 0,
            };
            proof {
                lemma_fee_part_le(lamports, terms.base_fee_bps);
            }
            DistributionScheme { to_vault: lamports - fee, to_referrer: fee - discount }
        } else {
            DistributionScheme { to_vault: lamports, to_referrer: 0 }
        }
    }

    /// The bidder's payment of `lamports` into `account`.
    fn fund(&self, lamports: u64, account: u64) -> (t: Transfer)
        ensures
            t == (Transfer { from: self.bidder, to: account, lamports }),
    {
        Transfer { from: self.bidder, to: account, lamports }
    }

    /// The refund vacating the vault down to `reserve`, towards `prior`.
    fn refund(&self, prior: u64, reserve: u64) -> (t: Transfer)
        requires
            reserve <= self.vault_balance,
        ensures
            t == (Transfer {
                from: self.vault,
                to: prior,
                lamports: (self.vault_balance - reserve) as u64,
            }),
    {
        Transfer { from: self.vault, to: prior, lamports: self.vault_balance - reserve }
    }
}

} // verus!
