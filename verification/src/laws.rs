use vstd::prelude::*;

use crate::bid::{bid_check, discount_of, fee_of, lemma_fee_part_le, meets_threshold, Bid};
use crate::claim_nft::{claim_nft_check, ClaimNFT};
use crate::english_auction::{Auction, ReferralStructure};
use crate::errors::AuctionError;
use crate::transfer::{apply_transfer, apply_transfers};

verus! {

/// Every bid of the run meets the threshold of the record as it stands when
/// that bid arrives: by `Bid::bid`'s contract, exactly the runs a sequence
/// of accepted bids can produce, since an accepted bid passes `bid_check`
/// and leaves the record rewritten by `Auction::with_bid`.
pub open spec fn bids_meet_thresholds(a: Auction, bids: Seq<(u64, u64)>) -> bool
    decreases bids.len(),
{
    if bids.len() == 0 {
        true
    } else {
        &&& meets_threshold(a, bids[0].1)
        &&& bids_meet_thresholds(a.with_bid(bids[0].0, bids[0].1), bids.drop_first())
    }
}

/// Once a bid is recorded, every later accepted bid of the run strictly
/// exceeds it, and by at least the minimum increment when one is set.
pub proof fn lemma_run_exceeds_current_bid(r: Auction, bids: Seq<(u64, u64)>, j: int)
    requires
        r.current_bid is Some,
        bids_meet_thresholds(r, bids),
        0 <= j < bids.len(),
    ensures
        bids[j].1 > r.current_bid->0,
        r.min_increment > 0 ==> bids[j].1 >= r.current_bid->0 + r.min_increment,
    decreases j,
{
    if j > 0 {
        lemma_run_exceeds_current_bid(r.with_bid(bids[0].0, bids[0].1), bids.drop_first(), j - 1);
        assert(bids.drop_first()[j - 1] == bids[j]);
    }
}

/// For any sequence of accepted bids, the recorded bid is strictly
/// increasing, and increases by at least the minimum increment once one bid
/// is recorded.
pub proof fn lemma_accepted_bids_strictly_increase(
    a: Auction,
    bids: Seq<(u64, u64)>,
    i: int,
    j: int,
)
    requires
        bids_meet_thresholds(a, bids),
        0 <= i < j < bids.len(),
    ensures
        bids[i].1 < bids[j].1,
        a.min_increment > 0 ==> bids[i].1 + a.min_increment <= bids[j].1,
    decreases i,
{
    if i == 0 {
        let r = a.with_bid(bids[0].0, bids[0].1);
        lemma_run_exceeds_current_bid(r, bids.drop_first(), j - 1);
        assert(bids.drop_first()[j - 1] == bids[j]);
    } else {
        lemma_accepted_bids_strictly_increase(
            a.with_bid(bids[0].0, bids[0].1),
            bids.drop_first(),
            i - 1,
            j - 1,
        );
        assert(bids.drop_first()[i - 1] == bids[i]);
        assert(bids.drop_first()[j - 1] == bids[j]);
    }
}

/// A bid below the required threshold, made inside the bidding window,
/// always fails with `BidTooLow`; by `Bid::bid`'s contract every failure
/// leaves the call context, the record included, unchanged.
pub proof fn lemma_low_bid_rejected(pre: Bid, current_time: i64, lamports: u64)
    requires
        pre.auction.start_time <= current_time < pre.auction.deadline,
        !meets_threshold(pre.auction, lamports),
    ensures
        bid_check(pre, current_time, lamports) == Some(AuctionError::BidTooLow),
{
}

/// After an accepted bid with a prior bidder is settled on the ledger, that
/// bidder's balance has increased by exactly the vault's pre-bid balance
/// minus the fixed minimum reserve, and the vault is left holding its
/// reserve plus the newly escrowed part of the bid.
///
/// The balance statements read off single accounts, so the parties involved
/// must be pairwise distinct accounts, as they are on a real ledger.
pub proof fn lemma_bid_settlement_balances(
    pre: Bid,
    reserve: u64,
    lamports: u64,
    balances: Map<u64, int>,
)
    requires
        pre.wf(reserve),
        pre.auction.current_bidder is Some,
        forall|account: u64| balances.dom().contains(account),
        balances[pre.vault] == pre.vault_balance,
        pre.auction.current_bidder->0 != pre.bidder,
        pre.auction.current_bidder->0 != pre.vault,
        pre.bidder != pre.vault,
        pre.spec_is_referred() ==> {
            &&& pre.referrer->0 != pre.auction.current_bidder->0
            &&& pre.referrer->0 != pre.vault
        },
    ensures
        apply_transfers(balances, pre.spec_transfers(reserve, lamports))[pre.auction.current_bidder->0]
            == balances[pre.auction.current_bidder->0] + pre.vault_balance - reserve,
        apply_transfers(balances, pre.spec_transfers(reserve, lamports))[pre.vault] == reserve
            + lamports - pre.spec_fee(lamports),
{
    if pre.spec_is_referred() && pre.auction.referral_structure is Some {
        lemma_fee_part_le(lamports, pre.auction.referral_structure->0.base_fee_bps);
    }
    let ts = pre.spec_transfers(reserve, lamports);
    let b1 = apply_transfer(balances, ts[0]);
    let b2 = apply_transfer(b1, ts[1]);
    assert(apply_transfers(balances, ts) == apply_transfers(b1, ts.drop_first()));
    assert(apply_transfers(b1, ts.drop_first()) == apply_transfers(
        b2,
        ts.drop_first().drop_first(),
    ));
    if pre.spec_is_referred() {
        let b3 = apply_transfer(b2, ts[2]);
        assert(ts.drop_first().drop_first()[0] == ts[2]);
        assert(apply_transfers(b2, ts.drop_first().drop_first()) == apply_transfers(
            b3,
            ts.drop_first().drop_first().drop_first(),
        ));
        assert(ts.drop_first().drop_first().drop_first().len() == 0);
    } else {
        assert(ts.drop_first().drop_first().len() == 0);
    }
}

/// Whenever referral applies and the bidder's discount share is zero, the
/// escrowed part and the referrer's part together make up exactly the bid.
///
/// The zero-discount bound is needed: with a nonzero discount share the two
/// parts fall short of the bid by the discount, which
/// [`lemma_referred_distribution_total`] states without the bound.
pub proof fn lemma_distribution_conserves_bid(
    terms: Option<ReferralStructure>,
    lamports: u64,
    is_referred: bool,
)
    requires
        is_referred && terms is Some,
        discount_of(terms, lamports, is_referred) == 0,
    ensures
        (lamports - fee_of(terms, lamports, is_referred)) + (fee_of(terms, lamports, is_referred)
            - discount_of(terms, lamports, is_referred)) == lamports,
{
}

/// Whenever referral applies, the escrowed part and the referrer's part
/// together make up the bid minus the bidder's discount share: the discount
/// is exactly what the bidder keeps.
pub proof fn lemma_referred_distribution_total(
    terms: Option<ReferralStructure>,
    lamports: u64,
    is_referred: bool,
)
    requires
        is_referred && terms is Some,
    ensures
        (lamports - fee_of(terms, lamports, is_referred)) + (fee_of(terms, lamports, is_referred)
            - discount_of(terms, lamports, is_referred)) == lamports - discount_of(
            terms,
            lamports,
            is_referred,
        ),
{
}

/// When referral does not apply, nothing goes to a referrer and the whole
/// bid is escrowed.
pub proof fn lemma_no_referral_all_to_vault(
    terms: Option<ReferralStructure>,
    lamports: u64,
    is_referred: bool,
)
    requires
        !(is_referred && terms is Some),
    ensures
        lamports - fee_of(terms, lamports, is_referred) == lamports,
        fee_of(terms, lamports, is_referred) - discount_of(terms, lamports, is_referred) == 0,
{
}

/// An asset claim before the deadline always fails with `AuctionNotEnded`;
/// from the deadline on, it is allowed exactly for the recorded winner, or
/// for the seller when the auction closed unbid.
pub proof fn lemma_claim_gated_by_deadline(pre: ClaimNFT, current_time: i64)
    ensures
        current_time < pre.auction.deadline ==> claim_nft_check(pre, current_time) == Some(
            AuctionError::AuctionNotEnded,
        ),
        current_time >= pre.auction.deadline ==> (claim_nft_check(pre, current_time) is None
            <==> (match pre.auction.current_bidder {
            Some(winner) => pre.signer == winner,
            None => pre.signer == pre.auction.maker,
        })),
{
}

} // verus!
