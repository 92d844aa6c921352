//! A timed, ascending-price auction for a single unique digital asset,
//! settled by automated ledger logic with no trusted intermediary.
//!
//! The library is the auction engine: it validates bids, computes the
//! referral fee split, decides refunds and post-deadline settlement, and
//! keeps the authoritative [`english_auction::Auction`] record. It never
//! touches the ledger itself: every operation returns the exact transfers to
//! perform, and the surrounding runtime executes them atomically and
//! supplies the ambient inputs (the clock, the rent reserve, account
//! balances, and uniquely addressed storage for each record).

use vstd::prelude::*;

pub mod bid;
pub mod claim_nft;
pub mod claim_payment;
pub mod config;
pub mod create_auction;
pub mod english_auction;
pub mod errors;
pub mod initialize;
pub mod laws;
pub mod referrers;
pub mod transfer;
pub mod utils;
pub mod whitelist_referrer;

use crate::bid::{bid_check, Bid};
use crate::claim_nft::{claim_nft_check, ClaimNFT};
use crate::claim_payment::{claim_payment_check, ClaimPayment};
use crate::config::Config;
use crate::create_auction::CreateAuction;
use crate::english_auction::{Auction, ReferralStructure};
use crate::errors::AuctionError;
use crate::initialize::Initialize;
use crate::referrers::MAX_REFERRERS;
use crate::transfer::{AssetTransfer, Transfer};
use crate::whitelist_referrer::WhitelistReferrer;

verus! {

/// One-time administrative bootstrap; see [`Initialize::initialize`].
pub fn initialize(ctx: &mut Initialize, bump: u8)
    requires
        old(ctx).config is None,
    ensures
        final(ctx).config == Some(Config { admin: old(ctx).admin, bump }),
        final(ctx).admin == old(ctx).admin,
{
    ctx.initialize(bump)
}

/// Opens an auction and escrows its one asset unit; see
/// [`CreateAuction::create`].
pub fn create_auction(
    ctx: &mut CreateAuction,
    start_time: i64,
    deadline: i64,
    min_price: u64,
    min_increment: u64,
    referral_structure: Option<ReferralStructure>,
    bump: u8,
    vault_bump: u8,
) -> (t: AssetTransfer)
    requires
        start_time < deadline,
        referral_structure matches Some(terms) ==> terms.wf(),
    ensures
        final(ctx).auction == (Auction {
            start_time,
            deadline,
            min_price,
            current_bidder: None,
            current_bid: None,
            min_increment,
            mint: old(ctx).mint,
            maker: old(ctx).user,
            referral_structure,
            bump,
            vault_bump,
        }),
        final(ctx).auction.wf(),
        t == (AssetTransfer {
            mint: old(ctx).mint,
            from: old(ctx).user_ata,
            to: old(ctx).vault_ata,
            amount: 1,
        }),
{
    ctx.create(start_time, deadline, min_price, min_increment, referral_structure, bump, vault_bump)
}

/// Validates and accepts one bid; see [`Bid::bid`].
pub fn bid(ctx: &mut Bid, current_time: i64, reserve: u64, lamports: u64) -> (r: Result<
    Vec<Transfer>,
    AuctionError,
>)
    requires
        old(ctx).wf(reserve),
        old(ctx).auction.current_bid is Some && old(ctx).auction.min_increment > 0 ==> old(
            ctx,
        ).auction.current_bid->0 + old(ctx).auction.min_increment <= u64::MAX,
        old(ctx).spec_discount(lamports) <= old(ctx).spec_fee(lamports),
    ensures
        bid_check(*old(ctx), current_time, lamports) matches Some(e) ==> {
            &&& r == Err::<Vec<Transfer>, AuctionError>(e)
            &&& *final(ctx) == *old(ctx)
        },
        bid_check(*old(ctx), current_time, lamports) is None ==> {
            &&& r matches Ok(transfers) && transfers@ == old(ctx).spec_transfers(reserve, lamports)
            &&& final(ctx).auction == old(ctx).auction.with_bid(old(ctx).bidder, lamports)
        },
{
    ctx.bid(current_time, reserve, lamports)
}

/// Settles the asset after the deadline; see [`ClaimNFT::claim_nft`].
pub fn claim_nft(ctx: &mut ClaimNFT, current_time: i64) -> (r: Result<
    Option<AssetTransfer>,
    AuctionError,
>)
    ensures
        *final(ctx) == *old(ctx),
        claim_nft_check(*old(ctx), current_time) matches Some(e) ==> r == Err::<
            Option<AssetTransfer>,
            AuctionError,
        >(e),
        claim_nft_check(*old(ctx), current_time) is None && old(ctx).vault_ata_balance >= 1 ==> r
            == Ok::<Option<AssetTransfer>, AuctionError>(
            Some(
                AssetTransfer {
                    mint: old(ctx).auction.mint,
                    from: old(ctx).vault_ata,
                    to: old(ctx).signer_ata,
                    amount: 1,
                },
            ),
        ),
        claim_nft_check(*old(ctx), current_time) is None && old(ctx).vault_ata_balance == 0 ==> r
            == Ok::<Option<AssetTransfer>, AuctionError>(None),
{
    ctx.claim_nft(current_time)
}

/// Settles the proceeds after the deadline; see
/// [`ClaimPayment::claim_payment`].
pub fn claim_payment(ctx: &mut ClaimPayment, current_time: i64, reserve: u64) -> (r: Result<
    Option<Transfer>,
    AuctionError,
>)
    requires
        reserve <= old(ctx).vault_balance,
    ensures
        *final(ctx) == *old(ctx),
        claim_payment_check(*old(ctx), current_time) matches Some(e) ==> r == Err::<
            Option<Transfer>,
            AuctionError,
        >(e),
        claim_payment_check(*old(ctx), current_time) is None && old(ctx).auction.current_bid
            is Some && old(ctx).auction.current_bid->0 != 0 ==> r == Ok::<
            Option<Transfer>,
            AuctionError,
        >(
            Some(
                Transfer {
                    from: old(ctx).vault,
                    to: old(ctx).maker,
                    lamports: (old(ctx).vault_balance - reserve) as u64,
                },
            ),
        ),
        claim_payment_check(*old(ctx), current_time) is None && (old(ctx).auction.current_bid
            is None || old(ctx).auction.current_bid == Some(0u64)) ==> r == Ok::<
            Option<Transfer>,
            AuctionError,
        >(None),
{
    ctx.claim_payment(current_time, reserve)
}

/// Appends a referrer to an auction's whitelist; see
/// [`WhitelistReferrer::whitelist_referrer`].
pub fn whitelist_referrer(ctx: &mut WhitelistReferrer) -> (r: Result<(), AuctionError>)
    requires
        old(ctx).maker == old(ctx).auction.maker,
        old(ctx).referrer_whitelist.wf(),
    ensures
        final(ctx).referrer_whitelist.wf(),
        old(ctx).referrer_whitelist.referrers@.len() >= MAX_REFERRERS ==> {
            &&& r == Err::<(), AuctionError>(AuctionError::ReferrersListFull)
            &&& *final(ctx) == *old(ctx)
        },
        old(ctx).referrer_whitelist.referrers@.len() < MAX_REFERRERS && old(
            ctx,
        ).referrer_whitelist.spec_contains(old(ctx).referrer) ==> {
            &&& r == Err::<(), AuctionError>(AuctionError::ExistingReferrer)
            &&& *final(ctx) == *old(ctx)
        },
        old(ctx).referrer_whitelist.referrers@.len() < MAX_REFERRERS && !old(
            ctx,
        ).referrer_whitelist.spec_contains(old(ctx).referrer) ==> {
            &&& r == Ok::<(), AuctionError>(())
            &&& final(ctx).referrer_whitelist.referrers@ == old(
                ctx,
            ).referrer_whitelist.referrers@.push(old(ctx).referrer)
            &&& final(ctx).auction == old(ctx).auction
        },
{
    ctx.whitelist_referrer()
}

} // verus!
