use english_auction::bid::Bid;
use english_auction::claim_nft::ClaimNFT;
use english_auction::claim_payment::ClaimPayment;
use english_auction::config::Config;
use english_auction::create_auction::CreateAuction;
use english_auction::english_auction::Auction;
use english_auction::errors::AuctionError;
use english_auction::initialize::Initialize;
use english_auction::transfer::{AssetTransfer, Transfer};

const T: i64 = 1_000_000;
const RESERVE: u64 = 1_000;

const SELLER: u64 = 1;
const MINT: u64 = 42;
const SELLER_ATA: u64 = 101;
const VAULT_ATA: u64 = 201;
const VAULT: u64 = 300;
const FIRST_BIDDER: u64 = 10;
const SECOND_BIDDER: u64 = 11;

fn opened_auction() -> Auction {
    let mut ctx = CreateAuction {
        user: SELLER,
        mint: MINT,
        user_ata: SELLER_ATA,
        vault_ata: VAULT_ATA,
        auction: Auction {
            start_time: 0,
            deadline: 1,
            min_price: 0,
            current_bidder: None,
            current_bid: None,
            min_increment: 0,
            mint: 0,
            maker: 0,
            referral_structure: None,
            bump: 0,
            vault_bump: 0,
        },
    };
    english_auction::create_auction(&mut ctx, T, T + 3600, 100, 10, None, 7, 8);
    ctx.auction
}

fn bid_ctx(auction: Auction, bidder: u64, vault_balance: u64) -> Bid {
    Bid {
        bidder,
        auction,
        vault: VAULT,
        vault_balance,
        preceding_bidder: auction.current_bidder,
        referrer_whitelist: None,
        referrer: None,
    }
}

#[test]
fn initialize_writes_singleton_config() {
    let mut ctx = Initialize { admin: 5, config: None };
    english_auction::initialize(&mut ctx, 3);
    assert_eq!(ctx.config, Some(Config { admin: 5, bump: 3 }));
}

#[test]
fn create_auction_escrows_asset_and_writes_record() {
    let mut ctx = CreateAuction {
        user: SELLER,
        mint: MINT,
        user_ata: SELLER_ATA,
        vault_ata: VAULT_ATA,
        auction: Auction {
            start_time: 0,
            deadline: 1,
            min_price: 0,
            current_bidder: None,
            current_bid: None,
            min_increment: 0,
            mint: 0,
            maker: 0,
            referral_structure: None,
            bump: 0,
            vault_bump: 0,
        },
    };
    let escrow = english_auction::create_auction(&mut ctx, T, T + 3600, 100, 10, None, 7, 8);
    assert_eq!(
        escrow,
        AssetTransfer { mint: MINT, from: SELLER_ATA, to: VAULT_ATA, amount: 1 }
    );
    assert_eq!(ctx.auction.start_time, T);
    assert_eq!(ctx.auction.deadline, T + 3600);
    assert_eq!(ctx.auction.min_price, 100);
    assert_eq!(ctx.auction.min_increment, 10);
    assert_eq!(ctx.auction.current_bid, None);
    assert_eq!(ctx.auction.current_bidder, None);
    assert_eq!(ctx.auction.maker, SELLER);
    assert_eq!(ctx.auction.mint, MINT);
}

#[test]
fn bid_before_start_fails() {
    let auction = opened_auction();
    let mut ctx = bid_ctx(auction, FIRST_BIDDER, RESERVE);
    let r = english_auction::bid(&mut ctx, T - 1, RESERVE, 150);
    assert_eq!(r, Err(AuctionError::AuctionNotStarted));
    assert_eq!(ctx.auction, auction);
}

#[test]
fn bid_at_deadline_fails() {
    let auction = opened_auction();
    let mut ctx = bid_ctx(auction, FIRST_BIDDER, RESERVE);
    let r = english_auction::bid(&mut ctx, T + 3600, RESERVE, 150);
    assert_eq!(r, Err(AuctionError::AuctionEnded));
    assert_eq!(ctx.auction, auction);
}

#[test]
fn bid_with_wrong_refund_target_fails() {
    let auction = opened_auction();
    let mut ctx = bid_ctx(auction, FIRST_BIDDER, RESERVE);
    ctx.preceding_bidder = Some(SECOND_BIDDER);
    let r = english_auction::bid(&mut ctx, T + 1, RESERVE, 150);
    assert_eq!(r, Err(AuctionError::BadPrecedingBidder));
    assert_eq!(ctx.auction, auction);
}

/// The opening scenario: a bid equal to the minimum price is too low, 150 is
/// accepted, 155 misses the increment-raised threshold, 160 is accepted and
/// refunds the 150-bidder, and the seller collects 160 only after the
/// deadline.
#[test]
fn ascending_auction_scenario() {
    let auction = opened_auction();

    // 100 does not strictly exceed the minimum price of 100.
    let mut first = bid_ctx(auction, FIRST_BIDDER, RESERVE);
    assert_eq!(
        english_auction::bid(&mut first, T + 1, RESERVE, 100),
        Err(AuctionError::BidTooLow)
    );
    assert_eq!(first.auction, auction);

    // 150 is accepted; the whole bid is escrowed.
    let transfers = english_auction::bid(&mut first, T + 1, RESERVE, 150).unwrap();
    assert_eq!(
        transfers,
        vec![Transfer { from: FIRST_BIDDER, to: VAULT, lamports: 150 }]
    );
    assert_eq!(first.auction.current_bid, Some(150));
    assert_eq!(first.auction.current_bidder, Some(FIRST_BIDDER));

    // 155 misses 150 + 10.
    let mut second = bid_ctx(first.auction, SECOND_BIDDER, RESERVE + 150);
    assert_eq!(
        english_auction::bid(&mut second, T + 2, RESERVE, 155),
        Err(AuctionError::BidTooLow)
    );
    assert_eq!(second.auction, first.auction);

    // 160 is accepted; the vault is vacated to the 150-bidder first.
    let transfers = english_auction::bid(&mut second, T + 2, RESERVE, 160).unwrap();
    assert_eq!(
        transfers,
        vec![
            Transfer { from: VAULT, to: FIRST_BIDDER, lamports: 150 },
            Transfer { from: SECOND_BIDDER, to: VAULT, lamports: 160 },
        ]
    );
    assert_eq!(second.auction.current_bid, Some(160));
    assert_eq!(second.auction.current_bidder, Some(SECOND_BIDDER));

    // The seller cannot collect before the deadline.
    let mut payment = ClaimPayment {
        maker: SELLER,
        auction: second.auction,
        vault: VAULT,
        vault_balance: RESERVE + 160,
    };
    assert_eq!(
        english_auction::claim_payment(&mut payment, T + 3599, RESERVE),
        Err(AuctionError::AuctionNotEnded)
    );

    // After the deadline the seller is paid exactly 160.
    let payout = english_auction::claim_payment(&mut payment, T + 3600, RESERVE).unwrap();
    assert_eq!(payout, Some(Transfer { from: VAULT, to: SELLER, lamports: 160 }));
}

#[test]
fn claim_payment_by_non_seller_fails() {
    let mut auction = opened_auction();
    auction.current_bid = Some(150);
    auction.current_bidder = Some(FIRST_BIDDER);
    let mut ctx = ClaimPayment {
        maker: SECOND_BIDDER,
        auction,
        vault: VAULT,
        vault_balance: RESERVE + 150,
    };
    assert_eq!(
        english_auction::claim_payment(&mut ctx, T + 3600, RESERVE),
        Err(AuctionError::BadAccount)
    );
}

#[test]
fn claim_payment_with_no_bid_is_a_no_op() {
    let auction = opened_auction();
    let mut ctx = ClaimPayment { maker: SELLER, auction, vault: VAULT, vault_balance: RESERVE };
    assert_eq!(english_auction::claim_payment(&mut ctx, T + 3600, RESERVE), Ok(None));
}

#[test]
fn repeated_claim_payment_pays_zero() {
    let mut auction = opened_auction();
    auction.current_bid = Some(150);
    auction.current_bidder = Some(FIRST_BIDDER);
    // The first claim vacated the vault down to its reserve.
    let mut ctx = ClaimPayment { maker: SELLER, auction, vault: VAULT, vault_balance: RESERVE };
    assert_eq!(
        english_auction::claim_payment(&mut ctx, T + 3600, RESERVE),
        Ok(Some(Transfer { from: VAULT, to: SELLER, lamports: 0 }))
    );
}

#[test]
fn claim_nft_before_deadline_fails() {
    let mut auction = opened_auction();
    auction.current_bid = Some(150);
    auction.current_bidder = Some(FIRST_BIDDER);
    let mut ctx = ClaimNFT {
        signer: FIRST_BIDDER,
        signer_ata: 501,
        auction,
        vault_ata: VAULT_ATA,
        vault_ata_balance: 1,
    };
    assert_eq!(
        english_auction::claim_nft(&mut ctx, T + 3599),
        Err(AuctionError::AuctionNotEnded)
    );
}

#[test]
fn claim_nft_goes_to_winner_only() {
    let mut auction = opened_auction();
    auction.current_bid = Some(150);
    auction.current_bidder = Some(FIRST_BIDDER);

    let mut wrong = ClaimNFT {
        signer: SECOND_BIDDER,
        signer_ata: 502,
        auction,
        vault_ata: VAULT_ATA,
        vault_ata_balance: 1,
    };
    assert_eq!(
        english_auction::claim_nft(&mut wrong, T + 3600),
        Err(AuctionError::BadAccount)
    );

    let mut winner = ClaimNFT {
        signer: FIRST_BIDDER,
        signer_ata: 501,
        auction,
        vault_ata: VAULT_ATA,
        vault_ata_balance: 1,
    };
    assert_eq!(
        english_auction::claim_nft(&mut winner, T + 3600),
        Ok(Some(AssetTransfer { mint: MINT, from: VAULT_ATA, to: 501, amount: 1 }))
    );
}

#[test]
fn unbid_auction_returns_asset_to_seller() {
    let auction = opened_auction();

    let mut wrong = ClaimNFT {
        signer: FIRST_BIDDER,
        signer_ata: 501,
        auction,
        vault_ata: VAULT_ATA,
        vault_ata_balance: 1,
    };
    assert_eq!(
        english_auction::claim_nft(&mut wrong, T + 3600),
        Err(AuctionError::BadAccount)
    );

    let mut seller = ClaimNFT {
        signer: SELLER,
        signer_ata: SELLER_ATA,
        auction,
        vault_ata: VAULT_ATA,
        vault_ata_balance: 1,
    };
    assert_eq!(
        english_auction::claim_nft(&mut seller, T + 3600),
        Ok(Some(AssetTransfer { mint: MINT, from: VAULT_ATA, to: SELLER_ATA, amount: 1 }))
    );
}

#[test]
fn repeated_claim_nft_is_a_no_op() {
    let mut auction = opened_auction();
    auction.current_bid = Some(150);
    auction.current_bidder = Some(FIRST_BIDDER);
    // The first claim drained the escrow.
    let mut ctx = ClaimNFT {
        signer: FIRST_BIDDER,
        signer_ata: 501,
        auction,
        vault_ata: VAULT_ATA,
        vault_ata_balance: 0,
    };
    assert_eq!(english_auction::claim_nft(&mut ctx, T + 3600), Ok(None));
}

#[test]
fn zero_increment_requires_strict_increase() {
    let mut auction = opened_auction();
    auction.min_increment = 0;
    auction.current_bid = Some(150);
    auction.current_bidder = Some(FIRST_BIDDER);

    let mut ctx = bid_ctx(auction, SECOND_BIDDER, RESERVE + 150);
    assert_eq!(
        english_auction::bid(&mut ctx, T + 2, RESERVE, 150),
        Err(AuctionError::BidTooLow)
    );
    let transfers = english_auction::bid(&mut ctx, T + 2, RESERVE, 151).unwrap();
    assert_eq!(
        transfers,
        vec![
            Transfer { from: VAULT, to: FIRST_BIDDER, lamports: 150 },
            Transfer { from: SECOND_BIDDER, to: VAULT, lamports: 151 },
        ]
    );
}
