//! How the winning bid is divided between the platform and the seller.

use vstd::prelude::*;
use crate::custody::{EscrowCustodian, Holding, Transfer};
use crate::key::AccountKey;
use crate::record::{Auction, AuctionRecord};

verus! {

/// The largest fee, in whole percent of the winning bid.
pub const MAX_FEE: u64 = 100;

/// The platform's share of `highest_bid` at `fee` percent, rounded down.
pub open spec fn platform_fee_of(highest_bid: int, fee: int) -> int {
    highest_bid * fee / 100
}

/// What remains of `highest_bid` for the seller at `fee` percent.
pub open spec fn seller_amount_of(highest_bid: int, fee: int) -> int {
    highest_bid - platform_fee_of(highest_bid, fee)
}

/// The two shares of a winning bid.
#[derive(Clone, Copy, Debug, PartialEq, Eq, Structural)]
pub struct Proceeds {
    pub platform_fee: u64,
    pub seller_amount: u64,
}

/// At any fee of at most one hundred percent the platform's share is between
/// nothing and the whole bid, so both shares fit wherever the bid fits.
pub proof fn lemma_fee_bounded(highest_bid: int, fee: int)
    requires
        0 <= highest_bid,
        0 <= fee <= 100,
    ensures
        0 <= platform_fee_of(highest_bid, fee) <= highest_bid,
        0 <= seller_amount_of(highest_bid, fee) <= highest_bid,
        platform_fee_of(highest_bid, fee) + seller_amount_of(highest_bid, fee) == highest_bid,
{
    assert(0 <= highest_bid * fee <= highest_bid * 100) by (nonlinear_arith)
        requires
            0 <= highest_bid,
            0 <= fee <= 100,
    ;
}

/// Divides `highest_bid` at `fee` percent. The two shares always add up to
/// the bid, and no intermediate value overflows, whatever the bid.
pub fn split_proceeds(highest_bid: u64, fee: u64) -> (r: Proceeds)
    requires
        fee <= MAX_FEE,
    ensures
        r.platform_fee == platform_fee_of(highest_bid as int, fee as int),
        r.seller_amount == seller_amount_of(highest_bid as int, fee as int),
        r.platform_fee + r.seller_amount == highest_bid,
{
    proof {
        lemma_fee_bounded(highest_bid as int, fee as int);
        assert(highest_bid * fee <= u64::MAX * 100) by (nonlinear_arith)
            requires
                0 <= highest_bid <= u64::MAX,
                0 <= fee <= 100,
        ;
    }
    let wide: u128 = (highest_bid as u128) * (fee as u128) / 100;
    let platform_fee: u64 = wide as u64;
    Proceeds { platform_fee, seller_amount: highest_bid - platform_fee }
}

/// Who receives the asset when the sale is finalized: the standing bidder,
/// and the null key when the sale closes without one.
pub open spec fn winner_of(a: AuctionRecord) -> AccountKey {
    match a.highest_bidder {
        Some(bidder) => bidder,
        None => AccountKey::null(),
    }
}

/// The three transfers that finalize a sale, in the order in which the ledger
/// has to execute them: the asset to the winner, then the seller's share of
/// the winning bid, then the platform's.
pub open spec fn settlement_legs(
    a: AuctionRecord,
    custodian: EscrowCustodian,
    platform: AccountKey,
) -> Seq<Transfer> {
    seq![
        custodian.release_leg(Holding::Asset, winner_of(a), 1),
        custodian.release_leg(
            Holding::Funds,
            a.seller,
            seller_amount_of(a.highest_bid as int, a.platform_fee as int) as u64,
        ),
        custodian.release_leg(
            Holding::Funds,
            platform,
            platform_fee_of(a.highest_bid as int, a.platform_fee as int) as u64,
        ),
    ]
}

/// Words the three transfers that finalize the sale of `auction` out of the
/// custody account, with the platform's share going to `platform`.
pub fn settle(auction: &Auction, custodian: &EscrowCustodian, platform: AccountKey) -> (r: Vec<
    Transfer,
>)
    ensures
        r@ == settlement_legs(auction@, *custodian, platform),
{
    let record = auction.record();
    let proceeds = split_proceeds(record.highest_bid, record.platform_fee);
    let winner = match record.highest_bidder {
        Some(bidder) => bidder,
        None => AccountKey::default(),
    };
    let mut legs: Vec<Transfer> = Vec::new();
    legs.push(custodian.release(Holding::Asset, winner, 1));
    legs.push(custodian.release(Holding::Funds, record.seller, proceeds.seller_amount));
    legs.push(custodian.release(Holding::Funds, platform, proceeds.platform_fee));
    assert(legs@ =~= settlement_legs(auction@, *custodian, platform));
    legs
}

} // verus!
