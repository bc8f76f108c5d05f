//! The lifecycle of an auction: what each operation admits, which transfers
//! it asks of the ledger, and the record it leaves.
//!
//! An operation reads the clock once, validates everything, and plans a step.
//! It changes nothing itself: the host has the ledger execute the step's
//! transfers as one unit and then concludes the step on the stored record.

use vstd::prelude::*;
use crate::custody::{held_after, EscrowCustodian, Holding, Transfer};
use crate::error::ErrorCode;
use crate::key::AccountKey;
use crate::laws::{lemma_bid_keeps_custody, lemma_withdrawal_empties_custody};
use crate::record::{Auction, AuctionRecord, Transition, TransitionView};
use crate::settlement::{settle, settlement_legs, MAX_FEE};

verus! {

/// What a request to finalize a sale names.
#[derive(Clone, Copy, Debug, PartialEq, Eq)]
pub struct EndAuction {
    /// Who asks. Anyone may.
    pub caller: AccountKey,
    /// Where the platform's share goes.
    pub platform_account: AccountKey,
    /// The auction as it is stored.
    pub auction: Auction,
    /// The custody account of this auction.
    pub custodian: EscrowCustodian,
}

/// Why a sale cannot be finalized at `now`, if it cannot.
pub open spec fn end_refusal(a: AuctionRecord, now: i64) -> Option<ErrorCode> {
    if !a.is_active || now < a.end_time {
        Some(ErrorCode::AuctionNotEnded)
    } else if a.highest_bid < a.reserve_price {
        Some(ErrorCode::ReservePriceNotMet)
    } else {
        None
    }
}

/// The record of a sale that has been closed.
pub open spec fn closed_record(a: AuctionRecord) -> AuctionRecord {
    AuctionRecord { is_active: false, ..a }
}

/// What finalizing a sale at `now` comes to.
pub open spec fn end_outcome(
    a: AuctionRecord,
    custodian: EscrowCustodian,
    platform: AccountKey,
    now: i64,
) -> Result<TransitionView, ErrorCode> {
    match end_refusal(a, now) {
        Some(e) => Err(e),
        None => Ok(
            TransitionView {
                transfers: settlement_legs(a, custodian, platform),
                next: closed_record(a),
            },
        ),
    }
}

/// Finalizes a sale. It is refused with `AuctionNotEnded` while the auction
/// is not open or its end time has not come, and with `ReservePriceNotMet`
/// when the standing bid is under the reserve. Otherwise the step closes the
/// auction and settles it: the asset to the winner, the winning bid divided
/// between the seller and the platform.
pub fn end_auction(ctx: &EndAuction, now: i64) -> (r: Result<Transition, ErrorCode>)
    ensures
        match r {
            Ok(step) => end_outcome(ctx.auction@, ctx.custodian, ctx.platform_account, now)
                == Ok::<TransitionView, ErrorCode>(step@),
            Err(e) => end_outcome(ctx.auction@, ctx.custodian, ctx.platform_account, now)
                == Err::<TransitionView, ErrorCode>(e),
        },
        now < ctx.auction@.end_time ==> (r matches Err(e) && e == ErrorCode::AuctionNotEnded),
        ctx.auction@.is_active && now >= ctx.auction@.end_time && ctx.auction@.highest_bid
            >= ctx.auction@.reserve_price ==> (r matches Ok(step) && !step.next@.is_active),
{
    let record = ctx.auction.record();
    if !record.is_active || now < record.end_time {
        return Err(ErrorCode::AuctionNotEnded);
    }
    if record.highest_bid < record.reserve_price {
        return Err(ErrorCode::ReservePriceNotMet);
    }
    let transfers = settle(&ctx.auction, &ctx.custodian, ctx.platform_account);
    let mut closed = record;
    closed.is_active = false;
    Ok(Transition { transfers, next: Auction::sealed(closed) })
}

/// What a bid names.
#[derive(Clone, Copy, Debug, PartialEq, Eq)]
pub struct PlaceBid {
    /// Who bids, and pays the bid into custody.
    pub bidder: AccountKey,
    /// The auction as it is stored.
    pub auction: Auction,
    /// The custody account of this auction.
    pub custodian: EscrowCustodian,
}

/// Why a bid of `amount` is not admitted at `now`, if it is not.
pub open spec fn bid_refusal(a: AuctionRecord, amount: u64, now: i64) -> Option<ErrorCode> {
    if !a.is_active {
        Some(ErrorCode::AuctionNotActive)
    } else if now >= a.end_time {
        Some(ErrorCode::AuctionEnded)
    } else if amount <= a.highest_bid {
        Some(ErrorCode::BidTooLow)
    } else {
        None
    }
}

/// Whether a bid of `amount` reaches the buy-now price of the auction.
pub open spec fn reaches_buy_now(a: AuctionRecord, amount: u64) -> bool {
    a.buy_now_price matches Some(price) && amount >= price
}

/// The record once `bidder`'s bid of `amount` stands. A bid that reaches the
/// buy-now price brings the end time forward to `now`.
pub open spec fn record_after_bid(
    a: AuctionRecord,
    bidder: AccountKey,
    amount: u64,
    now: i64,
) -> AuctionRecord {
    AuctionRecord {
        highest_bid: amount,
        highest_bidder: Some(bidder),
        end_time: if reaches_buy_now(a, amount) {
            now
        } else {
            a.end_time
        },
        ..a
    }
}

/// The transfers of a bid: the standing bid, if there is one, goes back to
/// who placed it, and then the new bid comes into custody.
pub open spec fn bid_legs(
    a: AuctionRecord,
    custodian: EscrowCustodian,
    bidder: AccountKey,
    amount: u64,
) -> Seq<Transfer> {
    let deposit = custodian.deposit_leg(Holding::Funds, bidder, amount);
    match a.highest_bidder {
        Some(previous) => seq![
            custodian.release_leg(Holding::Funds, previous, a.highest_bid),
            deposit,
        ],
        None => seq![deposit],
    }
}

/// What a bid of `amount` by `bidder` at `now` comes to.
pub open spec fn bid_outcome(
    a: AuctionRecord,
    custodian: EscrowCustodian,
    bidder: AccountKey,
    amount: u64,
    now: i64,
) -> Result<TransitionView, ErrorCode> {
    match bid_refusal(a, amount, now) {
        Some(e) => Err(e),
        None => Ok(
            TransitionView {
                transfers: bid_legs(a, custodian, bidder, amount),
                next: record_after_bid(a, bidder, amount, now),
            },
        ),
    }
}

/// Places a bid. It is refused with `AuctionNotActive` when the auction is
/// closed, else with `AuctionEnded` when its end time has come, else with
/// `BidTooLow` unless the amount exceeds the standing bid. Otherwise the step
/// refunds the standing bid, takes the new one into custody and records it;
/// a bid that reaches the buy-now price also moves the end time to `now`.
///
/// A custody account that held the standing bid holds the new one once the
/// step's transfers are executed, provided it is not itself a bidder.
pub fn place_bid(ctx: &PlaceBid, amount: u64, now: i64) -> (r: Result<Transition, ErrorCode>)
    ensures
        match r {
            Ok(step) => bid_outcome(ctx.auction@, ctx.custodian, ctx.bidder, amount, now) == Ok::<
                TransitionView,
                ErrorCode,
            >(step@),
            Err(e) => bid_outcome(ctx.auction@, ctx.custodian, ctx.bidder, amount, now) == Err::<
                TransitionView,
                ErrorCode,
            >(e),
        },
        r matches Ok(step) ==> {
            &&& step.next@.highest_bid == amount
            &&& step.next@.highest_bid > ctx.auction@.highest_bid
            &&& step.next@.end_time <= ctx.auction@.end_time
            &&& step.next@.is_active
            &&& ctx.bidder != ctx.custodian.vault && ctx.auction@.highest_bidder != Some(
                ctx.custodian.vault,
            ) ==> held_after(
                ctx.auction@.highest_bid as int,
                step.transfers@,
                Holding::Funds,
                ctx.custodian.vault,
            ) == step.next@.highest_bid
        },
{
    let record = ctx.auction.record();
    if !record.is_active {
        return Err(ErrorCode::AuctionNotActive);
    }
    if now >= record.end_time {
        return Err(ErrorCode::AuctionEnded);
    }
    if amount <= record.highest_bid {
        return Err(ErrorCode::BidTooLow);
    }
    let mut transfers: Vec<Transfer> = Vec::new();
    match record.highest_bidder {
        Some(previous) => {
            transfers.push(ctx.custodian.release(Holding::Funds, previous, record.highest_bid));
        },
        None => {},
    }
    transfers.push(ctx.custodian.deposit(Holding::Funds, ctx.bidder, amount));
    let mut next = record;
    next.highest_bid = amount;
    next.highest_bidder = Some(ctx.bidder);
    match record.buy_now_price {
        Some(price) => {
            if amount >= price {
                next.end_time = now;
            }
        },
        None => {},
    }
    proof {
        assert(transfers@ =~= bid_legs(ctx.auction@, ctx.custodian, ctx.bidder, amount));
        if ctx.bidder != ctx.custodian.vault && record.highest_bidder != Some(ctx.custodian.vault) {
            lemma_bid_keeps_custody(record, ctx.custodian, ctx.bidder, amount, now);
        }
    }
    Ok(Transition { transfers, next: Auction::sealed(next) })
}

/// What a request to open an auction names.
#[derive(Clone, Copy, Debug, PartialEq, Eq)]
pub struct CreateAuction {
    /// Who sells, and hands the asset into custody.
    pub seller: AccountKey,
    /// The asset put up for sale.
    pub nft_token_account: AccountKey,
    /// The identifier under which the new record will be stored.
    pub auction: AccountKey,
    /// The custody account of the new auction.
    pub custodian: EscrowCustodian,
}

/// Why an auction cannot be opened with these parameters, if it cannot.
pub open spec fn create_refusal(duration: i64, platform_fee: u64) -> Option<ErrorCode> {
    if duration <= 0 || platform_fee > MAX_FEE {
        Some(ErrorCode::InvalidParameters)
    } else {
        None
    }
}

/// The record of an auction opened at `now`: open, without a bid, ending
/// `duration` seconds later.
pub open spec fn opened_record(
    ctx: CreateAuction,
    start_price: u64,
    reserve_price: u64,
    buy_now_price: Option<u64>,
    duration: i64,
    platform_fee: u64,
    now: i64,
) -> AuctionRecord {
    AuctionRecord {
        id: ctx.auction,
        seller: ctx.seller,
        nft_token_account: ctx.nft_token_account,
        start_price,
        reserve_price,
        buy_now_price,
        highest_bid: 0,
        highest_bidder: None,
        end_time: (now + duration) as i64,
        is_active: true,
        platform_fee,
    }
}

/// What opening an auction at `now` comes to.
pub open spec fn create_outcome(
    ctx: CreateAuction,
    start_price: u64,
    reserve_price: u64,
    buy_now_price: Option<u64>,
    duration: i64,
    platform_fee: u64,
    now: i64,
) -> Result<TransitionView, ErrorCode> {
    match create_refusal(duration, platform_fee) {
        Some(e) => Err(e),
        None => Ok(
            TransitionView {
                transfers: seq![ctx.custodian.deposit_leg(Holding::Asset, ctx.seller, 1)],
                next: opened_record(
                    ctx,
                    start_price,
                    reserve_price,
                    buy_now_price,
                    duration,
                    platform_fee,
                    now,
                ),
            },
        ),
    }
}

/// Opens an auction. It is refused with `InvalidParameters` unless the
/// duration is positive and the fee at most one hundred percent. Otherwise
/// the step takes the one unit of the asset from the seller into custody and
/// yields the new record, stored under the identifier that the request names.
///
/// The end time has to be representable.
pub fn create_auction(
    ctx: &CreateAuction,
    start_price: u64,
    reserve_price: u64,
    buy_now_price: Option<u64>,
    duration: i64,
    platform_fee: u64,
    now: i64,
) -> (r: Result<Transition, ErrorCode>)
    requires
        create_refusal(duration, platform_fee) is None ==> now + duration <= i64::MAX,
    ensures
        match r {
            Ok(step) => create_outcome(
                *ctx,
                start_price,
                reserve_price,
                buy_now_price,
                duration,
                platform_fee,
                now,
            ) == Ok::<TransitionView, ErrorCode>(step@),
            Err(e) => create_outcome(
                *ctx,
                start_price,
                reserve_price,
                buy_now_price,
                duration,
                platform_fee,
                now,
            ) == Err::<TransitionView, ErrorCode>(e),
        },
        r matches Ok(step) ==> {
            &&& step.next@.id == ctx.auction
            &&& step.next@.end_time == now + duration
            &&& step.next@.is_active
            &&& step.next@.highest_bid == 0
        },
{
    if duration <= 0 || platform_fee > MAX_FEE {
        return Err(ErrorCode::InvalidParameters);
    }
    let mut transfers: Vec<Transfer> = Vec::new();
    transfers.push(ctx.custodian.deposit(Holding::Asset, ctx.seller, 1));
    let record = AuctionRecord {
        id: ctx.auction,
        seller: ctx.seller,
        nft_token_account: ctx.nft_token_account,
        start_price,
        reserve_price,
        buy_now_price,
        highest_bid: 0,
        highest_bidder: None,
        end_time: now + duration,
        is_active: true,
        platform_fee,
    };
    assert(transfers@ =~= seq![ctx.custodian.deposit_leg(Holding::Asset, ctx.seller, 1)]);
    Ok(Transition { transfers, next: Auction::sealed(record) })
}

/// What a request to take back the standing bid names.
#[derive(Clone, Copy, Debug, PartialEq, Eq)]
pub struct WithdrawBid {
    /// Who asks for their bid back.
    pub bidder: AccountKey,
    /// The auction as it is stored.
    pub auction: Auction,
    /// The custody account of this auction.
    pub custodian: EscrowCustodian,
}

/// Why `bidder` cannot take back the standing bid, if they cannot.
pub open spec fn withdraw_refusal(a: AuctionRecord, bidder: AccountKey) -> Option<ErrorCode> {
    if a.highest_bidder == Some(bidder) {
        None
    } else {
        Some(ErrorCode::NotHighestBidder)
    }
}

/// The record once the standing bid has been taken back: no bid, no bidder.
pub open spec fn record_after_withdrawal(a: AuctionRecord) -> AuctionRecord {
    AuctionRecord { highest_bid: 0, highest_bidder: None, ..a }
}

/// What taking back the standing bid comes to.
pub open spec fn withdraw_outcome(
    a: AuctionRecord,
    custodian: EscrowCustodian,
    bidder: AccountKey,
) -> Result<TransitionView, ErrorCode> {
    match withdraw_refusal(a, bidder) {
        Some(e) => Err(e),
        None => Ok(
            TransitionView {
                transfers: seq![custodian.release_leg(Holding::Funds, bidder, a.highest_bid)],
                next: record_after_withdrawal(a),
            },
        ),
    }
}

/// Takes back the standing bid. It is refused with `NotHighestBidder` unless
/// the caller placed the standing bid. Otherwise the step returns the
/// escrowed funds to the caller and leaves the auction without a bid; the
/// auction stays as open as it was, and its end time stays.
///
/// A custody account that held the standing bid holds no funds once the
/// step's transfer is executed, provided it is not itself the bidder.
pub fn withdraw_bid(ctx: &WithdrawBid) -> (r: Result<Transition, ErrorCode>)
    ensures
        match r {
            Ok(step) => withdraw_outcome(ctx.auction@, ctx.custodian, ctx.bidder) == Ok::<
                TransitionView,
                ErrorCode,
            >(step@),
            Err(e) => withdraw_outcome(ctx.auction@, ctx.custodian, ctx.bidder) == Err::<
                TransitionView,
                ErrorCode,
            >(e),
        },
        r matches Ok(step) ==> {
            &&& step.next@.highest_bid == 0
            &&& step.next@.highest_bidder is None
            &&& step.next@.is_active == ctx.auction@.is_active
            &&& ctx.bidder != ctx.custodian.vault ==> held_after(
                ctx.auction@.highest_bid as int,
                step.transfers@,
                Holding::Funds,
                ctx.custodian.vault,
            ) == 0
        },
{
    let record = ctx.auction.record();
    if record.highest_bidder != Some(ctx.bidder) {
        return Err(ErrorCode::NotHighestBidder);
    }
    let mut transfers: Vec<Transfer> = Vec::new();
    transfers.push(ctx.custodian.release(Holding::Funds, ctx.bidder, record.highest_bid));
    let mut next = record;
    next.highest_bid = 0;
    next.highest_bidder = None;
    proof {
        assert(transfers@ =~= seq![
            ctx.custodian.release_leg(Holding::Funds, ctx.bidder, ctx.auction@.highest_bid),
        ]);
        if ctx.bidder != ctx.custodian.vault {
            lemma_withdrawal_empties_custody(record, ctx.custodian, ctx.bidder);
        }
    }
    Ok(Transition { transfers, next: Auction::sealed(next) })
}

/// What a request to call off an auction names.
#[derive(Clone, Copy, Debug, PartialEq, Eq)]
pub struct CancelAuction {
    /// Who asks.
    pub seller: AccountKey,
    /// The auction as it is stored.
    pub auction: Auction,
    /// The custody account of this auction.
    pub custodian: EscrowCustodian,
}

/// Why an auction cannot be called off, if it cannot.
pub open spec fn cancel_refusal(a: AuctionRecord) -> Option<ErrorCode> {
    if a.highest_bid == 0 {
        None
    } else {
        Some(ErrorCode::BidsAlreadyPlaced)
    }
}

/// What calling off an auction comes to.
pub open spec fn cancel_outcome(a: AuctionRecord, custodian: EscrowCustodian) -> Result<
    TransitionView,
    ErrorCode,
> {
    match cancel_refusal(a) {
        Some(e) => Err(e),
        None => Ok(
            TransitionView {
                transfers: seq![custodian.release_leg(Holding::Asset, a.seller, 1)],
                next: closed_record(a),
            },
        ),
    }
}

/// Calls off an auction. It is admitted exactly when no bid stands, and is
/// refused with `BidsAlreadyPlaced` otherwise. The step returns the asset
/// from custody to the seller on record and closes the auction.
pub fn cancel_auction(ctx: &CancelAuction) -> (r: Result<Transition, ErrorCode>)
    ensures
        match r {
            Ok(step) => cancel_outcome(ctx.auction@, ctx.custodian) == Ok::<
                TransitionView,
                ErrorCode,
            >(step@),
            Err(e) => cancel_outcome(ctx.auction@, ctx.custodian) == Err::<
                TransitionView,
                ErrorCode,
            >(e),
        },
        r is Ok <==> ctx.auction@.highest_bid == 0,
        r matches Err(e) ==> e == ErrorCode::BidsAlreadyPlaced,
        r matches Ok(step) ==> !step.next@.is_active,
{
    let record = ctx.auction.record();
    if record.highest_bid != 0 {
        return Err(ErrorCode::BidsAlreadyPlaced);
    }
    let mut transfers: Vec<Transfer> = Vec::new();
    transfers.push(ctx.custodian.release(Holding::Asset, record.seller, 1));
    let mut closed = record;
    closed.is_active = false;
    assert(transfers@ =~= seq![ctx.custodian.release_leg(Holding::Asset, ctx.auction@.seller, 1)]);
    Ok(Transition { transfers, next: Auction::sealed(closed) })
}

} // verus!
