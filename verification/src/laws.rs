//! What holds of the lifecycle as a whole, proved from the outcome of each
//! operation.

use vstd::prelude::*;
use crate::custody::{covers, held_after, EscrowCustodian, Holding};
use crate::error::ErrorCode;
use crate::key::AccountKey;
use crate::machine::{
    bid_legs, bid_outcome, bid_refusal, cancel_outcome, create_outcome, end_outcome,
    reaches_buy_now, withdraw_outcome, CreateAuction,
};
use crate::record::{AuctionRecord, TransitionView};
use crate::settlement::{lemma_fee_bounded, settlement_legs, winner_of};

verus! {

/// One attempt to bid.
pub struct BidAttempt {
    pub bidder: AccountKey,
    pub amount: u64,
    pub now: i64,
}

/// An auction together with the funds that its custody account holds.
pub struct Escrowed {
    pub auction: AuctionRecord,
    pub funds: int,
}

/// The auction and its custody funds after one attempt to bid: the step of
/// the bid has taken effect if the bid was admitted, and nothing has changed
/// if it was refused.
pub open spec fn after_attempt(s: Escrowed, custodian: EscrowCustodian, b: BidAttempt) -> Escrowed {
    match bid_outcome(s.auction, custodian, b.bidder, b.amount, b.now) {
        Ok(step) => Escrowed {
            auction: step.next,
            funds: held_after(s.funds, step.transfers, Holding::Funds, custodian.vault),
        },
        Err(_) => s,
    }
}

/// The auction and its custody funds after a sequence of attempts to bid.
pub open spec fn after_attempts(
    s: Escrowed,
    custodian: EscrowCustodian,
    bids: Seq<BidAttempt>,
) -> Escrowed
    decreases bids.len(),
{
    if bids.len() == 0 {
        s
    } else {
        after_attempt(after_attempts(s, custodian, bids.drop_last()), custodian, bids.last())
    }
}

/// Whether the custody account holds exactly the standing bid of a
/// well-formed auction in which the custody account itself has not bid.
pub open spec fn in_balance(s: Escrowed, custodian: EscrowCustodian) -> bool {
    &&& s.auction.wf()
    &&& s.funds == s.auction.highest_bid
    &&& s.auction.highest_bidder != Some(custodian.vault)
}

/// An admitted bid leaves in custody exactly the new standing bid: the
/// refund of the previous bid is covered by what custody held, and after the
/// deposit custody holds the amount of the new bid and nothing more.
pub proof fn lemma_bid_keeps_custody(
    a: AuctionRecord,
    custodian: EscrowCustodian,
    bidder: AccountKey,
    amount: u64,
    now: i64,
)
    requires
        a.wf(),
        a.highest_bidder != Some(custodian.vault),
        bidder != custodian.vault,
        bid_refusal(a, amount, now) is None,
    ensures
        covers(
            a.highest_bid as int,
            bid_legs(a, custodian, bidder, amount),
            Holding::Funds,
            custodian.vault,
        ),
        held_after(
            a.highest_bid as int,
            bid_legs(a, custodian, bidder, amount),
            Holding::Funds,
            custodian.vault,
        ) == amount,
{
    let legs = bid_legs(a, custodian, bidder, amount);
    let vault = custodian.vault;
    let funds = a.highest_bid as int;
    reveal_with_fuel(held_after, 3);
    reveal_with_fuel(covers, 3);
    match a.highest_bidder {
        Some(previous) => {
            assert(legs.drop_last() =~= seq![legs[0]]);
            assert(legs.drop_last().drop_last() =~= Seq::empty());
        },
        None => {
            assert(legs.drop_last() =~= Seq::empty());
        },
    }
}

/// An admitted withdrawal hands back exactly what custody held for the
/// standing bid: the release is covered, and no funds stay behind.
pub proof fn lemma_withdrawal_empties_custody(
    a: AuctionRecord,
    custodian: EscrowCustodian,
    bidder: AccountKey,
)
    requires
        bidder != custodian.vault,
        a.highest_bidder == Some(bidder),
    ensures
        withdraw_outcome(a, custodian, bidder) matches Ok(step) && {
            &&& covers(a.highest_bid as int, step.transfers, Holding::Funds, custodian.vault)
            &&& held_after(a.highest_bid as int, step.transfers, Holding::Funds, custodian.vault)
                == 0
            &&& step.next.highest_bid == 0
        },
{
    let legs = withdraw_outcome(a, custodian, bidder)->Ok_0.transfers;
    reveal_with_fuel(held_after, 2);
    reveal_with_fuel(covers, 2);
    assert(legs.drop_last() =~= Seq::empty());
}

/// One attempt to bid, admitted or not, never lowers the standing bid and
/// leaves custody in balance with it.
pub proof fn lemma_attempt_keeps_balance(s: Escrowed, custodian: EscrowCustodian, b: BidAttempt)
    requires
        in_balance(s, custodian),
        b.bidder != custodian.vault,
    ensures
        in_balance(after_attempt(s, custodian, b), custodian),
        s.auction.highest_bid <= after_attempt(s, custodian, b).auction.highest_bid,
        bid_refusal(s.auction, b.amount, b.now) is None ==> after_attempt(
            s,
            custodian,
            b,
        ).auction.highest_bid == b.amount,
{
    if bid_refusal(s.auction, b.amount, b.now) is None {
        lemma_bid_keeps_custody(s.auction, custodian, b.bidder, b.amount, b.now);
    }
}

/// For any sequence of bids, however many of them are admitted: after each
/// of them the standing bid is no lower than it was before, and the custody
/// account holds exactly the standing bid. It is assumed that custody was in
/// balance at the start and that the custody account itself does not bid.
pub proof fn lemma_bids_keep_custody(
    s: Escrowed,
    custodian: EscrowCustodian,
    bids: Seq<BidAttempt>,
)
    requires
        in_balance(s, custodian),
        forall|i: int| 0 <= i < bids.len() ==> (#[trigger] bids[i]).bidder != custodian.vault,
    ensures
        in_balance(after_attempts(s, custodian, bids), custodian),
        s.auction.highest_bid <= after_attempts(s, custodian, bids).auction.highest_bid,
        forall|k: int|
            0 <= k < bids.len() ==> {
                let before = #[trigger] after_attempts(s, custodian, bids.take(k));
                let after = after_attempts(s, custodian, bids.take(k + 1));
                &&& before.auction.highest_bid <= after.auction.highest_bid
                &&& after.funds == after.auction.highest_bid
                &&& bid_refusal(before.auction, bids[k].amount, bids[k].now) is None
                    ==> after.auction.highest_bid == bids[k].amount
            },
    decreases bids.len(),
{
    if bids.len() > 0 {
        let front = bids.drop_last();
        lemma_bids_keep_custody(s, custodian, front);
        lemma_attempt_keeps_balance(after_attempts(s, custodian, front), custodian, bids.last());
        assert forall|k: int| 0 <= k < bids.len() implies {
            let before = #[trigger] after_attempts(s, custodian, bids.take(k));
            let after = after_attempts(s, custodian, bids.take(k + 1));
            &&& before.auction.highest_bid <= after.auction.highest_bid
            &&& after.funds == after.auction.highest_bid
            &&& bid_refusal(before.auction, bids[k].amount, bids[k].now) is None
                ==> after.auction.highest_bid == bids[k].amount
        } by {
            if k < bids.len() - 1 {
                assert(bids.take(k) =~= front.take(k));
                assert(bids.take(k + 1) =~= front.take(k + 1));
                assert(bids[k] == front[k]);
            } else {
                assert(bids.take(k) =~= front);
                assert(bids.take(k + 1) =~= bids);
            }
        }
    }
}

/// A sale cannot be finalized before its end time: the request fails with
/// `AuctionNotEnded`, whatever else holds of the auction.
pub proof fn lemma_end_waits_for_end_time(
    a: AuctionRecord,
    custodian: EscrowCustodian,
    platform: AccountKey,
    now: i64,
)
    requires
        now < a.end_time,
    ensures
        end_outcome(a, custodian, platform, now) == Err::<TransitionView, ErrorCode>(
            ErrorCode::AuctionNotEnded,
        ),
{
}

/// From its end time on, an open auction whose standing bid meets the
/// reserve is always finalized, and the step closes it.
pub proof fn lemma_end_succeeds_when_due(
    a: AuctionRecord,
    custodian: EscrowCustodian,
    platform: AccountKey,
    now: i64,
)
    requires
        a.is_active,
        now >= a.end_time,
        a.highest_bid >= a.reserve_price,
    ensures
        end_outcome(a, custodian, platform, now) matches Ok(step) && !step.next.is_active,
{
}

/// A bid that reaches the buy-now price moves the end time to the moment of
/// the bid, and if it also meets the reserve, a request to finalize the sale
/// at that same moment is admitted.
pub proof fn lemma_buy_now_ends_auction(
    a: AuctionRecord,
    custodian: EscrowCustodian,
    platform: AccountKey,
    bidder: AccountKey,
    amount: u64,
    now: i64,
)
    requires
        bid_refusal(a, amount, now) is None,
        reaches_buy_now(a, amount),
    ensures
        bid_outcome(a, custodian, bidder, amount, now) matches Ok(step) && {
            &&& step.next.end_time == now
            &&& step.next.is_active
            &&& amount >= a.reserve_price ==> (end_outcome(step.next, custodian, platform, now)
                matches Ok(last) && !last.next.is_active)
            &&& amount < a.reserve_price ==> end_outcome(step.next, custodian, platform, now)
                == Err::<TransitionView, ErrorCode>(ErrorCode::ReservePriceNotMet)
        },
{
}

/// Taking back the standing bid clears the way for calling the auction off:
/// with a bid standing the cancellation is refused, and once the bidder has
/// withdrawn it is admitted.
pub proof fn lemma_withdrawal_allows_cancel(
    a: AuctionRecord,
    custodian: EscrowCustodian,
    bidder: AccountKey,
)
    requires
        a.wf(),
        a.highest_bidder == Some(bidder),
    ensures
        cancel_outcome(a, custodian) == Err::<TransitionView, ErrorCode>(
            ErrorCode::BidsAlreadyPlaced,
        ),
        withdraw_outcome(a, custodian, bidder) matches Ok(step) && cancel_outcome(
            step.next,
            custodian,
        ) is Ok,
{
}

/// Finalizing a sale pays out of custody exactly the winning bid: its two
/// funds transfers are covered by a custody account in balance and leave it
/// empty, and its asset transfer takes the one unit of the asset out. It is
/// assumed that neither the seller, the winner nor the platform is the
/// custody account itself.
pub proof fn lemma_settlement_empties_custody(
    a: AuctionRecord,
    custodian: EscrowCustodian,
    platform: AccountKey,
)
    requires
        a.wf(),
        a.seller != custodian.vault,
        platform != custodian.vault,
        winner_of(a) != custodian.vault,
    ensures
        covers(
            a.highest_bid as int,
            settlement_legs(a, custodian, platform),
            Holding::Funds,
            custodian.vault,
        ),
        held_after(
            a.highest_bid as int,
            settlement_legs(a, custodian, platform),
            Holding::Funds,
            custodian.vault,
        ) == 0,
        held_after(1, settlement_legs(a, custodian, platform), Holding::Asset, custodian.vault)
            == 0,
{
    let legs = settlement_legs(a, custodian, platform);
    lemma_fee_bounded(a.highest_bid as int, a.platform_fee as int);
    reveal_with_fuel(held_after, 4);
    reveal_with_fuel(covers, 4);
    assert(legs.drop_last() =~= seq![legs[0], legs[1]]);
    assert(legs.drop_last().drop_last() =~= seq![legs[0]]);
    assert(legs.drop_last().drop_last().drop_last() =~= Seq::empty());
}

/// Whether `next` can follow `a` in the life of one auction: the terms of
/// the sale are untouched, a closed auction stays closed, and the end time
/// is not later than it was.
pub open spec fn follows(a: AuctionRecord, next: AuctionRecord) -> bool {
    &&& next.id == a.id
    &&& next.seller == a.seller
    &&& next.nft_token_account == a.nft_token_account
    &&& next.start_price == a.start_price
    &&& next.reserve_price == a.reserve_price
    &&& next.buy_now_price == a.buy_now_price
    &&& next.platform_fee == a.platform_fee
    &&& !a.is_active ==> !next.is_active
    &&& next.end_time <= a.end_time
}

/// Every admitted step leaves a well-formed record that follows the one it
/// started from. Only a bid that reaches the buy-now price changes the end
/// time, and only calling off or finalizing the sale closes the auction.
pub proof fn lemma_steps_follow(
    a: AuctionRecord,
    custodian: EscrowCustodian,
    party: AccountKey,
    amount: u64,
    now: i64,
)
    requires
        a.wf(),
    ensures
        bid_outcome(a, custodian, party, amount, now) matches Ok(step) ==> {
            &&& step.next.wf()
            &&& follows(a, step.next)
            &&& step.next.is_active
            &&& step.next.end_time != a.end_time ==> reaches_buy_now(a, amount)
        },
        withdraw_outcome(a, custodian, party) matches Ok(step) ==> {
            &&& step.next.wf()
            &&& follows(a, step.next)
            &&& step.next.is_active == a.is_active
            &&& step.next.end_time == a.end_time
        },
        cancel_outcome(a, custodian) matches Ok(step) ==> {
            &&& step.next.wf()
            &&& follows(a, step.next)
            &&& !step.next.is_active
            &&& step.next.end_time == a.end_time
        },
        end_outcome(a, custodian, party, now) matches Ok(step) ==> {
            &&& step.next.wf()
            &&& follows(a, step.next)
            &&& !step.next.is_active
            &&& step.next.end_time == a.end_time
            &&& step.next.highest_bid == a.highest_bid
        },
{
}

/// A newly opened auction is well formed, open and without a bid, and it
/// ends `duration` seconds after it was opened.
pub proof fn lemma_opened_is_well_formed(
    ctx: CreateAuction,
    start_price: u64,
    reserve_price: u64,
    buy_now_price: Option<u64>,
    duration: i64,
    platform_fee: u64,
    now: i64,
)
    requires
        now + duration <= i64::MAX,
    ensures
        create_outcome(
            ctx,
            start_price,
            reserve_price,
            buy_now_price,
            duration,
            platform_fee,
            now,
        ) matches Ok(step) ==> {
            &&& step.next.wf()
            &&& step.next.is_active
            &&& step.next.highest_bid == 0
            &&& step.next.end_time == now + duration
            &&& step.next.end_time > now
        },
{
}

} // verus!
