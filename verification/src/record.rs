//! The auction record and the steps that replace one record by the next.

use vstd::prelude::*;
use crate::custody::{LedgerReply, Transfer};
use crate::error::ErrorCode;
use crate::key::AccountKey;
use crate::settlement::MAX_FEE;

verus! {

/// The fields kept for one auction, as they are persisted.
#[derive(Clone, Copy, Debug, PartialEq, Eq)]
pub struct AuctionRecord {
    /// The identifier under which the record is stored.
    pub id: AccountKey,
    /// Who put the asset up for sale.
    pub seller: AccountKey,
    /// The asset that is held in custody for the sale.
    pub nft_token_account: AccountKey,
    /// The price the seller opened the sale at.
    pub start_price: u64,
    /// The smallest winning bid at which the sale can be finalized.
    pub reserve_price: u64,
    /// The bid from which on the sale can be finalized at once, if any.
    pub buy_now_price: Option<u64>,
    /// The standing bid, zero while there is none.
    pub highest_bid: u64,
    /// Who placed the standing bid.
    pub highest_bidder: Option<AccountKey>,
    /// The moment from which on no bid is admitted, in seconds.
    pub end_time: i64,
    /// Whether the sale is still open.
    pub is_active: bool,
    /// The platform's share of the winning bid, in whole percent.
    pub platform_fee: u64,
}

impl AuctionRecord {
    /// What holds of every record that the operations produce: the fee is a
    /// percentage, and there is a bidder exactly when there is a bid.
    pub open spec fn wf(self) -> bool {
        &&& self.platform_fee <= MAX_FEE
        &&& (self.highest_bidder is None <==> self.highest_bid == 0)
    }

    /// Whether the fields satisfy `wf`.
    pub fn is_well_formed(&self) -> (r: bool)
        ensures
            r == self.wf(),
    {
        self.platform_fee <= MAX_FEE && (self.highest_bidder.is_none() == (self.highest_bid == 0))
    }
}

/// A well-formed auction record. Its fields are read through the methods
/// below; the operations plan the steps that lead from one record to the next.
#[derive(Clone, Copy, Debug, PartialEq, Eq)]
pub struct Auction {
    record: AuctionRecord,
}

impl View for Auction {
    type V = AuctionRecord;

    closed spec fn view(&self) -> AuctionRecord {
        self.record
    }
}

impl Auction {
    #[verifier::type_invariant]
    closed spec fn inv(self) -> bool {
        self.record.wf()
    }

    /// Two auctions with the same fields are the same auction.
    pub proof fn lemma_ext(a: Auction, b: Auction)
        requires
            a@ == b@,
        ensures
            a == b,
    {
    }

    /// Admits persisted fields as an auction, if they are well formed.
    pub fn from_record(record: AuctionRecord) -> (r: Option<Auction>)
        ensures
            r is Some <==> record.wf(),
            r matches Some(a) ==> a@ == record,
    {
        if record.is_well_formed() {
            Some(Auction { record })
        } else {
            None
        }
    }

    /// Seals fields that are known to be well formed.
    pub(crate) fn sealed(record: AuctionRecord) -> (r: Auction)
        requires
            record.wf(),
        ensures
            r@ == record,
    {
        Auction { record }
    }

    /// The fields of this auction, as they are persisted.
    pub fn record(&self) -> (r: AuctionRecord)
        ensures
            r == self@,
            r.wf(),
    {
        proof {
            use_type_invariant(self);
        }
        self.record
    }

    /// The identifier under which this auction is stored.
    pub fn id(&self) -> (r: AccountKey)
        ensures
            r == self@.id,
    {
        self.record.id
    }

    /// The standing bid, zero while there is none.
    pub fn highest_bid(&self) -> (r: u64)
        ensures
            r == self@.highest_bid,
    {
        self.record.highest_bid
    }

    /// Who placed the standing bid, if one stands.
    pub fn highest_bidder(&self) -> (r: Option<AccountKey>)
        ensures
            r == self@.highest_bidder,
            r is None <==> self@.highest_bid == 0,
    {
        proof {
            use_type_invariant(self);
        }
        self.record.highest_bidder
    }

    /// The moment from which on no bid is admitted.
    pub fn end_time(&self) -> (r: i64)
        ensures
            r == self@.end_time,
    {
        self.record.end_time
    }

    /// Whether the sale is still open.
    pub fn is_active(&self) -> (r: bool)
        ensures
            r == self@.is_active,
    {
        self.record.is_active
    }
}

/// A planned step: the transfers that the ledger has to execute as one unit,
/// and the record that takes effect once it has.
#[derive(Debug, PartialEq, Eq)]
pub struct Transition {
    pub transfers: Vec<Transfer>,
    pub next: Auction,
}

/// A planned step, as contracts speak of it.
pub struct TransitionView {
    pub transfers: Seq<Transfer>,
    pub next: AuctionRecord,
}

impl View for Transition {
    type V = TransitionView;

    open spec fn view(&self) -> TransitionView {
        TransitionView { transfers: self.transfers@, next: self.next@ }
    }
}

impl Transition {
    /// The record that a planned step yields, given the ledger's reply to its
    /// transfers: the next record if all took effect, and a failure otherwise.
    pub fn confirm(self, reply: LedgerReply) -> (r: Result<Auction, ErrorCode>)
        ensures
            reply == LedgerReply::Completed ==> r == Ok::<Auction, ErrorCode>(self.next),
            reply == LedgerReply::Rejected ==> r == Err::<Auction, ErrorCode>(
                ErrorCode::TransferFailed,
            ),
    {
        match reply {
            LedgerReply::Completed => Ok(self.next),
            LedgerReply::Rejected => Err(ErrorCode::TransferFailed),
        }
    }
}

/// Concludes a planned step on the stored record. The record is replaced only
/// when the ledger has executed every transfer of the step; when it rejected
/// one, the record stays as it was and the operation fails as a whole.
pub fn commit(record: &mut Auction, step: Transition, reply: LedgerReply) -> (r: Result<
    (),
    ErrorCode,
>)
    ensures
        reply == LedgerReply::Completed ==> r is Ok && *final(record) == step.next,
        reply == LedgerReply::Rejected ==> r == Err::<(), ErrorCode>(ErrorCode::TransferFailed)
            && *final(record) == *old(record),
{
    match step.confirm(reply) {
        Ok(next) => {
            *record = next;
            Ok(())
        },
        Err(e) => Err(e),
    }
}

} // verus!
