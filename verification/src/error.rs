//! The closed set of ways an operation on an auction can fail.

use vstd::prelude::*;

verus! {

/// The family an error belongs to.
#[derive(Clone, Copy, Debug, PartialEq, Eq, Structural)]
pub enum ErrorKind {
    /// The parameters of a new auction are out of range.
    Validation,
    /// The auction is not in a phase that admits the operation.
    State,
    /// The caller is not the party that may ask for the operation.
    Authorization,
    /// The amounts involved do not allow the operation.
    Economic,
    /// The ledger rejected a transfer.
    Transfer,
}

/// Why an operation was refused. A refused operation changes nothing.
#[derive(Clone, Copy, Debug, PartialEq, Eq, Structural)]
pub enum ErrorCode {
    AuctionNotActive,
    AuctionEnded,
    BidTooLow,
    ReservePriceNotMet,
    BidsAlreadyPlaced,
    NotHighestBidder,
    AuctionNotEnded,
    InvalidParameters,
    TransferFailed,
}

impl ErrorCode {
    /// The family of each error.
    pub open spec fn kind_of(self) -> ErrorKind {
        match self {
            ErrorCode::InvalidParameters => ErrorKind::Validation,
            ErrorCode::AuctionNotActive => ErrorKind::State,
            ErrorCode::AuctionEnded => ErrorKind::State,
            ErrorCode::AuctionNotEnded => ErrorKind::State,
            ErrorCode::BidsAlreadyPlaced => ErrorKind::State,
            ErrorCode::NotHighestBidder => ErrorKind::Authorization,
            ErrorCode::BidTooLow => ErrorKind::Economic,
            ErrorCode::ReservePriceNotMet => ErrorKind::Economic,
            ErrorCode::TransferFailed => ErrorKind::Transfer,
        }
    }

    /// The message attached to each error.
    pub open spec fn message_of(self) -> Seq<char> {
        match self {
            ErrorCode::AuctionNotActive => "Auction is not active"@,
            ErrorCode::AuctionEnded => "Auction has already ended"@,
            ErrorCode::BidTooLow => "Bid is too low"@,
            ErrorCode::ReservePriceNotMet => "Reserve price was not met"@,
            ErrorCode::BidsAlreadyPlaced => "Bids have already been placed, cannot cancel"@,
            ErrorCode::NotHighestBidder => "Only the highest bidder can withdraw their bid"@,
            ErrorCode::AuctionNotEnded => "Auction has not ended yet"@,
            ErrorCode::InvalidParameters => "Auction parameters are invalid"@,
            ErrorCode::TransferFailed => "The ledger rejected a transfer"@,
        }
    }

    /// The family this error belongs to.
    pub fn kind(&self) -> (r: ErrorKind)
        ensures
            r == self.kind_of(),
    {
        match self {
            ErrorCode::InvalidParameters => ErrorKind::Validation,
            ErrorCode::AuctionNotActive
            | ErrorCode::AuctionEnded
            | ErrorCode::AuctionNotEnded
            | ErrorCode::BidsAlreadyPlaced => ErrorKind::State,
            ErrorCode::NotHighestBidder => ErrorKind::Authorization,
            ErrorCode::BidTooLow | ErrorCode::ReservePriceNotMet => ErrorKind::Economic,
            ErrorCode::TransferFailed => ErrorKind::Transfer,
        }
    }

    /// The message attached to this error.
    pub fn message(&self) -> (r: String)
        ensures
            r@ == self.message_of(),
    {
        match self {
            ErrorCode::AuctionNotActive => "Auction is not active".to_string(),
            ErrorCode::AuctionEnded => "Auction has already ended".to_string(),
            ErrorCode::BidTooLow => "Bid is too low".to_string(),
            ErrorCode::ReservePriceNotMet => "Reserve price was not met".to_string(),
            ErrorCode::BidsAlreadyPlaced => {
                "Bids have already been placed, cannot cancel".to_string()
            },
            ErrorCode::NotHighestBidder => {
                "Only the highest bidder can withdraw their bid".to_string()
            },
            ErrorCode::AuctionNotEnded => "Auction has not ended yet".to_string(),
            ErrorCode::InvalidParameters => "Auction parameters are invalid".to_string(),
            ErrorCode::TransferFailed => "The ledger rejected a transfer".to_string(),
        }
    }
}

} // verus!
