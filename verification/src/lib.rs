//! An auction settlement engine.
//!
//! The engine runs timed auctions of a single asset. Bids are held in escrow,
//! refunded when they are outbid or withdrawn, and divided between the seller
//! and the platform when the sale is finalized. It decides; it does not move
//! value or read the clock itself. The host passes in the current time, has
//! the ledger execute the transfers of each planned step as one unit, and
//! concludes the step with the ledger's reply.

pub mod custody;
pub mod error;
pub mod key;
pub mod laws;
pub mod machine;
pub mod record;
pub mod registry;
pub mod settlement;

pub use crate::custody::{EscrowCustodian, Holding, LedgerReply, Transfer};
pub use crate::error::{ErrorCode, ErrorKind};
pub use crate::key::AccountKey;
pub use crate::machine::{
    cancel_auction, create_auction, end_auction, place_bid, withdraw_bid, CancelAuction,
    CreateAuction, EndAuction, PlaceBid, WithdrawBid,
};
pub use crate::record::{commit, Auction, AuctionRecord, Transition};
pub use crate::registry::AuctionRegistry;
pub use crate::settlement::{settle, split_proceeds, Proceeds, MAX_FEE};
