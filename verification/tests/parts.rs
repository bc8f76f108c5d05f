use advanced_auction::{
    settle, split_proceeds, AccountKey, Auction, AuctionRecord, AuctionRegistry, ErrorCode,
    ErrorKind, EscrowCustodian, Holding, Proceeds, Transfer, MAX_FEE,
};

fn id(n: u8) -> AccountKey {
    AccountKey::new([n; 32])
}

fn fields(n: u8, highest_bid: u64, bidder: Option<u8>, fee: u64) -> AuctionRecord {
    AuctionRecord {
        id: id(n),
        seller: id(1),
        nft_token_account: id(2),
        start_price: 10,
        reserve_price: 20,
        buy_now_price: None,
        highest_bid,
        highest_bidder: bidder.map(id),
        end_time: 50,
        is_active: true,
        platform_fee: fee,
    }
}

#[test]
fn fee_split_of_six_hundred_at_five_percent() {
    assert_eq!(split_proceeds(600, 5), Proceeds { platform_fee: 30, seller_amount: 570 });
}

#[test]
fn fee_is_rounded_down() {
    assert_eq!(split_proceeds(99, 1), Proceeds { platform_fee: 0, seller_amount: 99 });
    assert_eq!(split_proceeds(199, 1), Proceeds { platform_fee: 1, seller_amount: 198 });
    assert_eq!(split_proceeds(1, 99), Proceeds { platform_fee: 0, seller_amount: 1 });
    assert_eq!(split_proceeds(7, 50), Proceeds { platform_fee: 3, seller_amount: 4 });
}

#[test]
fn fee_split_at_the_bounds() {
    assert_eq!(split_proceeds(0, 0), Proceeds { platform_fee: 0, seller_amount: 0 });
    assert_eq!(split_proceeds(0, 100), Proceeds { platform_fee: 0, seller_amount: 0 });
    assert_eq!(split_proceeds(1, 100), Proceeds { platform_fee: 1, seller_amount: 0 });
    assert_eq!(split_proceeds(12345, 0), Proceeds { platform_fee: 0, seller_amount: 12345 });
    assert_eq!(MAX_FEE, 100);
}

#[test]
fn fee_split_of_the_largest_bid_does_not_overflow() {
    assert_eq!(
        split_proceeds(u64::MAX, 100),
        Proceeds { platform_fee: u64::MAX, seller_amount: 0 }
    );
    assert_eq!(
        split_proceeds(u64::MAX, 50),
        Proceeds { platform_fee: 9223372036854775807, seller_amount: 9223372036854775808 }
    );
    assert_eq!(
        split_proceeds(u64::MAX, 1),
        Proceeds { platform_fee: 184467440737095516, seller_amount: 18262276632972456099 }
    );
}

#[test]
fn shares_add_up_to_the_bid() {
    let bids = [0u64, 1, 2, 99, 100, 101, 570, 600, 1 << 32, u64::MAX - 1, u64::MAX];
    for bid in bids {
        for fee in 0..=100u64 {
            let p = split_proceeds(bid, fee);
            assert_eq!(p.platform_fee as u128, bid as u128 * fee as u128 / 100);
            assert_eq!(p.platform_fee as u128 + p.seller_amount as u128, bid as u128);
        }
    }
}

#[test]
fn settle_orders_asset_before_funds() {
    let auction = Auction::from_record(fields(3, 1000, Some(10), 25)).unwrap();
    let custodian = EscrowCustodian::new(id(200), id(201));
    let legs = settle(&auction, &custodian, id(99));
    assert_eq!(legs.len(), 3);
    assert_eq!(legs[0], custodian.release(Holding::Asset, id(10), 1));
    assert_eq!(legs[1], custodian.release(Holding::Funds, id(1), 750));
    assert_eq!(legs[2], custodian.release(Holding::Funds, id(99), 250));
}

#[test]
fn deposit_is_signed_by_the_source() {
    let custodian = EscrowCustodian::new(id(200), id(201));
    assert_eq!(
        custodian.deposit(Holding::Funds, id(10), 42),
        Transfer { holding: Holding::Funds, from: id(10), to: id(200), authority: id(10), amount: 42 }
    );
    assert_eq!(
        custodian.deposit(Holding::Asset, id(1), 1),
        Transfer { holding: Holding::Asset, from: id(1), to: id(200), authority: id(1), amount: 1 }
    );
}

#[test]
fn release_is_signed_by_the_custody_authority() {
    let custodian = EscrowCustodian::new(id(200), id(201));
    assert_eq!(
        custodian.release(Holding::Funds, id(10), 42),
        Transfer { holding: Holding::Funds, from: id(200), to: id(10), authority: id(201), amount: 42 }
    );
    assert_eq!(custodian.vault, id(200));
    assert_eq!(custodian.authority, id(201));
}

#[test]
fn keys_are_equal_when_all_bytes_agree() {
    let mut bytes = [7u8; 32];
    let a = AccountKey::new(bytes);
    assert_eq!(a, AccountKey::new([7u8; 32]));
    assert_eq!(a.to_bytes(), bytes);
    for i in 0..32 {
        bytes[i] = 8;
        assert_ne!(a, AccountKey::new(bytes));
        bytes[i] = 7;
    }
    assert_eq!(a, AccountKey::new(bytes));
}

#[test]
fn default_key_is_all_zero() {
    assert_eq!(AccountKey::default().to_bytes(), [0u8; 32]);
    assert_eq!(AccountKey::default(), AccountKey::new([0u8; 32]));
    assert_ne!(AccountKey::default(), id(1));
}

#[test]
fn record_is_admitted_when_well_formed() {
    assert!(fields(3, 0, None, 0).is_well_formed());
    assert!(fields(3, 5, Some(10), 100).is_well_formed());
    let auction = Auction::from_record(fields(3, 5, Some(10), 100)).unwrap();
    assert_eq!(auction.record(), fields(3, 5, Some(10), 100));
    assert_eq!(auction.id(), id(3));
    assert_eq!(auction.highest_bid(), 5);
    assert_eq!(auction.highest_bidder(), Some(id(10)));
    assert_eq!(auction.end_time(), 50);
    assert!(auction.is_active());
}

#[test]
fn record_is_not_admitted_when_ill_formed() {
    // A fee over one hundred percent.
    assert!(!fields(3, 0, None, 101).is_well_formed());
    assert_eq!(Auction::from_record(fields(3, 0, None, 101)), None);
    // A bid without a bidder.
    assert!(!fields(3, 5, None, 5).is_well_formed());
    assert_eq!(Auction::from_record(fields(3, 5, None, 5)), None);
    // A bidder without a bid.
    assert!(!fields(3, 0, Some(10), 5).is_well_formed());
    assert_eq!(Auction::from_record(fields(3, 0, Some(10), 5)), None);
}

#[test]
fn every_error_has_its_kind() {
    assert_eq!(ErrorCode::InvalidParameters.kind(), ErrorKind::Validation);
    assert_eq!(ErrorCode::AuctionNotActive.kind(), ErrorKind::State);
    assert_eq!(ErrorCode::AuctionEnded.kind(), ErrorKind::State);
    assert_eq!(ErrorCode::AuctionNotEnded.kind(), ErrorKind::State);
    assert_eq!(ErrorCode::BidsAlreadyPlaced.kind(), ErrorKind::State);
    assert_eq!(ErrorCode::NotHighestBidder.kind(), ErrorKind::Authorization);
    assert_eq!(ErrorCode::BidTooLow.kind(), ErrorKind::Economic);
    assert_eq!(ErrorCode::ReservePriceNotMet.kind(), ErrorKind::Economic);
    assert_eq!(ErrorCode::TransferFailed.kind(), ErrorKind::Transfer);
}

#[test]
fn every_error_has_its_message() {
    assert_eq!(ErrorCode::AuctionNotActive.message(), "Auction is not active");
    assert_eq!(ErrorCode::AuctionEnded.message(), "Auction has already ended");
    assert_eq!(ErrorCode::BidTooLow.message(), "Bid is too low");
    assert_eq!(ErrorCode::ReservePriceNotMet.message(), "Reserve price was not met");
    assert_eq!(
        ErrorCode::BidsAlreadyPlaced.message(),
        "Bids have already been placed, cannot cancel"
    );
    assert_eq!(
        ErrorCode::NotHighestBidder.message(),
        "Only the highest bidder can withdraw their bid"
    );
    assert_eq!(ErrorCode::AuctionNotEnded.message(), "Auction has not ended yet");
    assert_eq!(ErrorCode::InvalidParameters.message(), "Auction parameters are invalid");
    assert_eq!(ErrorCode::TransferFailed.message(), "The ledger rejected a transfer");
}

#[test]
fn registry_starts_empty() {
    let registry = AuctionRegistry::new();
    assert_eq!(registry.get(id(3)), None);
    assert_eq!(registry.get(AccountKey::default()), None);
}

#[test]
fn registry_keeps_one_record_per_identifier() {
    let mut registry = AuctionRegistry::new();
    let first = Auction::from_record(fields(3, 0, None, 5)).unwrap();
    let other = Auction::from_record(fields(4, 9, Some(10), 5)).unwrap();
    assert!(registry.allocate(first));
    assert!(registry.allocate(other));
    assert_eq!(registry.get(id(3)), Some(first));
    assert_eq!(registry.get(id(4)), Some(other));
    assert_eq!(registry.get(id(5)), None);

    let same_id = Auction::from_record(fields(3, 7, Some(11), 5)).unwrap();
    assert!(!registry.allocate(same_id));
    assert_eq!(registry.get(id(3)), Some(first));
}

#[test]
fn registry_replaces_only_records_on_file() {
    let mut registry = AuctionRegistry::new();
    let first = Auction::from_record(fields(3, 0, None, 5)).unwrap();
    let other = Auction::from_record(fields(4, 9, Some(10), 5)).unwrap();
    assert!(!registry.update(first));
    assert_eq!(registry.get(id(3)), None);
    assert!(registry.allocate(first));
    assert!(registry.allocate(other));

    let raised = Auction::from_record(fields(3, 7, Some(11), 5)).unwrap();
    assert!(registry.update(raised));
    assert_eq!(registry.get(id(3)), Some(raised));
    assert_eq!(registry.get(id(4)), Some(other));

    let mut closed = fields(4, 9, Some(10), 5);
    closed.is_active = false;
    let closed = Auction::from_record(closed).unwrap();
    assert!(registry.update(closed));
    assert_eq!(registry.get(id(4)), Some(closed));
    assert_eq!(registry.get(id(3)), Some(raised));
}
