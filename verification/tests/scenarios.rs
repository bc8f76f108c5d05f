use advanced_auction::{
    cancel_auction, commit, create_auction, end_auction, place_bid, withdraw_bid, AccountKey,
    Auction, CancelAuction, CreateAuction, EndAuction, ErrorCode, EscrowCustodian, Holding,
    LedgerReply, PlaceBid, Transfer, WithdrawBid,
};

fn key(n: u8) -> AccountKey {
    AccountKey::new([n; 32])
}

fn custodian() -> EscrowCustodian {
    EscrowCustodian::new(key(200), key(201))
}

fn open_auction(reserve: u64, buy_now: Option<u64>, duration: i64, fee: u64, now: i64) -> Auction {
    let ctx = CreateAuction {
        seller: key(1),
        nft_token_account: key(2),
        auction: key(3),
        custodian: custodian(),
    };
    let step = create_auction(&ctx, 100, reserve, buy_now, duration, fee, now).unwrap();
    step.confirm(LedgerReply::Completed).unwrap()
}

fn bid(auction: &mut Auction, bidder: AccountKey, amount: u64, now: i64) -> Result<(), ErrorCode> {
    let ctx = PlaceBid { bidder, auction: *auction, custodian: custodian() };
    let step = place_bid(&ctx, amount, now)?;
    commit(auction, step, LedgerReply::Completed)
}

#[test]
fn scenario_bids_buy_now_and_settlement() {
    let now = 1_000;
    let mut auction = open_auction(150, Some(500), 1000, 5, now);
    assert_eq!(auction.end_time(), 2_000);
    assert!(auction.is_active());
    assert_eq!(auction.highest_bid(), 0);

    assert_eq!(bid(&mut auction, key(10), 120, now), Ok(()));
    assert_eq!(auction.highest_bid(), 120);
    assert_eq!(auction.highest_bidder(), Some(key(10)));

    assert_eq!(bid(&mut auction, key(11), 100, now), Err(ErrorCode::BidTooLow));
    assert_eq!(auction.highest_bid(), 120);
    assert_eq!(auction.highest_bidder(), Some(key(10)));

    assert_eq!(bid(&mut auction, key(12), 600, now), Ok(()));
    assert_eq!(auction.highest_bid(), 600);
    assert_eq!(auction.end_time(), now);
    assert!(auction.is_active());

    let ctx = EndAuction {
        caller: key(50),
        platform_account: key(99),
        auction,
        custodian: custodian(),
    };
    let step = end_auction(&ctx, now).unwrap();
    assert_eq!(
        step.transfers,
        vec![
            Transfer {
                holding: Holding::Asset,
                from: key(200),
                to: key(12),
                authority: key(201),
                amount: 1,
            },
            Transfer {
                holding: Holding::Funds,
                from: key(200),
                to: key(1),
                authority: key(201),
                amount: 570,
            },
            Transfer {
                holding: Holding::Funds,
                from: key(200),
                to: key(99),
                authority: key(201),
                amount: 30,
            },
        ]
    );
    assert_eq!(commit(&mut auction, step, LedgerReply::Completed), Ok(()));
    assert!(!auction.is_active());
    assert_eq!(auction.highest_bid(), 600);
}

#[test]
fn scenario_withdrawal_allows_cancel() {
    let now = 10;
    let mut auction = open_auction(0, None, 100, 0, now);
    assert_eq!(bid(&mut auction, key(10), 40, now + 1), Ok(()));

    let cancel = CancelAuction { seller: key(1), auction, custodian: custodian() };
    assert_eq!(cancel_auction(&cancel).err(), Some(ErrorCode::BidsAlreadyPlaced));

    let withdraw = WithdrawBid { bidder: key(10), auction, custodian: custodian() };
    let step = withdraw_bid(&withdraw).unwrap();
    assert_eq!(
        step.transfers,
        vec![Transfer {
            holding: Holding::Funds,
            from: key(200),
            to: key(10),
            authority: key(201),
            amount: 40,
        }]
    );
    assert_eq!(commit(&mut auction, step, LedgerReply::Completed), Ok(()));
    assert_eq!(auction.highest_bid(), 0);
    assert_eq!(auction.highest_bidder(), None);
    assert!(auction.is_active());

    let cancel = CancelAuction { seller: key(1), auction, custodian: custodian() };
    let step = cancel_auction(&cancel).unwrap();
    assert_eq!(
        step.transfers,
        vec![Transfer {
            holding: Holding::Asset,
            from: key(200),
            to: key(1),
            authority: key(201),
            amount: 1,
        }]
    );
    assert_eq!(commit(&mut auction, step, LedgerReply::Completed), Ok(()));
    assert!(!auction.is_active());
}

#[test]
fn buy_now_bid_under_the_reserve_cannot_be_settled() {
    let now = 1_000;
    let mut auction = open_auction(1_000, Some(500), 50, 5, now);
    assert_eq!(bid(&mut auction, key(10), 600, now + 1), Ok(()));
    assert_eq!(auction.end_time(), now + 1);
    let ctx = EndAuction {
        caller: key(50),
        platform_account: key(99),
        auction,
        custodian: custodian(),
    };
    assert_eq!(end_auction(&ctx, now + 1).err(), Some(ErrorCode::ReservePriceNotMet));
    assert!(auction.is_active());
}

#[test]
fn buy_now_bid_that_meets_the_reserve_can_be_settled_at_once() {
    let now = -5;
    let mut auction = open_auction(500, Some(500), 50, 100, now);
    assert_eq!(bid(&mut auction, key(10), 500, now), Ok(()));
    assert_eq!(auction.end_time(), now);
    let ctx = EndAuction {
        caller: key(10),
        platform_account: key(99),
        auction,
        custodian: custodian(),
    };
    let step = end_auction(&ctx, now).unwrap();
    assert_eq!(step.transfers[1].amount, 0);
    assert_eq!(step.transfers[2].amount, 500);
    assert!(!step.next.is_active());
}
