use pulsar_track::auction_engine::{
    AuctionEngineContract, AuctionError, AuctionSettlement, AuctionStatus,
};

const ADMIN: u64 = 1;
const TOKEN: u64 = 2;
const PUBLISHER: u64 = 50;

fn engine() -> AuctionEngineContract {
    AuctionEngineContract::initialize(ADMIN, TOKEN)
}

/// An engine with one open auction: floor 100, reserve 500, running from
/// time 0 to 1000.
fn engine_with_auction() -> AuctionEngineContract {
    let mut v = engine();
    let r = v.create_auction(PUBLISHER, String::from("banner-top"), 100, 500, 1000, 0);
    assert_eq!(r, Ok(1));
    v
}

#[test]
fn initialize_starts_empty() {
    let v = engine();
    assert!(v.get_auction(1).is_none());
    assert_eq!(v.get_bid_count(1), 0);
    assert_eq!(v.get_highest_bid(1), None);
}

#[test]
fn create_auction_records_the_terms() {
    let v = engine_with_auction();
    let a = v.get_auction(1).unwrap();
    assert_eq!(a.auction_id, 1);
    assert_eq!(a.publisher, PUBLISHER);
    assert_eq!(a.impression_slot, String::from("banner-top"));
    assert_eq!(a.floor_price, 100);
    assert_eq!(a.reserve_price, 500);
    assert_eq!(a.start_time, 0);
    assert_eq!(a.end_time, 1000);
    assert_eq!(a.status, AuctionStatus::Open);
    assert_eq!(a.winning_bid, None);
    assert_eq!(a.winner, None);
    assert_eq!(a.bid_count, 0);
}

#[test]
fn create_auction_rejects_clock_overflow() {
    let mut v = engine();
    assert_eq!(
        v.create_auction(PUBLISHER, String::from("x"), 0, 0, 1, u64::MAX),
        Err(AuctionError::TimestampOverflow)
    );
}

#[test]
fn bids_must_climb() {
    let mut v = engine_with_auction();
    assert_eq!(v.place_bid(70, 1, 99, 7, 10), Err(AuctionError::BidBelowFloor));
    assert_eq!(v.place_bid(70, 1, 100, 7, 10), Ok(()));
    assert_eq!(v.place_bid(71, 1, 100, 8, 11), Err(AuctionError::BidTooLow));
    assert_eq!(v.place_bid(71, 1, 99, 8, 11), Err(AuctionError::BidBelowFloor));
    assert_eq!(v.place_bid(71, 1, 250, 8, 11), Ok(()));
    assert_eq!(v.get_bid_count(1), 2);
    assert_eq!(v.get_highest_bid(1), Some(250));
    let a = v.get_auction(1).unwrap();
    assert_eq!(a.winner, Some(71));
    assert_eq!(a.winning_bid, Some(250));
    let first = v.get_bid(1, 0).unwrap();
    assert_eq!(first.bidder, 70);
    assert_eq!(first.amount, 100);
    assert_eq!(first.campaign_id, 7);
    assert_eq!(first.timestamp, 10);
    assert!(v.get_bid(1, 2).is_none());
}

#[test]
fn bidding_guards() {
    let mut v = engine_with_auction();
    assert_eq!(v.place_bid(70, 2, 100, 7, 10), Err(AuctionError::AuctionNotFound));
    assert_eq!(v.place_bid(70, 1, 100, 7, 1001), Err(AuctionError::AuctionEnded));
    assert_eq!(v.place_bid(70, 1, 100, 7, 1000), Ok(()));
    assert_eq!(v.settle_auction(ADMIN, 1, 1000), Ok(None));
    assert_eq!(v.place_bid(71, 1, 200, 7, 1000), Err(AuctionError::AuctionNotOpen));
}

#[test]
fn settle_pays_the_publisher_when_reserve_is_met() {
    let mut v = engine_with_auction();
    assert_eq!(v.place_bid(70, 1, 600, 7, 10), Ok(()));
    assert_eq!(v.settle_auction(PUBLISHER, 1, 999), Err(AuctionError::AuctionStillRunning));
    assert_eq!(
        v.settle_auction(PUBLISHER, 1, 1000),
        Ok(Some(AuctionSettlement { winner: 70, publisher: PUBLISHER, amount: 600 }))
    );
    assert_eq!(v.get_auction(1).unwrap().status, AuctionStatus::Settled);
    // the bid history survives settlement
    assert_eq!(v.get_bid_count(1), 1);
}

#[test]
fn settle_cancels_below_reserve_or_without_bids() {
    let mut v = engine_with_auction();
    assert_eq!(v.place_bid(70, 1, 400, 7, 10), Ok(()));
    assert_eq!(v.settle_auction(PUBLISHER, 1, 1000), Ok(None));
    assert_eq!(v.get_auction(1).unwrap().status, AuctionStatus::Cancelled);

    let mut w = engine_with_auction();
    assert_eq!(w.settle_auction(PUBLISHER, 1, 1000), Ok(None));
    assert_eq!(w.get_auction(1).unwrap().status, AuctionStatus::Cancelled);
}

#[test]
fn settle_authorization() {
    let mut v = engine_with_auction();
    assert_eq!(v.settle_auction(70, 1, 1000), Err(AuctionError::Unauthorized));
    assert_eq!(v.settle_auction(ADMIN, 2, 1000), Err(AuctionError::AuctionNotFound));
    // the administrator may settle early
    assert_eq!(v.place_bid(70, 1, 600, 7, 10), Ok(()));
    assert_eq!(
        v.settle_auction(ADMIN, 1, 10),
        Ok(Some(AuctionSettlement { winner: 70, publisher: PUBLISHER, amount: 600 }))
    );
}

#[test]
fn auction_ids_are_sequential() {
    let mut v = engine();
    assert_eq!(v.create_auction(PUBLISHER, String::from("a"), 1, 1, 10, 0), Ok(1));
    assert_eq!(v.create_auction(PUBLISHER, String::from("b"), 2, 2, 10, 0), Ok(2));
    assert_eq!(v.get_auction(2).unwrap().floor_price, 2);
}
