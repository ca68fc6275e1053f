//! Real-time bidding auctions for ad impressions.
//!
//! A publisher opens an auction over an impression slot; bids must clear
//! the floor price and strictly outbid the current leader; settling after
//! the end time either completes the sale at the winning bid (when it
//! clears the reserve price) or cancels the auction. The host
//! authenticates callers, supplies the clock, and performs the winner's
//! payment that a successful settlement reports.

use vstd::prelude::*;

verus! {

#[derive(Clone, Copy, PartialEq, Eq, Structural, Debug)]
pub enum AuctionStatus {
    Open,
    Closed,
    Settled,
    Cancelled,
}

/// One auction, identified by its creation rank.
#[derive(Debug)]
pub struct Auction {
    pub auction_id: u64,
    pub publisher: u64,
    pub impression_slot: String,
    pub floor_price: i128,
    pub reserve_price: i128,
    pub start_time: u64,
    pub end_time: u64,
    pub status: AuctionStatus,
    pub winning_bid: Option<i128>,
    pub winner: Option<u64>,
    pub bid_count: u32,
}

impl Clone for Auction {
    /// Field-for-field copy; the contracts below rely on clones being
    /// equal to the original.
    fn clone(&self) -> (r: Auction)
        ensures
            r == *self,
    {
        Auction {
            auction_id: self.auction_id,
            publisher: self.publisher,
            impression_slot: self.impression_slot.clone(),
            floor_price: self.floor_price,
            reserve_price: self.reserve_price,
            start_time: self.start_time,
            end_time: self.end_time,
            status: self.status,
            winning_bid: self.winning_bid,
            winner: self.winner,
            bid_count: self.bid_count,
        }
    }
}

/// One recorded bid, in placement order.
#[derive(Clone, Copy, PartialEq, Eq, Debug)]
pub struct Bid {
    pub bidder: u64,
    pub amount: i128,
    pub campaign_id: u64,
    pub timestamp: u64,
}

/// The payment due after a settled auction: the winning bid moves from the
/// winner to the publisher.
#[derive(Clone, Copy, PartialEq, Eq, Debug)]
pub struct AuctionSettlement {
    pub winner: u64,
    pub publisher: u64,
    pub amount: i128,
}

/// Why an auction operation was rejected; every rejection leaves the state
/// untouched.
#[derive(Clone, Copy, PartialEq, Eq, Debug)]
pub enum AuctionError {
    /// The auction's end time would exceed the clock's range.
    TimestampOverflow,
    /// The referenced auction identifier has no record.
    AuctionNotFound,
    /// The auction is not open for bidding.
    AuctionNotOpen,
    /// The auction's end time has passed.
    AuctionEnded,
    /// The bid does not reach the floor price.
    BidBelowFloor,
    /// The bid does not beat the current highest bid.
    BidTooLow,
    /// The bid counter cannot grow any further.
    TooManyBids,
    /// The caller may not perform this operation.
    Unauthorized,
    /// Only the administrator may settle before the end time.
    AuctionStillRunning,
}

/// An auction together with its recorded bids.
pub struct AuctionSlot {
    pub auction: Auction,
    pub bids: Vec<Bid>,
}

/// The auction engine: fixed configuration and auctions by creation rank.
pub struct AuctionEngineContract {
    pub admin: u64,
    pub token: u64,
    pub auctions: Vec<AuctionSlot>,
}

/// Consistency of one auction record with its bid history: the counter
/// matches, the leader fields mirror the latest bid, bids strictly
/// increase, and every bid clears the floor.
pub open spec fn auction_slot_wf(s: AuctionSlot) -> bool {
    &&& s.auction.bid_count as int == s.bids@.len()
    &&& (s.bids@.len() == 0 ==> s.auction.winning_bid is None && s.auction.winner is None)
    &&& (s.bids@.len() > 0 ==> s.auction.winning_bid == Some(s.bids@.last().amount)
        && s.auction.winner == Some(s.bids@.last().bidder))
    &&& (forall|i: int, j: int|
        0 <= i < j < s.bids@.len() ==> (#[trigger] s.bids@[i]).amount < (
        #[trigger] s.bids@[j]).amount)
    &&& (forall|i: int|
        0 <= i < s.bids@.len() ==> (#[trigger] s.bids@[i]).amount >= s.auction.floor_price)
}

impl AuctionEngineContract {
    pub open spec fn wf(self) -> bool {
        &&& forall|i: int|
            0 <= i < self.auctions@.len() ==> auction_slot_wf(#[trigger] self.auctions@[i])
        &&& forall|i: int|
            0 <= i < self.auctions@.len() ==> (#[trigger] self.auctions@[i]).auction.auction_id == i
                + 1
    }

    pub open spec fn has_auction(self, auction_id: u64) -> bool {
        1 <= auction_id && auction_id as int <= self.auctions@.len()
    }

    pub open spec fn slot(self, auction_id: u64) -> AuctionSlot {
        self.auctions@[auction_id as int - 1]
    }

    pub open spec fn same_config(self, other: AuctionEngineContract) -> bool {
        self.admin == other.admin && self.token == other.token
    }

    /// Set up the engine with its administrator and payment token.
    pub fn initialize(admin: u64, token: u64) -> (v: AuctionEngineContract)
        ensures
            v.wf(),
            v.admin == admin,
            v.token == token,
            v.auctions@.len() == 0,
    {
        AuctionEngineContract { admin, token, auctions: Vec::new() }
    }

    /// Open an auction for an impression slot, running from `now` for
    /// `duration_secs`. Returns the new auction's identifier.
    pub fn create_auction(
        &mut self,
        publisher: u64,
        impression_slot: String,
        floor_price: i128,
        reserve_price: i128,
        duration_secs: u64,
        now: u64,
    ) -> (r: Result<u64, AuctionError>)
        requires
            old(self).wf(),
            old(self).auctions@.len() < usize::MAX,
        ensures
            final(self).wf(),
            old(self).same_config(*final(self)),
            r is Ok <==> now + duration_secs <= u64::MAX,
            r is Err ==> *final(self) == *old(self),
            r == Err::<u64, AuctionError>(AuctionError::TimestampOverflow) <==> now + duration_secs
                > u64::MAX,
            r matches Ok(auction_id) ==> {
                &&& auction_id as int == old(self).auctions@.len() + 1
                &&& final(self).auctions@.len() == old(self).auctions@.len() + 1
                &&& (forall|j: int|
                    0 <= j < old(self).auctions@.len() ==> final(self).auctions@[j] == old(
                        self,
                    ).auctions@[j])
                &&& final(self).slot(auction_id).auction == (Auction {
                    auction_id,
                    publisher,
                    impression_slot,
                    floor_price,
                    reserve_price,
                    start_time: now,
                    end_time: (now + duration_secs) as u64,
                    status: AuctionStatus::Open,
                    winning_bid: None,
                    winner: None,
                    bid_count: 0,
                })
                &&& final(self).slot(auction_id).bids@.len() == 0
            },
    {
        if duration_secs > u64::MAX - now {
            return Err(AuctionError::TimestampOverflow);
        }
        let auction_id: u64 = self.auctions.len() as u64 + 1;
        self.auctions.push(
            AuctionSlot {
                auction: Auction {
                    auction_id,
                    publisher,
                    impression_slot,
                    floor_price,
                    reserve_price,
                    start_time: now,
                    end_time: now + duration_secs,
                    status: AuctionStatus::Open,
                    winning_bid: None,
                    winner: None,
                    bid_count: 0,
                },
                bids: Vec::new(),
            },
        );
        Ok(auction_id)
    }

    /// Place a bid: the auction must be open and not past its end time, and
    /// the amount must clear the floor and strictly beat the current
    /// leader. The bidder becomes the new leader.
    pub fn place_bid(
        &mut self,
        bidder: u64,
        auction_id: u64,
        amount: i128,
        campaign_id: u64,
        now: u64,
    ) -> (r: Result<(), AuctionError>)
        requires
            old(self).wf(),
        ensures
            final(self).wf(),
            old(self).same_config(*final(self)),
            r is Err ==> *final(self) == *old(self),
            r == Err::<(), AuctionError>(AuctionError::AuctionNotFound) <==> !old(self).has_auction(
                auction_id,
            ),
            r == Err::<(), AuctionError>(AuctionError::AuctionNotOpen) <==> old(self).has_auction(
                auction_id,
            ) && old(self).slot(auction_id).auction.status != AuctionStatus::Open,
            r == Err::<(), AuctionError>(AuctionError::AuctionEnded) <==> old(self).has_auction(
                auction_id,
            ) && old(self).slot(auction_id).auction.status == AuctionStatus::Open && now > old(
                self,
            ).slot(auction_id).auction.end_time,
            r == Err::<(), AuctionError>(AuctionError::BidBelowFloor) <==> old(self).has_auction(
                auction_id,
            ) && old(self).slot(auction_id).auction.status == AuctionStatus::Open && now <= old(
                self,
            ).slot(auction_id).auction.end_time && amount < old(
                self,
            ).slot(auction_id).auction.floor_price,
            r == Err::<(), AuctionError>(AuctionError::BidTooLow) <==> old(self).has_auction(
                auction_id,
            ) && old(self).slot(auction_id).auction.status == AuctionStatus::Open && now <= old(
                self,
            ).slot(auction_id).auction.end_time && amount >= old(
                self,
            ).slot(auction_id).auction.floor_price && (old(
                self,
            ).slot(auction_id).auction.winning_bid matches Some(high) && amount <= high),
            r == Err::<(), AuctionError>(AuctionError::TooManyBids) <==> old(self).has_auction(
                auction_id,
            ) && old(self).slot(auction_id).auction.status == AuctionStatus::Open && now <= old(
                self,
            ).slot(auction_id).auction.end_time && amount >= old(
                self,
            ).slot(auction_id).auction.floor_price && !(old(
                self,
            ).slot(auction_id).auction.winning_bid matches Some(high) && amount <= high) && old(
                self,
            ).slot(auction_id).auction.bid_count == u32::MAX,
            r is Ok <==> old(self).has_auction(auction_id) && old(self).slot(
                auction_id,
            ).auction.status == AuctionStatus::Open && now <= old(self).slot(
                auction_id,
            ).auction.end_time && amount >= old(self).slot(auction_id).auction.floor_price && !(old(
                self,
            ).slot(auction_id).auction.winning_bid matches Some(high) && amount <= high) && old(
                self,
            ).slot(auction_id).auction.bid_count < u32::MAX,
            r is Ok ==> {
                let pre = old(self).slot(auction_id);
                &&& final(self).auctions@.len() == old(self).auctions@.len()
                &&& (forall|j: int|
                    0 <= j < old(self).auctions@.len() && j != auction_id - 1
                        ==> final(self).auctions@[j] == old(self).auctions@[j])
                &&& final(self).slot(auction_id).bids@ == pre.bids@.push(
                    Bid { bidder, amount, campaign_id, timestamp: now },
                )
                &&& final(self).slot(auction_id).auction == (Auction {
                    bid_count: (pre.auction.bid_count + 1) as u32,
                    winning_bid: Some(amount),
                    winner: Some(bidder),
                    ..pre.auction
                })
            },
    {
        if !(1 <= auction_id && auction_id <= self.auctions.len() as u64) {
            return Err(AuctionError::AuctionNotFound);
        }
        let idx: usize = (auction_id - 1) as usize;
        if self.auctions[idx].auction.status != AuctionStatus::Open {
            return Err(AuctionError::AuctionNotOpen);
        }
        if now > self.auctions[idx].auction.end_time {
            return Err(AuctionError::AuctionEnded);
        }
        if amount < self.auctions[idx].auction.floor_price {
            return Err(AuctionError::BidBelowFloor);
        }
        if let Some(high) = self.auctions[idx].auction.winning_bid {
            if amount <= high {
                return Err(AuctionError::BidTooLow);
            }
        }
        if self.auctions[idx].auction.bid_count == u32::MAX {
            return Err(AuctionError::TooManyBids);
        }
        let mut slot = self.auctions.remove(idx);
        slot.bids.push(Bid { bidder, amount, campaign_id, timestamp: now });
        slot.auction.bid_count = slot.auction.bid_count + 1;
        slot.auction.winning_bid = Some(amount);
        slot.auction.winner = Some(bidder);
        let ghost gslot = slot;
        self.auctions.insert(idx, slot);
        proof {
            assert(self.auctions@ =~= old(self).auctions@.update(idx as int, gslot));
        }
        Ok(())
    }

    /// Settle an auction: the publisher may settle after the end time, the
    /// administrator at any time. A winning bid that clears the reserve
    /// price completes the sale and reports the payment the host must
    /// perform from the winner to the publisher; otherwise the auction is
    /// cancelled. The bid history is kept either way.
    pub fn settle_auction(&mut self, caller: u64, auction_id: u64, now: u64) -> (r: Result<
        Option<AuctionSettlement>,
        AuctionError,
    >)
        requires
            old(self).wf(),
        ensures
            final(self).wf(),
            old(self).same_config(*final(self)),
            r is Err ==> *final(self) == *old(self),
            r == Err::<Option<AuctionSettlement>, AuctionError>(AuctionError::AuctionNotFound)
                <==> !old(self).has_auction(auction_id),
            r == Err::<Option<AuctionSettlement>, AuctionError>(AuctionError::Unauthorized) <==> old(
                self,
            ).has_auction(auction_id) && caller != old(self).slot(auction_id).auction.publisher
                && caller != old(self).admin,
            r == Err::<Option<AuctionSettlement>, AuctionError>(AuctionError::AuctionStillRunning)
                <==> old(self).has_auction(auction_id) && (caller == old(self).slot(
                auction_id,
            ).auction.publisher || caller == old(self).admin) && now < old(self).slot(
                auction_id,
            ).auction.end_time && caller != old(self).admin,
            r is Ok <==> old(self).has_auction(auction_id) && (caller == old(self).slot(
                auction_id,
            ).auction.publisher || caller == old(self).admin) && (now >= old(self).slot(
                auction_id,
            ).auction.end_time || caller == old(self).admin),
            r is Ok ==> {
                let pre = old(self).slot(auction_id);
                let sold = pre.auction.winning_bid matches Some(w) && w
                    >= pre.auction.reserve_price;
                &&& final(self).auctions@.len() == old(self).auctions@.len()
                &&& (forall|j: int|
                    0 <= j < old(self).auctions@.len() && j != auction_id - 1
                        ==> final(self).auctions@[j] == old(self).auctions@[j])
                &&& final(self).slot(auction_id).bids@ == pre.bids@
                &&& final(self).slot(auction_id).auction == (Auction {
                    status: if sold {
                        AuctionStatus::Settled
                    } else {
                        AuctionStatus::Cancelled
                    },
                    ..pre.auction
                })
                &&& (sold ==> r == Ok::<Option<AuctionSettlement>, AuctionError>(
                    Some(
                        AuctionSettlement {
                            winner: pre.auction.winner->0,
                            publisher: pre.auction.publisher,
                            amount: pre.auction.winning_bid->0,
                        },
                    ),
                ))
                &&& (!sold ==> r == Ok::<Option<AuctionSettlement>, AuctionError>(None))
            },
    {
        if !(1 <= auction_id && auction_id <= self.auctions.len() as u64) {
            return Err(AuctionError::AuctionNotFound);
        }
        let idx: usize = (auction_id - 1) as usize;
        if caller != self.auctions[idx].auction.publisher && caller != self.admin {
            return Err(AuctionError::Unauthorized);
        }
        if now < self.auctions[idx].auction.end_time && caller != self.admin {
            return Err(AuctionError::AuctionStillRunning);
        }
        let mut slot = self.auctions.remove(idx);
        let outcome: Option<AuctionSettlement> = match (slot.auction.winning_bid, slot.auction.winner) {
            (Some(w), Some(winner)) if w >= slot.auction.reserve_price => {
                slot.auction.status = AuctionStatus::Settled;
                Some(
                    AuctionSettlement { winner, publisher: slot.auction.publisher, amount: w },
                )
            },
            _ => {
                slot.auction.status = AuctionStatus::Cancelled;
                None
            },
        };
        let ghost gslot = slot;
        self.auctions.insert(idx, slot);
        proof {
            assert(self.auctions@ =~= old(self).auctions@.update(idx as int, gslot));
        }
        Ok(outcome)
    }

    /// Read one auction.
    pub fn get_auction(&self, auction_id: u64) -> (r: Option<Auction>)
        ensures
            self.has_auction(auction_id) ==> r == Some(self.slot(auction_id).auction),
            !self.has_auction(auction_id) ==> r is None,
    {
        if 1 <= auction_id && auction_id <= self.auctions.len() as u64 {
            let idx: usize = (auction_id - 1) as usize;
            Some(self.auctions[idx].auction.clone())
        } else {
            None
        }
    }

    /// Read one bid by its placement index, starting at zero.
    pub fn get_bid(&self, auction_id: u64, index: u32) -> (r: Option<Bid>)
        ensures
            self.has_auction(auction_id) && (index as int) < self.slot(auction_id).bids@.len()
                ==> r == Some(self.slot(auction_id).bids@[index as int]),
            !(self.has_auction(auction_id) && (index as int) < self.slot(auction_id).bids@.len())
                ==> r is None,
    {
        if 1 <= auction_id && auction_id <= self.auctions.len() as u64 {
            let idx: usize = (auction_id - 1) as usize;
            if (index as usize) < self.auctions[idx].bids.len() {
                Some(self.auctions[idx].bids[index as usize])
            } else {
                None
            }
        } else {
            None
        }
    }

    /// Number of bids recorded for an auction; zero for an unknown one.
    pub fn get_bid_count(&self, auction_id: u64) -> (r: u32)
        ensures
            self.has_auction(auction_id) ==> r == self.slot(auction_id).auction.bid_count,
            !self.has_auction(auction_id) ==> r == 0,
    {
        if 1 <= auction_id && auction_id <= self.auctions.len() as u64 {
            let idx: usize = (auction_id - 1) as usize;
            self.auctions[idx].auction.bid_count
        } else {
            0
        }
    }

    /// The current highest bid, if any bid was placed.
    pub fn get_highest_bid(&self, auction_id: u64) -> (r: Option<i128>)
        ensures
            self.has_auction(auction_id) ==> r == self.slot(auction_id).auction.winning_bid,
            !self.has_auction(auction_id) ==> r is None,
    {
        if 1 <= auction_id && auction_id <= self.auctions.len() as u64 {
            let idx: usize = (auction_id - 1) as usize;
            self.auctions[idx].auction.winning_bid
        } else {
            None
        }
    }
}

} // verus!
