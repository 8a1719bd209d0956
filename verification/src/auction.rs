//! English auctions: creation, bidding, closing, and cancellation.
//!
//! Bidding is synchronous: accepting a bid and refunding the previously
//! highest bidder happen in one step, so the marketplace never holds more
//! than one live bid per auction.  Closing suspends on the token transfer,
//! so the auction record is taken out before the call goes out; whatever
//! the transfer's outcome, the auction stays terminal and the winning bid
//! is either paid out or returned.

use vstd::prelude::*;

use crate::payment::{royalty_cut, spec_cut, spec_cut_ok};
use crate::marketplace::{
    governance_unchanged, registry_unchanged, single_transfer, NftMarketplace,
};
use crate::types::{
    spec_key, ActorId, Auction, Bid, CloseAuctionPending, CloseAuctionStep, CreateAuctionPending,
    MarketError, MarketEvent, OwnershipReply, Price, Timestamp, TokenId, TokenKey, Transfer,
    TransferReply,
};

verus! {

/// A bid is acceptable while the deadline has not arrived, and only if it
/// strictly exceeds the current highest bid — or, for the first bid, meets
/// the minimum price.
pub open spec fn spec_bid_ok(a: Auction, value: Price, now: Timestamp) -> bool {
    &&& now < a.deadline
    &&& match a.winner {
        None => value >= a.min_price,
        Some(b) => value > b.amount,
    }
}

/// The auction after accepting a bid.
pub open spec fn spec_with_bid(a: Auction, bidder: ActorId, value: Price) -> Auction {
    Auction { winner: Some(Bid { bidder, amount: value }), ..a }
}

/// What accepting a new bid pays out: the previously highest bidder's full
/// escrow, or nothing for a first bid.
pub open spec fn spec_bid_refunds(a: Auction) -> Seq<Transfer> {
    match a.winner {
        None => Seq::empty(),
        Some(b) => seq![(Transfer { to: b.bidder, value: b.amount })],
    }
}

/// The funds the marketplace holds on behalf of an auction: the live bid's
/// value, or nothing before the first bid.
pub open spec fn spec_auction_escrow(a: Auction) -> int {
    match a.winner {
        None => 0,
        Some(b) => b.amount as int,
    }
}

impl NftMarketplace {
    /// First step of opening an auction: validates the request and
    /// describes the ownership query that must confirm it.
    pub fn create_auction(
        &mut self,
        caller: ActorId,
        collection: ActorId,
        token: TokenId,
        min_price: Price,
        duration: u64,
    ) -> (r: Result<CreateAuctionPending, MarketError>)
        requires
            old(self).wf(),
        ensures
            final(self).wf(),
            *final(self) == *old(self),
            !old(self).collection_to_owner@.contains_key(collection) ==> r == Err::<
                CreateAuctionPending,
                MarketError,
            >(MarketError::UnknownCollection),
            old(self).collection_to_owner@.contains_key(collection) && (old(
                self,
            ).sales@.contains_key(spec_key(collection, token)) || old(self).auctions@.contains_key(
                spec_key(collection, token),
            )) ==> r == Err::<CreateAuctionPending, MarketError>(MarketError::AlreadyListed),
            old(self).collection_to_owner@.contains_key(collection) && !old(
                self,
            ).sales@.contains_key(spec_key(collection, token)) && !old(self).auctions@.contains_key(
                spec_key(collection, token),
            ) ==> r == Ok::<CreateAuctionPending, MarketError>(
                (CreateAuctionPending {
                    caller,
                    collection,
                    token,
                    min_price,
                    duration,
                    gas: old(self).config.gas_for_get_info,
                }),
            ),
    {
        if !self.collection_to_owner.contains_key(&collection) {
            return Err(MarketError::UnknownCollection);
        }
        let key = TokenKey { collection, token };
        if self.sales.contains_key(&key) || self.auctions.contains_key(&key) {
            return Err(MarketError::AlreadyListed);
        }
        Ok(
            CreateAuctionPending {
                caller,
                collection,
                token,
                min_price,
                duration,
                gas: self.config.gas_for_get_info,
            },
        )
    }

    /// Second step of opening an auction: consumes the ownership answer,
    /// converts the duration in blocks to an absolute deadline, re-checks
    /// the key, and writes the auction record.
    pub fn create_auction_reply(
        &mut self,
        pending: CreateAuctionPending,
        reply: OwnershipReply,
        marketplace: ActorId,
        now: Timestamp,
    ) -> (r: Result<MarketEvent, MarketError>)
        requires
            old(self).wf(),
        ensures
            final(self).wf(),
            reply == OwnershipReply::Failed ==> r == Err::<MarketEvent, MarketError>(
                MarketError::CollectionCallFailed,
            ) && *final(self) == *old(self),
            reply == OwnershipReply::Malformed ==> r == Err::<MarketEvent, MarketError>(
                MarketError::ProtocolViolation,
            ) && *final(self) == *old(self),
            reply matches OwnershipReply::Info { owner, approved } ==> {
                let authorized = owner == pending.caller || approved == Some(marketplace);
                let key = spec_key(pending.collection, pending.token);
                let deadline = now + pending.duration * old(self).config.ms_in_block;
                &&& !authorized ==> r == Err::<MarketEvent, MarketError>(MarketError::AccessDenied)
                    && *final(self) == *old(self)
                &&& authorized && deadline > u64::MAX ==> r == Err::<MarketEvent, MarketError>(
                    MarketError::ArithmeticOverflow,
                ) && *final(self) == *old(self)
                &&& authorized && deadline <= u64::MAX && (old(self).sales@.contains_key(key)
                    || old(self).auctions@.contains_key(key)) ==> r == Err::<
                    MarketEvent,
                    MarketError,
                >(MarketError::AlreadyListed) && *final(self) == *old(self)
                &&& authorized && deadline <= u64::MAX && !old(self).sales@.contains_key(key)
                    && !old(self).auctions@.contains_key(key) ==> {
                    &&& final(self).auctions@ == old(self).auctions@.insert(
                        key,
                        (Auction {
                            seller: pending.caller,
                            min_price: pending.min_price,
                            winner: None,
                            deadline: deadline as u64,
                        }),
                    )
                    &&& final(self).sales@ == old(self).sales@
                    &&& final(self).offers@ == old(self).offers@
                    &&& registry_unchanged(old(self), final(self))
                    &&& governance_unchanged(old(self), final(self))
                    &&& r == Ok::<MarketEvent, MarketError>(
                        (MarketEvent::AuctionCreated {
                            collection_address: pending.collection,
                            token_id: pending.token,
                            min_price: pending.min_price,
                            deadline: deadline as u64,
                        }),
                    )
                }
            },
    {
        let (owner, approved) = match reply {
            OwnershipReply::Info { owner, approved } => (owner, approved),
            OwnershipReply::Failed => {
                return Err(MarketError::CollectionCallFailed);
            },
            OwnershipReply::Malformed => {
                return Err(MarketError::ProtocolViolation);
            },
        };
        let approved_to_marketplace = match approved {
            Some(a) => a == marketplace,
            None => false,
        };
        if owner != pending.caller && !approved_to_marketplace {
            return Err(MarketError::AccessDenied);
        }
        let span = match pending.duration.checked_mul(self.config.ms_in_block as u64) {
            Some(s) => s,
            None => {
                return Err(MarketError::ArithmeticOverflow);
            },
        };
        let deadline = match now.checked_add(span) {
            Some(d) => d,
            None => {
                return Err(MarketError::ArithmeticOverflow);
            },
        };
        let key = TokenKey { collection: pending.collection, token: pending.token };
        if self.sales.contains_key(&key) || self.auctions.contains_key(&key) {
            return Err(MarketError::AlreadyListed);
        }
        self.auctions.insert(
            key,
            Auction {
                seller: pending.caller,
                min_price: pending.min_price,
                winner: None,
                deadline,
            },
        );
        Ok(
            MarketEvent::AuctionCreated {
                collection_address: pending.collection,
                token_id: pending.token,
                min_price: pending.min_price,
                deadline,
            },
        )
    }

    /// Places a bid.  An accepted bid replaces the recorded highest bid and
    /// pays the previous bidder back in full, in the same step; a rejected
    /// bid refunds the attached value.  No foreign call is involved.
    pub fn add_bid(
        &mut self,
        caller: ActorId,
        value: Price,
        collection: ActorId,
        token: TokenId,
        now: Timestamp,
    ) -> (r: (Result<MarketEvent, MarketError>, Vec<Transfer>))
        requires
            old(self).wf(),
        ensures
            final(self).wf(),
            r.0 is Err ==> r.1@ == seq![(Transfer { to: caller, value })] && *final(self) == *old(
                self,
            ),
            !old(self).auctions@.contains_key(spec_key(collection, token)) ==> r.0 == Err::<
                MarketEvent,
                MarketError,
            >(MarketError::NotListed),
            old(self).auctions@.contains_key(spec_key(collection, token)) ==> {
                let a = old(self).auctions@[spec_key(collection, token)];
                &&& now >= a.deadline ==> r.0 == Err::<MarketEvent, MarketError>(
                    MarketError::DeadlinePassed,
                )
                &&& now < a.deadline && !spec_bid_ok(a, value, now) ==> r.0 == Err::<
                    MarketEvent,
                    MarketError,
                >(MarketError::BidTooLow)
                &&& spec_bid_ok(a, value, now) ==> {
                    &&& final(self).auctions@ == old(self).auctions@.insert(
                        spec_key(collection, token),
                        spec_with_bid(a, caller, value),
                    )
                    &&& final(self).sales@ == old(self).sales@
                    &&& final(self).offers@ == old(self).offers@
                    &&& registry_unchanged(old(self), final(self))
                    &&& governance_unchanged(old(self), final(self))
                    &&& r.0 == Ok::<MarketEvent, MarketError>(
                        (MarketEvent::BidAdded {
                            collection_address: collection,
                            token_id: token,
                            bidder: caller,
                            bid: value,
                        }),
                    )
                    &&& r.1@ == spec_bid_refunds(a)
                }
            },
    {
        let key = TokenKey { collection, token };
        let auction = match self.auctions.get(&key) {
            Some(a) => *a,
            None => {
                return (Err(MarketError::NotListed), single_transfer(caller, value));
            },
        };
        if now >= auction.deadline {
            return (Err(MarketError::DeadlinePassed), single_transfer(caller, value));
        }
        let refunds = match auction.winner {
            None => {
                if value < auction.min_price {
                    return (Err(MarketError::BidTooLow), single_transfer(caller, value));
                }
                Vec::new()
            },
            Some(previous) => {
                if value <= previous.amount {
                    return (Err(MarketError::BidTooLow), single_transfer(caller, value));
                }
                single_transfer(previous.bidder, previous.amount)
            },
        };
        self.auctions.insert(
            key,
            Auction { winner: Some(Bid { bidder: caller, amount: value }), ..auction },
        );
        (
            Ok(
                MarketEvent::BidAdded {
                    collection_address: collection,
                    token_id: token,
                    bidder: caller,
                    bid: value,
                },
            ),
            refunds,
        )
    }

    /// First step of closing an auction, callable by anyone once the
    /// deadline has arrived.
    ///
    /// With no bids the auction is simply removed: no token moves and no
    /// funds move.  With a winning bid the auction record is taken out and
    /// the token transfer to the winner goes out; the payout was computed
    /// here, before anything irreversible happened.
    pub fn close_auction(&mut self, collection: ActorId, token: TokenId, now: Timestamp) -> (r:
        Result<CloseAuctionStep, MarketError>)
        requires
            old(self).wf(),
        ensures
            final(self).wf(),
            !old(self).auctions@.contains_key(spec_key(collection, token)) ==> r == Err::<
                CloseAuctionStep,
                MarketError,
            >(MarketError::NotListed) && *final(self) == *old(self),
            old(self).auctions@.contains_key(spec_key(collection, token)) ==> {
                let a = old(self).auctions@[spec_key(collection, token)];
                &&& now < a.deadline ==> r == Err::<CloseAuctionStep, MarketError>(
                    MarketError::DeadlineNotReached,
                ) && *final(self) == *old(self)
                &&& now >= a.deadline && a.winner is None ==> {
                    &&& final(self).auctions@ == old(self).auctions@.remove(
                        spec_key(collection, token),
                    )
                    &&& final(self).sales@ == old(self).sales@
                    &&& final(self).offers@ == old(self).offers@
                    &&& registry_unchanged(old(self), final(self))
                    &&& governance_unchanged(old(self), final(self))
                    &&& r == Ok::<CloseAuctionStep, MarketError>(
                        (CloseAuctionStep::Closed(
                            MarketEvent::AuctionClosed {
                                collection_address: collection,
                                token_id: token,
                                winner: None,
                                price: 0,
                            },
                        )),
                    )
                }
                &&& a.winner matches Some(b) ==> now >= a.deadline ==> {
                    &&& !spec_cut_ok(b.amount, old(self).config.royalty_to_marketplace_for_trade)
                        ==> r == Err::<CloseAuctionStep, MarketError>(
                        MarketError::ArithmeticOverflow,
                    ) && *final(self) == *old(self)
                    &&& spec_cut_ok(b.amount, old(self).config.royalty_to_marketplace_for_trade)
                        ==> {
                        &&& final(self).auctions@ == old(self).auctions@.remove(
                            spec_key(collection, token),
                        )
                        &&& final(self).sales@ == old(self).sales@
                        &&& final(self).offers@ == old(self).offers@
                        &&& registry_unchanged(old(self), final(self))
                        &&& governance_unchanged(old(self), final(self))
                        &&& r == Ok::<CloseAuctionStep, MarketError>(
                            (CloseAuctionStep::AwaitTransfer(
                                CloseAuctionPending {
                                    collection,
                                    token,
                                    seller: a.seller,
                                    bidder: b.bidder,
                                    bid: b.amount,
                                    payout: (b.amount - spec_cut(
                                        b.amount,
                                        old(self).config.royalty_to_marketplace_for_trade,
                                    )) as u128,
                                    gas: old(self).config.gas_for_close_auction,
                                },
                            )),
                        )
                    }
                }
            },
    {
        let key = TokenKey { collection, token };
        let auction = match self.auctions.get(&key) {
            Some(a) => *a,
            None => {
                return Err(MarketError::NotListed);
            },
        };
        if now < auction.deadline {
            return Err(MarketError::DeadlineNotReached);
        }
        match auction.winner {
            None => {
                self.auctions.remove(&key);
                Ok(
                    CloseAuctionStep::Closed(
                        MarketEvent::AuctionClosed {
                            collection_address: collection,
                            token_id: token,
                            winner: None,
                            price: 0,
                        },
                    ),
                )
            },
            Some(winning) => {
                let cut = match royalty_cut(
                    winning.amount,
                    self.config.royalty_to_marketplace_for_trade,
                ) {
                    Some(c) => c,
                    None => {
                        return Err(MarketError::ArithmeticOverflow);
                    },
                };
                self.auctions.remove(&key);
                Ok(
                    CloseAuctionStep::AwaitTransfer(
                        CloseAuctionPending {
                            collection,
                            token,
                            seller: auction.seller,
                            bidder: winning.bidder,
                            bid: winning.amount,
                            payout: winning.amount - cut,
                            gas: self.config.gas_for_close_auction,
                        },
                    ),
                )
            },
        }
    }

    /// Second step of closing: consumes the transfer confirmation.
    ///
    /// On success the seller receives the bid minus the trade cut.  On any
    /// failure the winning bid is returned in full and the auction stays
    /// closed, unsold, rather than being retried: a failed transfer never
    /// traps the bidder's funds.
    pub fn close_auction_reply(&mut self, pending: CloseAuctionPending, reply: TransferReply) -> (r:
        (Result<MarketEvent, MarketError>, Vec<Transfer>))
        requires
            old(self).wf(),
        ensures
            final(self).wf(),
            *final(self) == *old(self),
            reply == TransferReply::Confirmed ==> {
                &&& r.0 == Ok::<MarketEvent, MarketError>(
                    (MarketEvent::AuctionClosed {
                        collection_address: pending.collection,
                        token_id: pending.token,
                        winner: Some(pending.bidder),
                        price: pending.bid,
                    }),
                )
                &&& r.1@ == seq![(Transfer { to: pending.seller, value: pending.payout })]
            },
            reply == TransferReply::Failed ==> {
                &&& r.0 == Ok::<MarketEvent, MarketError>(
                    (MarketEvent::AuctionClosed {
                        collection_address: pending.collection,
                        token_id: pending.token,
                        winner: None,
                        price: 0,
                    }),
                )
                &&& r.1@ == seq![(Transfer { to: pending.bidder, value: pending.bid })]
            },
            reply == TransferReply::Malformed ==> {
                &&& r.0 == Err::<MarketEvent, MarketError>(MarketError::ProtocolViolation)
                &&& r.1@ == seq![(Transfer { to: pending.bidder, value: pending.bid })]
            },
    {
        match reply {
            TransferReply::Confirmed => (
                Ok(
                    MarketEvent::AuctionClosed {
                        collection_address: pending.collection,
                        token_id: pending.token,
                        winner: Some(pending.bidder),
                        price: pending.bid,
                    },
                ),
                single_transfer(pending.seller, pending.payout),
            ),
            TransferReply::Failed => (
                Ok(
                    MarketEvent::AuctionClosed {
                        collection_address: pending.collection,
                        token_id: pending.token,
                        winner: None,
                        price: 0,
                    },
                ),
                single_transfer(pending.bidder, pending.bid),
            ),
            TransferReply::Malformed => (
                Err(MarketError::ProtocolViolation),
                single_transfer(pending.bidder, pending.bid),
            ),
        }
    }

    /// Cancels an auction.  Only the seller may cancel, and only while no
    /// bid has been placed; with a live bid the auction can only run to its
    /// deadline and be closed.
    pub fn cancel_auction(&mut self, caller: ActorId, collection: ActorId, token: TokenId) -> (r:
        Result<MarketEvent, MarketError>)
        requires
            old(self).wf(),
        ensures
            final(self).wf(),
            !old(self).auctions@.contains_key(spec_key(collection, token)) ==> r == Err::<
                MarketEvent,
                MarketError,
            >(MarketError::NotListed) && *final(self) == *old(self),
            old(self).auctions@.contains_key(spec_key(collection, token)) ==> {
                let a = old(self).auctions@[spec_key(collection, token)];
                &&& a.seller != caller ==> r == Err::<MarketEvent, MarketError>(
                    MarketError::AccessDenied,
                ) && *final(self) == *old(self)
                &&& a.seller == caller && a.winner is Some ==> r == Err::<
                    MarketEvent,
                    MarketError,
                >(MarketError::AccessDenied) && *final(self) == *old(self)
                &&& a.seller == caller && a.winner is None ==> {
                    &&& final(self).auctions@ == old(self).auctions@.remove(
                        spec_key(collection, token),
                    )
                    &&& final(self).sales@ == old(self).sales@
                    &&& final(self).offers@ == old(self).offers@
                    &&& registry_unchanged(old(self), final(self))
                    &&& governance_unchanged(old(self), final(self))
                    &&& r == Ok::<MarketEvent, MarketError>(
                        (MarketEvent::AuctionCanceled {
                            collection_address: collection,
                            token_id: token,
                        }),
                    )
                }
            },
    {
        let key = TokenKey { collection, token };
        let auction = match self.auctions.get(&key) {
            Some(a) => *a,
            None => {
                return Err(MarketError::NotListed);
            },
        };
        if auction.seller != caller {
            return Err(MarketError::AccessDenied);
        }
        if let Some(_) = auction.winner {
            return Err(MarketError::AccessDenied);
        }
        self.auctions.remove(&key);
        Ok(MarketEvent::AuctionCanceled { collection_address: collection, token_id: token })
    }
}

} // verus!
