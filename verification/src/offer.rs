//! Private offers: escrow-backed bids on a token, independent of any
//! listing or auction on the same token.
//!
//! The escrow held for an offer always equals the value attached when the
//! offer was made; it leaves the marketplace only by cancellation (back to
//! the buyer) or acceptance (to the token owner, minus the trade cut).
//! Acceptance suspends on the token transfer, so the offer record is taken
//! out first: a cancellation arriving during the suspension finds nothing
//! and cannot double-spend the escrow.

use vstd::prelude::*;

use crate::payment::{royalty_cut, spec_cut, spec_cut_ok};
use crate::marketplace::{
    governance_unchanged, registry_unchanged, single_transfer, NftMarketplace,
};
use crate::types::{
    AcceptOfferPending, ActorId, MarketError, MarketEvent, OfferKey, Price, TokenId, Transfer,
    TransferReply,
};

verus! {

impl NftMarketplace {
    /// Escrows the attached value as an offer on the token.  Offers from
    /// different buyers coexist; a buyer's repeated offer replaces the
    /// earlier one, whose escrow is returned in the same step.
    pub fn create_offer(&mut self, caller: ActorId, value: Price, collection: ActorId, token:
        TokenId) -> (r: (Result<MarketEvent, MarketError>, Vec<Transfer>))
        requires
            old(self).wf(),
        ensures
            final(self).wf(),
            ({
                let key = OfferKey { collection, token, buyer: caller };
                &&& final(self).offers@ == old(self).offers@.insert(key, value)
                &&& final(self).sales@ == old(self).sales@
                &&& final(self).auctions@ == old(self).auctions@
                &&& registry_unchanged(old(self), final(self))
                &&& governance_unchanged(old(self), final(self))
                &&& r.0 == Ok::<MarketEvent, MarketError>(
                    (MarketEvent::OfferCreated {
                        collection_address: collection,
                        token_id: token,
                        buyer: caller,
                        value,
                    }),
                )
                &&& old(self).offers@.contains_key(key) ==> r.1@ == seq![
                    (Transfer { to: caller, value: old(self).offers@[key] }),
                ]
                &&& !old(self).offers@.contains_key(key) ==> r.1@.len() == 0
            }),
    {
        let key = OfferKey { collection, token, buyer: caller };
        let refunds = match self.offers.get(&key) {
            Some(previous) => single_transfer(caller, *previous),
            None => Vec::new(),
        };
        self.offers.insert(key, value);
        (
            Ok(
                MarketEvent::OfferCreated {
                    collection_address: collection,
                    token_id: token,
                    buyer: caller,
                    value,
                },
            ),
            refunds,
        )
    }

    /// Cancels the caller's own offer and releases its escrow in full.
    pub fn cancel_offer(&mut self, caller: ActorId, collection: ActorId, token: TokenId) -> (r: (
        Result<MarketEvent, MarketError>,
        Vec<Transfer>,
    ))
        requires
            old(self).wf(),
        ensures
            final(self).wf(),
            !old(self).offers@.contains_key((OfferKey { collection, token, buyer: caller }))
                ==> r.0 == Err::<MarketEvent, MarketError>(MarketError::NotListed) && r.1@.len()
                == 0 && *final(self) == *old(self),
            old(self).offers@.contains_key((OfferKey { collection, token, buyer: caller })) ==> {
                let key = OfferKey { collection, token, buyer: caller };
                &&& final(self).offers@ == old(self).offers@.remove(key)
                &&& final(self).sales@ == old(self).sales@
                &&& final(self).auctions@ == old(self).auctions@
                &&& registry_unchanged(old(self), final(self))
                &&& governance_unchanged(old(self), final(self))
                &&& r.0 == Ok::<MarketEvent, MarketError>(
                    (MarketEvent::OfferCanceled {
                        collection_address: collection,
                        token_id: token,
                        buyer: caller,
                    }),
                )
                &&& r.1@ == seq![(Transfer { to: caller, value: old(self).offers@[key] })]
            },
    {
        let key = OfferKey { collection, token, buyer: caller };
        let escrow = match self.offers.get(&key) {
            Some(e) => *e,
            None => {
                return (Err(MarketError::NotListed), Vec::new());
            },
        };
        self.offers.remove(&key);
        (
            Ok(
                MarketEvent::OfferCanceled {
                    collection_address: collection,
                    token_id: token,
                    buyer: caller,
                },
            ),
            single_transfer(caller, escrow),
        )
    }

    /// First step of accepting an offer: takes the offer record out as the
    /// reservation and describes the token transfer from the caller to the
    /// buyer.  The caller's claim to own the token is enforced by the
    /// collection when it executes the transfer.
    pub fn accept_offer(&mut self, caller: ActorId, collection: ActorId, token: TokenId, buyer:
        ActorId) -> (r: Result<AcceptOfferPending, MarketError>)
        requires
            old(self).wf(),
        ensures
            final(self).wf(),
            r is Err ==> *final(self) == *old(self),
            !old(self).offers@.contains_key((OfferKey { collection, token, buyer })) ==> r == Err::<
                AcceptOfferPending,
                MarketError,
            >(MarketError::NotListed),
            old(self).offers@.contains_key((OfferKey { collection, token, buyer })) ==> {
                let key = OfferKey { collection, token, buyer };
                let escrow = old(self).offers@[key];
                &&& !spec_cut_ok(escrow, old(self).config.royalty_to_marketplace_for_trade) ==> r
                    == Err::<AcceptOfferPending, MarketError>(MarketError::ArithmeticOverflow)
                &&& spec_cut_ok(escrow, old(self).config.royalty_to_marketplace_for_trade) ==> {
                    &&& final(self).offers@ == old(self).offers@.remove(key)
                    &&& final(self).sales@ == old(self).sales@
                    &&& final(self).auctions@ == old(self).auctions@
                    &&& registry_unchanged(old(self), final(self))
                    &&& governance_unchanged(old(self), final(self))
                    &&& r == Ok::<AcceptOfferPending, MarketError>(
                        (AcceptOfferPending {
                            caller,
                            collection,
                            token,
                            buyer,
                            escrow,
                            payout: (escrow - spec_cut(
                                escrow,
                                old(self).config.royalty_to_marketplace_for_trade,
                            )) as u128,
                            gas: old(self).config.gas_for_transfer_token,
                        }),
                    )
                }
            },
    {
        let key = OfferKey { collection, token, buyer };
        let escrow = match self.offers.get(&key) {
            Some(e) => *e,
            None => {
                return Err(MarketError::NotListed);
            },
        };
        let cut = match royalty_cut(escrow, self.config.royalty_to_marketplace_for_trade) {
            Some(c) => c,
            None => {
                return Err(MarketError::ArithmeticOverflow);
            },
        };
        self.offers.remove(&key);
        Ok(
            AcceptOfferPending {
                caller,
                collection,
                token,
                buyer,
                escrow,
                payout: escrow - cut,
                gas: self.config.gas_for_transfer_token,
            },
        )
    }

    /// Second step of accepting an offer: consumes the transfer
    /// confirmation.
    ///
    /// On success the caller receives the escrow minus the trade cut.  On
    /// failure the buyer's escrow never leaves custody: the offer is put
    /// back — or, if the buyer has meanwhile escrowed a new offer on the
    /// same token, the old escrow is returned to the buyer instead.
    pub fn accept_offer_reply(&mut self, pending: AcceptOfferPending, reply: TransferReply) -> (r: (
        Result<MarketEvent, MarketError>,
        Vec<Transfer>,
    ))
        requires
            old(self).wf(),
        ensures
            final(self).wf(),
            reply == TransferReply::Confirmed ==> {
                &&& *final(self) == *old(self)
                &&& r.0 == Ok::<MarketEvent, MarketError>(
                    (MarketEvent::OfferAccepted {
                        collection_address: pending.collection,
                        token_id: pending.token,
                        buyer: pending.buyer,
                        price: pending.escrow,
                    }),
                )
                &&& r.1@ == seq![(Transfer { to: pending.caller, value: pending.payout })]
            },
            reply != TransferReply::Confirmed ==> {
                let key = OfferKey {
                    collection: pending.collection,
                    token: pending.token,
                    buyer: pending.buyer,
                };
                &&& r.0 == Err::<MarketEvent, MarketError>(
                    if reply == TransferReply::Malformed {
                        MarketError::ProtocolViolation
                    } else {
                        MarketError::CollectionCallFailed
                    },
                )
                &&& !old(self).offers@.contains_key(key) ==> final(self).offers@ == old(
                    self,
                ).offers@.insert(key, pending.escrow) && r.1@.len() == 0
                &&& old(self).offers@.contains_key(key) ==> *final(self) == *old(self) && r.1@
                    == seq![(Transfer { to: pending.buyer, value: pending.escrow })]
                &&& final(self).sales@ == old(self).sales@
                &&& final(self).auctions@ == old(self).auctions@
                &&& registry_unchanged(old(self), final(self))
                &&& governance_unchanged(old(self), final(self))
            },
    {
        match reply {
            TransferReply::Confirmed => (
                Ok(
                    MarketEvent::OfferAccepted {
                        collection_address: pending.collection,
                        token_id: pending.token,
                        buyer: pending.buyer,
                        price: pending.escrow,
                    },
                ),
                single_transfer(pending.caller, pending.payout),
            ),
            _ => {
                let key = OfferKey {
                    collection: pending.collection,
                    token: pending.token,
                    buyer: pending.buyer,
                };
                let error = if matches!(reply, TransferReply::Malformed) {
                    MarketError::ProtocolViolation
                } else {
                    MarketError::CollectionCallFailed
                };
                if self.offers.contains_key(&key) {
                    (Err(error), single_transfer(pending.buyer, pending.escrow))
                } else {
                    self.offers.insert(key, pending.escrow);
                    (Err(error), Vec::new())
                }
            },
        }
    }
}

} // verus!
