//! Fixed-price sales: listing, cancellation, and purchase.
//!
//! A purchase suspends on the token transfer, so the sale record — the
//! record that gates eligibility — is taken out *before* the call goes out:
//! a request arriving during the suspension finds no listing and is
//! rejected instead of racing to a second transfer.  A failed transfer puts
//! the record back, so a listing survives a failed purchase attempt.

use vstd::prelude::*;

use crate::payment::{royalty_cut, spec_cut, spec_cut_ok};
use crate::marketplace::{
    governance_unchanged, registry_unchanged, single_transfer, NftMarketplace,
};
use crate::types::{
    spec_key, ActorId, BuyPending, MarketError, MarketEvent, OwnershipReply, Price, SaleInfo,
    SellPending, TokenId, TokenKey, Transfer, TransferReply,
};

verus! {

impl NftMarketplace {
    /// First step of listing a token for sale: validates the request and
    /// describes the ownership query that must confirm it.
    ///
    /// The listing itself is written only by [`Self::sell_reply`], once the
    /// collection has confirmed the caller's authority.
    pub fn sell(&mut self, caller: ActorId, collection: ActorId, token: TokenId, price: Price) -> (
    r: Result<SellPending, MarketError>)
        requires
            old(self).wf(),
        ensures
            final(self).wf(),
            *final(self) == *old(self),
            !old(self).collection_to_owner@.contains_key(collection) ==> r == Err::<
                SellPending,
                MarketError,
            >(MarketError::UnknownCollection),
            old(self).collection_to_owner@.contains_key(collection) && (old(
                self,
            ).sales@.contains_key(spec_key(collection, token)) || old(self).auctions@.contains_key(
                spec_key(collection, token),
            )) ==> r == Err::<SellPending, MarketError>(MarketError::AlreadyListed),
            old(self).collection_to_owner@.contains_key(collection) && !old(
                self,
            ).sales@.contains_key(spec_key(collection, token)) && !old(self).auctions@.contains_key(
                spec_key(collection, token),
            ) ==> r == Ok::<SellPending, MarketError>(
                (SellPending {
                    caller,
                    collection,
                    token,
                    price,
                    gas: old(self).config.gas_for_get_info,
                }),
            ),
    {
        if !self.collection_to_owner.contains_key(&collection) {
            return Err(MarketError::UnknownCollection);
        }
        let key = TokenKey { collection, token };
        if self.sales.contains_key(&key) || self.auctions.contains_key(&key) {
            return Err(MarketError::AlreadyListed);
        }
        Ok(SellPending { caller, collection, token, price, gas: self.config.gas_for_get_info })
    }

    /// Second step of listing: consumes the ownership answer.
    ///
    /// The caller must be the reported owner, or the marketplace must hold
    /// the reported approval.  Because other requests may have run during
    /// the suspension, the key is checked again before the record is
    /// written.
    pub fn sell_reply(&mut self, pending: SellPending, reply: OwnershipReply, marketplace: ActorId)
        -> (r: Result<MarketEvent, MarketError>)
        requires
            old(self).wf(),
        ensures
            final(self).wf(),
            reply == OwnershipReply::Failed ==> r == Err::<MarketEvent, MarketError>(
                MarketError::CollectionCallFailed,
            ) && *final(self) == *old(self),
            reply == OwnershipReply::Malformed ==> r == Err::<MarketEvent, MarketError>(
                MarketError::ProtocolViolation,
            ) && *final(self) == *old(self),
            reply matches OwnershipReply::Info { owner, approved } ==> {
                let authorized = owner == pending.caller || approved == Some(marketplace);
                let key = spec_key(pending.collection, pending.token);
                &&& !authorized ==> r == Err::<MarketEvent, MarketError>(MarketError::AccessDenied)
                    && *final(self) == *old(self)
                &&& authorized && (old(self).sales@.contains_key(key) || old(
                    self,
                ).auctions@.contains_key(key)) ==> r == Err::<MarketEvent, MarketError>(
                    MarketError::AlreadyListed,
                ) && *final(self) == *old(self)
                &&& authorized && !old(self).sales@.contains_key(key) && !old(
                    self,
                ).auctions@.contains_key(key) ==> {
                    &&& final(self).sales@ == old(self).sales@.insert(
                        key,
                        (SaleInfo { seller: pending.caller, price: pending.price }),
                    )
                    &&& final(self).auctions@ == old(self).auctions@
                    &&& final(self).offers@ == old(self).offers@
                    &&& registry_unchanged(old(self), final(self))
                    &&& governance_unchanged(old(self), final(self))
                    &&& r == Ok::<MarketEvent, MarketError>(
                        (MarketEvent::NftListed {
                            collection_address: pending.collection,
                            token_id: pending.token,
                            price: pending.price,
                        }),
                    )
                }
            },
    {
        let (owner, approved) = match reply {
            OwnershipReply::Info { owner, approved } => (owner, approved),
            OwnershipReply::Failed => {
                return Err(MarketError::CollectionCallFailed);
            },
            OwnershipReply::Malformed => {
                return Err(MarketError::ProtocolViolation);
            },
        };
        let approved_to_marketplace = match approved {
            Some(a) => a == marketplace,
            None => false,
        };
        if owner != pending.caller && !approved_to_marketplace {
            return Err(MarketError::AccessDenied);
        }
        let key = TokenKey { collection: pending.collection, token: pending.token };
        if self.sales.contains_key(&key) || self.auctions.contains_key(&key) {
            return Err(MarketError::AlreadyListed);
        }
        self.sales.insert(key, SaleInfo { seller: pending.caller, price: pending.price });
        Ok(
            MarketEvent::NftListed {
                collection_address: pending.collection,
                token_id: pending.token,
                price: pending.price,
            },
        )
    }

    /// Cancels a listing.  Only the recorded seller may cancel.
    pub fn cancel_sale(&mut self, caller: ActorId, collection: ActorId, token: TokenId) -> (r:
        Result<MarketEvent, MarketError>)
        requires
            old(self).wf(),
        ensures
            final(self).wf(),
            !old(self).sales@.contains_key(spec_key(collection, token)) ==> r == Err::<
                MarketEvent,
                MarketError,
            >(MarketError::NotListed) && *final(self) == *old(self),
            old(self).sales@.contains_key(spec_key(collection, token)) && old(
                self,
            ).sales@[spec_key(collection, token)].seller != caller ==> r == Err::<
                MarketEvent,
                MarketError,
            >(MarketError::AccessDenied) && *final(self) == *old(self),
            old(self).sales@.contains_key(spec_key(collection, token)) && old(
                self,
            ).sales@[spec_key(collection, token)].seller == caller ==> {
                &&& final(self).sales@ == old(self).sales@.remove(spec_key(collection, token))
                &&& final(self).auctions@ == old(self).auctions@
                &&& final(self).offers@ == old(self).offers@
                &&& registry_unchanged(old(self), final(self))
                &&& governance_unchanged(old(self), final(self))
                &&& r == Ok::<MarketEvent, MarketError>(
                    (MarketEvent::SaleCanceled { collection_address: collection, token_id: token }),
                )
            },
    {
        let key = TokenKey { collection, token };
        let seller = match self.sales.get(&key) {
            Some(sale) => sale.seller,
            None => {
                return Err(MarketError::NotListed);
            },
        };
        if seller != caller {
            return Err(MarketError::AccessDenied);
        }
        self.sales.remove(&key);
        Ok(MarketEvent::SaleCanceled { collection_address: collection, token_id: token })
    }

    /// First step of a purchase: validates the attached value against the
    /// listing, takes the listing out as the reservation, and describes the
    /// token transfer from seller to buyer.
    ///
    /// Every rejection refunds the attached value in full and leaves all
    /// records untouched.
    pub fn buy(&mut self, caller: ActorId, value: Price, collection: ActorId, token: TokenId) -> (r:
        (Result<BuyPending, MarketError>, Vec<Transfer>))
        requires
            old(self).wf(),
        ensures
            final(self).wf(),
            r.0 is Err ==> r.1@ == seq![(Transfer { to: caller, value })] && *final(self) == *old(
                self,
            ),
            !old(self).sales@.contains_key(spec_key(collection, token)) ==> r.0 == Err::<
                BuyPending,
                MarketError,
            >(MarketError::NotListed),
            old(self).sales@.contains_key(spec_key(collection, token)) ==> {
                let sale = old(self).sales@[spec_key(collection, token)];
                &&& value != sale.price ==> r.0 == Err::<BuyPending, MarketError>(
                    MarketError::ValueMismatch,
                )
                &&& value == sale.price && sale.price < old(self).config.minimum_transfer_value
                    ==> r.0 == Err::<BuyPending, MarketError>(MarketError::BelowMinimumValue)
                &&& value == sale.price && sale.price >= old(self).config.minimum_transfer_value
                    && !spec_cut_ok(value, old(self).config.royalty_to_marketplace_for_trade)
                    ==> r.0 == Err::<BuyPending, MarketError>(MarketError::ArithmeticOverflow)
                &&& value == sale.price && sale.price >= old(self).config.minimum_transfer_value
                    && spec_cut_ok(value, old(self).config.royalty_to_marketplace_for_trade) ==> {
                    &&& r.0 == Ok::<BuyPending, MarketError>(
                        (BuyPending {
                            buyer: caller,
                            value,
                            collection,
                            token,
                            sale,
                            payout: (value - spec_cut(
                                value,
                                old(self).config.royalty_to_marketplace_for_trade,
                            )) as u128,
                            gas: old(self).config.gas_for_transfer_token,
                        }),
                    )
                    &&& r.1@.len() == 0
                    &&& final(self).sales@ == old(self).sales@.remove(spec_key(collection, token))
                    &&& final(self).auctions@ == old(self).auctions@
                    &&& final(self).offers@ == old(self).offers@
                    &&& registry_unchanged(old(self), final(self))
                    &&& governance_unchanged(old(self), final(self))
                }
            },
    {
        let key = TokenKey { collection, token };
        let sale = match self.sales.get(&key) {
            Some(sale) => *sale,
            None => {
                return (Err(MarketError::NotListed), single_transfer(caller, value));
            },
        };
        if value != sale.price {
            return (Err(MarketError::ValueMismatch), single_transfer(caller, value));
        }
        if sale.price < self.config.minimum_transfer_value {
            return (Err(MarketError::BelowMinimumValue), single_transfer(caller, value));
        }
        let cut = match royalty_cut(value, self.config.royalty_to_marketplace_for_trade) {
            Some(c) => c,
            None => {
                return (Err(MarketError::ArithmeticOverflow), single_transfer(caller, value));
            },
        };
        self.sales.remove(&key);
        (
            Ok(
                BuyPending {
                    buyer: caller,
                    value,
                    collection,
                    token,
                    sale,
                    payout: value - cut,
                    gas: self.config.gas_for_transfer_token,
                },
            ),
            Vec::new(),
        )
    }

    /// Second step of a purchase: consumes the transfer confirmation.
    ///
    /// On success the seller is paid the price minus the marketplace's
    /// trade cut, which stays with the marketplace.  On failure the buyer is
    /// refunded in full and the listing is restored — unless an auction
    /// claimed the key during the suspension, in which case the stale
    /// listing stays out.
    pub fn buy_reply(&mut self, pending: BuyPending, reply: TransferReply) -> (r: (
        Result<MarketEvent, MarketError>,
        Vec<Transfer>,
    ))
        requires
            old(self).wf(),
        ensures
            final(self).wf(),
            reply == TransferReply::Confirmed ==> {
                &&& *final(self) == *old(self)
                &&& r.0 == Ok::<MarketEvent, MarketError>(
                    (MarketEvent::NftSold {
                        collection_address: pending.collection,
                        token_id: pending.token,
                        price: pending.sale.price,
                        buyer: pending.buyer,
                    }),
                )
                &&& r.1@ == seq![(Transfer { to: pending.sale.seller, value: pending.payout })]
            },
            reply != TransferReply::Confirmed ==> {
                let key = spec_key(pending.collection, pending.token);
                &&& r.0 == Err::<MarketEvent, MarketError>(
                    if reply == TransferReply::Malformed {
                        MarketError::ProtocolViolation
                    } else {
                        MarketError::CollectionCallFailed
                    },
                )
                &&& r.1@ == seq![(Transfer { to: pending.buyer, value: pending.value })]
                &&& !old(self).auctions@.contains_key(key) ==> final(self).sales@ == old(
                    self,
                ).sales@.insert(key, pending.sale)
                &&& old(self).auctions@.contains_key(key) ==> final(self).sales@ == old(
                    self,
                ).sales@
                &&& final(self).auctions@ == old(self).auctions@
                &&& final(self).offers@ == old(self).offers@
                &&& registry_unchanged(old(self), final(self))
                &&& governance_unchanged(old(self), final(self))
            },
    {
        match reply {
            TransferReply::Confirmed => (
                Ok(
                    MarketEvent::NftSold {
                        collection_address: pending.collection,
                        token_id: pending.token,
                        price: pending.sale.price,
                        buyer: pending.buyer,
                    },
                ),
                single_transfer(pending.sale.seller, pending.payout),
            ),
            _ => {
                let key = TokenKey { collection: pending.collection, token: pending.token };
                if !self.auctions.contains_key(&key) {
                    self.sales.insert(key, pending.sale);
                }
                let error = if matches!(reply, TransferReply::Malformed) {
                    MarketError::ProtocolViolation
                } else {
                    MarketError::CollectionCallFailed
                };
                (Err(error), single_transfer(pending.buyer, pending.value))
            },
        }
    }
}

} // verus!
