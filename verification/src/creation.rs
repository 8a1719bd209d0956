//! Collection creation, mint forwarding, and collection deletion.
//!
//! Each operation that contacts a collection actor is a pair: the first
//! function validates and describes the outgoing call, the second consumes
//! the reply.  Error paths of a value-carrying operation always return the
//! full attached value to the caller.

use vstd::prelude::*;

use crate::payment::{royalty_cut, spec_cut, spec_cut_ok};
use crate::marketplace::{
    governance_unchanged, trading_unchanged, single_transfer, NftMarketplace,
};
use crate::types::{
    ActorId, CanDeleteReply, CollectionRecord, CreateCollectionPending, DeleteCollectionPending,
    DeleteCollectionStep, MarketError, MarketEvent, MintPending, MintReply, Price, SpawnReply,
    Timestamp, Transfer,
};

verus! {

impl NftMarketplace {
    /// The caller is a non-admin whose last successful creation lies less
    /// than the configured window before `now`.
    pub open spec fn spec_cooldown_active(&self, caller: ActorId, now: Timestamp) -> bool {
        &&& !self.spec_is_admin(caller)
        &&& self.time_creation@.contains_key(caller)
        &&& self.time_creation@[caller] <= now < self.time_creation@[caller]
            + self.config.time_between_create_collections
    }

    /// First step of creating a collection from a registered template.
    ///
    /// Rejections — the caller inside the cooldown window, or an unknown
    /// template name — refund the attached value and change nothing.  On
    /// acceptance nothing is written yet either: the record and the cooldown
    /// stamp appear only when the spawn has succeeded, in
    /// [`Self::create_collection_reply`].
    pub fn create_collection(
        &mut self,
        caller: ActorId,
        value: Price,
        now: Timestamp,
        name: String,
        payload: Vec<u8>,
    ) -> (r: (Result<CreateCollectionPending, MarketError>, Vec<Transfer>))
        requires
            old(self).wf(),
        ensures
            final(self).wf(),
            *final(self) == *old(self),
            r.0 is Err ==> r.1@ == seq![(Transfer { to: caller, value })],
            old(self).spec_cooldown_active(caller, now) ==> r.0 == Err::<
                CreateCollectionPending,
                MarketError,
            >(MarketError::CooldownActive),
            !old(self).spec_cooldown_active(caller, now) && !old(
                self,
            ).type_collections@.contains_key(name@) ==> r.0 == Err::<
                CreateCollectionPending,
                MarketError,
            >(MarketError::UnknownCollectionType),
            !old(self).spec_cooldown_active(caller, now) && old(
                self,
            ).type_collections@.contains_key(name@) ==> {
                &&& r.0 matches Ok(p)
                &&& (r.0 matches Ok(p) ==> {
                    &&& p.caller == caller
                    &&& p.value == value
                    &&& p.name@ == name@
                    &&& p.code_id == old(self).type_collections@[name@].code_id
                    &&& p.payload@ == payload@
                    &&& p.gas == old(self).config.gas_for_creation
                })
                &&& r.1@.len() == 0
            },
    {
        if !self.is_admin(caller) {
            if let Some(stamp) = self.time_creation.get(&caller) {
                let t = *stamp;
                if now >= t && now - t < self.config.time_between_create_collections {
                    return (Err(MarketError::CooldownActive), single_transfer(caller, value));
                }
            }
        }
        let code_id = match self.type_collections.get(&name) {
            Some(info) => info.code_id,
            None => {
                return (
                    Err(MarketError::UnknownCollectionType),
                    single_transfer(caller, value),
                );
            },
        };
        (
            Ok(
                CreateCollectionPending {
                    caller,
                    value,
                    name,
                    code_id,
                    payload,
                    gas: self.config.gas_for_creation,
                },
            ),
            Vec::new(),
        )
    }

    /// Second step of creating a collection: consumes the spawn reply.
    ///
    /// A failed spawn refunds the attached value in full and writes nothing.
    /// A successful spawn records the new collection under its creator and
    /// stamps the creator's cooldown timestamp with `now`.
    pub fn create_collection_reply(
        &mut self,
        pending: CreateCollectionPending,
        reply: SpawnReply,
        now: Timestamp,
    ) -> (r: (Result<MarketEvent, MarketError>, Vec<Transfer>))
        requires
            old(self).wf(),
        ensures
            final(self).wf(),
            reply is Failed ==> {
                &&& *final(self) == *old(self)
                &&& r.0 == Err::<MarketEvent, MarketError>(MarketError::CreationFailed)
                &&& r.1@ == seq![(Transfer { to: pending.caller, value: pending.value })]
            },
            reply matches SpawnReply::Spawned(address) ==> {
                &&& final(self).collection_to_owner@ == old(self).collection_to_owner@.insert(
                    address,
                    (CollectionRecord { name: pending.name, owner: pending.caller }),
                )
                &&& final(self).time_creation@ == old(self).time_creation@.insert(
                    pending.caller,
                    now,
                )
                &&& final(self).type_collections@ == old(self).type_collections@
                &&& trading_unchanged(old(self), final(self))
                &&& governance_unchanged(old(self), final(self))
                &&& r.0 == Ok::<MarketEvent, MarketError>(
                    (MarketEvent::CollectionCreated {
                        name: pending.name,
                        collection_address: address,
                    }),
                )
                &&& r.1@.len() == 0
            },
    {
        match reply {
            SpawnReply::Failed => (
                Err(MarketError::CreationFailed),
                single_transfer(pending.caller, pending.value),
            ),
            SpawnReply::Spawned(address) => {
                self.collection_to_owner.insert(
                    address,
                    CollectionRecord { name: pending.name.clone(), owner: pending.caller },
                );
                self.time_creation.insert(pending.caller, now);
                (
                    Ok(
                        MarketEvent::CollectionCreated {
                            name: pending.name,
                            collection_address: address,
                        },
                    ),
                    Vec::new(),
                )
            },
        }
    }

    /// First step of minting: describes the forwarded mint call.
    ///
    /// The marketplace's mint cut is computed up front; the remainder is
    /// forwarded with the call.  A cut that cannot be computed rejects the
    /// request with a full refund before anything goes out.
    pub fn mint(&self, caller: ActorId, value: Price, collection: ActorId) -> (r: (
        Result<MintPending, MarketError>,
        Vec<Transfer>,
    ))
        ensures
            r.0 is Err ==> r.1@ == seq![(Transfer { to: caller, value })],
            !spec_cut_ok(value, self.config.royalty_to_marketplace_for_mint) || self.config.gas_for_mint
                + self.config.gas_for_get_info > u64::MAX ==> r.0 == Err::<
                MintPending,
                MarketError,
            >(MarketError::ArithmeticOverflow),
            spec_cut_ok(value, self.config.royalty_to_marketplace_for_mint) && self.config.gas_for_mint
                + self.config.gas_for_get_info <= u64::MAX ==> {
                &&& r.0 == Ok::<MintPending, MarketError>(
                    (MintPending {
                        caller,
                        value,
                        collection,
                        forward_value: (value - spec_cut(
                            value,
                            self.config.royalty_to_marketplace_for_mint,
                        )) as u128,
                        gas: (self.config.gas_for_mint + self.config.gas_for_get_info) as u64,
                    }),
                )
                &&& r.1@.len() == 0
            },
    {
        let cut = match royalty_cut(value, self.config.royalty_to_marketplace_for_mint) {
            Some(c) => c,
            None => {
                return (Err(MarketError::ArithmeticOverflow), single_transfer(caller, value));
            },
        };
        let gas = match self.config.gas_for_mint.checked_add(self.config.gas_for_get_info) {
            Some(g) => g,
            None => {
                return (Err(MarketError::ArithmeticOverflow), single_transfer(caller, value));
            },
        };
        (
            Ok(MintPending { caller, value, collection, forward_value: value - cut, gas }),
            Vec::new(),
        )
    }

    /// Second step of minting: consumes the collection's reply.
    ///
    /// Any failure — rejection, collection-side error, or a malformed reply
    /// — refunds the full attached value; local state never held anything
    /// for a mint.
    pub fn mint_reply(&self, pending: MintPending, reply: MintReply) -> (r: (
        Result<MarketEvent, MarketError>,
        Vec<Transfer>,
    ))
        ensures
            reply matches MintReply::Minted { token_id } ==> {
                &&& r.0 == Ok::<MarketEvent, MarketError>(
                    (MarketEvent::Minted { collection_address: pending.collection, token_id }),
                )
                &&& r.1@.len() == 0
            },
            !(reply matches MintReply::Minted { .. }) ==> {
                &&& r.0 == Err::<MarketEvent, MarketError>(MarketError::CollectionCallFailed)
                &&& r.1@ == seq![(Transfer { to: pending.caller, value: pending.value })]
            },
    {
        match reply {
            MintReply::Minted { token_id } => (
                Ok(MarketEvent::Minted { collection_address: pending.collection, token_id }),
                Vec::new(),
            ),
            _ => (
                Err(MarketError::CollectionCallFailed),
                single_transfer(pending.caller, pending.value),
            ),
        }
    }

    /// First step of deleting a collection record.
    ///
    /// An admin deletes outright.  The recorded owner must first obtain the
    /// collection's own consent, so the record is kept and a query goes out.
    /// Any other caller is refused whatever the collection would answer.
    pub fn delete_collection(&mut self, caller: ActorId, collection: ActorId) -> (r: Result<
        DeleteCollectionStep,
        MarketError,
    >)
        requires
            old(self).wf(),
        ensures
            final(self).wf(),
            !old(self).collection_to_owner@.contains_key(collection) ==> r == Err::<
                DeleteCollectionStep,
                MarketError,
            >(MarketError::UnknownCollection) && *final(self) == *old(self),
            old(self).collection_to_owner@.contains_key(collection) && old(self).spec_is_admin(
                caller,
            ) ==> {
                &&& final(self).collection_to_owner@ == old(self).collection_to_owner@.remove(
                    collection,
                )
                &&& final(self).time_creation@ == old(self).time_creation@
                &&& final(self).type_collections@ == old(self).type_collections@
                &&& trading_unchanged(old(self), final(self))
                &&& governance_unchanged(old(self), final(self))
                &&& r == Ok::<DeleteCollectionStep, MarketError>(
                    (DeleteCollectionStep::Done(
                        MarketEvent::CollectionDeleted { collection_address: collection },
                    )),
                )
            },
            old(self).collection_to_owner@.contains_key(collection) && !old(self).spec_is_admin(
                caller,
            ) && old(self).collection_to_owner@[collection].owner == caller ==> {
                &&& *final(self) == *old(self)
                &&& r == Ok::<DeleteCollectionStep, MarketError>(
                    (DeleteCollectionStep::AwaitCanDelete(
                        DeleteCollectionPending {
                            caller,
                            collection,
                            gas: old(self).config.gas_for_delete_collection,
                        },
                    )),
                )
            },
            old(self).collection_to_owner@.contains_key(collection) && !old(self).spec_is_admin(
                caller,
            ) && old(self).collection_to_owner@[collection].owner != caller ==> r == Err::<
                DeleteCollectionStep,
                MarketError,
            >(MarketError::AccessDenied) && *final(self) == *old(self),
    {
        let owner = match self.collection_to_owner.get(&collection) {
            Some(record) => record.owner,
            None => {
                return Err(MarketError::UnknownCollection);
            },
        };
        if self.is_admin(caller) {
            self.collection_to_owner.remove(&collection);
            Ok(
                DeleteCollectionStep::Done(
                    MarketEvent::CollectionDeleted { collection_address: collection },
                ),
            )
        } else if owner == caller {
            Ok(
                DeleteCollectionStep::AwaitCanDelete(
                    DeleteCollectionPending {
                        caller,
                        collection,
                        gas: self.config.gas_for_delete_collection,
                    },
                ),
            )
        } else {
            Err(MarketError::AccessDenied)
        }
    }

    /// Second step of an owner's deletion: consumes the collection's answer.
    ///
    /// Only an affirmative answer deletes the record; a refusal is an access
    /// denial, an error a failed call, and a malformed reply a protocol
    /// violation, each leaving the record intact.
    pub fn delete_collection_reply(
        &mut self,
        pending: DeleteCollectionPending,
        reply: CanDeleteReply,
    ) -> (r: Result<MarketEvent, MarketError>)
        requires
            old(self).wf(),
        ensures
            final(self).wf(),
            reply == CanDeleteReply::Answer(true) ==> {
                &&& final(self).collection_to_owner@ == old(self).collection_to_owner@.remove(
                    pending.collection,
                )
                &&& final(self).time_creation@ == old(self).time_creation@
                &&& final(self).type_collections@ == old(self).type_collections@
                &&& trading_unchanged(old(self), final(self))
                &&& governance_unchanged(old(self), final(self))
                &&& r == Ok::<MarketEvent, MarketError>(
                    (MarketEvent::CollectionDeleted { collection_address: pending.collection }),
                )
            },
            reply == CanDeleteReply::Answer(false) ==> r == Err::<MarketEvent, MarketError>(
                MarketError::AccessDenied,
            ) && *final(self) == *old(self),
            reply == CanDeleteReply::Failed ==> r == Err::<MarketEvent, MarketError>(
                MarketError::CollectionCallFailed,
            ) && *final(self) == *old(self),
            reply == CanDeleteReply::Malformed ==> r == Err::<MarketEvent, MarketError>(
                MarketError::ProtocolViolation,
            ) && *final(self) == *old(self),
    {
        match reply {
            CanDeleteReply::Answer(true) => {
                self.collection_to_owner.remove(&pending.collection);
                Ok(MarketEvent::CollectionDeleted { collection_address: pending.collection })
            },
            CanDeleteReply::Answer(false) => Err(MarketError::AccessDenied),
            CanDeleteReply::Failed => Err(MarketError::CollectionCallFailed),
            CanDeleteReply::Malformed => Err(MarketError::ProtocolViolation),
        }
    }
}

} // verus!
