//! The orchestrator's state and its synchronous governance operations:
//! template registration, admin management, configuration, and withdrawal.

use vstd::prelude::*;

use crate::store::{StringMap, VecMap};
use crate::types::{
    ActorId, CodeId, Config, MarketError, MarketEvent, Price, SaleInfo, Timestamp, TokenKey,
    OfferKey, Transfer, TypeCollectionInfo, CollectionRecord, Auction,
    EXISTENTIAL_DEPOSIT,
};

verus! {

/// Everything the marketplace owns: governance, registries, and the three
/// trading record sets.  Collection actors' token ledgers are not here; they
/// are reached only by request/reply.
pub struct NftMarketplace {
    pub admins: Vec<ActorId>,
    pub collection_to_owner: VecMap<ActorId, CollectionRecord>,
    pub time_creation: VecMap<ActorId, Timestamp>,
    pub type_collections: StringMap<TypeCollectionInfo>,
    pub sales: VecMap<TokenKey, SaleInfo>,
    pub auctions: VecMap<TokenKey, Auction>,
    pub offers: VecMap<OfferKey, Price>,
    pub config: Config,
}

/// An auction record is sound when its recorded highest bid, if any, meets
/// the auction's minimum price.
pub open spec fn auction_sound(a: Auction) -> bool {
    match a.winner {
        Some(b) => b.amount >= a.min_price,
        None => true,
    }
}

/// The trading records are untouched between two states.
pub open spec fn trading_unchanged(a: &NftMarketplace, b: &NftMarketplace) -> bool {
    &&& a.sales@ == b.sales@
    &&& a.auctions@ == b.auctions@
    &&& a.offers@ == b.offers@
}

/// The registries are untouched between two states.
pub open spec fn registry_unchanged(a: &NftMarketplace, b: &NftMarketplace) -> bool {
    &&& a.collection_to_owner@ == b.collection_to_owner@
    &&& a.time_creation@ == b.time_creation@
    &&& a.type_collections@ == b.type_collections@
}

/// The admin set and the configuration are untouched between two states.
pub open spec fn governance_unchanged(a: &NftMarketplace, b: &NftMarketplace) -> bool {
    &&& a.admins@ == b.admins@
    &&& a.config == b.config
}

impl NftMarketplace {
    /// Well-formedness: every store holds each key once, a token is never
    /// under sale and auction at once, and auction records are sound.
    pub open spec fn wf(&self) -> bool {
        &&& self.collection_to_owner.wf()
        &&& self.time_creation.wf()
        &&& self.type_collections.wf()
        &&& self.sales.wf()
        &&& self.auctions.wf()
        &&& self.offers.wf()
        &&& forall|k: TokenKey| #[trigger]
            self.sales@.contains_key(k) ==> !self.auctions@.contains_key(k)
        &&& forall|k: TokenKey| #[trigger]
            self.auctions@.contains_key(k) ==> auction_sound(self.auctions@[k])
    }

    pub open spec fn spec_is_admin(&self, a: ActorId) -> bool {
        self.admins@.contains(a)
    }

    /// A fresh marketplace: the deployer is the only admin, all record sets
    /// are empty.
    pub fn new(admin: ActorId, config: Config) -> (r: Self)
        ensures
            r.wf(),
            r.admins@ == seq![admin],
            r.config == config,
            r.collection_to_owner@ == Map::<ActorId, CollectionRecord>::empty(),
            r.time_creation@ == Map::<ActorId, Timestamp>::empty(),
            r.type_collections@ == Map::<Seq<char>, TypeCollectionInfo>::empty(),
            r.sales@ == Map::<TokenKey, SaleInfo>::empty(),
            r.auctions@ == Map::<TokenKey, Auction>::empty(),
            r.offers@ == Map::<OfferKey, Price>::empty(),
    {
        let mut admins: Vec<ActorId> = Vec::new();
        admins.push(admin);
        NftMarketplace {
            admins,
            collection_to_owner: VecMap::new(),
            time_creation: VecMap::new(),
            type_collections: StringMap::new(),
            sales: VecMap::new(),
            auctions: VecMap::new(),
            offers: VecMap::new(),
            config,
        }
    }

    /// Whether the actor belongs to the admin set.
    pub fn is_admin(&self, a: ActorId) -> (r: bool)
        ensures
            r == self.spec_is_admin(a),
    {
        let n = self.admins.len();
        let mut i: usize = 0;
        while i < n
            invariant
                n == self.admins@.len(),
                i <= n,
                forall|j: int| 0 <= j < i ==> self.admins@[j] != a,
            decreases n - i,
        {
            if self.admins[i] == a {
                return true;
            }
            i = i + 1;
        }
        false
    }

    /// Registers (or, for an admin, re-registers) a collection template
    /// under `name`.  Admin-only; touches nothing but the template registry.
    pub fn add_new_collection(
        &mut self,
        caller: ActorId,
        code_id: CodeId,
        meta_link: String,
        name: String,
        description: String,
    ) -> (r: Result<MarketEvent, MarketError>)
        requires
            old(self).wf(),
        ensures
            final(self).wf(),
            !old(self).spec_is_admin(caller) ==> r == Err::<MarketEvent, MarketError>(
                MarketError::AccessDenied,
            ) && *final(self) == *old(self),
            old(self).spec_is_admin(caller) ==> {
                &&& final(self).type_collections@ == old(self).type_collections@.insert(
                    name@,
                    (TypeCollectionInfo { code_id, meta_link, type_description: description }),
                )
                &&& final(self).collection_to_owner@ == old(self).collection_to_owner@
                &&& final(self).time_creation@ == old(self).time_creation@
                &&& trading_unchanged(old(self), final(self))
                &&& governance_unchanged(old(self), final(self))
                &&& r == Ok::<MarketEvent, MarketError>(
                    (MarketEvent::NewCollectionAdded { code_id, meta_link, name, description }),
                )
            },
    {
        if !self.is_admin(caller) {
            return Err(MarketError::AccessDenied);
        }
        let info = TypeCollectionInfo {
            code_id,
            meta_link: meta_link.clone(),
            type_description: description.clone(),
        };
        self.type_collections.insert(name.clone(), info);
        Ok(MarketEvent::NewCollectionAdded { code_id, meta_link, name, description })
    }

    /// Adds the given actors to the admin set.  Admin-only.
    pub fn add_admins(&mut self, caller: ActorId, users: Vec<ActorId>) -> (r: Result<
        MarketEvent,
        MarketError,
    >)
        requires
            old(self).wf(),
        ensures
            final(self).wf(),
            !old(self).spec_is_admin(caller) ==> r == Err::<MarketEvent, MarketError>(
                MarketError::AccessDenied,
            ) && *final(self) == *old(self),
            old(self).spec_is_admin(caller) ==> {
                &&& final(self).admins@ == old(self).admins@ + users@
                &&& final(self).config == old(self).config
                &&& trading_unchanged(old(self), final(self))
                &&& registry_unchanged(old(self), final(self))
                &&& r == Ok::<MarketEvent, MarketError>(
                    (MarketEvent::AdminsAdded { users }),
                )
            },
    {
        if !self.is_admin(caller) {
            return Err(MarketError::AccessDenied);
        }
        let mut extra = copy_ids(&users);
        self.admins.append(&mut extra);
        Ok(MarketEvent::AdminsAdded { users })
    }

    /// Removes every occurrence of `user` from the admin set.  Admin-only.
    pub fn delete_admin(&mut self, caller: ActorId, user: ActorId) -> (r: Result<
        MarketEvent,
        MarketError,
    >)
        requires
            old(self).wf(),
        ensures
            final(self).wf(),
            !old(self).spec_is_admin(caller) ==> r == Err::<MarketEvent, MarketError>(
                MarketError::AccessDenied,
            ) && *final(self) == *old(self),
            old(self).spec_is_admin(caller) ==> {
                &&& final(self).admins@ == old(self).admins@.filter(|a: ActorId| a != user)
                &&& final(self).config == old(self).config
                &&& trading_unchanged(old(self), final(self))
                &&& registry_unchanged(old(self), final(self))
                &&& r == Ok::<MarketEvent, MarketError>((MarketEvent::AdminDeleted { user }))
            },
    {
        if !self.is_admin(caller) {
            return Err(MarketError::AccessDenied);
        }
        let n = self.admins.len();
        let mut kept: Vec<ActorId> = Vec::new();
        let mut i: usize = 0;
        while i < n
            invariant
                n == self.admins@.len(),
                i <= n,
                kept@ == self.admins@.take(i as int).filter(|a: ActorId| a != user),
            decreases n - i,
        {
            let ghost prefix = self.admins@.take(i as int);
            let a = self.admins[i];
            if a != user {
                kept.push(a);
            }
            proof {
                reveal(Seq::filter);
                assert(self.admins@.take(i + 1).drop_last() =~= prefix);
                assert(self.admins@.take(i + 1).last() == a);
            }
            i = i + 1;
        }
        proof {
            assert(self.admins@.take(n as int) =~= self.admins@);
        }
        self.admins = kept;
        Ok(MarketEvent::AdminDeleted { user })
    }

    /// Applies a sparse configuration patch: every given field replaces its
    /// predecessor, every absent field keeps it.  Admin-only.
    pub fn update_config(
        &mut self,
        caller: ActorId,
        gas_for_creation: Option<u64>,
        gas_for_mint: Option<u64>,
        gas_for_transfer_token: Option<u64>,
        gas_for_close_auction: Option<u64>,
        gas_for_delete_collection: Option<u64>,
        gas_for_get_info: Option<u64>,
        time_between_create_collections: Option<u64>,
        fee_per_uploaded_file: Option<Price>,
        royalty_to_marketplace_for_trade: Option<u16>,
        royalty_to_marketplace_for_mint: Option<u16>,
        minimum_transfer_value: Option<Price>,
        ms_in_block: Option<u32>,
    ) -> (r: Result<MarketEvent, MarketError>)
        requires
            old(self).wf(),
        ensures
            final(self).wf(),
            !old(self).spec_is_admin(caller) ==> r == Err::<MarketEvent, MarketError>(
                MarketError::AccessDenied,
            ) && *final(self) == *old(self),
            old(self).spec_is_admin(caller) ==> {
                &&& final(self).config == (Config {
                    gas_for_creation: patched_u64(old(self).config.gas_for_creation, gas_for_creation),
                    gas_for_mint: patched_u64(old(self).config.gas_for_mint, gas_for_mint),
                    gas_for_transfer_token: patched_u64(
                        old(self).config.gas_for_transfer_token,
                        gas_for_transfer_token,
                    ),
                    gas_for_close_auction: patched_u64(
                        old(self).config.gas_for_close_auction,
                        gas_for_close_auction,
                    ),
                    gas_for_delete_collection: patched_u64(
                        old(self).config.gas_for_delete_collection,
                        gas_for_delete_collection,
                    ),
                    gas_for_get_info: patched_u64(old(self).config.gas_for_get_info, gas_for_get_info),
                    time_between_create_collections: patched_u64(
                        old(self).config.time_between_create_collections,
                        time_between_create_collections,
                    ),
                    fee_per_uploaded_file: patched_u128(
                        old(self).config.fee_per_uploaded_file,
                        fee_per_uploaded_file,
                    ),
                    royalty_to_marketplace_for_trade: patched_u16(
                        old(self).config.royalty_to_marketplace_for_trade,
                        royalty_to_marketplace_for_trade,
                    ),
                    royalty_to_marketplace_for_mint: patched_u16(
                        old(self).config.royalty_to_marketplace_for_mint,
                        royalty_to_marketplace_for_mint,
                    ),
                    minimum_transfer_value: patched_u128(
                        old(self).config.minimum_transfer_value,
                        minimum_transfer_value,
                    ),
                    ms_in_block: patched_u32(old(self).config.ms_in_block, ms_in_block),
                })
                &&& final(self).admins@ == old(self).admins@
                &&& trading_unchanged(old(self), final(self))
                &&& registry_unchanged(old(self), final(self))
                &&& r == Ok::<MarketEvent, MarketError>(
                    (MarketEvent::ConfigUpdated {
                        gas_for_creation,
                        gas_for_transfer_token,
                        gas_for_mint,
                        gas_for_close_auction,
                        gas_for_delete_collection,
                        gas_for_get_info,
                        time_between_create_collections,
                        fee_per_uploaded_file,
                        royalty_to_marketplace_for_trade,
                        royalty_to_marketplace_for_mint,
                        minimum_transfer_value,
                        ms_in_block,
                    }),
                )
            },
    {
        if !self.is_admin(caller) {
            return Err(MarketError::AccessDenied);
        }
        if let Some(gas) = gas_for_creation {
            self.config.gas_for_creation = gas;
        }
        if let Some(gas) = gas_for_mint {
            self.config.gas_for_mint = gas;
        }
        if let Some(gas) = gas_for_transfer_token {
            self.config.gas_for_transfer_token = gas;
        }
        if let Some(gas) = gas_for_close_auction {
            self.config.gas_for_close_auction = gas;
        }
        if let Some(gas) = gas_for_delete_collection {
            self.config.gas_for_delete_collection = gas;
        }
        if let Some(gas) = gas_for_get_info {
            self.config.gas_for_get_info = gas;
        }
        if let Some(time) = time_between_create_collections {
            self.config.time_between_create_collections = time;
        }
        if let Some(fee) = fee_per_uploaded_file {
            self.config.fee_per_uploaded_file = fee;
        }
        if let Some(royalty) = royalty_to_marketplace_for_trade {
            self.config.royalty_to_marketplace_for_trade = royalty;
        }
        if let Some(royalty) = royalty_to_marketplace_for_mint {
            self.config.royalty_to_marketplace_for_mint = royalty;
        }
        if let Some(min_value) = minimum_transfer_value {
            self.config.minimum_transfer_value = min_value;
        }
        if let Some(time_block) = ms_in_block {
            self.config.ms_in_block = time_block;
        }
        Ok(MarketEvent::ConfigUpdated {
            gas_for_creation,
            gas_for_transfer_token,
            gas_for_mint,
            gas_for_close_auction,
            gas_for_delete_collection,
            gas_for_get_info,
            time_between_create_collections,
            fee_per_uploaded_file,
            royalty_to_marketplace_for_trade,
            royalty_to_marketplace_for_mint,
            minimum_transfer_value,
            ms_in_block,
        })
    }

    /// Pays `value` of the marketplace's own balance out to the calling
    /// admin.  Amounts below the existential deposit cannot be sent.
    pub fn balance_out(&self, caller: ActorId, value: Price) -> (r: (
        Result<MarketEvent, MarketError>,
        Vec<Transfer>,
    ))
        ensures
            !self.spec_is_admin(caller) ==> r.0 == Err::<MarketEvent, MarketError>(
                MarketError::AccessDenied,
            ) && r.1@.len() == 0,
            self.spec_is_admin(caller) && value < EXISTENTIAL_DEPOSIT ==> r.0 == Err::<
                MarketEvent,
                MarketError,
            >(MarketError::BelowMinimumValue) && r.1@.len() == 0,
            self.spec_is_admin(caller) && value >= EXISTENTIAL_DEPOSIT ==> r.0 == Ok::<
                MarketEvent,
                MarketError,
            >((MarketEvent::BalanceHasBeenWithdrawn { value })) && r.1@ == seq![
                (Transfer { to: caller, value }),
            ],
    {
        if !self.is_admin(caller) {
            return (Err(MarketError::AccessDenied), Vec::new());
        }
        if value < EXISTENTIAL_DEPOSIT {
            return (Err(MarketError::BelowMinimumValue), Vec::new());
        }
        (
            Ok(MarketEvent::BalanceHasBeenWithdrawn { value }),
            single_transfer(caller, value),
        )
    }
}

/// The patched value of one configuration field.
pub open spec fn patched_u64(prior: u64, patch: Option<u64>) -> u64 {
    match patch {
        Some(v) => v,
        None => prior,
    }
}

/// The patched value of one configuration field.
pub open spec fn patched_u128(prior: u128, patch: Option<u128>) -> u128 {
    match patch {
        Some(v) => v,
        None => prior,
    }
}

/// The patched value of one configuration field.
pub open spec fn patched_u16(prior: u16, patch: Option<u16>) -> u16 {
    match patch {
        Some(v) => v,
        None => prior,
    }
}

/// The patched value of one configuration field.
pub open spec fn patched_u32(prior: u32, patch: Option<u32>) -> u32 {
    match patch {
        Some(v) => v,
        None => prior,
    }
}

/// A copy of a vector of actor ids.
pub fn copy_ids(v: &Vec<ActorId>) -> (r: Vec<ActorId>)
    ensures
        r@ == v@,
{
    let n = v.len();
    let mut r: Vec<ActorId> = Vec::new();
    let mut i: usize = 0;
    while i < n
        invariant
            n == v@.len(),
            i <= n,
            r@ == v@.take(i as int),
        decreases n - i,
    {
        r.push(v[i]);
        proof {
            assert(v@.take(i + 1) =~= v@.take(i as int).push(v@[i as int]));
        }
        i = i + 1;
    }
    proof {
        assert(v@.take(n as int) =~= v@);
    }
    r
}

/// A single outgoing payment as a transfer list.
pub fn single_transfer(to: ActorId, value: Price) -> (r: Vec<Transfer>)
    ensures
        r@ == seq![(Transfer { to, value })],
{
    let mut r: Vec<Transfer> = Vec::new();
    r.push(Transfer { to, value });
    r
}

} // verus!
