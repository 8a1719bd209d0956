//! Plain data carried through the marketplace: identifiers, configuration,
//! trading records, events, errors, and the shapes of foreign replies.

use vstd::prelude::*;

verus! {

/// Address of an actor (a user account, the marketplace, or a collection),
/// reduced to its numeric form.
pub type ActorId = u64;

/// Identifier of an uploaded collection template.
pub type CodeId = u64;

/// Identifier of a token within one collection.
pub type TokenId = u64;

/// An amount of attached value, in the chain's smallest unit.
pub type Price = u128;

/// Milliseconds since the epoch, as the chain reports block time.
pub type Timestamp = u64;

/// Royalties are expressed in basis points: a cut of `r` means
/// `value * r / ROYALTY_DENOMINATOR` stays with the marketplace.
pub const ROYALTY_DENOMINATOR: u128 = 10_000;

/// Smallest balance an account may hold; withdrawals below it are refused.
pub const EXISTENTIAL_DEPOSIT: u128 = 10_000_000_000_000;

/// Operational parameters, mutable only by an admin.
#[derive(Clone, Copy, PartialEq, Eq, Structural, Debug)]
pub struct Config {
    pub gas_for_creation: u64,
    pub gas_for_transfer_token: u64,
    pub gas_for_mint: u64,
    pub gas_for_close_auction: u64,
    pub gas_for_delete_collection: u64,
    pub gas_for_get_info: u64,
    /// Cooldown window between two collection creations by one non-admin, in ms.
    pub time_between_create_collections: u64,
    pub fee_per_uploaded_file: Price,
    /// Marketplace cut of a trade, in basis points.
    pub royalty_to_marketplace_for_trade: u16,
    /// Marketplace cut of a mint, in basis points.
    pub royalty_to_marketplace_for_mint: u16,
    /// Smallest value a sale price or payout may carry.
    pub minimum_transfer_value: Price,
    /// Milliseconds per block; converts a duration in blocks to wall time.
    pub ms_in_block: u32,
}

/// Key of a token: which collection it lives in, and its id there.
#[derive(Clone, Copy, PartialEq, Eq, Structural, Debug)]
pub struct TokenKey {
    pub collection: ActorId,
    pub token: TokenId,
}

/// Key of a private offer: the token it is for and the buyer who escrowed.
#[derive(Clone, Copy, PartialEq, Eq, Structural, Debug)]
pub struct OfferKey {
    pub collection: ActorId,
    pub token: TokenId,
    pub buyer: ActorId,
}

/// A registered collection template.
#[derive(Debug, PartialEq)]
pub struct TypeCollectionInfo {
    pub code_id: CodeId,
    pub meta_link: String,
    pub type_description: String,
}

impl Clone for TypeCollectionInfo {
    fn clone(&self) -> (r: Self)
        ensures
            r == *self,
    {
        TypeCollectionInfo {
            code_id: self.code_id,
            meta_link: self.meta_link.clone(),
            type_description: self.type_description.clone(),
        }
    }
}

/// A deployed collection: the template name it came from and who created it.
#[derive(Debug, PartialEq)]
pub struct CollectionRecord {
    pub name: String,
    pub owner: ActorId,
}

impl Clone for CollectionRecord {
    fn clone(&self) -> (r: Self)
        ensures
            r == *self,
    {
        CollectionRecord { name: self.name.clone(), owner: self.owner }
    }
}

/// What a single-collection query answers: who owns the collection, which
/// template it came from, and that template's metadata link.
#[derive(Debug)]
pub struct CollectionInfo {
    pub owner: ActorId,
    pub name: String,
    pub meta_link: String,
}

/// A full snapshot of the marketplace's records, as plain vectors.
#[derive(Debug)]
pub struct State {
    pub admins: Vec<ActorId>,
    pub collection_to_owner: Vec<(ActorId, CollectionRecord)>,
    pub time_creation: Vec<(ActorId, Timestamp)>,
    pub type_collections: Vec<(String, TypeCollectionInfo)>,
    pub sales: Vec<(TokenKey, SaleInfo)>,
    pub auctions: Vec<(TokenKey, Auction)>,
    pub offers: Vec<(OfferKey, Price)>,
    pub config: Config,
}

/// A fixed-price listing.
#[derive(Clone, Copy, PartialEq, Eq, Structural, Debug)]
pub struct SaleInfo {
    pub seller: ActorId,
    pub price: Price,
}

/// The current highest bid of an auction.
#[derive(Clone, Copy, PartialEq, Eq, Structural, Debug)]
pub struct Bid {
    pub bidder: ActorId,
    pub amount: Price,
}

/// An open English auction on one token.
#[derive(Clone, Copy, PartialEq, Eq, Structural, Debug)]
pub struct Auction {
    pub seller: ActorId,
    pub min_price: Price,
    pub winner: Option<Bid>,
    /// Absolute time at which bidding ends.
    pub deadline: Timestamp,
}

/// One outgoing payment the marketplace must perform.
#[derive(Clone, Copy, PartialEq, Eq, Structural, Debug)]
pub struct Transfer {
    pub to: ActorId,
    pub value: Price,
}

/// Structured failures returned to the caller; none terminates the actor.
#[derive(Clone, Copy, PartialEq, Eq, Structural, Debug)]
pub enum MarketError {
    /// Caller lacks the required authority or ownership.
    AccessDenied,
    /// No collection template is registered under the given name.
    UnknownCollectionType,
    /// No deployed collection is recorded at the given address.
    UnknownCollection,
    /// A sale or auction already covers the token.
    AlreadyListed,
    /// No record exists for the given key.
    NotListed,
    /// The auction deadline has not yet arrived.
    DeadlineNotReached,
    /// The auction deadline is already over.
    DeadlinePassed,
    /// The bid does not exceed the current highest bid (or meet the minimum).
    BidTooLow,
    /// Spawning a collection was rejected or its instantiation failed.
    CreationFailed,
    /// The collection actor rejected or failed the forwarded call.
    CollectionCallFailed,
    /// The foreign reply did not match the expected shape.
    ProtocolViolation,
    /// The attached value is wrong for the operation.
    ValueMismatch,
    /// The amount is below the configured minimum transferable value.
    BelowMinimumValue,
    /// The caller created a collection too recently.
    CooldownActive,
    /// A royalty or deadline computation would overflow.
    ArithmeticOverflow,
}

/// The sale/auction key of a token.
pub open spec fn spec_key(collection: ActorId, token: TokenId) -> TokenKey {
    TokenKey { collection, token }
}

/// Success events, one per operation, echoing the operation's facts.
#[derive(Clone, PartialEq, Debug)]
pub enum MarketEvent {
    NewCollectionAdded {
        code_id: CodeId,
        meta_link: String,
        name: String,
        description: String,
    },
    CollectionCreated { name: String, collection_address: ActorId },
    Minted { collection_address: ActorId, token_id: TokenId },
    NftListed { collection_address: ActorId, token_id: TokenId, price: Price },
    SaleCanceled { collection_address: ActorId, token_id: TokenId },
    NftSold { collection_address: ActorId, token_id: TokenId, price: Price, buyer: ActorId },
    AuctionCreated {
        collection_address: ActorId,
        token_id: TokenId,
        min_price: Price,
        deadline: Timestamp,
    },
    BidAdded { collection_address: ActorId, token_id: TokenId, bidder: ActorId, bid: Price },
    /// `winner` is absent when the auction closed without a completed trade.
    AuctionClosed {
        collection_address: ActorId,
        token_id: TokenId,
        winner: Option<ActorId>,
        price: Price,
    },
    AuctionCanceled { collection_address: ActorId, token_id: TokenId },
    OfferCreated { collection_address: ActorId, token_id: TokenId, buyer: ActorId, value: Price },
    OfferCanceled { collection_address: ActorId, token_id: TokenId, buyer: ActorId },
    OfferAccepted { collection_address: ActorId, token_id: TokenId, buyer: ActorId, price: Price },
    CollectionDeleted { collection_address: ActorId },
    AdminsAdded { users: Vec<ActorId> },
    AdminDeleted { user: ActorId },
    ConfigUpdated {
        gas_for_creation: Option<u64>,
        gas_for_transfer_token: Option<u64>,
        gas_for_mint: Option<u64>,
        gas_for_close_auction: Option<u64>,
        gas_for_delete_collection: Option<u64>,
        gas_for_get_info: Option<u64>,
        time_between_create_collections: Option<u64>,
        fee_per_uploaded_file: Option<Price>,
        royalty_to_marketplace_for_trade: Option<u16>,
        royalty_to_marketplace_for_mint: Option<u16>,
        minimum_transfer_value: Option<Price>,
        ms_in_block: Option<u32>,
    },
    BalanceHasBeenWithdrawn { value: Price },
}

/// Answer of an actor-spawn request.
#[derive(Clone, Copy, PartialEq, Eq, Debug)]
pub enum SpawnReply {
    /// The collection actor was instantiated at this address.
    Spawned(ActorId),
    /// The spawn was rejected, or instantiation failed afterwards.
    Failed,
}

/// Answer of a forwarded mint request.
#[derive(Clone, Copy, PartialEq, Eq, Debug)]
pub enum MintReply {
    Minted { token_id: TokenId },
    /// The collection rejected or failed the call.
    Failed,
    /// The reply did not match the expected shape.
    Malformed,
}

/// Answer of a token-transfer request.
#[derive(Clone, Copy, PartialEq, Eq, Debug)]
pub enum TransferReply {
    Confirmed,
    /// The collection rejected or failed the call.
    Failed,
    /// The reply did not match the expected shape.
    Malformed,
}

/// Answer of an ownership/approval query.
#[derive(Clone, Copy, PartialEq, Eq, Debug)]
pub enum OwnershipReply {
    Info { owner: ActorId, approved: Option<ActorId> },
    /// The collection rejected or failed the query.
    Failed,
    /// The reply did not match the expected shape.
    Malformed,
}

/// Answer of a "may this collection be deleted" query.
#[derive(Clone, Copy, PartialEq, Eq, Debug)]
pub enum CanDeleteReply {
    Answer(bool),
    /// The collection rejected or failed the query.
    Failed,
    /// The reply did not match the expected shape.
    Malformed,
}

/// State carried across the collection-spawn call of `create_collection`.
/// The fields describe the outgoing call: spawn `code_id` with `payload`,
/// forwarding `value`, within `gas`.
pub struct CreateCollectionPending {
    pub caller: ActorId,
    pub value: Price,
    pub name: String,
    pub code_id: CodeId,
    pub payload: Vec<u8>,
    pub gas: u64,
}

/// State carried across the forwarded mint call: send a mint request to
/// `collection` for `caller`, forwarding `forward_value`, within `gas`.
#[derive(Clone, Copy, PartialEq, Eq, Structural, Debug)]
pub struct MintPending {
    pub caller: ActorId,
    pub value: Price,
    pub collection: ActorId,
    /// The attached value minus the marketplace's mint cut.
    pub forward_value: Price,
    pub gas: u64,
}

/// State carried across the ownership query of a listing request.
#[derive(Clone, Copy, PartialEq, Eq, Structural, Debug)]
pub struct SellPending {
    pub caller: ActorId,
    pub collection: ActorId,
    pub token: TokenId,
    pub price: Price,
    pub gas: u64,
}

/// State carried across the token transfer of a purchase: move the token
/// from `sale.seller` to `buyer`, then settle.
#[derive(Clone, Copy, PartialEq, Eq, Structural, Debug)]
pub struct BuyPending {
    pub buyer: ActorId,
    pub value: Price,
    pub collection: ActorId,
    pub token: TokenId,
    pub sale: SaleInfo,
    /// What the seller receives on success: the price minus the trade cut.
    pub payout: Price,
    pub gas: u64,
}

/// State carried across the ownership query of an auction request.
#[derive(Clone, Copy, PartialEq, Eq, Structural, Debug)]
pub struct CreateAuctionPending {
    pub caller: ActorId,
    pub collection: ActorId,
    pub token: TokenId,
    pub min_price: Price,
    pub duration: u64,
    pub gas: u64,
}

/// State carried across the token transfer that settles an auction.
#[derive(Clone, Copy, PartialEq, Eq, Structural, Debug)]
pub struct CloseAuctionPending {
    pub collection: ActorId,
    pub token: TokenId,
    pub seller: ActorId,
    pub bidder: ActorId,
    pub bid: Price,
    /// What the seller receives on success: the bid minus the trade cut.
    pub payout: Price,
    pub gas: u64,
}

/// State carried across the token transfer that settles an accepted offer.
#[derive(Clone, Copy, PartialEq, Eq, Structural, Debug)]
pub struct AcceptOfferPending {
    /// The caller who claims to own the token; the collection enforces it.
    pub caller: ActorId,
    pub collection: ActorId,
    pub token: TokenId,
    pub buyer: ActorId,
    pub escrow: Price,
    /// What the caller receives on success: the escrow minus the trade cut.
    pub payout: Price,
    pub gas: u64,
}

/// State carried across the "can delete" query of a non-admin deletion.
#[derive(Clone, Copy, PartialEq, Eq, Structural, Debug)]
pub struct DeleteCollectionPending {
    pub caller: ActorId,
    pub collection: ActorId,
    pub gas: u64,
}

/// First step of closing an auction.
pub enum CloseAuctionStep {
    /// The auction ended with no completed trade; it is already removed and
    /// no call goes out.
    Closed(MarketEvent),
    /// A winning bid exists: perform the token transfer, then hand the
    /// reply to the second step.
    AwaitTransfer(CloseAuctionPending),
}

/// First step of deleting a collection.
pub enum DeleteCollectionStep {
    /// An admin deleted the record outright.
    Done(MarketEvent),
    /// The recorded owner asked: query the collection, then hand the answer
    /// to the second step.
    AwaitCanDelete(DeleteCollectionPending),
}

} // verus!
