use nft_marketplace::marketplace::NftMarketplace;
use nft_marketplace::types::{
    CloseAuctionStep, Config, MarketError, MarketEvent, OwnershipReply, SpawnReply, Transfer,
    TransferReply,
};

const MARKET: u64 = 99;

fn trade_config() -> Config {
    Config {
        gas_for_creation: 100,
        gas_for_transfer_token: 101,
        gas_for_mint: 102,
        gas_for_close_auction: 103,
        gas_for_delete_collection: 104,
        gas_for_get_info: 105,
        time_between_create_collections: 1_000,
        fee_per_uploaded_file: 0,
        royalty_to_marketplace_for_trade: 200,
        royalty_to_marketplace_for_mint: 100,
        minimum_transfer_value: 10,
        ms_in_block: 3_000,
    }
}

/// Admin 1, template "basic" as code 7, collection 50 created by user 2.
fn trade_market() -> NftMarketplace {
    let mut m = NftMarketplace::new(1, trade_config());
    m.add_new_collection(1, 7, "link".to_owned(), "basic".to_owned(), "d".to_owned())
        .expect("template registered");
    let (r, _) = m.create_collection(2, 0, 40, "basic".to_owned(), vec![]);
    m.create_collection_reply(r.expect("accepted"), SpawnReply::Spawned(50), 40)
        .0
        .expect("spawned");
    m
}

/// `trade_market` with token 0 listed by its owner, user 3, at 100.
fn market_with_listing() -> NftMarketplace {
    let mut m = trade_market();
    let pending = m.sell(3, 50, 0, 100).expect("listing accepted");
    m.sell_reply(pending, OwnershipReply::Info { owner: 3, approved: None }, MARKET)
        .expect("listed");
    m
}

#[test]
fn sell_rejects_unknown_collection_and_double_listing() {
    let mut m = trade_market();
    assert!(matches!(m.sell(3, 51, 0, 100), Err(MarketError::UnknownCollection)));
    let mut m = market_with_listing();
    assert!(matches!(m.sell(3, 50, 0, 100), Err(MarketError::AlreadyListed)));
}

#[test]
fn sell_reply_enforces_ownership_or_marketplace_approval() {
    let mut m = trade_market();
    let pending = m.sell(3, 50, 0, 100).expect("accepted");
    assert_eq!(
        m.sell_reply(pending, OwnershipReply::Info { owner: 4, approved: None }, MARKET),
        Err(MarketError::AccessDenied)
    );
    assert_eq!(
        m.sell_reply(pending, OwnershipReply::Failed, MARKET),
        Err(MarketError::CollectionCallFailed)
    );
    assert_eq!(
        m.sell_reply(pending, OwnershipReply::Malformed, MARKET),
        Err(MarketError::ProtocolViolation)
    );
    assert!(m.state().sales.is_empty());
    // an approval naming the marketplace also authorizes the listing
    let listed = m.sell_reply(
        pending,
        OwnershipReply::Info { owner: 4, approved: Some(MARKET) },
        MARKET,
    );
    assert_eq!(
        listed,
        Ok(MarketEvent::NftListed { collection_address: 50, token_id: 0, price: 100 })
    );
    assert_eq!(m.state().sales.len(), 1);
}

#[test]
fn cancel_sale_only_by_the_lister() {
    let mut m = market_with_listing();
    assert_eq!(m.cancel_sale(4, 50, 0), Err(MarketError::AccessDenied));
    assert_eq!(m.cancel_sale(3, 50, 1), Err(MarketError::NotListed));
    assert_eq!(
        m.cancel_sale(3, 50, 0),
        Ok(MarketEvent::SaleCanceled { collection_address: 50, token_id: 0 })
    );
    assert!(m.state().sales.is_empty());
}

#[test]
fn buy_needs_the_exact_price() {
    let mut m = market_with_listing();
    // underpayment: rejected, fully refunded
    let (r, t) = m.buy(4, 99, 50, 0);
    assert!(matches!(r, Err(MarketError::ValueMismatch)));
    assert_eq!(t, vec![Transfer { to: 4, value: 99 }]);
    // overpayment: rejected, fully refunded
    let (r, t) = m.buy(4, 101, 50, 0);
    assert!(matches!(r, Err(MarketError::ValueMismatch)));
    assert_eq!(t, vec![Transfer { to: 4, value: 101 }]);
    // the listing is still there after both rejections
    assert_eq!(m.state().sales.len(), 1);
    // exact value: accepted
    let (r, t) = m.buy(4, 100, 50, 0);
    assert!(r.is_ok());
    assert!(t.is_empty());
}

#[test]
fn buy_rejects_missing_listing_and_dust_price() {
    let mut m = trade_market();
    let (r, t) = m.buy(4, 100, 50, 0);
    assert!(matches!(r, Err(MarketError::NotListed)));
    assert_eq!(t, vec![Transfer { to: 4, value: 100 }]);
    // a price below the configured minimum cannot settle
    let pending = m.sell(3, 50, 1, 9).expect("accepted");
    m.sell_reply(pending, OwnershipReply::Info { owner: 3, approved: None }, MARKET)
        .expect("listed");
    let (r, t) = m.buy(4, 9, 50, 1);
    assert!(matches!(r, Err(MarketError::BelowMinimumValue)));
    assert_eq!(t, vec![Transfer { to: 4, value: 9 }]);
}

#[test]
fn confirmed_buy_pays_seller_minus_cut_and_unlists() {
    let mut m = market_with_listing();
    let (r, _) = m.buy(4, 100, 50, 0);
    let pending = r.expect("purchase accepted");
    // reservation: the listing is out while the transfer is in flight
    assert!(m.state().sales.is_empty());
    let (done, pays) = m.buy_reply(pending, TransferReply::Confirmed);
    assert_eq!(
        done,
        Ok(MarketEvent::NftSold { collection_address: 50, token_id: 0, price: 100, buyer: 4 })
    );
    // 2% trade royalty on 100 leaves 98 for the seller
    assert_eq!(pays, vec![Transfer { to: 3, value: 98 }]);
    assert!(m.state().sales.is_empty());
}

#[test]
fn failed_buy_refunds_buyer_and_restores_listing() {
    let mut m = market_with_listing();
    let before = m.state();
    let (r, _) = m.buy(4, 100, 50, 0);
    let pending = r.expect("purchase accepted");
    let (done, t) = m.buy_reply(pending, TransferReply::Failed);
    assert_eq!(done, Err(MarketError::CollectionCallFailed));
    assert_eq!(t, vec![Transfer { to: 4, value: 100 }]);
    let after = m.state();
    assert_eq!(after.sales, before.sales);
    assert_eq!(after.auctions, before.auctions);
    assert_eq!(after.offers, before.offers);
    assert_eq!(after.collection_to_owner, before.collection_to_owner);
}

#[test]
fn malformed_transfer_reply_is_a_protocol_violation() {
    let mut m = market_with_listing();
    let (r, _) = m.buy(4, 100, 50, 0);
    let pending = r.expect("purchase accepted");
    let (done, t) = m.buy_reply(pending, TransferReply::Malformed);
    assert_eq!(done, Err(MarketError::ProtocolViolation));
    assert_eq!(t, vec![Transfer { to: 4, value: 100 }]);
    assert_eq!(m.state().sales.len(), 1);
}

/// `trade_market` with an auction on token 5 by user 3: minimum 500,
/// duration 2 blocks of 3000 ms opened at 40, so the deadline is 6040.
fn market_with_auction() -> NftMarketplace {
    let mut m = trade_market();
    let pending = m.create_auction(3, 50, 5, 500, 2).expect("auction accepted");
    m.create_auction_reply(
        pending,
        OwnershipReply::Info { owner: 3, approved: None },
        MARKET,
        40,
    )
    .expect("auction open");
    m
}

#[test]
fn create_auction_converts_duration_to_deadline() {
    let m = market_with_auction();
    let s = m.state();
    assert_eq!(s.auctions.len(), 1);
    let (key, auction) = s.auctions[0];
    assert_eq!((key.collection, key.token), (50, 5));
    assert_eq!(auction.seller, 3);
    assert_eq!(auction.min_price, 500);
    assert_eq!(auction.deadline, 40 + 2 * 3_000);
    assert!(auction.winner.is_none());
}

#[test]
fn create_auction_excludes_listed_tokens() {
    let mut m = market_with_listing();
    assert!(matches!(
        m.create_auction(3, 50, 0, 500, 2),
        Err(MarketError::AlreadyListed)
    ));
    let mut m = market_with_auction();
    assert!(matches!(
        m.create_auction(3, 50, 5, 500, 2),
        Err(MarketError::AlreadyListed)
    ));
    // and a sale cannot cover an auctioned token either
    assert!(matches!(m.sell(3, 50, 5, 100), Err(MarketError::AlreadyListed)));
}

#[test]
fn auction_deadline_overflow_is_reported() {
    let mut m = trade_market();
    let pending = m.create_auction(3, 50, 6, 500, u64::MAX).expect("accepted");
    assert_eq!(
        m.create_auction_reply(
            pending,
            OwnershipReply::Info { owner: 3, approved: None },
            MARKET,
            40,
        ),
        Err(MarketError::ArithmeticOverflow)
    );
    assert!(m.state().auctions.is_empty());
}

#[test]
fn first_bid_must_meet_minimum_and_later_bids_must_exceed() {
    let mut m = market_with_auction();
    // below the minimum: rejected and refunded
    let (r, t) = m.add_bid(6, 499, 50, 5, 100);
    assert!(matches!(r, Err(MarketError::BidTooLow)));
    assert_eq!(t, vec![Transfer { to: 6, value: 499 }]);
    // meeting the minimum: accepted, nothing to refund yet
    let (r, t) = m.add_bid(6, 500, 50, 5, 100);
    assert_eq!(
        r,
        Ok(MarketEvent::BidAdded { collection_address: 50, token_id: 5, bidder: 6, bid: 500 })
    );
    assert!(t.is_empty());
    // an equal bid is not an increase: rejected and refunded
    let (r, t) = m.add_bid(7, 500, 50, 5, 200);
    assert!(matches!(r, Err(MarketError::BidTooLow)));
    assert_eq!(t, vec![Transfer { to: 7, value: 500 }]);
    // a higher bid refunds the previous bidder in the same step
    let (r, t) = m.add_bid(7, 501, 50, 5, 200);
    assert!(r.is_ok());
    assert_eq!(t, vec![Transfer { to: 6, value: 500 }]);
    let auction = m.state().auctions[0].1;
    let winner = auction.winner.expect("live bid");
    assert_eq!((winner.bidder, winner.amount), (7, 501));
}

#[test]
fn bids_after_the_deadline_are_rejected() {
    let mut m = market_with_auction();
    let (r, t) = m.add_bid(6, 500, 50, 5, 6_040);
    assert!(matches!(r, Err(MarketError::DeadlinePassed)));
    assert_eq!(t, vec![Transfer { to: 6, value: 500 }]);
    let (r, _) = m.add_bid(6, 500, 50, 5, 6_039);
    assert!(r.is_ok());
}

#[test]
fn bidding_on_a_missing_auction_is_rejected() {
    let mut m = trade_market();
    let (r, t) = m.add_bid(6, 500, 50, 5, 100);
    assert!(matches!(r, Err(MarketError::NotListed)));
    assert_eq!(t, vec![Transfer { to: 6, value: 500 }]);
}

#[test]
fn closing_before_the_deadline_is_rejected() {
    let mut m = market_with_auction();
    assert!(matches!(
        m.close_auction(50, 5, 6_039),
        Err(MarketError::DeadlineNotReached)
    ));
}

#[test]
fn closing_with_zero_bids_moves_nothing() {
    let mut m = market_with_auction();
    let before = m.state();
    let step = m.close_auction(50, 5, 6_040).expect("close accepted");
    match step {
        CloseAuctionStep::Closed(event) => assert_eq!(
            event,
            MarketEvent::AuctionClosed {
                collection_address: 50,
                token_id: 5,
                winner: None,
                price: 0,
            }
        ),
        CloseAuctionStep::AwaitTransfer(_) => {
            panic!("a zero-bid close must not transfer the token")
        }
    }
    let after = m.state();
    assert!(after.auctions.is_empty());
    assert_eq!(after.sales, before.sales);
    assert_eq!(after.offers, before.offers);
}

#[test]
fn closing_with_a_winner_pays_seller_minus_cut() {
    let mut m = market_with_auction();
    m.add_bid(6, 1_000, 50, 5, 100).0.expect("bid accepted");
    let step = m.close_auction(50, 5, 6_040).expect("close accepted");
    let pending = match step {
        CloseAuctionStep::AwaitTransfer(p) => p,
        CloseAuctionStep::Closed(_) => panic!("a winning bid settles by transfer"),
    };
    assert_eq!((pending.seller, pending.bidder, pending.bid), (3, 6, 1_000));
    // 2% trade royalty on 1000 leaves 980
    assert_eq!(pending.payout, 980);
    let (done, pays) = m.close_auction_reply(pending, TransferReply::Confirmed);
    assert_eq!(
        done,
        Ok(MarketEvent::AuctionClosed {
            collection_address: 50,
            token_id: 5,
            winner: Some(6),
            price: 1_000,
        })
    );
    assert_eq!(pays, vec![Transfer { to: 3, value: 980 }]);
    assert!(m.state().auctions.is_empty());
}

#[test]
fn failed_closing_transfer_refunds_winner_and_stays_closed() {
    let mut m = market_with_auction();
    m.add_bid(6, 1_000, 50, 5, 100).0.expect("bid accepted");
    let step = m.close_auction(50, 5, 6_040).expect("close accepted");
    let pending = match step {
        CloseAuctionStep::AwaitTransfer(p) => p,
        CloseAuctionStep::Closed(_) => panic!("a winning bid settles by transfer"),
    };
    let (done, t) = m.close_auction_reply(pending, TransferReply::Failed);
    assert_eq!(
        done,
        Ok(MarketEvent::AuctionClosed {
            collection_address: 50,
            token_id: 5,
            winner: None,
            price: 0,
        })
    );
    assert_eq!(t, vec![Transfer { to: 6, value: 1_000 }]);
    assert!(m.state().auctions.is_empty());
    let (done, t) = {
        // a malformed reply keeps the same custody discipline
        let mut m2 = market_with_auction();
        m2.add_bid(6, 1_000, 50, 5, 100).0.expect("bid accepted");
        let pending = match m2.close_auction(50, 5, 6_040).expect("close accepted") {
            CloseAuctionStep::AwaitTransfer(p) => p,
            CloseAuctionStep::Closed(_) => panic!("a winning bid settles by transfer"),
        };
        m2.close_auction_reply(pending, TransferReply::Malformed)
    };
    assert_eq!(done, Err(MarketError::ProtocolViolation));
    assert_eq!(t, vec![Transfer { to: 6, value: 1_000 }]);
}

#[test]
fn cancel_auction_only_by_seller_and_only_without_bids() {
    let mut m = market_with_auction();
    assert_eq!(m.cancel_auction(4, 50, 5), Err(MarketError::AccessDenied));
    assert_eq!(m.cancel_auction(3, 50, 6), Err(MarketError::NotListed));
    m.add_bid(6, 500, 50, 5, 100).0.expect("bid accepted");
    assert_eq!(m.cancel_auction(3, 50, 5), Err(MarketError::AccessDenied));
    let mut fresh = market_with_auction();
    assert_eq!(
        fresh.cancel_auction(3, 50, 5),
        Ok(MarketEvent::AuctionCanceled { collection_address: 50, token_id: 5 })
    );
    assert!(fresh.state().auctions.is_empty());
}

#[test]
fn offers_escrow_and_release() {
    let mut m = market_with_listing();
    // an offer may coexist with the listing on the same token
    let (r, t) = m.create_offer(6, 300, 50, 0);
    assert_eq!(
        r,
        Ok(MarketEvent::OfferCreated { collection_address: 50, token_id: 0, buyer: 6, value: 300 })
    );
    assert!(t.is_empty());
    // a second offer from the same buyer replaces the first and returns its
    // escrow in the same step
    let (r, t) = m.create_offer(6, 400, 50, 0);
    assert!(r.is_ok());
    assert_eq!(t, vec![Transfer { to: 6, value: 300 }]);
    // offers from different buyers coexist
    let (r, t) = m.create_offer(7, 350, 50, 0);
    assert!(r.is_ok());
    assert!(t.is_empty());
    assert_eq!(m.state().offers.len(), 2);
    // only the offering buyer can cancel, and gets the full escrow back
    let (r, t) = m.cancel_offer(8, 50, 0);
    assert!(matches!(r, Err(MarketError::NotListed)));
    assert!(t.is_empty());
    let (r, t) = m.cancel_offer(6, 50, 0);
    assert_eq!(
        r,
        Ok(MarketEvent::OfferCanceled { collection_address: 50, token_id: 0, buyer: 6 })
    );
    assert_eq!(t, vec![Transfer { to: 6, value: 400 }]);
    assert_eq!(m.state().offers.len(), 1);
}

#[test]
fn accepted_offer_pays_owner_minus_cut() {
    let mut m = trade_market();
    m.create_offer(6, 1_000, 50, 5).0.expect("offer escrowed");
    let pending = m.accept_offer(3, 50, 5, 6).expect("acceptance accepted");
    assert_eq!(pending.escrow, 1_000);
    assert_eq!(pending.payout, 980);
    // reservation: the offer is out while the transfer is in flight
    assert!(m.state().offers.is_empty());
    let (done, pays) = m.accept_offer_reply(pending, TransferReply::Confirmed);
    assert_eq!(
        done,
        Ok(MarketEvent::OfferAccepted {
            collection_address: 50,
            token_id: 5,
            buyer: 6,
            price: 1_000,
        })
    );
    assert_eq!(pays, vec![Transfer { to: 3, value: 980 }]);
    assert!(m.state().offers.is_empty());
}

#[test]
fn failed_offer_acceptance_keeps_the_escrow_safe() {
    let mut m = trade_market();
    m.create_offer(6, 1_000, 50, 5).0.expect("offer escrowed");
    let before = m.state();
    let pending = m.accept_offer(3, 50, 5, 6).expect("acceptance accepted");
    let (done, t) = m.accept_offer_reply(pending, TransferReply::Failed);
    assert_eq!(done, Err(MarketError::CollectionCallFailed));
    // nothing is paid out and the offer record survives, escrow intact
    assert!(t.is_empty());
    let after = m.state();
    assert_eq!(after.offers, before.offers);
    assert_eq!(after.sales, before.sales);
    assert_eq!(after.auctions, before.auctions);
}

#[test]
fn accepting_a_missing_offer_is_rejected() {
    let mut m = trade_market();
    assert!(matches!(m.accept_offer(3, 50, 5, 6), Err(MarketError::NotListed)));
}
