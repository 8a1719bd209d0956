//! One run through the whole marketplace life: registration, creation,
//! cooldown, mint, listing, purchase, and an unrelated losing bid.

use nft_marketplace::marketplace::NftMarketplace;
use nft_marketplace::types::{
    Config, MarketError, MarketEvent, MintReply, OwnershipReply, SpawnReply, Transfer,
    TransferReply,
};

const MARKET: u64 = 99;
const ADMIN: u64 = 1;
const USER_A: u64 = 2;
const USER_B: u64 = 3;
const USER_C: u64 = 4;
const USER_D: u64 = 5;

fn scenario_config() -> Config {
    Config {
        gas_for_creation: 100,
        gas_for_transfer_token: 101,
        gas_for_mint: 102,
        gas_for_close_auction: 103,
        gas_for_delete_collection: 104,
        gas_for_get_info: 105,
        time_between_create_collections: 1_000,
        fee_per_uploaded_file: 0,
        royalty_to_marketplace_for_trade: 200,
        royalty_to_marketplace_for_mint: 100,
        minimum_transfer_value: 10,
        ms_in_block: 3_000,
    }
}

#[test]
fn full_marketplace_walkthrough() {
    let mut m = NftMarketplace::new(ADMIN, scenario_config());

    // the admin registers the template "basic"
    m.add_new_collection(ADMIN, 7, "link".to_owned(), "basic".to_owned(), "d".to_owned())
        .expect("template registered");

    // user A creates a collection: the registry gains one entry and A's
    // cooldown timestamp is set
    let (r, _) = m.create_collection(USER_A, 500, 40, "basic".to_owned(), vec![]);
    let (done, _) = m.create_collection_reply(r.expect("accepted"), SpawnReply::Spawned(50), 40);
    assert_eq!(
        done,
        Ok(MarketEvent::CollectionCreated { name: "basic".to_owned(), collection_address: 50 })
    );
    let s = m.state();
    assert_eq!(s.collection_to_owner.len(), 1);
    assert_eq!(s.time_creation, vec![(USER_A, 40)]);

    // user A tries again immediately: rejected, nothing spent
    let (again, refund) = m.create_collection(USER_A, 500, 41, "basic".to_owned(), vec![]);
    assert!(matches!(again, Err(MarketError::CooldownActive)));
    assert_eq!(refund, vec![Transfer { to: USER_A, value: 500 }]);
    assert_eq!(m.state().collection_to_owner.len(), 1);

    // user B mints from the collection: forwarded and successful
    let (r, _) = m.mint(USER_B, 1_000, 50);
    let (minted, _) = m.mint_reply(r.expect("mint forwarded"), MintReply::Minted { token_id: 0 });
    assert_eq!(
        minted,
        Ok(MarketEvent::Minted { collection_address: 50, token_id: 0 })
    );

    // user B lists token 0 at price 100
    let pending = m.sell(USER_B, 50, 0, 100).expect("listing accepted");
    m.sell_reply(pending, OwnershipReply::Info { owner: USER_B, approved: None }, MARKET)
        .expect("listed");

    // user C buys at exactly 100; while the transfer is in flight, C's own
    // listing attempt fails: the collection still reports B as the owner
    let (r, _) = m.buy(USER_C, 100, 50, 0);
    let purchase = r.expect("purchase accepted");
    let premature = m.sell(USER_C, 50, 0, 150).expect("key is free during the transfer");
    assert_eq!(
        m.sell_reply(
            premature,
            OwnershipReply::Info { owner: USER_B, approved: None },
            MARKET,
        ),
        Err(MarketError::AccessDenied)
    );
    let (sold, pays) = m.buy_reply(purchase, TransferReply::Confirmed);
    assert_eq!(
        sold,
        Ok(MarketEvent::NftSold {
            collection_address: 50,
            token_id: 0,
            price: 100,
            buyer: USER_C,
        })
    );
    assert_eq!(pays, vec![Transfer { to: USER_B, value: 98 }]);

    // an unrelated auction on token 9: user D bids below the minimum
    let pending = m.create_auction(USER_B, 50, 9, 500, 2).expect("auction accepted");
    m.create_auction_reply(
        pending,
        OwnershipReply::Info { owner: USER_B, approved: None },
        MARKET,
        40,
    )
    .expect("auction open");
    let (bid, refund) = m.add_bid(USER_D, 499, 50, 9, 100);
    assert!(matches!(bid, Err(MarketError::BidTooLow)));
    assert_eq!(refund, vec![Transfer { to: USER_D, value: 499 }]);
}
