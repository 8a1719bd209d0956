use nft_marketplace::marketplace::NftMarketplace;
use nft_marketplace::types::{
    CanDeleteReply, Config, DeleteCollectionStep, MarketError, MarketEvent, MintReply, SpawnReply,
    Transfer,
};

fn life_config() -> Config {
    Config {
        gas_for_creation: 100,
        gas_for_transfer_token: 101,
        gas_for_mint: 102,
        gas_for_close_auction: 103,
        gas_for_delete_collection: 104,
        gas_for_get_info: 105,
        time_between_create_collections: 1_000,
        fee_per_uploaded_file: 0,
        royalty_to_marketplace_for_trade: 200,
        royalty_to_marketplace_for_mint: 100,
        minimum_transfer_value: 10,
        ms_in_block: 3_000,
    }
}

fn market_with_template() -> NftMarketplace {
    let mut m = NftMarketplace::new(1, life_config());
    m.add_new_collection(1, 7, "link".to_owned(), "basic".to_owned(), "d".to_owned())
        .expect("template registered");
    m
}

#[test]
fn create_collection_unknown_template_is_rejected_with_refund() {
    let mut m = market_with_template();
    let (r, t) = m.create_collection(2, 500, 0, "other".to_owned(), vec![]);
    assert!(matches!(r, Err(MarketError::UnknownCollectionType)));
    assert_eq!(t, vec![Transfer { to: 2, value: 500 }]);
}

#[test]
fn create_collection_records_creator_and_stamp() {
    let mut m = market_with_template();
    let (r, t) = m.create_collection(2, 500, 40, "basic".to_owned(), vec![9, 9]);
    let pending = r.expect("creation accepted");
    assert!(t.is_empty());
    assert_eq!(pending.caller, 2);
    assert_eq!(pending.value, 500);
    assert_eq!(pending.code_id, 7);
    assert_eq!(pending.payload, vec![9, 9]);
    assert_eq!(pending.gas, 100);
    let (done, t2) = m.create_collection_reply(pending, SpawnReply::Spawned(50), 42);
    assert_eq!(
        done,
        Ok(MarketEvent::CollectionCreated { name: "basic".to_owned(), collection_address: 50 })
    );
    assert!(t2.is_empty());
    let s = m.state();
    assert_eq!(s.collection_to_owner.len(), 1);
    assert_eq!(s.collection_to_owner[0].0, 50);
    assert_eq!(s.collection_to_owner[0].1.owner, 2);
    assert_eq!(s.time_creation, vec![(2, 42)]);
}

#[test]
fn failed_spawn_refunds_everything_and_records_nothing() {
    let mut m = market_with_template();
    let (r, _) = m.create_collection(2, 500, 40, "basic".to_owned(), vec![]);
    let pending = r.expect("creation accepted");
    let before = m.state();
    let (done, t) = m.create_collection_reply(pending, SpawnReply::Failed, 42);
    assert_eq!(done, Err(MarketError::CreationFailed));
    assert_eq!(t, vec![Transfer { to: 2, value: 500 }]);
    let after = m.state();
    assert!(after.collection_to_owner.is_empty());
    assert!(after.time_creation.is_empty());
    assert_eq!(after.type_collections.len(), before.type_collections.len());
}

#[test]
fn second_creation_within_cooldown_is_rejected_with_full_refund() {
    let mut m = market_with_template();
    let (r, _) = m.create_collection(2, 500, 40, "basic".to_owned(), vec![]);
    m.create_collection_reply(r.expect("accepted"), SpawnReply::Spawned(50), 40)
        .0
        .expect("spawned");
    let before = m.state();
    // window is 1000 ms, the stamp is 40: a call at 1039 is still blocked
    let (again, t) = m.create_collection(2, 700, 1_039, "basic".to_owned(), vec![]);
    assert!(matches!(again, Err(MarketError::CooldownActive)));
    assert_eq!(t, vec![Transfer { to: 2, value: 700 }]);
    let after = m.state();
    assert_eq!(after.collection_to_owner.len(), before.collection_to_owner.len());
    assert_eq!(after.time_creation, before.time_creation);
    // once the window has elapsed the same caller may create again
    let (later, t2) = m.create_collection(2, 700, 1_040, "basic".to_owned(), vec![]);
    assert!(later.is_ok());
    assert!(t2.is_empty());
}

#[test]
fn admins_are_exempt_from_the_cooldown() {
    let mut m = market_with_template();
    let (r, _) = m.create_collection(1, 500, 40, "basic".to_owned(), vec![]);
    m.create_collection_reply(r.expect("accepted"), SpawnReply::Spawned(50), 40)
        .0
        .expect("spawned");
    let (again, _) = m.create_collection(1, 500, 41, "basic".to_owned(), vec![]);
    assert!(again.is_ok());
}

#[test]
fn mint_forwards_value_minus_cut() {
    let m = market_with_template();
    let (r, t) = m.mint(3, 1_000, 50);
    let pending = r.expect("mint accepted");
    assert!(t.is_empty());
    // 1% mint royalty on 1000 leaves 990 to forward
    assert_eq!(pending.forward_value, 990);
    assert_eq!(pending.gas, 102 + 105);
    let (done, t2) = m.mint_reply(pending, MintReply::Minted { token_id: 4 });
    assert_eq!(
        done,
        Ok(MarketEvent::Minted { collection_address: 50, token_id: 4 })
    );
    assert!(t2.is_empty());
}

#[test]
fn failed_mint_refunds_full_value_and_changes_nothing() {
    let mut m = market_with_template();
    let (r, _) = m.create_collection(2, 0, 40, "basic".to_owned(), vec![]);
    m.create_collection_reply(r.expect("accepted"), SpawnReply::Spawned(50), 40)
        .0
        .expect("spawned");
    let before = m.state();
    let (r, _) = m.mint(3, 1_000, 50);
    let pending = r.expect("mint accepted");
    for reply in [MintReply::Failed, MintReply::Malformed] {
        let (done, t) = m.mint_reply(pending, reply);
        assert_eq!(done, Err(MarketError::CollectionCallFailed));
        assert_eq!(t, vec![Transfer { to: 3, value: 1_000 }]);
    }
    let after = m.state();
    assert_eq!(after.collection_to_owner, before.collection_to_owner);
    assert_eq!(after.sales, before.sales);
    assert_eq!(after.auctions, before.auctions);
    assert_eq!(after.offers, before.offers);
}

#[test]
fn mint_royalty_overflow_is_rejected_before_any_call() {
    let m = market_with_template();
    let (r, t) = m.mint(3, u128::MAX, 50);
    assert!(matches!(r, Err(MarketError::ArithmeticOverflow)));
    assert_eq!(t, vec![Transfer { to: 3, value: u128::MAX }]);
}

fn market_with_collection_owned_by_2() -> NftMarketplace {
    let mut m = market_with_template();
    let (r, _) = m.create_collection(2, 0, 40, "basic".to_owned(), vec![]);
    m.create_collection_reply(r.expect("accepted"), SpawnReply::Spawned(50), 40)
        .0
        .expect("spawned");
    m
}

#[test]
fn admin_deletes_collection_without_asking() {
    let mut m = market_with_collection_owned_by_2();
    let r = m.delete_collection(1, 50).expect("admin deletion");
    assert!(matches!(r, DeleteCollectionStep::Done(_)));
    assert!(m.state().collection_to_owner.is_empty());
}

#[test]
fn deleting_an_unknown_collection_fails() {
    let mut m = market_with_collection_owned_by_2();
    assert!(matches!(
        m.delete_collection(1, 51),
        Err(MarketError::UnknownCollection)
    ));
}

#[test]
fn owner_deletion_needs_the_collection_consent() {
    let mut m = market_with_collection_owned_by_2();
    let step = m.delete_collection(2, 50).expect("owner may ask");
    let pending = match step {
        DeleteCollectionStep::AwaitCanDelete(p) => p,
        DeleteCollectionStep::Done(_) => panic!("an owner must ask the collection first"),
    };
    assert_eq!(pending.gas, 104);
    // record still present while the query is in flight
    assert_eq!(m.state().collection_to_owner.len(), 1);
    // a refusal keeps the record
    assert_eq!(
        m.delete_collection_reply(pending, CanDeleteReply::Answer(false)),
        Err(MarketError::AccessDenied)
    );
    assert_eq!(m.state().collection_to_owner.len(), 1);
    // a collection-side error keeps it too
    assert_eq!(
        m.delete_collection_reply(pending, CanDeleteReply::Failed),
        Err(MarketError::CollectionCallFailed)
    );
    assert_eq!(
        m.delete_collection_reply(pending, CanDeleteReply::Malformed),
        Err(MarketError::ProtocolViolation)
    );
    // consent removes it
    assert_eq!(
        m.delete_collection_reply(pending, CanDeleteReply::Answer(true)),
        Ok(MarketEvent::CollectionDeleted { collection_address: 50 })
    );
    assert!(m.state().collection_to_owner.is_empty());
}

#[test]
fn stranger_deletion_is_denied_whatever_the_collection_would_say() {
    let mut m = market_with_collection_owned_by_2();
    // caller 9 is neither an admin nor the recorded owner: denied outright,
    // no query ever goes out
    assert!(matches!(
        m.delete_collection(9, 50),
        Err(MarketError::AccessDenied)
    ));
    assert_eq!(m.state().collection_to_owner.len(), 1);
}
