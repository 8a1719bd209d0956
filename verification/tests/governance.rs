use nft_marketplace::marketplace::NftMarketplace;
use nft_marketplace::types::{Config, MarketError, MarketEvent, Transfer, EXISTENTIAL_DEPOSIT};

fn gov_config() -> Config {
    Config {
        gas_for_creation: 100,
        gas_for_transfer_token: 101,
        gas_for_mint: 102,
        gas_for_close_auction: 103,
        gas_for_delete_collection: 104,
        gas_for_get_info: 105,
        time_between_create_collections: 3_600_000,
        fee_per_uploaded_file: 257,
        royalty_to_marketplace_for_trade: 200,
        royalty_to_marketplace_for_mint: 100,
        minimum_transfer_value: 10_000,
        ms_in_block: 3_000,
    }
}

#[test]
fn new_marketplace_has_deployer_as_only_admin() {
    let m = NftMarketplace::new(1, gov_config());
    assert_eq!(m.admins(), vec![1]);
    assert_eq!(m.config(), gov_config());
    let s = m.state();
    assert!(s.collection_to_owner.is_empty());
    assert!(s.type_collections.is_empty());
    assert!(s.sales.is_empty());
    assert!(s.auctions.is_empty());
    assert!(s.offers.is_empty());
}

#[test]
fn add_new_collection_requires_admin() {
    let mut m = NftMarketplace::new(1, gov_config());
    let r = m.add_new_collection(2, 7, "m".to_owned(), "basic".to_owned(), "d".to_owned());
    assert_eq!(r, Err(MarketError::AccessDenied));
    assert!(m.state().type_collections.is_empty());
}

#[test]
fn add_new_collection_registers_template() {
    let mut m = NftMarketplace::new(1, gov_config());
    let r = m.add_new_collection(1, 7, "link".to_owned(), "basic".to_owned(), "d".to_owned());
    assert_eq!(
        r,
        Ok(MarketEvent::NewCollectionAdded {
            code_id: 7,
            meta_link: "link".to_owned(),
            name: "basic".to_owned(),
            description: "d".to_owned(),
        })
    );
    let info = m.get_collection_info(&"basic".to_owned()).expect("registered");
    assert_eq!(info.code_id, 7);
    assert_eq!(info.meta_link, "link".to_owned());
}

#[test]
fn add_new_collection_overwrites_same_name() {
    let mut m = NftMarketplace::new(1, gov_config());
    m.add_new_collection(1, 7, "a".to_owned(), "basic".to_owned(), "d".to_owned())
        .expect("first registration");
    m.add_new_collection(1, 8, "b".to_owned(), "basic".to_owned(), "e".to_owned())
        .expect("re-registration");
    let s = m.state();
    assert_eq!(s.type_collections.len(), 1);
    let info = m.get_collection_info(&"basic".to_owned()).expect("registered");
    assert_eq!(info.code_id, 8);
}

#[test]
fn admins_can_be_added_and_removed() {
    let mut m = NftMarketplace::new(1, gov_config());
    assert_eq!(
        m.add_admins(2, vec![2]),
        Err(MarketError::AccessDenied)
    );
    assert_eq!(
        m.add_admins(1, vec![2, 3]),
        Ok(MarketEvent::AdminsAdded { users: vec![2, 3] })
    );
    assert_eq!(m.admins(), vec![1, 2, 3]);
    assert_eq!(
        m.delete_admin(3, 2),
        Ok(MarketEvent::AdminDeleted { user: 2 })
    );
    assert_eq!(m.admins(), vec![1, 3]);
    assert_eq!(m.delete_admin(2, 1), Err(MarketError::AccessDenied));
}

#[test]
fn update_config_patches_only_given_fields() {
    let mut m = NftMarketplace::new(1, gov_config());
    let r = m.update_config(
        1,
        Some(999),
        None,
        None,
        None,
        None,
        None,
        Some(60_000),
        None,
        None,
        None,
        Some(123),
        None,
    );
    assert!(r.is_ok());
    let c = m.config();
    assert_eq!(c.gas_for_creation, 999);
    assert_eq!(c.time_between_create_collections, 60_000);
    assert_eq!(c.minimum_transfer_value, 123);
    assert_eq!(c.gas_for_mint, 102);
    assert_eq!(c.royalty_to_marketplace_for_trade, 200);
    assert_eq!(c.ms_in_block, 3_000);
}

#[test]
fn update_config_requires_admin() {
    let mut m = NftMarketplace::new(1, gov_config());
    let r = m.update_config(
        5, None, None, None, None, None, None, None, None, None, None, None, None,
    );
    assert_eq!(r, Err(MarketError::AccessDenied));
    assert_eq!(m.config(), gov_config());
}

#[test]
fn balance_out_pays_admin_and_refuses_dust() {
    let m = NftMarketplace::new(1, gov_config());
    let (r, t) = m.balance_out(2, EXISTENTIAL_DEPOSIT);
    assert_eq!(r, Err(MarketError::AccessDenied));
    assert!(t.is_empty());
    let (r, t) = m.balance_out(1, EXISTENTIAL_DEPOSIT - 1);
    assert_eq!(r, Err(MarketError::BelowMinimumValue));
    assert!(t.is_empty());
    let (r, t) = m.balance_out(1, EXISTENTIAL_DEPOSIT);
    assert_eq!(
        r,
        Ok(MarketEvent::BalanceHasBeenWithdrawn { value: EXISTENTIAL_DEPOSIT })
    );
    assert_eq!(t, vec![Transfer { to: 1, value: EXISTENTIAL_DEPOSIT }]);
}
