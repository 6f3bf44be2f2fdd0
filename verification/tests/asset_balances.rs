use campaign_views::storage::CampaignStorage;
use campaign_views::types::{Address, CampaignData, CampaignStatus, Error, StellarAsset};
use campaign_views::views::{get_asset_balances, try_get_asset_balances};
use soroban_sdk::testutils::EnvTestConfig;
use soroban_sdk::{Bytes, Env, String};

fn env() -> Env {
    Env::new_with_config(EnvTestConfig { capture_snapshot_at_drop: false })
}

fn address(fill: u8) -> Address {
    Address { strkey: [fill; 56] }
}

fn asset(env: &Env, asset_code: &str, issuer: Option<Address>) -> StellarAsset {
    StellarAsset { asset_code: String::from_str(env, asset_code), issuer }
}

fn campaign(accepted_assets: Vec<StellarAsset>) -> CampaignData {
    CampaignData {
        creator: address(b'G'),
        goal_amount: 10_000,
        raised_amount: 0,
        end_time: 0,
        status: CampaignStatus::Active,
        accepted_assets,
        milestone_count: 0,
    }
}

#[test]
fn balances_follow_the_order_of_the_accepted_assets() {
    let env = env();
    let mut storage = CampaignStorage::new();
    storage.set_campaign(campaign(vec![
        asset(&env, "USDC", Some(address(b'A'))),
        asset(&env, "XLM", None),
        asset(&env, "EURC", Some(address(b'B'))),
        asset(&env, "\u{20ac}", Some(address(b'C'))),
    ]));
    storage.set_asset_raised(address(b'B'), 70);
    storage.set_asset_raised(address(b'A'), 1);
    storage.set_asset_raised(address(b'A'), -5);

    let balances = get_asset_balances(&env, &storage).unwrap();
    assert_eq!(balances.len(), 4);
    assert_eq!(balances.get(0), Some((Bytes::from_slice(&env, b"USDC"), -5)));
    assert_eq!(balances.get(1), Some((Bytes::from_slice(&env, b"XLM"), 0)));
    assert_eq!(balances.get(2), Some((Bytes::from_slice(&env, b"EURC"), 70)));
    assert_eq!(balances.get(3), Some((Bytes::from_slice(&env, &[0xe2, 0x82, 0xac]), 0)));
}

#[test]
fn an_asset_code_that_is_not_text_has_no_balances() {
    let env = env();
    let mut storage = CampaignStorage::new();
    assert_eq!(try_get_asset_balances(&env, &storage), Err(Error::NotInitialized));

    let broken = StellarAsset { asset_code: String::from_bytes(&env, b"a\xc3\x28d"), issuer: None };
    storage.set_campaign(campaign(vec![asset(&env, "XLM", None), broken]));
    assert_eq!(try_get_asset_balances(&env, &storage), Ok(None));

    storage.set_campaign(campaign(vec![asset(&env, "XLM", None), asset(&env, "", None)]));
    let balances = try_get_asset_balances(&env, &storage).unwrap().unwrap();
    assert_eq!(balances, get_asset_balances(&env, &storage).unwrap());
    assert_eq!(balances.get(0), Some((Bytes::from_slice(&env, b"XLM"), 0)));
    assert_eq!(balances.get(1), Some((Bytes::new(&env), 0)));
}

#[test]
fn a_campaign_without_assets_has_no_balances() {
    let env = env();
    let mut storage = CampaignStorage::new();
    storage.set_campaign(campaign(Vec::new()));
    assert!(get_asset_balances(&env, &storage).unwrap().is_empty());
}

#[test]
fn balances_need_a_campaign() {
    let env = env();
    let storage = CampaignStorage::new();
    assert_eq!(get_asset_balances(&env, &storage), Err(Error::NotInitialized));
}

#[test]
fn addresses_differ_when_one_character_does() {
    let mut other = address(b'A');
    other.strkey[55] = b'B';
    assert!(!address(b'A').same(&other));
    assert!(other.same(&other));
    let mut storage = CampaignStorage::new();
    storage.set_asset_raised(address(b'A'), 3);
    assert_eq!(storage.get_asset_raised(&address(b'A')), 3);
    assert_eq!(storage.get_asset_raised(&other), 0);
}
