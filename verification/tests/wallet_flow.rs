use sabi_wallet_backend::breez::NodeInfo;
use sabi_wallet_backend::error::WalletError;
use sabi_wallet_backend::models::CreateWalletRequest;
use sabi_wallet_backend::store::WalletStore;
use sabi_wallet_backend::wallets::create_wallet;
use sabi_wallet_backend::wallets::finish_create;
use sabi_wallet_backend::wallets::get_wallet_status;
use sabi_wallet_backend::wallets::phone_is_valid;
use sabi_wallet_backend::wallets::prepare_create;

fn req(device_id: &str, phone: &str, backup_type: &str) -> CreateWalletRequest {
    CreateWalletRequest {
        device_id: device_id.to_string(),
        phone: phone.to_string(),
        backup_type: backup_type.to_string(),
    }
}

#[test]
fn test_create_wallet_success() {
    let mut store = WalletStore::new();
    let r = create_wallet(&mut store, &req("dev-1", "+2348012345678", "none"), None, 1_000);
    let resp = r.expect("valid request must succeed");
    assert_eq!(resp.node_id, "nodeless-device-managed");
    assert!(resp.initial_channel_opened);
    assert!(resp.recovery_phrase.is_none());
    assert_eq!(store.wallets.len(), 1);
    let w = &store.wallets[0];
    assert_eq!(w.wallet_id.len(), 36);
    assert_eq!(resp.invite_code, format!("sabi_{}", &w.wallet_id[..8]));
    assert_eq!(w.device_id, "dev-1");
    assert_eq!(w.phone, "+2348012345678");
    assert_eq!(w.backup_type, "none");
    assert_eq!(w.backup_status, "skipped");
    assert_eq!(w.status, "active");
    assert_eq!(w.first_channel_sats, 200_000);
    assert!(w.first_channel_sats >= 100_000 && w.first_channel_sats <= 300_000);
    assert!(w.first_channel_opened);
    assert!(!w.recovery_phrase_shown);
    assert_eq!(w.device_bound_at, Some(1_000));
    assert_eq!(w.last_seen_at, Some(1_000));
    assert_eq!(w.created_at, 1_000);
}

#[test]
fn test_create_wallet_clamps_configured_default() {
    let mut store = WalletStore::new();
    let r = create_wallet(&mut store, &req("dev-1", "+2348012345678", "none"), Some(1_000_000), 5);
    assert!(r.is_ok());
    assert_eq!(store.wallets[0].first_channel_sats, 300_000);

    let mut store2 = WalletStore::new();
    let r2 = create_wallet(&mut store2, &req("dev-2", "+2348012345678", "none"), Some(7), 5);
    assert!(r2.is_ok());
    assert_eq!(store2.wallets[0].first_channel_sats, 100_000);
}

#[test]
fn test_second_create_same_device_conflicts() {
    let mut store = WalletStore::new();
    assert!(create_wallet(&mut store, &req("dev-1", "+2348012345678", "none"), None, 1).is_ok());
    let r = create_wallet(&mut store, &req("dev-1", "+2349998887776", "social"), None, 2);
    assert!(matches!(r, Err(WalletError::DeviceAlreadyBound)));
    assert_eq!(store.wallets.len(), 1);
    assert_eq!(store.wallets[0].phone, "+2348012345678");
}

#[test]
fn test_invalid_phone_rejected() {
    for phone in ["08012345678", "+23412345", "+23480123456xy", "+2358012345678", ""] {
        let mut store = WalletStore::new();
        let r = create_wallet(&mut store, &req("dev-1", phone, "none"), None, 1);
        assert!(matches!(r, Err(WalletError::InvalidPhone)), "phone {:?}", phone);
        assert_eq!(store.wallets.len(), 0);
    }
}

#[test]
fn test_phone_is_valid() {
    assert!(phone_is_valid("+2348012345678"));
    assert!(!phone_is_valid("08012345678"));
    assert!(!phone_is_valid("+23412345"));
    assert!(!phone_is_valid("+234801234567"));
    assert!(!phone_is_valid("+23480123456789"));
    assert!(!phone_is_valid("+234801234567a"));
}

#[test]
fn test_seed_backup_returns_phrase() {
    let mut store = WalletStore::new();
    let r = create_wallet(&mut store, &req("dev-1", "+2348012345678", "seed"), None, 1);
    let resp = r.expect("seed request must succeed");
    let phrase = resp.recovery_phrase.expect("seed backup owes a phrase");
    assert_eq!(phrase.split_whitespace().count(), 12);
    assert!(phrase.chars().all(|c| c == ' ' || c.is_ascii_lowercase()));
    let w = &store.wallets[0];
    assert_eq!(w.backup_type, "seed");
    assert_eq!(w.backup_status, "pending");
    assert!(w.recovery_phrase_shown);
}

#[test]
fn test_backup_type_case_insensitive() {
    let mut store = WalletStore::new();
    let r = create_wallet(&mut store, &req("dev-1", "+2348012345678", "SEED"), None, 1);
    assert!(r.expect("SEED must parse").recovery_phrase.is_some());
    let r2 = create_wallet(&mut store, &req("dev-2", "+2348012345678", "None"), None, 1);
    assert!(r2.expect("None must parse").recovery_phrase.is_none());
}

#[test]
fn test_social_backup_no_phrase() {
    let mut store = WalletStore::new();
    let r = create_wallet(&mut store, &req("dev-1", "+2348012345678", "social"), None, 1);
    let resp = r.expect("social request must succeed");
    assert!(resp.recovery_phrase.is_none());
    assert_eq!(store.wallets[0].backup_status, "pending");
}

#[test]
fn test_unknown_backup_type_rejected() {
    let mut store = WalletStore::new();
    let r = create_wallet(&mut store, &req("dev-1", "+2348012345678", "pixie"), None, 1);
    assert!(matches!(r, Err(WalletError::InvalidBackupType)));
    assert_eq!(store.wallets.len(), 0);
}

#[test]
fn test_channel_open_failure_tolerated() {
    let mut store = WalletStore::new();
    let plan = prepare_create(&store, &req("dev-1", "+2348012345678", "none"), None)
        .expect("valid request must plan");
    let node = NodeInfo {
        node_pubkey: "node-abc".to_string(),
        invite_code: "invite-1".to_string(),
    };
    // The channel-opening call failed: the creation must still succeed,
    // with the failure recorded in the flag and the record persisted.
    let r = finish_create(&mut store, plan, "wallet-1".to_string(), node, false, 9);
    let resp = r.expect("creation must tolerate a failed channel open");
    assert!(!resp.initial_channel_opened);
    assert_eq!(resp.node_id, "node-abc");
    assert_eq!(resp.invite_code, "invite-1");
    assert_eq!(store.wallets.len(), 1);
    assert!(!store.wallets[0].first_channel_opened);
    assert_eq!(store.wallets[0].wallet_id, "wallet-1");
}

#[test]
fn test_racing_creates_one_wins() {
    // Two requests for one device pass the advisory pre-check before either
    // inserts: the store's atomic insert must accept exactly one.
    let mut store = WalletStore::new();
    let plan_a = prepare_create(&store, &req("dev-1", "+2348012345678", "none"), None).unwrap();
    let plan_b = prepare_create(&store, &req("dev-1", "+2349998887776", "none"), None).unwrap();
    let node_a = NodeInfo { node_pubkey: "node-a".to_string(), invite_code: "ia".to_string() };
    let node_b = NodeInfo { node_pubkey: "node-b".to_string(), invite_code: "ib".to_string() };
    let ra = finish_create(&mut store, plan_a, "wa".to_string(), node_a, true, 1);
    let rb = finish_create(&mut store, plan_b, "wb".to_string(), node_b, true, 2);
    assert!(ra.is_ok());
    assert!(matches!(rb, Err(WalletError::DeviceAlreadyBound)));
    assert_eq!(store.wallets.len(), 1);
    assert_eq!(
        store.wallets.iter().filter(|w| w.device_id == "dev-1").count(),
        1
    );
    assert_eq!(store.wallets[0].phone, "+2348012345678");
}

#[test]
fn test_last_seen_monotonic() {
    let mut store = WalletStore::new();
    create_wallet(&mut store, &req("dev-1", "+2348012345678", "none"), None, 1_000).unwrap();
    let wallet_id = store.wallets[0].wallet_id.clone();

    let r1 = get_wallet_status(&mut store, &wallet_id, "dev-1", 2_000).unwrap();
    assert_eq!(r1.last_seen, Some(2_000));
    assert_eq!(store.wallets[0].last_seen_at, Some(2_000));

    // The clock stepping backward must not move last_seen_at backward.
    let r2 = get_wallet_status(&mut store, &wallet_id, "dev-1", 1_500).unwrap();
    assert_eq!(r2.last_seen, Some(2_000));
    assert_eq!(store.wallets[0].last_seen_at, Some(2_000));

    let r3 = get_wallet_status(&mut store, &wallet_id, "dev-1", 2_500).unwrap();
    assert_eq!(r3.last_seen, Some(2_500));
    assert_eq!(store.wallets[0].last_seen_at, Some(2_500));
}
