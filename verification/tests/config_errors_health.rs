use sabi_wallet_backend::breez::channel_amount_ok;
use sabi_wallet_backend::breez::clamp_channel_sats;
use sabi_wallet_backend::breez::BreezServices;
use sabi_wallet_backend::breez::LspStatus;
use sabi_wallet_backend::breez::NodelessConfig;
use sabi_wallet_backend::breez::WalletStatus;
use sabi_wallet_backend::config::BreezEnv;
use sabi_wallet_backend::config::Config;
use sabi_wallet_backend::config::ConfigError;
use sabi_wallet_backend::config::EnvSnapshot;
use sabi_wallet_backend::error::AppError;
use sabi_wallet_backend::error::WalletError;
use sabi_wallet_backend::health::health_check;
use sabi_wallet_backend::models::default_backup_type;
use sabi_wallet_backend::models::parse_backup_type;
use sabi_wallet_backend::models::BackupType;

fn snapshot() -> EnvSnapshot {
    EnvSnapshot {
        breez_api_key: Some("SECRET-REDACTED".to_string()),
        breez_env: None,
        database_url: None,
        redis_url: None,
        first_channel_sats_default: None,
        breez_service_url: None,
    }
}

#[test]
fn test_config_defaults() {
    let c = Config::from_env(&snapshot()).expect("an api key suffices");
    assert_eq!(c.breez_api_key, "SECRET-REDACTED");
    assert_eq!(c.breez_env, BreezEnv::Production);
    assert_eq!(c.database_url, "sqlite:./data/sabi.db?mode=rwc");
    assert_eq!(c.redis_url, None);
    assert_eq!(c.first_channel_sats_default, Some(200_000));
    assert_eq!(c.breez_service_url, Some("http://localhost:3001".to_string()));
}

#[test]
fn test_config_missing_api_key() {
    let mut env = snapshot();
    env.breez_api_key = None;
    assert!(matches!(Config::from_env(&env), Err(ConfigError::MissingApiKey)));
}

#[test]
fn test_config_staging() {
    let mut env = snapshot();
    env.breez_env = Some("staging".to_string());
    env.database_url = Some("sqlite::memory:".to_string());
    env.first_channel_sats_default = Some(120_000);
    let c = Config::from_env(&env).unwrap();
    assert_eq!(c.breez_env, BreezEnv::Staging);
    assert_eq!(c.database_url, "sqlite::memory:");
    assert_eq!(c.first_channel_sats_default, Some(120_000));
}

#[test]
fn test_config_invalid_environment() {
    let mut env = snapshot();
    env.breez_env = Some("Production".to_string());
    assert!(matches!(Config::from_env(&env), Err(ConfigError::InvalidEnvironment)));
}

#[test]
fn test_error_mapping() {
    let cases: Vec<(WalletError, bool, &str)> = vec![
        (WalletError::InvalidPhone, true, "Phone must be +234xxxxxxxxxx"),
        (
            WalletError::InvalidBackupType,
            true,
            "backup_type must be 'none', 'social', or 'seed'",
        ),
        (WalletError::DeviceAlreadyBound, true, "Device already bound to a wallet"),
        (WalletError::WalletNotFound, true, "Wallet not found"),
        (WalletError::BindingViolation, true, "This wallet is bound to another device"),
        (WalletError::ProvisioningFailed, false, "node provisioning failed"),
        (WalletError::MnemonicFailed, false, "Failed to generate mnemonic"),
        (WalletError::Storage, false, "storage failure"),
    ];
    for (e, bad_request, message) in cases {
        match e.to_app_error() {
            AppError::BadRequest(m) => {
                assert!(bad_request, "{:?} must be internal", e);
                assert_eq!(m, message);
            }
            AppError::Internal(m) => {
                assert!(!bad_request, "{:?} must be a bad request", e);
                assert_eq!(m, message);
            }
        }
    }
}

#[test]
fn test_response_parts_hide_internal_detail() {
    let (code, body) = AppError::BadRequest("Wallet not found".to_string()).response_parts();
    assert_eq!(code, 400);
    assert_eq!(body, "Wallet not found");
    let (code2, body2) =
        AppError::Internal("sqlite: database is locked".to_string()).response_parts();
    assert_eq!(code2, 500);
    assert_eq!(body2, "Server error");
}

#[test]
fn test_clamp_channel_sats() {
    assert_eq!(clamp_channel_sats(None), 200_000);
    assert_eq!(clamp_channel_sats(Some(250_000)), 250_000);
    assert_eq!(clamp_channel_sats(Some(50_000)), 100_000);
    assert_eq!(clamp_channel_sats(Some(1_000_000)), 300_000);
    assert_eq!(clamp_channel_sats(Some(100_000)), 100_000);
    assert_eq!(clamp_channel_sats(Some(300_000)), 300_000);
}

#[test]
fn test_channel_amount_bounds() {
    assert!(!channel_amount_ok(99_999));
    assert!(channel_amount_ok(100_000));
    assert!(channel_amount_ok(300_000));
    assert!(!channel_amount_ok(300_001));
    assert!(!channel_amount_ok(-5));
}

#[test]
fn test_init_nodeless_keeps_config() {
    let s = BreezServices::init_nodeless(
        "SECRET-REDACTED".to_string(),
        NodelessConfig {
            spark_url: None,
            invite_code_prefix: None,
            first_channel_sats_default: Some(150_000),
            service_url: Some("http://localhost:3001".to_string()),
        },
    );
    assert_eq!(s.api_key, "SECRET-REDACTED");
    assert_eq!(s.config.first_channel_sats_default, Some(150_000));
}

#[test]
fn test_default_backup_type_is_none() {
    assert_eq!(default_backup_type(), "none");
    assert_eq!(parse_backup_type("none"), Some(BackupType::NoBackup));
    assert_eq!(parse_backup_type("SoCiAl"), Some(BackupType::Social));
    assert_eq!(parse_backup_type("seed"), Some(BackupType::Seed));
    assert_eq!(parse_backup_type("paper"), None);
    assert_eq!(parse_backup_type(""), None);
}

#[test]
fn test_degraded_wallet_status_is_zero_valued() {
    let s = WalletStatus::degraded();
    assert_eq!(s.balance_sats, 0);
    assert_eq!(s.channel_count, 0);
    assert_eq!(s.channel_capacity_sats, 0);
    assert!(!s.is_connected);
}

#[test]
fn test_health_all_ok() {
    let r = health_check(
        Ok(3),
        Ok(17),
        Ok((LspStatus { lsp_id: "lsp-9".to_string(), is_online: true }, 21)),
        "2025-01-01T00:00:00Z".to_string(),
    );
    assert_eq!(r.status, "healthy");
    assert_eq!(r.timestamp, "2025-01-01T00:00:00Z");
    assert_eq!(r.database.status, "healthy");
    assert_eq!(r.database.latency_ms, Some(3));
    assert_eq!(r.breez_service.status, "healthy");
    assert_eq!(r.lsp.status, "healthy");
    assert_eq!(r.lsp.message, Some("LSP: lsp-9".to_string()));
    assert_eq!(r.lsp.latency_ms, Some(21));
}

#[test]
fn test_health_database_down() {
    let r = health_check(
        Err("connection refused".to_string()),
        Ok(17),
        Ok((LspStatus { lsp_id: "lsp-9".to_string(), is_online: true }, 21)),
        "t".to_string(),
    );
    assert_eq!(r.status, "degraded");
    assert_eq!(r.database.status, "unhealthy");
    assert_eq!(r.database.message, Some("connection refused".to_string()));
    assert_eq!(r.database.latency_ms, None);
}

#[test]
fn test_health_lsp_offline_is_local_degradation() {
    let r = health_check(
        Ok(1),
        Ok(2),
        Ok((LspStatus { lsp_id: "lsp-9".to_string(), is_online: false }, 3)),
        "t".to_string(),
    );
    // an LSP that answers but reports itself offline degrades only its own
    // entry, not the overall verdict
    assert_eq!(r.status, "healthy");
    assert_eq!(r.lsp.status, "degraded");
}

#[test]
fn test_health_lsp_unreachable() {
    let r = health_check(Ok(1), Ok(2), Err("timeout".to_string()), "t".to_string());
    assert_eq!(r.status, "degraded");
    assert_eq!(r.lsp.status, "unhealthy");
    assert_eq!(r.lsp.message, Some("timeout".to_string()));
    assert_eq!(r.lsp.latency_ms, None);
}
