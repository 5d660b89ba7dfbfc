//! Data model of the wallet backend.
//!
//! A [`Wallet`] is the backend's metadata record for one device-bound
//! Lightning wallet. Timestamps are kept as plain milliseconds since the Unix
//! epoch (`i64`); the unverified boundary converts them to and from calendar
//! representations.
use vstd::prelude::*;
use vstd::string::StringExecFns;

use crate::strutil::eq_ignore_ascii_case;
use crate::strutil::str_eq_ignore_ascii_case;

verus! {

/// How the user chose to back the wallet up.
#[derive(Clone, Copy, Debug, PartialEq, Eq, Structural)]
pub enum BackupType {
    /// No backup was requested (`"none"`).
    NoBackup,
    /// Social recovery (`"social"`).
    Social,
    /// A server-generated 12-word recovery phrase (`"seed"`).
    Seed,
}

/// One persisted wallet record.
pub struct Wallet {
    pub wallet_id: String,
    pub phone: String,
    pub device_id: String,
    pub breez_node_id: String,
    pub invite_code: String,
    pub backup_type: String,
    pub backup_status: String,
    pub status: String,
    pub first_channel_opened: bool,
    pub first_channel_sats: i64,
    pub device_bound_at: Option<i64>,
    pub recovery_phrase_shown: bool,
    pub last_seen_at: Option<i64>,
    pub created_at: i64,
}

impl Wallet {
    /// A field-for-field copy of the record.
    pub fn duplicate(&self) -> (w: Wallet)
        ensures
            w == *self,
    {
        Wallet {
            wallet_id: self.wallet_id.clone(),
            phone: self.phone.clone(),
            device_id: self.device_id.clone(),
            breez_node_id: self.breez_node_id.clone(),
            invite_code: self.invite_code.clone(),
            backup_type: self.backup_type.clone(),
            backup_status: self.backup_status.clone(),
            status: self.status.clone(),
            first_channel_opened: self.first_channel_opened,
            first_channel_sats: self.first_channel_sats,
            device_bound_at: self.device_bound_at,
            recovery_phrase_shown: self.recovery_phrase_shown,
            last_seen_at: self.last_seen_at,
            created_at: self.created_at,
        }
    }
}

/// The liveness timestamp after an authorized status read: the later of the
/// stored value and `now`, so it never moves backward.
pub open spec fn spec_touch(prev: Option<i64>, now: i64) -> i64 {
    match prev {
        Option::Some(p) => if p > now {
            p
        } else {
            now
        },
        Option::None => now,
    }
}

/// The same record with `last_seen_at` set to `t`.
pub open spec fn with_last_seen(w: Wallet, t: i64) -> Wallet {
    Wallet { last_seen_at: Some(t), ..w }
}

/// The create-wallet request: a device identity, a phone number and the
/// requested backup type.
pub struct CreateWalletRequest {
    pub device_id: String,
    pub phone: String,
    pub backup_type: String,
}

/// What a successful creation returns to the caller.
pub struct CreateWalletResponse {
    pub invite_code: String,
    pub node_id: String,
    pub initial_channel_opened: bool,
    /// Present exactly when the request asked for a seed backup; returned
    /// once and never persisted.
    pub recovery_phrase: Option<String>,
}

/// Channel metadata inside a status response.
pub struct ChannelStatus {
    pub has_channel: bool,
    pub channel_capacity_sats: i64,
    pub is_connected: bool,
}

/// What an authorized status read returns.
pub struct WalletStatusResponse {
    pub wallet_id: String,
    pub status: String,
    pub balance_sats: i64,
    pub channel_status: ChannelStatus,
    pub device_id: String,
    pub last_seen: Option<i64>,
    pub backup_status: String,
}

/// Health of one collaborator, as reported by the health endpoint.
pub struct ServiceHealth {
    pub status: String,
    pub message: Option<String>,
    pub latency_ms: Option<u64>,
}

/// The aggregate health report.
pub struct HealthCheckResponse {
    pub status: String,
    pub timestamp: String,
    pub database: ServiceHealth,
    pub breez_service: ServiceHealth,
    pub lsp: ServiceHealth,
}

/// The backup type a request gets when it names none.
pub fn default_backup_type() -> (r: String)
    ensures
        r@ == "none"@,
{
    String::from_str("none")
}

/// The canonical lower-case name of a backup type.
pub open spec fn spec_backup_type_str(b: BackupType) -> Seq<char> {
    match b {
        BackupType::NoBackup => "none"@,
        BackupType::Social => "social"@,
        BackupType::Seed => "seed"@,
    }
}

/// `skipped` exactly when no backup was requested, else `pending`.
pub open spec fn spec_backup_status_str(b: BackupType) -> Seq<char> {
    if b == BackupType::NoBackup {
        "skipped"@
    } else {
        "pending"@
    }
}

/// Parse a backup type, ignoring ASCII case; `None` for anything but
/// `none`, `social` or `seed`.
pub open spec fn spec_parse_backup_type(s: Seq<char>) -> Option<BackupType> {
    if eq_ignore_ascii_case(s, "none"@) {
        Option::Some(BackupType::NoBackup)
    } else if eq_ignore_ascii_case(s, "social"@) {
        Option::Some(BackupType::Social)
    } else if eq_ignore_ascii_case(s, "seed"@) {
        Option::Some(BackupType::Seed)
    } else {
        Option::None
    }
}

/// Decide which backup type a request names, ignoring ASCII case.
pub fn parse_backup_type(s: &str) -> (r: Option<BackupType>)
    ensures
        r == spec_parse_backup_type(s@),
{
    if str_eq_ignore_ascii_case(s, "none") {
        Some(BackupType::NoBackup)
    } else if str_eq_ignore_ascii_case(s, "social") {
        Some(BackupType::Social)
    } else if str_eq_ignore_ascii_case(s, "seed") {
        Some(BackupType::Seed)
    } else {
        None
    }
}

/// The stored name of a backup type.
pub fn backup_type_str(b: BackupType) -> (r: String)
    ensures
        r@ == spec_backup_type_str(b),
{
    match b {
        BackupType::NoBackup => String::from_str("none"),
        BackupType::Social => String::from_str("social"),
        BackupType::Seed => String::from_str("seed"),
    }
}

/// The stored backup status derived from a backup type.
pub fn backup_status_str(b: BackupType) -> (r: String)
    ensures
        r@ == spec_backup_status_str(b),
{
    match b {
        BackupType::NoBackup => String::from_str("skipped"),
        _ => String::from_str("pending"),
    }
}

} // verus!
