//! The node-provisioning client's verifiable surface.
//!
//! The client abstracts the remote Lightning-node service. Its network calls
//! (node creation, channel opening, status and health probes) are performed
//! by the unverified boundary; what is verified here is the data the calls
//! carry and the channel-amount policy the client must enforce: the first
//! channel is always funded with an amount in [100_000, 300_000] sats.
use vstd::prelude::*;

verus! {

/// Handle to the node-provisioning service: the API key and the nodeless
/// configuration it was initialized with.
pub struct BreezServices {
    pub api_key: String,
    pub config: NodelessConfig,
}

/// Configuration of the nodeless deployment.
pub struct NodelessConfig {
    pub spark_url: Option<String>,
    pub invite_code_prefix: Option<String>,
    pub first_channel_sats_default: Option<i64>,
    pub service_url: Option<String>,
}

/// What provisioning a node returns: the node's identifier and a shareable
/// invite code.
pub struct NodeInfo {
    pub node_pubkey: String,
    pub invite_code: String,
}

/// Live wallet status as the remote service reports it; every field's zero
/// value is the documented degraded-state default.
pub struct WalletStatus {
    pub balance_sats: i64,
    pub channel_count: i64,
    pub channel_capacity_sats: i64,
    pub is_connected: bool,
}

impl WalletStatus {
    /// The zero-valued status used when the remote service cannot answer.
    pub fn degraded() -> (r: WalletStatus)
        ensures
            r.balance_sats == 0,
            r.channel_count == 0,
            r.channel_capacity_sats == 0,
            !r.is_connected,
    {
        WalletStatus {
            balance_sats: 0,
            channel_count: 0,
            channel_capacity_sats: 0,
            is_connected: false,
        }
    }
}

/// Status of the liquidity service provider behind the node service.
pub struct LspStatus {
    pub lsp_id: String,
    pub is_online: bool,
}

impl BreezServices {
    /// Construct a client handle for a nodeless deployment.
    pub fn init_nodeless(api_key: String, config: NodelessConfig) -> (r: Self)
        ensures
            r.api_key == api_key,
            r.config == config,
    {
        BreezServices { api_key, config }
    }
}

/// True exactly when `amount_sats` is an allowed first-channel amount.
pub open spec fn spec_channel_amount_ok(amount_sats: i64) -> bool {
    100_000 <= amount_sats <= 300_000
}

/// Check a first-channel amount against the allowed range; the client must
/// fail fast on an amount outside it before any remote call is made.
pub fn channel_amount_ok(amount_sats: i64) -> (r: bool)
    ensures
        r == spec_channel_amount_ok(amount_sats),
{
    100_000 <= amount_sats && amount_sats <= 300_000
}

/// The first-channel amount that a configured default yields: the default
/// (fallback 200_000 sats) clamped into the allowed range.
pub open spec fn spec_clamp_channel_sats(v: Option<i64>) -> int {
    let d: int = match v {
        Option::Some(x) => x as int,
        Option::None => 200_000,
    };
    if d < 100_000 {
        100_000
    } else if d > 300_000 {
        300_000
    } else {
        d
    }
}

/// Decide the first-channel amount from the configured default.
pub fn clamp_channel_sats(v: Option<i64>) -> (r: i64)
    ensures
        r == spec_clamp_channel_sats(v),
        spec_channel_amount_ok(r),
{
    let d: i64 = match v {
        Some(x) => x,
        None => 200_000,
    };
    if d < 100_000 {
        100_000
    } else if d > 300_000 {
        300_000
    } else {
        d
    }
}

} // verus!
