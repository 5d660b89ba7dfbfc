//! The wallet provisioning orchestrator and the device-binding guard.
//!
//! Creation runs in two verified phases around the external side effects:
//! [`prepare_create`] validates the request and decides everything that
//! precedes provisioning, and [`finish_create`] persists the record through
//! the store's atomic insert and builds the response. [`create_wallet`] is
//! the complete nodeless workflow, where the node is managed on the device
//! and no remote call is needed. Status reads go through
//! [`authorize_status_read`], which enforces device binding and advances
//! the liveness timestamp, never backward.
use vstd::prelude::*;
use vstd::string::StrSliceExecFns;
use vstd::string::StringExecFns;

use crate::breez::clamp_channel_sats;
use crate::breez::spec_clamp_channel_sats;
use crate::breez::NodeInfo;
use crate::breez::WalletStatus;
use crate::error::WalletError;
use crate::idgen::new_wallet_id;
use crate::mnemonic::generate_mnemonic_12;
use crate::mnemonic::is_word_phrase;
use crate::models::backup_status_str;
use crate::models::backup_type_str;
use crate::models::parse_backup_type;
use crate::models::spec_backup_status_str;
use crate::models::spec_backup_type_str;
use crate::models::spec_parse_backup_type;
use crate::models::spec_touch;
use crate::models::with_last_seen;
use crate::models::BackupType;
use crate::models::ChannelStatus;
use crate::models::CreateWalletRequest;
use crate::models::CreateWalletResponse;
use crate::models::Wallet;
use crate::models::WalletStatusResponse;
use crate::store::find_wallet;
use crate::store::has_device;
use crate::store::has_wallet;
use crate::store::lemma_find_wallet;
use crate::store::WalletStore;
use crate::strutil::is_ascii_digit_char;
use crate::strutil::str_eq;

verus! {

/// A valid phone number: `+234` followed by exactly ten decimal digits.
pub open spec fn phone_ok(s: Seq<char>) -> bool {
    &&& s.len() == 14
    &&& s[0] == '+'
    &&& s[1] == '2'
    &&& s[2] == '3'
    &&& s[3] == '4'
    &&& forall|i: int| 4 <= i < 14 ==> is_ascii_digit_char(#[trigger] s[i])
}

/// A backup type that parses: `none`, `social` or `seed`, any ASCII case.
pub open spec fn backup_ok(s: Seq<char>) -> bool {
    spec_parse_backup_type(s) is Some
}

/// Check a phone number against the required format.
pub fn phone_is_valid(phone: &str) -> (r: bool)
    ensures
        r == phone_ok(phone@),
{
    let n = phone.unicode_len();
    if n != 14 {
        return false;
    }
    if phone.get_char(0) != '+' {
        return false;
    }
    if phone.get_char(1) != '2' {
        return false;
    }
    if phone.get_char(2) != '3' {
        return false;
    }
    if phone.get_char(3) != '4' {
        return false;
    }
    let mut i: usize = 4;
    while i < 14
        invariant
            phone@.len() == 14,
            4 <= i <= 14,
            forall|j: int| 4 <= j < i ==> is_ascii_digit_char(#[trigger] phone@[j]),
        decreases 14 - i,
    {
        let c = phone.get_char(i);
        let u: u32 = c as u32;
        if u < 48 || u > 57 {
            return false;
        }
        i = i + 1;
    }
    true
}

/// Everything decided before any side effect: the validated identity, the
/// parsed backup type, the recovery phrase when one is owed, and the
/// clamped first-channel amount.
pub struct CreatePlan {
    pub device_id: String,
    pub phone: String,
    pub backup: BackupType,
    pub channel_sats: i64,
    pub recovery_phrase: Option<String>,
}

/// The plan `prepare_create` owes for a request and a configured default.
pub open spec fn plan_matches(
    plan: CreatePlan,
    req: CreateWalletRequest,
    default_sats: Option<i64>,
) -> bool {
    &&& plan.device_id@ == req.device_id@
    &&& plan.phone@ == req.phone@
    &&& Option::Some(plan.backup) == spec_parse_backup_type(req.backup_type@)
    &&& plan.channel_sats == spec_clamp_channel_sats(default_sats)
    &&& (plan.recovery_phrase is Some <==> plan.backup == BackupType::Seed)
    &&& (plan.recovery_phrase matches Some(p) ==> is_word_phrase(p@, 12))
}

/// Validation and planning: the advisory device pre-check, phone and
/// backup-type validation, recovery-phrase generation for a seed backup,
/// and the channel-amount decision. No side effect happens here, so a
/// failure leaves nothing behind.
pub fn prepare_create(
    store: &WalletStore,
    req: &CreateWalletRequest,
    default_sats: Option<i64>,
) -> (r: Result<CreatePlan, WalletError>)
    ensures
        has_device(store.wallets@, req.device_id@) ==> r == Err::<CreatePlan, WalletError>(
            WalletError::DeviceAlreadyBound,
        ),
        !has_device(store.wallets@, req.device_id@) && !phone_ok(req.phone@) ==> r == Err::<
            CreatePlan,
            WalletError,
        >(WalletError::InvalidPhone),
        !has_device(store.wallets@, req.device_id@) && phone_ok(req.phone@) && !backup_ok(
            req.backup_type@,
        ) ==> r == Err::<CreatePlan, WalletError>(WalletError::InvalidBackupType),
        !has_device(store.wallets@, req.device_id@) && phone_ok(req.phone@) && backup_ok(
            req.backup_type@,
        ) ==> r is Ok,
        r matches Ok(plan) ==> !has_device(store.wallets@, req.device_id@) && phone_ok(req.phone@)
            && backup_ok(req.backup_type@) && plan_matches(plan, *req, default_sats),
{
    if store.contains_device(req.device_id.as_str()) {
        return Err(WalletError::DeviceAlreadyBound);
    }
    if !phone_is_valid(req.phone.as_str()) {
        return Err(WalletError::InvalidPhone);
    }
    let backup = match parse_backup_type(req.backup_type.as_str()) {
        None => {
            return Err(WalletError::InvalidBackupType);
        },
        Some(b) => b,
    };
    let recovery_phrase: Option<String> = if backup == BackupType::Seed {
        match generate_mnemonic_12() {
            Ok(p) => Some(p),
            Err(_) => {
                return Err(WalletError::MnemonicFailed);
            },
        }
    } else {
        None
    };
    let channel_sats = clamp_channel_sats(default_sats);
    Ok(
        CreatePlan {
            device_id: req.device_id.clone(),
            phone: req.phone.clone(),
            backup,
            channel_sats,
            recovery_phrase,
        },
    )
}

/// The record a finished creation owes the store.
pub open spec fn created_wallet_matches(
    w: Wallet,
    plan: CreatePlan,
    wallet_id: Seq<char>,
    node: NodeInfo,
    channel_opened: bool,
    now: i64,
) -> bool {
    &&& w.wallet_id@ == wallet_id
    &&& w.phone@ == plan.phone@
    &&& w.device_id@ == plan.device_id@
    &&& w.breez_node_id@ == node.node_pubkey@
    &&& w.invite_code@ == node.invite_code@
    &&& w.backup_type@ == spec_backup_type_str(plan.backup)
    &&& w.backup_status@ == spec_backup_status_str(plan.backup)
    &&& w.status@ == "active"@
    &&& w.first_channel_opened == channel_opened
    &&& w.first_channel_sats == plan.channel_sats
    &&& w.device_bound_at == Some(now)
    &&& w.recovery_phrase_shown == (plan.recovery_phrase is Some)
    &&& w.last_seen_at == Some(now)
    &&& w.created_at == now
}

/// Persist and answer: build the record from the plan and the provisioning
/// outcome, insert it through the store's atomic uniqueness check, and
/// build the response.
///
/// A channel-opening failure is tolerated by design: with `channel_opened
/// == false` the wallet is still persisted and the creation still
/// succeeds, the flag merely recorded. A duplicate device detected here —
/// after provisioning already happened — still fails the creation, and
/// nothing is persisted.
pub fn finish_create(
    store: &mut WalletStore,
    plan: CreatePlan,
    wallet_id: String,
    node: NodeInfo,
    channel_opened: bool,
    now: i64,
) -> (r: Result<CreateWalletResponse, WalletError>)
    requires
        old(store).wf(),
    ensures
        final(store).wf(),
        has_device(old(store).wallets@, plan.device_id@) ==> (r matches Err(e) && e
            == WalletError::DeviceAlreadyBound) && final(store).wallets@ == old(store).wallets@,
        !has_device(old(store).wallets@, plan.device_id@) ==> r is Ok && final(store).wallets@
            == old(store).wallets@.push(final(store).wallets@.last()) && created_wallet_matches(
            final(store).wallets@.last(),
            plan,
            wallet_id@,
            node,
            channel_opened,
            now,
        ),
        r matches Ok(resp) ==> {
            &&& resp.invite_code@ == node.invite_code@
            &&& resp.node_id@ == node.node_pubkey@
            &&& resp.initial_channel_opened == channel_opened
            &&& resp.recovery_phrase == plan.recovery_phrase
        },
{
    let backup_type = backup_type_str(plan.backup);
    let backup_status = backup_status_str(plan.backup);
    let recovery_phrase = plan.recovery_phrase;
    let shown = recovery_phrase.is_some();
    let w = Wallet {
        wallet_id,
        phone: plan.phone,
        device_id: plan.device_id,
        breez_node_id: node.node_pubkey.clone(),
        invite_code: node.invite_code.clone(),
        backup_type,
        backup_status,
        status: String::from_str("active"),
        first_channel_opened: channel_opened,
        first_channel_sats: plan.channel_sats,
        device_bound_at: Some(now),
        recovery_phrase_shown: shown,
        last_seen_at: Some(now),
        created_at: now,
    };
    match store.insert(w) {
        Err(e) => Err(e),
        Ok(_) => Ok(
            CreateWalletResponse {
                invite_code: node.invite_code,
                node_id: node.node_pubkey,
                initial_channel_opened: channel_opened,
                recovery_phrase,
            },
        ),
    }
}

/// The record the nodeless workflow owes for a request.
pub open spec fn nodeless_wallet_matches(
    w: Wallet,
    req: CreateWalletRequest,
    default_sats: Option<i64>,
    now: i64,
) -> bool {
    &&& w.device_id@ == req.device_id@
    &&& w.phone@ == req.phone@
    &&& (spec_parse_backup_type(req.backup_type@) matches Option::Some(b) && w.backup_type@
        == spec_backup_type_str(b) && w.backup_status@ == spec_backup_status_str(b))
    &&& w.status@ == "active"@
    &&& w.first_channel_opened
    &&& w.first_channel_sats == spec_clamp_channel_sats(default_sats)
    &&& w.device_bound_at == Some(now)
    &&& w.last_seen_at == Some(now)
    &&& w.created_at == now
    &&& w.wallet_id@.len() == 36
    &&& w.breez_node_id@ == "nodeless-device-managed"@
    &&& w.invite_code@ == "sabi_"@ + w.wallet_id@.subrange(0, 8)
}

/// The complete nodeless creation workflow: validate and plan, generate the
/// time-ordered wallet id, derive the device-managed node reference and the
/// invite code from it, and persist. The device's SDK opens the first
/// channel instantly, so the channel counts as opened.
pub fn create_wallet(
    store: &mut WalletStore,
    req: &CreateWalletRequest,
    default_sats: Option<i64>,
    now: i64,
) -> (r: Result<CreateWalletResponse, WalletError>)
    requires
        old(store).wf(),
    ensures
        final(store).wf(),
        has_device(old(store).wallets@, req.device_id@) ==> r == Err::<
            CreateWalletResponse,
            WalletError,
        >(WalletError::DeviceAlreadyBound),
        !has_device(old(store).wallets@, req.device_id@) && !phone_ok(req.phone@) ==> r == Err::<
            CreateWalletResponse,
            WalletError,
        >(WalletError::InvalidPhone),
        !has_device(old(store).wallets@, req.device_id@) && phone_ok(req.phone@) && !backup_ok(
            req.backup_type@,
        ) ==> r == Err::<CreateWalletResponse, WalletError>(WalletError::InvalidBackupType),
        !has_device(old(store).wallets@, req.device_id@) && phone_ok(req.phone@) && backup_ok(
            req.backup_type@,
        ) ==> r is Ok,
        r is Err ==> final(store).wallets@ == old(store).wallets@,
        r matches Ok(resp) ==> {
            &&& final(store).wallets@ == old(store).wallets@.push(final(store).wallets@.last())
            &&& nodeless_wallet_matches(final(store).wallets@.last(), *req, default_sats, now)
            &&& resp.invite_code@ == final(store).wallets@.last().invite_code@
            &&& resp.node_id@ == final(store).wallets@.last().breez_node_id@
            &&& resp.initial_channel_opened
            &&& (resp.recovery_phrase is Some <==> spec_parse_backup_type(req.backup_type@)
                == Option::Some(BackupType::Seed))
            &&& (resp.recovery_phrase matches Some(p) ==> is_word_phrase(p@, 12))
            &&& final(store).wallets@.last().recovery_phrase_shown == (resp.recovery_phrase
                is Some)
        },
{
    let plan = match prepare_create(store, req, default_sats) {
        Err(e) => {
            return Err(e);
        },
        Ok(p) => p,
    };
    let wallet_id = new_wallet_id();
    let prefix = wallet_id.as_str().substring_ascii(0, 8);
    let mut invite_code = String::from_str("sabi_");
    invite_code.append(prefix);
    let node = NodeInfo {
        node_pubkey: String::from_str("nodeless-device-managed"),
        invite_code,
    };
    finish_create(store, plan, wallet_id, node, true, now)
}

/// The response an authorized status read owes: stored metadata, with the
/// remote balance and connection state when the remote service answered
/// and the documented degraded defaults when it did not.
pub open spec fn spec_status_response(w: Wallet, remote: Option<WalletStatus>) -> WalletStatusResponse {
    WalletStatusResponse {
        wallet_id: w.wallet_id,
        status: w.status,
        balance_sats: match remote {
            Option::Some(s) => s.balance_sats,
            Option::None => 0i64,
        },
        channel_status: ChannelStatus {
            has_channel: w.first_channel_opened,
            channel_capacity_sats: w.first_channel_sats,
            is_connected: match remote {
                Option::Some(s) => s.is_connected,
                Option::None => false,
            },
        },
        device_id: w.device_id,
        last_seen: w.last_seen_at,
        backup_status: w.backup_status,
    }
}

/// The device-binding guard: look the wallet up, refuse any device but the
/// bound one, and advance the liveness timestamp — never backward. Returns
/// a snapshot of the updated record. This check is an access-control
/// boundary: it is enforced before anything else is read or written.
pub fn authorize_status_read(
    store: &mut WalletStore,
    wallet_id: &str,
    device_id: &str,
    now: i64,
) -> (r: Result<Wallet, WalletError>)
    requires
        old(store).wf(),
    ensures
        final(store).wf(),
        !has_wallet(old(store).wallets@, wallet_id@) ==> (r matches Err(e) && e
            == WalletError::WalletNotFound) && final(store).wallets@ == old(store).wallets@,
        has_wallet(old(store).wallets@, wallet_id@) ==> (find_wallet(
            old(store).wallets@,
            wallet_id@,
        ) matches Option::Some(i) && {
            let w0 = old(store).wallets@[i];
            let w1 = with_last_seen(w0, spec_touch(w0.last_seen_at, now));
            if w0.device_id@ != device_id@ {
                (r matches Err(e) && e == WalletError::BindingViolation) && final(store).wallets@
                    == old(store).wallets@
            } else {
                (r matches Ok(w) && w == w1) && final(store).wallets@
                    == old(store).wallets@.update(i, w1)
            }
        }),
{
    proof {
        lemma_find_wallet(store.wallets@, wallet_id@);
    }
    let idx = match store.wallet_id_index(wallet_id) {
        None => {
            return Err(WalletError::WalletNotFound);
        },
        Some(i) => i,
    };
    if !str_eq(store.wallets[idx].device_id.as_str(), device_id) {
        return Err(WalletError::BindingViolation);
    }
    match store.touch_last_seen(wallet_id, now) {
        Ok(_) => {},
        Err(_) => {
            return Err(WalletError::Storage);
        },
    }
    Ok(store.wallets[idx].duplicate())
}

/// Assemble a status response from a stored record and the remote status,
/// degrading to zero balance and a disconnected channel when the remote
/// service could not answer.
pub fn status_response(w: &Wallet, remote: Option<&WalletStatus>) -> (r: WalletStatusResponse)
    ensures
        remote matches Some(s) ==> r == spec_status_response(*w, Option::Some(*s)),
        remote is None ==> r == spec_status_response(*w, Option::None),
{
    let (balance_sats, is_connected): (i64, bool) = match remote {
        Some(s) => (s.balance_sats, s.is_connected),
        None => (0i64, false),
    };
    WalletStatusResponse {
        wallet_id: w.wallet_id.clone(),
        status: w.status.clone(),
        balance_sats,
        channel_status: ChannelStatus {
            has_channel: w.first_channel_opened,
            channel_capacity_sats: w.first_channel_sats,
            is_connected,
        },
        device_id: w.device_id.clone(),
        last_seen: w.last_seen_at,
        backup_status: w.backup_status.clone(),
    }
}

/// A full status read against stored metadata alone (the nodeless
/// deployment): authorize the device, advance liveness, and answer with
/// the degraded remote defaults.
pub fn get_wallet_status(
    store: &mut WalletStore,
    wallet_id: &str,
    device_id: &str,
    now: i64,
) -> (r: Result<WalletStatusResponse, WalletError>)
    requires
        old(store).wf(),
    ensures
        final(store).wf(),
        !has_wallet(old(store).wallets@, wallet_id@) ==> (r matches Err(e) && e
            == WalletError::WalletNotFound) && final(store).wallets@ == old(store).wallets@,
        has_wallet(old(store).wallets@, wallet_id@) ==> (find_wallet(
            old(store).wallets@,
            wallet_id@,
        ) matches Option::Some(i) && {
            let w0 = old(store).wallets@[i];
            let w1 = with_last_seen(w0, spec_touch(w0.last_seen_at, now));
            if w0.device_id@ != device_id@ {
                (r matches Err(e) && e == WalletError::BindingViolation) && final(store).wallets@
                    == old(store).wallets@
            } else {
                (r matches Ok(resp) && resp == spec_status_response(w1, Option::None))
                    && final(store).wallets@ == old(store).wallets@.update(i, w1)
            }
        }),
{
    let w = match authorize_status_read(store, wallet_id, device_id, now) {
        Err(e) => {
            return Err(e);
        },
        Ok(w) => w,
    };
    Ok(status_response(&w, None))
}

/// Liveness never moves backward: across two authorized reads at times
/// `t1` then `t2`, the stored timestamp after the second read is no
/// earlier than after the first, whatever order the clock readings arrive
/// in; and the first read never lowers an already-stored timestamp.
pub proof fn lemma_last_seen_monotonic(prev: Option<i64>, t1: i64, t2: i64)
    ensures
        spec_touch(prev, t1) <= spec_touch(Option::Some(spec_touch(prev, t1)), t2),
        prev matches Some(p) ==> p <= spec_touch(prev, t1),
{
}

} // verus!
