//! Error taxonomy of the core, and its mapping to the boundary surface.
//!
//! [`WalletError`] distinguishes every failure the core can decide;
//! [`AppError`] is the two-sided shape the transport layer sees: a
//! `BadRequest` with a user-readable message for user-fixable failures, and
//! an opaque `Internal` for everything else. Not-found and binding-violation
//! failures are deliberately mapped to the same kind of `BadRequest` so a
//! caller cannot probe which wallet ids exist.
use vstd::prelude::*;
use vstd::string::StringExecFns;

verus! {

/// Every failure the wallet core distinguishes.
#[derive(Clone, Copy, Debug, PartialEq, Eq, Structural)]
pub enum WalletError {
    /// The phone is not `+234` followed by ten digits.
    InvalidPhone,
    /// The backup type is not `none`, `social` or `seed`.
    InvalidBackupType,
    /// The device already has a wallet bound to it.
    DeviceAlreadyBound,
    /// No wallet carries the requested id.
    WalletNotFound,
    /// The wallet exists but is bound to another device.
    BindingViolation,
    /// The remote node service failed while provisioning.
    ProvisioningFailed,
    /// The recovery-phrase generator failed.
    MnemonicFailed,
    /// The wallet store failed to persist or read a record.
    Storage,
}

/// The boundary error surface: message for the caller, or opaque failure.
#[derive(Debug)]
pub enum AppError {
    BadRequest(String),
    Internal(String),
}

impl WalletError {
    /// True for the user-fixable failures that surface as `BadRequest`.
    pub open spec fn is_bad_request(self) -> bool {
        match self {
            WalletError::InvalidPhone => true,
            WalletError::InvalidBackupType => true,
            WalletError::DeviceAlreadyBound => true,
            WalletError::WalletNotFound => true,
            WalletError::BindingViolation => true,
            WalletError::ProvisioningFailed => false,
            WalletError::MnemonicFailed => false,
            WalletError::Storage => false,
        }
    }

    /// Map a core failure to the boundary surface: validation, conflict,
    /// not-found and binding failures become `BadRequest` with a fixed
    /// message; provisioning and storage failures become `Internal`.
    pub fn to_app_error(self) -> (r: AppError)
        ensures
            self.is_bad_request() <==> r matches AppError::BadRequest(_),
            self == WalletError::InvalidPhone ==> (r matches AppError::BadRequest(m) && m@
                == "Phone must be +234xxxxxxxxxx"@),
            self == WalletError::InvalidBackupType ==> (r matches AppError::BadRequest(m) && m@
                == "backup_type must be 'none', 'social', or 'seed'"@),
            self == WalletError::DeviceAlreadyBound ==> (r matches AppError::BadRequest(m) && m@
                == "Device already bound to a wallet"@),
            self == WalletError::WalletNotFound ==> (r matches AppError::BadRequest(m) && m@
                == "Wallet not found"@),
            self == WalletError::BindingViolation ==> (r matches AppError::BadRequest(m) && m@
                == "This wallet is bound to another device"@),
            self == WalletError::ProvisioningFailed ==> (r matches AppError::Internal(m) && m@
                == "node provisioning failed"@),
            self == WalletError::MnemonicFailed ==> (r matches AppError::Internal(m) && m@
                == "Failed to generate mnemonic"@),
            self == WalletError::Storage ==> (r matches AppError::Internal(m) && m@
                == "storage failure"@),
    {
        match self {
            WalletError::InvalidPhone => AppError::BadRequest(
                String::from_str("Phone must be +234xxxxxxxxxx"),
            ),
            WalletError::InvalidBackupType => AppError::BadRequest(
                String::from_str("backup_type must be 'none', 'social', or 'seed'"),
            ),
            WalletError::DeviceAlreadyBound => AppError::BadRequest(
                String::from_str("Device already bound to a wallet"),
            ),
            WalletError::WalletNotFound => AppError::BadRequest(
                String::from_str("Wallet not found"),
            ),
            WalletError::BindingViolation => AppError::BadRequest(
                String::from_str("This wallet is bound to another device"),
            ),
            WalletError::ProvisioningFailed => AppError::Internal(
                String::from_str("node provisioning failed"),
            ),
            WalletError::MnemonicFailed => AppError::Internal(
                String::from_str("Failed to generate mnemonic"),
            ),
            WalletError::Storage => AppError::Internal(String::from_str("storage failure")),
        }
    }
}

impl AppError {
    /// The status code and body the transport layer should answer with.
    /// A `BadRequest` keeps its message; an `Internal` failure is surfaced
    /// as an opaque generic message so no detail leaks to the response.
    pub fn response_parts(&self) -> (r: (u16, String))
        ensures
            self matches AppError::BadRequest(m) ==> r.0 == 400 && r.1@ == m@,
            self matches AppError::Internal(_) ==> r.0 == 500 && r.1@ == "Server error"@,
    {
        match self {
            AppError::BadRequest(m) => (400, m.clone()),
            AppError::Internal(_) => (500, String::from_str("Server error")),
        }
    }
}

} // verus!
