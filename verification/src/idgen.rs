//! Wallet-id generation: time-ordered unique identifiers.
use vstd::prelude::*;

verus! {

/// Relies on `uuid::Uuid::now_v7` and its `Display` rendering: a version-7
/// UUID in the hyphenated form, 36 ASCII characters (lower-case hex digits
/// and hyphens). The value depends on the clock and on randomness, so
/// nothing more is assumed of it.
#[verifier::external_body]
pub(crate) fn new_wallet_id() -> (r: String)
    ensures
        r@.len() == 36,
        vstd::utf8::is_ascii_chars(r@),
{
    uuid::Uuid::now_v7().to_string()
}

} // verus!
