//! Verified core of a Lightning-wallet provisioning backend.
//!
//! The library binds one wallet to one device identity and phone number,
//! records creation of a Lightning node (remote or managed on the device),
//! decides the bounded first-channel liquidity, persists wallet metadata in
//! a store whose one-wallet-per-device invariant is proved, and enforces
//! device binding on every status read. All I/O — HTTP transport, the remote
//! node service, durable storage — lives outside, behind plain-value
//! boundaries.

pub mod breez;
pub mod config;
pub mod error;
pub mod health;
pub mod idgen;
pub mod mnemonic;
pub mod models;
pub mod store;
pub mod strutil;
pub mod wallets;
