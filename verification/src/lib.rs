//! Custody and provenance logic of a cross-chain NFT bridge.
//!
//! The library models the on-ledger state that the bridge programs own —
//! the escrow root, per-asset custody slots, asset and collection provenance
//! records, and the mirror assets minted for foreign collections — and
//! verifies the state machine that locks, releases and mirrors assets.
//! Deterministic account addresses are computed through the ledger's
//! program-derived-address scheme.

pub mod addr;
pub mod bytemap;
pub mod bytes;
pub mod state;
pub mod error;
pub mod keys;
pub mod laws;
pub mod mirror;
pub mod records;
