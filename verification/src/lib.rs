//! A verified engine that checks that every published release in an update
//! graph carries a cryptographically valid, retrievable signature.
//!
//! The engine loads a trust keyring from armored public-key blobs, decides
//! which releases are in scope for signature checking, builds the store URL
//! for each candidate signature slot, verifies fetched signature artifacts
//! against the keyring, searches the bounded slot space per release, and
//! aggregates the per-release outcomes into a run-level result.
//!
//! Network and filesystem access stay outside this crate: callers hand in the
//! bytes they read and perform the fetches that the slot search asks for.

pub mod framing;
pub mod keyring;
pub mod release;
pub mod report;
pub mod search;
pub mod signature;
pub mod text;
pub mod version;
