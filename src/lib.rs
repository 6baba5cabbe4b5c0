//! A proof-of-existence claim registry.
//!
//! An account registers a claim over an opaque byte string (the proof) and may later revoke
//! it. A proof is held by at most one account at a time, and only the account that holds it
//! can revoke it.

pub mod laws;
pub mod pallet;
pub mod types;

pub use pallet::{Claims, Pallet};
pub use types::{AccountId, BlockNumber, Error, Event};
