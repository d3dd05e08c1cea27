//! A proof-of-existence registry.
//!
//! An authenticated caller claims a fingerprint (a bounded byte string,
//! usually a content hash), hands the claim to somebody else, or revokes it.
//! The [`Pallet`] keeps one claim per fingerprint and answers every request
//! with the event to publish or with the reason for refusing it.
pub mod fingerprint;
pub mod laws;
pub mod model;
pub mod registry;
pub mod rules;
pub mod types;

pub use fingerprint::Fingerprint;
pub use registry::Pallet;
pub use types::{AccountId, BlockNumber, Claim, Config, Error, Event};
