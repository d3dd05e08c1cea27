//! The plain values that the registry stores, takes and hands back.
use crate::fingerprint::Fingerprint;
use vstd::prelude::*;

verus! {

/// Identity of a caller, already authenticated by the host.
pub type AccountId = u64;

/// A reading of the host's sequence counter, such as a block height.
pub type BlockNumber = u64;

/// Who holds a fingerprint, and the counter reading at which they got it.
#[derive(Clone, Copy, Debug, PartialEq, Eq, Structural)]
pub struct Claim {
    pub owner: AccountId,
    pub registered_at: BlockNumber,
}

/// Why a request was refused.
#[derive(Clone, Copy, Debug, PartialEq, Eq, Structural)]
pub enum Error {
    /// The fingerprint has more bytes than the configuration allows.
    FingerprintTooLong,
    /// The fingerprint already has a claim on it.
    ProofAlreadyClaimed,
    /// The fingerprint has no claim on it.
    NoSuchProof,
    /// The caller does not hold the claim on the fingerprint.
    NotProofOwner,
}

/// What a successful request tells the outside world.
#[derive(Clone, Debug, PartialEq, Eq)]
pub enum Event {
    /// `ClaimCreated(owner, fingerprint)`
    ClaimCreated(AccountId, Fingerprint),
    /// `ClaimRevoked(owner, fingerprint)`
    ClaimRevoked(AccountId, Fingerprint),
    /// `ClaimTransferred(previous owner, new owner, fingerprint)`
    ClaimTransferred(AccountId, AccountId, Fingerprint),
}

/// The one setting of a registry: the longest fingerprint it takes, in bytes.
#[derive(Clone, Copy, Debug, PartialEq, Eq)]
pub struct Config {
    max_bytes_in_hash: u32,
}

impl Config {
    #[verifier::type_invariant]
    spec fn positive(self) -> bool {
        self.max_bytes_in_hash > 0
    }

    /// The longest fingerprint this configuration allows, in bytes.
    pub closed spec fn limit(self) -> nat {
        self.max_bytes_in_hash as nat
    }

    /// A configuration that allows fingerprints of up to `max_bytes_in_hash` bytes.
    pub fn new(max_bytes_in_hash: u32) -> (config: Config)
        requires
            max_bytes_in_hash > 0,
        ensures
            config.limit() == max_bytes_in_hash,
    {
        Config { max_bytes_in_hash }
    }

    /// The longest fingerprint this configuration allows, in bytes.
    pub fn max_bytes_in_hash(&self) -> (max: u32)
        ensures
            max == self.limit(),
            max > 0,
    {
        proof {
            use_type_invariant(self);
        }
        self.max_bytes_in_hash
    }
}

} // verus!
