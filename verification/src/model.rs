//! The registry as mathematics: a map from fingerprint bytes to claims, and
//! what each request makes of it.
use crate::rules::{create_rule, revoke_rule, transfer_rule};
use crate::types::{AccountId, BlockNumber, Claim, Error};
use vstd::prelude::*;

verus! {

/// The claims of a registry, by the bytes of their fingerprints. A
/// fingerprint is a key exactly while a claim on it is live.
pub type Ledger = Map<Seq<u8>, Claim>;

/// The claim on `fingerprint`, if it has one.
pub open spec fn claim_on(ledger: Ledger, fingerprint: Seq<u8>) -> Option<Claim> {
    if ledger.contains_key(fingerprint) {
        Some(ledger[fingerprint])
    } else {
        None
    }
}

/// No fingerprint with a claim is longer than `limit` bytes.
pub open spec fn within_limit(ledger: Ledger, limit: nat) -> bool {
    forall|fingerprint: Seq<u8>| #[trigger]
        ledger.contains_key(fingerprint) ==> fingerprint.len() <= limit
}

/// How a request of `sender` to claim `fingerprint` is answered: with the claim to
/// record, or with the reason for refusing. The length is looked at first,
/// the ledger only for a fingerprint that is short enough.
pub open spec fn create_outcome(
    ledger: Ledger,
    limit: nat,
    sender: AccountId,
    fingerprint: Seq<u8>,
    now: BlockNumber,
) -> Result<Claim, Error> {
    if fingerprint.len() > limit {
        Err(Error::FingerprintTooLong)
    } else {
        create_rule(claim_on(ledger, fingerprint), sender, now)
    }
}

/// The ledger after a request of `sender` to claim `fingerprint`.
pub open spec fn after_create(
    ledger: Ledger,
    limit: nat,
    sender: AccountId,
    fingerprint: Seq<u8>,
    now: BlockNumber,
) -> Ledger {
    match create_outcome(ledger, limit, sender, fingerprint, now) {
        Ok(claim) => ledger.insert(fingerprint, claim),
        Err(_) => ledger,
    }
}

/// How a request of `sender` to hand the claim on `fingerprint` to `receiver` is
/// answered: with the claim to record, or with the reason for refusing.
pub open spec fn transfer_outcome(
    ledger: Ledger,
    sender: AccountId,
    receiver: AccountId,
    fingerprint: Seq<u8>,
    now: BlockNumber,
) -> Result<Claim, Error> {
    transfer_rule(claim_on(ledger, fingerprint), sender, receiver, now)
}

/// The ledger after a request of `sender` to hand the claim on `fingerprint` to
/// `receiver`.
pub open spec fn after_transfer(
    ledger: Ledger,
    sender: AccountId,
    receiver: AccountId,
    fingerprint: Seq<u8>,
    now: BlockNumber,
) -> Ledger {
    match transfer_outcome(ledger, sender, receiver, fingerprint, now) {
        Ok(claim) => ledger.insert(fingerprint, claim),
        Err(_) => ledger,
    }
}

/// How a request of `sender` to give up the claim on `fingerprint` is answered.
pub open spec fn revoke_outcome(ledger: Ledger, sender: AccountId, fingerprint: Seq<u8>) -> Result<
    (),
    Error,
> {
    revoke_rule(claim_on(ledger, fingerprint), sender)
}

/// The ledger after a request of `sender` to give up the claim on `fingerprint`.
pub open spec fn after_revoke(ledger: Ledger, sender: AccountId, fingerprint: Seq<u8>) -> Ledger {
    match revoke_outcome(ledger, sender, fingerprint) {
        Ok(()) => ledger.remove(fingerprint),
        Err(_) => ledger,
    }
}

} // verus!
