//! The three decisions of the registry, on plain values.
//!
//! Each rule looks at the claim that a fingerprint has at the moment, if it
//! has one, and at who is asking. It answers with what the fingerprint's
//! claim is to become, or with the reason for refusing. Nothing here knows
//! how claims are stored, so a host that keeps them in a store of its own
//! can apply the same rules to what it read from there.
use crate::types::{AccountId, BlockNumber, Claim, Error};
use vstd::prelude::*;

verus! {

/// A fingerprint may be claimed when nobody has a claim on it; the claim then
/// belongs to `sender` and dates from `now`.
pub open spec fn create_rule(
    existing: Option<Claim>,
    sender: AccountId,
    now: BlockNumber,
) -> Result<Claim, Error> {
    match existing {
        Some(_) => Err(Error::ProofAlreadyClaimed),
        None => Ok(Claim { owner: sender, registered_at: now }),
    }
}

/// Only the holder of a claim may change it.
pub open spec fn holder_rule(existing: Option<Claim>, sender: AccountId) -> Result<(), Error> {
    match existing {
        None => Err(Error::NoSuchProof),
        Some(claim) => if claim.owner == sender {
            Ok(())
        } else {
            Err(Error::NotProofOwner)
        },
    }
}

/// The holder of a claim may hand it to `receiver`, who may be anyone, the
/// holder included; the claim then dates from `now`.
pub open spec fn transfer_rule(
    existing: Option<Claim>,
    sender: AccountId,
    receiver: AccountId,
    now: BlockNumber,
) -> Result<Claim, Error> {
    match holder_rule(existing, sender) {
        Ok(()) => Ok(Claim { owner: receiver, registered_at: now }),
        Err(refusal) => Err(refusal),
    }
}

/// The holder of a claim may give it up.
pub open spec fn revoke_rule(existing: Option<Claim>, sender: AccountId) -> Result<(), Error> {
    holder_rule(existing, sender)
}

/// Decides a request of `sender` to claim a fingerprint whose claim at the
/// moment is `existing`.
pub fn check_create(existing: Option<Claim>, sender: AccountId, now: BlockNumber) -> (decision:
    Result<Claim, Error>)
    ensures
        decision == create_rule(existing, sender, now),
{
    match existing {
        Some(_) => Err(Error::ProofAlreadyClaimed),
        None => Ok(Claim { owner: sender, registered_at: now }),
    }
}

/// Decides whether `sender` may change the claim `existing`.
pub fn check_holder(existing: Option<Claim>, sender: AccountId) -> (decision: Result<(), Error>)
    ensures
        decision == holder_rule(existing, sender),
{
    match existing {
        None => Err(Error::NoSuchProof),
        Some(claim) => {
            if claim.owner == sender {
                Ok(())
            } else {
                Err(Error::NotProofOwner)
            }
        },
    }
}

/// Decides a request of `sender` to hand the claim `existing` to `receiver`.
pub fn check_transfer(
    existing: Option<Claim>,
    sender: AccountId,
    receiver: AccountId,
    now: BlockNumber,
) -> (decision: Result<Claim, Error>)
    ensures
        decision == transfer_rule(existing, sender, receiver, now),
{
    match check_holder(existing, sender) {
        Ok(()) => Ok(Claim { owner: receiver, registered_at: now }),
        Err(refusal) => Err(refusal),
    }
}

/// Decides a request of `sender` to give up the claim `existing`.
pub fn check_revoke(existing: Option<Claim>, sender: AccountId) -> (decision: Result<(), Error>)
    ensures
        decision == revoke_rule(existing, sender),
{
    check_holder(existing, sender)
}

} // verus!
