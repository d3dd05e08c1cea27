//! What holds of the registry whatever it contains and whoever asks.
//!
//! Every statement here is about the ledger and the outcomes of the three
//! requests, the same functions in which the registry's own contracts are
//! written, so each one holds of every registry and every sequence of calls.
use crate::model::{
    after_create, after_revoke, after_transfer, claim_on, create_outcome, revoke_outcome,
    transfer_outcome, within_limit, Ledger,
};
use crate::types::{AccountId, BlockNumber, Claim, Error};
use vstd::prelude::*;

verus! {

/// Once `first` has claimed a fingerprint, nobody can claim it again, `first`
/// included.
pub proof fn law_claimed_once(
    ledger: Ledger,
    limit: nat,
    first: AccountId,
    second: AccountId,
    fingerprint: Seq<u8>,
    now: BlockNumber,
    later: BlockNumber,
)
    requires
        create_outcome(ledger, limit, first, fingerprint, now) is Ok,
    ensures
        create_outcome(
            after_create(ledger, limit, first, fingerprint, now),
            limit,
            second,
            fingerprint,
            later,
        ) == Err::<Claim, Error>(Error::ProofAlreadyClaimed),
{
}

/// While a fingerprint has a claim on it, every request to claim it is
/// refused as already claimed.
pub proof fn law_no_second_claim(
    ledger: Ledger,
    limit: nat,
    sender: AccountId,
    fingerprint: Seq<u8>,
    now: BlockNumber,
)
    requires
        within_limit(ledger, limit),
        ledger.contains_key(fingerprint),
    ensures
        create_outcome(ledger, limit, sender, fingerprint, now) == Err::<Claim, Error>(
            Error::ProofAlreadyClaimed,
        ),
{
}

/// A claim stays until its own revocation succeeds: no request to claim or
/// to transfer, no revocation of another fingerprint and no refused
/// revocation takes it away.
pub proof fn law_claim_stays(
    ledger: Ledger,
    limit: nat,
    fingerprint: Seq<u8>,
    sender: AccountId,
    receiver: AccountId,
    other: Seq<u8>,
    now: BlockNumber,
)
    requires
        ledger.contains_key(fingerprint),
    ensures
        after_create(ledger, limit, sender, other, now).contains_key(fingerprint),
        after_transfer(ledger, sender, receiver, other, now).contains_key(fingerprint),
        other != fingerprint || revoke_outcome(ledger, sender, other) is Err ==> after_revoke(
            ledger,
            sender,
            other,
        ).contains_key(fingerprint),
{
}

/// A fingerprint without a claim stays without one until a request to claim
/// it succeeds: no request about another fingerprint, no transfer, no
/// revocation and no refused request gives it one.
pub proof fn law_absence_stays(
    ledger: Ledger,
    limit: nat,
    fingerprint: Seq<u8>,
    sender: AccountId,
    receiver: AccountId,
    other: Seq<u8>,
    now: BlockNumber,
)
    requires
        !ledger.contains_key(fingerprint),
    ensures
        !after_transfer(ledger, sender, receiver, other, now).contains_key(fingerprint),
        !after_revoke(ledger, sender, other).contains_key(fingerprint),
        other != fingerprint || create_outcome(ledger, limit, sender, other, now) is Err
            ==> !after_create(ledger, limit, sender, other, now).contains_key(fingerprint),
{
}

/// Nobody but the holder of a claim can transfer or revoke it.
pub proof fn law_holder_only(
    ledger: Ledger,
    holder: AccountId,
    sender: AccountId,
    receiver: AccountId,
    fingerprint: Seq<u8>,
    now: BlockNumber,
)
    requires
        ledger.contains_key(fingerprint),
        ledger[fingerprint].owner == holder,
        sender != holder,
    ensures
        transfer_outcome(ledger, sender, receiver, fingerprint, now) == Err::<Claim, Error>(
            Error::NotProofOwner,
        ),
        revoke_outcome(ledger, sender, fingerprint) == Err::<(), Error>(Error::NotProofOwner),
{
}

/// A fingerprint without a claim can be neither transferred nor revoked.
pub proof fn law_nothing_to_change(
    ledger: Ledger,
    sender: AccountId,
    receiver: AccountId,
    fingerprint: Seq<u8>,
    now: BlockNumber,
)
    requires
        !ledger.contains_key(fingerprint),
    ensures
        transfer_outcome(ledger, sender, receiver, fingerprint, now) == Err::<Claim, Error>(
            Error::NoSuchProof,
        ),
        revoke_outcome(ledger, sender, fingerprint) == Err::<(), Error>(Error::NoSuchProof),
{
}

/// The holder of a claim can always transfer it, to anyone, and can always
/// revoke it.
pub proof fn law_holder_may(
    ledger: Ledger,
    holder: AccountId,
    receiver: AccountId,
    fingerprint: Seq<u8>,
    now: BlockNumber,
)
    requires
        ledger.contains_key(fingerprint),
        ledger[fingerprint].owner == holder,
    ensures
        transfer_outcome(ledger, holder, receiver, fingerprint, now) == Ok::<Claim, Error>(
            Claim { owner: receiver, registered_at: now },
        ),
        revoke_outcome(ledger, holder, fingerprint) == Ok::<(), Error>(()),
{
}

/// After a transfer the claim is the receiver's and dates from the transfer;
/// nothing of the claim before it is left.
pub proof fn law_transfer_rewrites(
    ledger: Ledger,
    sender: AccountId,
    receiver: AccountId,
    fingerprint: Seq<u8>,
    now: BlockNumber,
)
    requires
        transfer_outcome(ledger, sender, receiver, fingerprint, now) is Ok,
    ensures
        claim_on(after_transfer(ledger, sender, receiver, fingerprint, now), fingerprint) == Some(
            Claim { owner: receiver, registered_at: now },
        ),
        after_transfer(ledger, sender, receiver, fingerprint, now).dom() == ledger.dom(),
{
    assert(ledger.dom().insert(fingerprint) =~= ledger.dom());
}

/// After a revocation the fingerprint has no claim, cannot be transferred or
/// revoked, and is free for anyone to claim.
pub proof fn law_revoke_clears(
    ledger: Ledger,
    limit: nat,
    sender: AccountId,
    next: AccountId,
    receiver: AccountId,
    fingerprint: Seq<u8>,
    later: BlockNumber,
)
    requires
        within_limit(ledger, limit),
        revoke_outcome(ledger, sender, fingerprint) is Ok,
    ensures
        claim_on(after_revoke(ledger, sender, fingerprint), fingerprint) == None::<Claim>,
        create_outcome(after_revoke(ledger, sender, fingerprint), limit, next, fingerprint, later)
            == Ok::<Claim, Error>(Claim { owner: next, registered_at: later }),
        transfer_outcome(
            after_revoke(ledger, sender, fingerprint),
            next,
            receiver,
            fingerprint,
            later,
        ) == Err::<Claim, Error>(Error::NoSuchProof),
        revoke_outcome(after_revoke(ledger, sender, fingerprint), next, fingerprint) == Err::<
            (),
            Error,
        >(Error::NoSuchProof),
{
}

/// A fingerprint that is too long is refused as such, whatever the ledger
/// holds, and leaves no trace in it.
pub proof fn law_too_long_refused(
    ledger: Ledger,
    limit: nat,
    sender: AccountId,
    fingerprint: Seq<u8>,
    now: BlockNumber,
)
    requires
        fingerprint.len() > limit,
    ensures
        create_outcome(ledger, limit, sender, fingerprint, now) == Err::<Claim, Error>(
            Error::FingerprintTooLong,
        ),
        after_create(ledger, limit, sender, fingerprint, now) == ledger,
{
}

/// No request brings a fingerprint that is too long into the ledger.
pub proof fn law_limit_kept(
    ledger: Ledger,
    limit: nat,
    sender: AccountId,
    receiver: AccountId,
    fingerprint: Seq<u8>,
    now: BlockNumber,
)
    requires
        within_limit(ledger, limit),
    ensures
        within_limit(after_create(ledger, limit, sender, fingerprint, now), limit),
        within_limit(after_transfer(ledger, sender, receiver, fingerprint, now), limit),
        within_limit(after_revoke(ledger, sender, fingerprint), limit),
{
}

/// A refused request leaves the ledger as it was.
pub proof fn law_refusal_changes_nothing(
    ledger: Ledger,
    limit: nat,
    sender: AccountId,
    receiver: AccountId,
    fingerprint: Seq<u8>,
    now: BlockNumber,
)
    ensures
        create_outcome(ledger, limit, sender, fingerprint, now) is Err ==> after_create(
            ledger,
            limit,
            sender,
            fingerprint,
            now,
        ) == ledger,
        transfer_outcome(ledger, sender, receiver, fingerprint, now) is Err ==> after_transfer(
            ledger,
            sender,
            receiver,
            fingerprint,
            now,
        ) == ledger,
        revoke_outcome(ledger, sender, fingerprint) is Err ==> after_revoke(
            ledger,
            sender,
            fingerprint,
        ) == ledger,
{
}

/// A request about one fingerprint changes nothing about any other.
pub proof fn law_others_untouched(
    ledger: Ledger,
    limit: nat,
    sender: AccountId,
    receiver: AccountId,
    fingerprint: Seq<u8>,
    other: Seq<u8>,
    now: BlockNumber,
)
    requires
        other != fingerprint,
    ensures
        claim_on(after_create(ledger, limit, sender, fingerprint, now), other) == claim_on(
            ledger,
            other,
        ),
        claim_on(after_transfer(ledger, sender, receiver, fingerprint, now), other) == claim_on(
            ledger,
            other,
        ),
        claim_on(after_revoke(ledger, sender, fingerprint), other) == claim_on(ledger, other),
{
}

/// While the host's counter does not run backwards, a transfer never gives a
/// claim an older date than the one it had.
pub proof fn law_dates_never_older(
    ledger: Ledger,
    sender: AccountId,
    receiver: AccountId,
    fingerprint: Seq<u8>,
    now: BlockNumber,
)
    requires
        ledger.contains_key(fingerprint),
        ledger[fingerprint].registered_at <= now,
    ensures
        after_transfer(ledger, sender, receiver, fingerprint, now)[fingerprint].registered_at
            >= ledger[fingerprint].registered_at,
{
}

} // verus!
