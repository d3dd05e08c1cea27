//! The registry itself: the claims it keeps and the three requests it takes.
use crate::fingerprint::Fingerprint;
use crate::model::{
    after_create, after_revoke, after_transfer, claim_on, create_outcome, revoke_outcome,
    transfer_outcome, within_limit, Ledger,
};
use crate::rules::{check_create, check_revoke, check_transfer};
use crate::types::{AccountId, BlockNumber, Claim, Config, Error, Event};
use vstd::prelude::*;

verus! {

/// The bytes of each fingerprint of a list, in the same order.
spec fn keys_of(fingerprints: Seq<Fingerprint>) -> Seq<Seq<u8>> {
    fingerprints.map_values(|fingerprint: Fingerprint| fingerprint@)
}

/// The ledger that a list of keys and the list of their claims stand for.
spec fn ledger_of(keys: Seq<Seq<u8>>, claims: Seq<Claim>) -> Ledger {
    Map::new(|key: Seq<u8>| keys.contains(key), |key: Seq<u8>| claims[keys.index_of(key)])
}

/// Among keys without duplicates, the key at `i` is found at `i`.
proof fn lemma_slot(keys: Seq<Seq<u8>>, claims: Seq<Claim>, i: int)
    requires
        keys.no_duplicates(),
        0 <= i < keys.len(),
    ensures
        keys.contains(keys[i]),
        keys.index_of(keys[i]) == i,
        claim_on(ledger_of(keys, claims), keys[i]) == Some(claims[i]),
{
    assert(keys.contains(keys[i]));
    let found = keys.index_of(keys[i]);
    assert(0 <= found < keys.len() && keys[found] == keys[i]);
}

/// A new key with its claim is one more entry of the ledger.
proof fn lemma_push(keys: Seq<Seq<u8>>, claims: Seq<Claim>, key: Seq<u8>, claim: Claim)
    requires
        keys.no_duplicates(),
        keys.len() == claims.len(),
        !keys.contains(key),
    ensures
        keys.push(key).no_duplicates(),
        ledger_of(keys.push(key), claims.push(claim)) == ledger_of(keys, claims).insert(
            key,
            claim,
        ),
{
    let grown = keys.push(key);
    assert forall|i: int, j: int| 0 <= i < grown.len() && 0 <= j < grown.len() && i != j implies
        grown[i] != grown[j] by {
        if i < keys.len() && j < keys.len() {
            assert(keys[i] != keys[j]);
        } else if i < keys.len() {
            assert(keys.contains(keys[i]));
        } else {
            assert(keys.contains(keys[j]));
        }
    }
    assert forall|other: Seq<u8>| grown.contains(other) <==> (other == key || keys.contains(
        other,
    )) by {
        if keys.contains(other) {
            assert(grown[keys.index_of(other)] == other);
        }
        if other == key {
            assert(grown[keys.len() as int] == other);
        }
        if grown.contains(other) && other != key {
            assert(keys[grown.index_of(other)] == other);
        }
    }
    assert forall|other: Seq<u8>| grown.contains(other) implies claims.push(
        claim,
    )[grown.index_of(other)] == (if other == key {
        claim
    } else {
        claims[keys.index_of(other)]
    }) by {
        if other == key {
            lemma_slot(grown, claims.push(claim), keys.len() as int);
        } else {
            let i = keys.index_of(other);
            assert(grown[i] == other);
            lemma_slot(grown, claims.push(claim), i);
        }
    }
    assert(ledger_of(grown, claims.push(claim)) =~= ledger_of(keys, claims).insert(key, claim));
}

/// A new claim at `i` is a new value under the key at `i`.
proof fn lemma_update(keys: Seq<Seq<u8>>, claims: Seq<Claim>, i: int, claim: Claim)
    requires
        keys.no_duplicates(),
        keys.len() == claims.len(),
        0 <= i < keys.len(),
    ensures
        ledger_of(keys, claims.update(i, claim)) == ledger_of(keys, claims).insert(keys[i], claim),
{
    lemma_slot(keys, claims, i);
    assert(ledger_of(keys, claims.update(i, claim)) =~= ledger_of(keys, claims).insert(
        keys[i],
        claim,
    ));
}

/// Without the key and the claim at `i`, the ledger is without that key.
proof fn lemma_remove(keys: Seq<Seq<u8>>, claims: Seq<Claim>, i: int)
    requires
        keys.no_duplicates(),
        keys.len() == claims.len(),
        0 <= i < keys.len(),
    ensures
        keys.remove(i).no_duplicates(),
        ledger_of(keys.remove(i), claims.remove(i)) == ledger_of(keys, claims).remove(keys[i]),
{
    let rest = keys.remove(i);
    let gone = keys[i];
    assert forall|a: int, b: int| 0 <= a < rest.len() && 0 <= b < rest.len() && a != b implies
        rest[a] != rest[b] by {
        let a0 = if a < i { a } else { a + 1 };
        let b0 = if b < i { b } else { b + 1 };
        assert(keys[a0] != keys[b0]);
    }
    assert forall|other: Seq<u8>| rest.contains(other) <==> (keys.contains(other) && other
        != gone) by {
        if keys.contains(other) && other != gone {
            let a = keys.index_of(other);
            let a1 = if a < i { a } else { a - 1 };
            assert(rest[a1] == other);
        }
        if rest.contains(other) {
            let a = rest.index_of(other);
            let a0 = if a < i { a } else { a + 1 };
            assert(keys[a0] == other);
            assert(keys[a0] != keys[i]);
        }
    }
    assert forall|other: Seq<u8>| rest.contains(other) implies claims.remove(i)[rest.index_of(
        other,
    )] == claims[keys.index_of(other)] by {
        let a = rest.index_of(other);
        let a0 = if a < i { a } else { a + 1 };
        assert(keys[a0] == other);
        lemma_slot(keys, claims, a0);
    }
    assert(ledger_of(rest, claims.remove(i)) =~= ledger_of(keys, claims).remove(gone));
}

/// The registry: every live claim, under the fingerprint it is on.
///
/// Seen from outside it is a [`Ledger`], a map from fingerprint bytes to
/// claims. A request either changes that map and answers with the event to
/// publish, or leaves the registry exactly as it was and answers with the
/// reason.
///
/// Two registries are `==` when they have the same configuration and the same
/// live claims, made in the same order.
#[derive(Debug, PartialEq, Eq)]
pub struct Pallet {
    config: Config,
    /// The fingerprints that have a claim, each once.
    fingerprints: Vec<Fingerprint>,
    /// The claim on each of them, at the same place.
    claims: Vec<Claim>,
}

impl View for Pallet {
    type V = Ledger;

    closed spec fn view(&self) -> Ledger {
        ledger_of(keys_of(self.fingerprints@), self.claims@)
    }
}

impl Pallet {
    #[verifier::type_invariant]
    spec fn well_formed(self) -> bool {
        &&& self.fingerprints.len() == self.claims.len()
        &&& keys_of(self.fingerprints@).no_duplicates()
        &&& forall|i: int|
            0 <= i < self.fingerprints.len() ==> (#[trigger] self.fingerprints[i])@.len()
                <= self.config.limit()
    }

    /// The longest fingerprint that this registry takes, in bytes.
    pub closed spec fn limit(self) -> nat {
        self.config.limit()
    }

    /// A registry without claims.
    pub fn new(config: Config) -> (pallet: Pallet)
        ensures
            pallet@ == Ledger::empty(),
            pallet.limit() == config.limit(),
    {
        let pallet = Pallet { config, fingerprints: Vec::new(), claims: Vec::new() };
        assert(pallet@ =~= Ledger::empty());
        pallet
    }

    /// The configuration that this registry was made with.
    pub fn config(&self) -> (config: Config)
        ensures
            config.limit() == self.limit(),
            within_limit(self@, self.limit()),
    {
        proof {
            use_type_invariant(self);
            self.lemma_within_limit();
        }
        self.config
    }

    /// No fingerprint with a claim is longer than the registry takes.
    proof fn lemma_within_limit(self)
        requires
            self.well_formed(),
        ensures
            within_limit(self@, self.limit()),
    {
        let keys = keys_of(self.fingerprints@);
        assert forall|key: Seq<u8>| #[trigger] self@.contains_key(key) implies key.len()
            <= self.limit() by {
            let i = keys.index_of(key);
            assert(self.fingerprints[i]@ == key);
        }
    }

    /// Where `fingerprint` stands in the list, if it has a claim.
    fn locate(&self, fingerprint: &Fingerprint) -> (found: Option<usize>)
        ensures
            match found {
                Some(i) => {
                    &&& i < self.claims.len()
                    &&& i < self.fingerprints.len()
                    &&& self.fingerprints[i as int]@ == fingerprint@
                    &&& claim_on(self@, fingerprint@) == Some(self.claims[i as int])
                },
                None => claim_on(self@, fingerprint@) == None::<Claim>,
            },
    {
        proof {
            use_type_invariant(self);
        }
        let ghost keys = keys_of(self.fingerprints@);
        let mut i: usize = 0;
        while i < self.fingerprints.len()
            invariant
                i <= self.fingerprints.len(),
                self.fingerprints.len() == self.claims.len(),
                keys == keys_of(self.fingerprints@),
                keys.no_duplicates(),
                forall|j: int| 0 <= j < i ==> keys[j] != fingerprint@,
            decreases self.fingerprints.len() - i,
        {
            if self.fingerprints[i] == *fingerprint {
                proof {
                    assert(keys[i as int] == fingerprint@);
                    lemma_slot(keys, self.claims@, i as int);
                }
                return Some(i);
            }
            i += 1;
        }
        proof {
            if keys.contains(fingerprint@) {
                let j = keys.index_of(fingerprint@);
                assert(keys[j] == fingerprint@);
            }
        }
        None
    }

    /// The claim on `fingerprint`, if it has one.
    pub fn get(&self, fingerprint: &Fingerprint) -> (claim: Option<Claim>)
        ensures
            claim == claim_on(self@, fingerprint@),
            claim is Some ==> fingerprint@.len() <= self.limit(),
    {
        proof {
            use_type_invariant(self);
        }
        match self.locate(fingerprint) {
            Some(i) => Some(self.claims[i]),
            None => None,
        }
    }

    /// Whether `fingerprint` has a claim on it.
    pub fn contains_key(&self, fingerprint: &Fingerprint) -> (present: bool)
        ensures
            present == self@.contains_key(fingerprint@),
    {
        self.locate(fingerprint).is_some()
    }

    /// Claims `fingerprint` for `sender`, as of the counter reading `now`.
    ///
    /// Refused with `FingerprintTooLong` for a fingerprint longer than the
    /// registry takes, whatever the registry holds, and with
    /// `ProofAlreadyClaimed` for one that has a claim on it. Otherwise the
    /// claim is recorded and `ClaimCreated` is the event to publish.
    pub fn create_claim(
        &mut self,
        sender: AccountId,
        fingerprint: Fingerprint,
        now: BlockNumber,
    ) -> (outcome: Result<Event, Error>)
        ensures
            final(self).limit() == old(self).limit(),
            final(self)@ == after_create(old(self)@, old(self).limit(), sender, fingerprint@, now),
            within_limit(final(self)@, final(self).limit()),
            match outcome {
                Ok(event) => {
                    &&& event == Event::ClaimCreated(sender, fingerprint)
                    &&& create_outcome(old(self)@, old(self).limit(), sender, fingerprint@, now)
                        is Ok
                },
                Err(refusal) => {
                    &&& *final(self) == *old(self)
                    &&& create_outcome(old(self)@, old(self).limit(), sender, fingerprint@, now)
                        == Err::<Claim, Error>(refusal)
                },
            },
    {
        proof {
            use_type_invariant(&*self);
            self.lemma_within_limit();
        }
        if !fingerprint.is_within(&self.config) {
            return Err(Error::FingerprintTooLong);
        }
        match check_create(self.get(&fingerprint), sender, now) {
            Err(refusal) => Err(refusal),
            Ok(claim) => {
                let key = fingerprint.clone();
                proof {
                    lemma_push(keys_of(self.fingerprints@), self.claims@, key@, claim);
                    assert(keys_of(self.fingerprints@.push(key)) == keys_of(
                        self.fingerprints@,
                    ).push(key@));
                }
                // Both lists grow together, so they leave the registry for
                // the moment in which their lengths differ.
                let mut taken = Pallet::new(self.config);
                std::mem::swap(self, &mut taken);
                let Pallet { config, mut fingerprints, mut claims } = taken;
                fingerprints.push(key);
                claims.push(claim);
                *self = Pallet { config, fingerprints, claims };
                proof {
                    self.lemma_within_limit();
                }
                Ok(Event::ClaimCreated(sender, fingerprint))
            },
        }
    }

    /// Hands the claim on `fingerprint` from `sender` to `receiver`, as of the
    /// counter reading `now`.
    ///
    /// Refused with `NoSuchProof` for a fingerprint without a claim and with
    /// `NotProofOwner` when the claim is not `sender`'s. Otherwise the claim
    /// is overwritten where it stands, in one assignment; the list of
    /// fingerprints is not touched. `ClaimTransferred` is the event to
    /// publish. The receiver may be anyone, the sender included.
    pub fn transfer_claim(
        &mut self,
        sender: AccountId,
        receiver: AccountId,
        fingerprint: Fingerprint,
        now: BlockNumber,
    ) -> (outcome: Result<Event, Error>)
        ensures
            final(self).limit() == old(self).limit(),
            final(self)@ == after_transfer(old(self)@, sender, receiver, fingerprint@, now),
            within_limit(final(self)@, final(self).limit()),
            match outcome {
                Ok(event) => {
                    &&& event == Event::ClaimTransferred(sender, receiver, fingerprint)
                    &&& transfer_outcome(old(self)@, sender, receiver, fingerprint@, now) is Ok
                },
                Err(refusal) => {
                    &&& *final(self) == *old(self)
                    &&& transfer_outcome(old(self)@, sender, receiver, fingerprint@, now) == Err::<
                        Claim,
                        Error,
                    >(refusal)
                },
            },
    {
        proof {
            use_type_invariant(&*self);
            self.lemma_within_limit();
        }
        let found = self.locate(&fingerprint);
        let existing = match found {
            Some(i) => Some(self.claims[i]),
            None => None,
        };
        match check_transfer(existing, sender, receiver, now) {
            Err(refusal) => Err(refusal),
            Ok(claim) => {
                // Only a claim that exists is ever handed over.
                let i = found.unwrap();
                proof {
                    lemma_update(keys_of(self.fingerprints@), self.claims@, i as int, claim);
                }
                self.claims[i] = claim;
                proof {
                    self.lemma_within_limit();
                }
                Ok(Event::ClaimTransferred(sender, receiver, fingerprint))
            },
        }
    }

    /// Gives up the claim of `sender` on `fingerprint`.
    ///
    /// Refused with `NoSuchProof` for a fingerprint without a claim and with
    /// `NotProofOwner` when the claim is not `sender`'s. Otherwise the claim
    /// is gone, the fingerprint is free for anyone to claim, and
    /// `ClaimRevoked` is the event to publish.
    pub fn revoke_claim(&mut self, sender: AccountId, fingerprint: Fingerprint) -> (outcome: Result<
        Event,
        Error,
    >)
        ensures
            final(self).limit() == old(self).limit(),
            final(self)@ == after_revoke(old(self)@, sender, fingerprint@),
            within_limit(final(self)@, final(self).limit()),
            match outcome {
                Ok(event) => {
                    &&& event == Event::ClaimRevoked(sender, fingerprint)
                    &&& revoke_outcome(old(self)@, sender, fingerprint@) is Ok
                },
                Err(refusal) => {
                    &&& *final(self) == *old(self)
                    &&& revoke_outcome(old(self)@, sender, fingerprint@) == Err::<(), Error>(
                        refusal,
                    )
                },
            },
    {
        proof {
            use_type_invariant(&*self);
            self.lemma_within_limit();
        }
        let found = self.locate(&fingerprint);
        let existing = match found {
            Some(i) => Some(self.claims[i]),
            None => None,
        };
        match check_revoke(existing, sender) {
            Err(refusal) => Err(refusal),
            Ok(()) => {
                // Only a claim that exists is ever given up.
                let i = found.unwrap();
                proof {
                    lemma_remove(keys_of(self.fingerprints@), self.claims@, i as int);
                    assert(keys_of(self.fingerprints@.remove(i as int)) == keys_of(
                        self.fingerprints@,
                    ).remove(i as int));
                }
                // Both lists shrink together, so they leave the registry for
                // the moment in which their lengths differ.
                let mut taken = Pallet::new(self.config);
                std::mem::swap(self, &mut taken);
                let Pallet { config, mut fingerprints, mut claims } = taken;
                let _ = fingerprints.remove(i);
                let _ = claims.remove(i);
                *self = Pallet { config, fingerprints, claims };
                proof {
                    self.lemma_within_limit();
                }
                Ok(Event::ClaimRevoked(sender, fingerprint))
            },
        }
    }
}

impl Clone for Pallet {
    fn clone(&self) -> (copy: Pallet)
        ensures
            copy@ == self@,
            copy.limit() == self.limit(),
    {
        proof {
            use_type_invariant(self);
        }
        let mut fingerprints: Vec<Fingerprint> = Vec::with_capacity(self.fingerprints.len());
        let mut claims: Vec<Claim> = Vec::with_capacity(self.claims.len());
        let mut i: usize = 0;
        while i < self.fingerprints.len()
            invariant
                i <= self.fingerprints.len(),
                self.fingerprints.len() == self.claims.len(),
                fingerprints.len() == i,
                keys_of(fingerprints@) == keys_of(self.fingerprints@).take(i as int),
                claims@ == self.claims@.take(i as int),
            decreases self.fingerprints.len() - i,
        {
            fingerprints.push(self.fingerprints[i].clone());
            claims.push(self.claims[i]);
            i += 1;
        }
        proof {
            assert(keys_of(self.fingerprints@).take(i as int) == keys_of(self.fingerprints@));
            assert(self.claims@.take(i as int) == self.claims@);
            assert forall|j: int| 0 <= j < fingerprints.len() implies (#[trigger]
                fingerprints[j])@.len() <= self.config.limit() by {
                assert(keys_of(fingerprints@)[j] == keys_of(self.fingerprints@)[j]);
            }
        }
        Pallet { config: self.config, fingerprints, claims }
    }
}

} // verus!
