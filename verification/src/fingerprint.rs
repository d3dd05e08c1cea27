//! Fingerprints: the bounded byte strings that claims are made on.
use crate::types::{Config, Error};
use vstd::prelude::*;

verus! {

/// An immutable byte string that passed a configuration's length bound when
/// it was made. Two fingerprints are the same when their bytes are.
#[derive(Debug, Hash)]
pub struct Fingerprint {
    bytes: Vec<u8>,
}

impl View for Fingerprint {
    type V = Seq<u8>;

    closed spec fn view(&self) -> Seq<u8> {
        self.bytes@
    }
}

impl Fingerprint {
    /// Whether a byte string of this content may be claimed under `config`.
    pub open spec fn fits(self, config: Config) -> bool {
        self@.len() <= config.limit()
    }

    /// Makes a fingerprint of `bytes`, unless they are more than `config` allows.
    pub fn new(bytes: Vec<u8>, config: &Config) -> (made: Result<Fingerprint, Error>)
        ensures
            match made {
                Ok(fingerprint) => fingerprint@ == bytes@ && fingerprint.fits(*config),
                Err(refusal) => refusal == Error::FingerprintTooLong && bytes@.len()
                    > config.limit(),
            },
    {
        let max: u32 = config.max_bytes_in_hash();
        if bytes.len() > max as usize {
            Err(Error::FingerprintTooLong)
        } else {
            Ok(Fingerprint { bytes })
        }
    }

    /// The number of bytes.
    pub fn len(&self) -> (n: usize)
        ensures
            n == self@.len(),
    {
        self.bytes.len()
    }

    /// The bytes.
    pub fn as_bytes(&self) -> (bytes: &Vec<u8>)
        ensures
            bytes@ == self@,
    {
        &self.bytes
    }

    /// Whether this fingerprint may be claimed under `config`.
    pub fn is_within(&self, config: &Config) -> (within: bool)
        ensures
            within == self.fits(*config),
    {
        let max: u32 = config.max_bytes_in_hash();
        self.bytes.len() <= max as usize
    }
}

impl Clone for Fingerprint {
    fn clone(&self) -> (copy: Fingerprint)
        ensures
            copy@ == self@,
    {
        let mut bytes: Vec<u8> = Vec::with_capacity(self.bytes.len());
        let mut i: usize = 0;
        while i < self.bytes.len()
            invariant
                i <= self.bytes.len(),
                bytes@ == self.bytes@.take(i as int),
            decreases self.bytes.len() - i,
        {
            bytes.push(self.bytes[i]);
            i += 1;
        }
        proof {
            assert(self.bytes@ == self.bytes@.take(i as int));
        }
        Fingerprint { bytes }
    }
}

impl PartialEq for Fingerprint {
    fn eq(&self, other: &Fingerprint) -> (same: bool) {
        if self.bytes.len() != other.bytes.len() {
            return false;
        }
        let mut i: usize = 0;
        while i < self.bytes.len()
            invariant
                i <= self.bytes.len(),
                self.bytes.len() == other.bytes.len(),
                self.bytes@.take(i as int) == other.bytes@.take(i as int),
            decreases self.bytes.len() - i,
        {
            if self.bytes[i] != other.bytes[i] {
                return false;
            }
            i += 1;
        }
        proof {
            assert(self.bytes@ == self.bytes@.take(i as int));
            assert(other.bytes@ == other.bytes@.take(i as int));
        }
        true
    }
}

impl Eq for Fingerprint {}

impl vstd::std_specs::cmp::PartialEqSpecImpl for Fingerprint {
    open spec fn obeys_eq_spec() -> bool {
        true
    }

    open spec fn eq_spec(&self, other: &Fingerprint) -> bool {
        self@ == other@
    }
}

} // verus!
