use frame_support::traits::ConstU32;
use frame_support::BoundedVec;
use poe::{Config, Error, Fingerprint};

fn accepted_by_bounded_vec(bytes: Vec<u8>) -> Option<Vec<u8>> {
    match BoundedVec::<u8, ConstU32<16>>::try_from(bytes) {
        Ok(bounded) => Some(bounded.into_inner()),
        Err(_) => None,
    }
}

fn accepted_by_fingerprint(bytes: Vec<u8>) -> Option<Vec<u8>> {
    match Fingerprint::new(bytes, &Config::new(16)) {
        Ok(fingerprint) => Some(fingerprint.as_bytes().clone()),
        Err(Error::FingerprintTooLong) => None,
        Err(other) => panic!("unexpected refusal {:?}", other),
    }
}

#[test]
fn fingerprint_takes_what_a_bounded_vec_of_the_same_bound_takes() {
    for len in [0usize, 1, 2, 15, 16, 17, 18, 32, 1024] {
        let bytes: Vec<u8> = (0..len).map(|i| (i % 251) as u8).collect();
        assert_eq!(
            accepted_by_fingerprint(bytes.clone()),
            accepted_by_bounded_vec(bytes.clone()),
            "length {}",
            len
        );
        assert_eq!(accepted_by_fingerprint(bytes.clone()).is_some(), len <= 16);
    }
}
