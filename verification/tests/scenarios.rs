use poe::{Claim, Config, Error, Event, Fingerprint, Pallet};

fn fp(bytes: &[u8], config: &Config) -> Fingerprint {
    Fingerprint::new(bytes.to_vec(), config).unwrap()
}

#[test]
fn created_claim_is_found_with_its_owner_and_date() {
    let config = Config::new(64);
    let mut pallet = Pallet::new(config);
    let seq0 = 10;
    assert_eq!(
        pallet.create_claim(1, fp(&[0, 1], &config), seq0),
        Ok(Event::ClaimCreated(1, fp(&[0, 1], &config)))
    );
    assert_eq!(
        pallet.get(&fp(&[0, 1], &config)),
        Some(Claim { owner: 1, registered_at: 10 })
    );
    assert!(pallet.contains_key(&fp(&[0, 1], &config)));
}

#[test]
fn second_create_of_the_same_fingerprint_is_refused() {
    let config = Config::new(64);
    let mut pallet = Pallet::new(config);
    assert!(pallet.create_claim(1, fp(&[0, 1], &config), 10).is_ok());
    assert_eq!(
        pallet.create_claim(1, fp(&[0, 1], &config), 11),
        Err(Error::ProofAlreadyClaimed)
    );
    assert_eq!(
        pallet.get(&fp(&[0, 1], &config)),
        Some(Claim { owner: 1, registered_at: 10 })
    );
}

#[test]
fn transfer_hands_the_claim_over_and_dates_it_anew() {
    let config = Config::new(64);
    let mut pallet = Pallet::new(config);
    let seq1 = 11;
    assert!(pallet.create_claim(1, fp(&[0, 1], &config), 10).is_ok());
    assert_eq!(
        pallet.transfer_claim(1, 2, fp(&[0, 1], &config), seq1),
        Ok(Event::ClaimTransferred(1, 2, fp(&[0, 1], &config)))
    );
    assert_eq!(
        pallet.get(&fp(&[0, 1], &config)),
        Some(Claim { owner: 2, registered_at: 11 })
    );
}

#[test]
fn transfer_by_a_stranger_after_a_transfer_is_refused() {
    let config = Config::new(64);
    let mut pallet = Pallet::new(config);
    assert!(pallet.create_claim(1, fp(&[0, 1], &config), 10).is_ok());
    assert!(pallet.transfer_claim(1, 2, fp(&[0, 1], &config), 11).is_ok());
    let before = pallet.clone();
    assert_eq!(
        pallet.transfer_claim(3, 2, fp(&[0, 1], &config), 12),
        Err(Error::NotProofOwner)
    );
    assert_eq!(pallet, before);
    assert_eq!(
        pallet.get(&fp(&[0, 1], &config)),
        Some(Claim { owner: 2, registered_at: 11 })
    );
}

#[test]
fn revoke_without_a_claim_is_refused() {
    let config = Config::new(64);
    let mut pallet = Pallet::new(config);
    assert_eq!(
        pallet.revoke_claim(1, fp(&[0, 1], &config)),
        Err(Error::NoSuchProof)
    );
    assert_eq!(pallet, Pallet::new(config));
}

#[test]
fn fingerprint_of_1024_bytes_is_refused_before_the_registry() {
    let config = Config::new(512);
    let bytes = vec![7u8; 1024];
    assert_eq!(
        Fingerprint::new(bytes, &config),
        Err(Error::FingerprintTooLong)
    );
}

#[test]
fn registry_refuses_a_fingerprint_made_for_a_larger_limit() {
    let wide = Config::new(2048);
    let narrow = Config::new(512);
    let long = Fingerprint::new(vec![7u8; 1024], &wide).unwrap();
    let mut pallet = Pallet::new(narrow);
    assert!(pallet.create_claim(9, fp(&[1], &narrow), 1).is_ok());
    let before = pallet.clone();
    assert_eq!(
        pallet.create_claim(1, long.clone(), 2),
        Err(Error::FingerprintTooLong)
    );
    assert_eq!(pallet, before);
    assert_eq!(pallet.get(&long), None);
    assert_eq!(pallet.transfer_claim(1, 2, long.clone(), 3), Err(Error::NoSuchProof));
    assert_eq!(pallet.revoke_claim(1, long), Err(Error::NoSuchProof));
    assert_eq!(pallet, before);
}

#[test]
fn length_bound_is_inclusive() {
    let config = Config::new(4);
    assert_eq!(config.max_bytes_in_hash(), 4);
    let exact = Fingerprint::new(vec![1, 2, 3, 4], &config);
    assert!(exact.is_ok());
    let exact = exact.unwrap();
    assert_eq!(exact.len(), 4);
    assert_eq!(exact.as_bytes(), &vec![1u8, 2, 3, 4]);
    assert!(exact.is_within(&config));
    assert_eq!(
        Fingerprint::new(vec![1, 2, 3, 4, 5], &config),
        Err(Error::FingerprintTooLong)
    );
    let empty = Fingerprint::new(Vec::new(), &config).unwrap();
    assert_eq!(empty.len(), 0);
    let mut pallet = Pallet::new(config);
    assert_eq!(
        pallet.create_claim(1, exact.clone(), 3),
        Ok(Event::ClaimCreated(1, exact.clone()))
    );
    assert_eq!(
        pallet.create_claim(2, empty.clone(), 4),
        Ok(Event::ClaimCreated(2, empty.clone()))
    );
    assert_eq!(pallet.get(&exact), Some(Claim { owner: 1, registered_at: 3 }));
    assert_eq!(pallet.get(&empty), Some(Claim { owner: 2, registered_at: 4 }));
    let narrower = Config::new(3);
    assert!(!exact.is_within(&narrower));
    assert!(empty.is_within(&narrower));
}

#[test]
fn fingerprints_are_equal_by_their_bytes() {
    let a = Config::new(8);
    let b = Config::new(16);
    assert_eq!(fp(&[1, 2, 3], &a), fp(&[1, 2, 3], &b));
    assert_ne!(fp(&[1, 2, 3], &a), fp(&[1, 2, 4], &a));
    assert_ne!(fp(&[1, 2, 3], &a), fp(&[1, 2], &a));
    assert_ne!(fp(&[1, 2], &a), fp(&[1, 2, 3], &a));
    assert_ne!(fp(&[], &a), fp(&[0], &a));
    assert_eq!(fp(&[], &a), fp(&[], &b));
    let first = fp(&[9, 8, 7], &a);
    let copy = first.clone();
    assert_eq!(copy, first);
    assert_eq!(copy.as_bytes(), &vec![9u8, 8, 7]);
}

#[test]
fn prefix_of_a_claimed_fingerprint_is_another_fingerprint() {
    let config = Config::new(8);
    let mut pallet = Pallet::new(config);
    assert!(pallet.create_claim(1, fp(&[1, 2, 3], &config), 1).is_ok());
    assert_eq!(pallet.get(&fp(&[1, 2], &config)), None);
    assert_eq!(pallet.get(&fp(&[1, 2, 3, 4], &config)), None);
    assert_eq!(
        pallet.create_claim(2, fp(&[1, 2], &config), 2),
        Ok(Event::ClaimCreated(2, fp(&[1, 2], &config)))
    );
    assert_eq!(
        pallet.get(&fp(&[1, 2, 3], &config)),
        Some(Claim { owner: 1, registered_at: 1 })
    );
    assert_eq!(
        pallet.get(&fp(&[1, 2], &config)),
        Some(Claim { owner: 2, registered_at: 2 })
    );
}
