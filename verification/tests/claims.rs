use poe::{Claim, Config, Error, Event, Fingerprint, Pallet};

fn new_registry() -> (Config, Pallet) {
    let config = Config::new(512);
    (config, Pallet::new(config))
}

#[test]
fn create_claim_works() {
    let (config, mut pallet) = new_registry();
    let now = 1;
    let claim = vec![0, 1];
    let bounded_claim = Fingerprint::new(claim, &config).unwrap();

    assert_eq!(
        pallet.create_claim(1, bounded_claim.clone(), now),
        Ok(Event::ClaimCreated(1, bounded_claim.clone()))
    );

    assert_eq!(
        pallet.get(&bounded_claim),
        Some(Claim { owner: 1, registered_at: now })
    );
}

#[test]
fn create_claim_failed_when_already_claimed() {
    let (config, mut pallet) = new_registry();
    let claim = vec![0, 1];
    let bounded_claim = Fingerprint::new(claim, &config).unwrap();

    let _ = pallet.create_claim(1, bounded_claim.clone(), 1);
    let before = pallet.clone();
    assert_eq!(
        pallet.create_claim(1, bounded_claim.clone(), 1),
        Err(Error::ProofAlreadyClaimed)
    );
    assert_eq!(pallet, before);
}

#[test]
fn revoke_claim_works() {
    let (config, mut pallet) = new_registry();
    let claim = vec![0, 1];
    let bounded_claim = Fingerprint::new(claim, &config).unwrap();

    let _ = pallet.create_claim(1, bounded_claim.clone(), 1);

    assert_eq!(
        pallet.revoke_claim(1, bounded_claim.clone()),
        Ok(Event::ClaimRevoked(1, bounded_claim.clone()))
    );
}

#[test]
fn revoke_claim_failed() {
    let (config, mut pallet) = new_registry();
    let claim = vec![0, 1];
    let bounded_claim = Fingerprint::new(claim, &config).unwrap();

    let before = pallet.clone();
    assert_eq!(
        pallet.revoke_claim(1, bounded_claim.clone()),
        Err(Error::NoSuchProof)
    );
    assert_eq!(pallet, before);
}

#[test]
fn transfer_claim_works() {
    let (config, mut pallet) = new_registry();
    let claim = vec![0, 1];
    let bounded_claim = Fingerprint::new(claim, &config).unwrap();

    let _ = pallet.create_claim(1, bounded_claim.clone(), 1);

    let receiver = 2;
    assert_eq!(
        pallet.transfer_claim(1, receiver, bounded_claim.clone(), 1),
        Ok(Event::ClaimTransferred(1, receiver, bounded_claim.clone()))
    );
}

#[test]
fn transfer_claim_failed_not_exist() {
    let (config, mut pallet) = new_registry();
    let claim = vec![0, 1];
    let bounded_claim = Fingerprint::new(claim, &config).unwrap();

    let receiver = 2;
    let before = pallet.clone();
    assert_eq!(
        pallet.transfer_claim(1, receiver, bounded_claim.clone(), 1),
        Err(Error::NoSuchProof)
    );
    assert_eq!(pallet, before);
}

#[test]
fn transfer_claim_failed_not_owner() {
    let (config, mut pallet) = new_registry();
    let claim = vec![0, 1];
    let bounded_claim = Fingerprint::new(claim, &config).unwrap();

    let _ = pallet.create_claim(1, bounded_claim.clone(), 1);

    let receiver = 2;
    let before = pallet.clone();
    assert_eq!(
        pallet.transfer_claim(3, receiver, bounded_claim.clone(), 1),
        Err(Error::NotProofOwner)
    );
    assert_eq!(pallet, before);
}
