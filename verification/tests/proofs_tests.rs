use poe::dispatch::{DispatchError, Origin};
use poe::proofs::{decide_create, decide_revoke, decide_transfer, check_owner, PoeError, PoeEvent, PoeRegistry, Proof};

fn registry() -> PoeRegistry {
    PoeRegistry::new(1, 512)
}

fn module_err(e: PoeError) -> Result<(), DispatchError<PoeError>> {
    Err(DispatchError::Module(e))
}

/// Runs a call that must fail with `expected` and leave the registry as it was.
fn assert_noop(reg: &mut PoeRegistry, expected: Result<(), DispatchError<PoeError>>, call: impl FnOnce(&mut PoeRegistry) -> Result<(), DispatchError<PoeError>>, claims: &[Vec<u8>]) {
    let before: Vec<Option<(u64, u64)>> = claims.iter().map(|c| reg.get_proof(c)).collect();
    let events_before = reg.events().clone();
    let r = call(reg);
    assert_eq!(r, expected);
    let after: Vec<Option<(u64, u64)>> = claims.iter().map(|c| reg.get_proof(c)).collect();
    assert_eq!(before, after);
    assert_eq!(&events_before, reg.events());
}

#[test]
fn it_lets_user_create_claims() {
    let mut reg = registry();
    let hash: Vec<u8> = [0, 1, 2, 3, 4, 5, 6, 7, 8].to_vec();
    assert_eq!(reg.create_claim(Origin::Signed(1), hash.clone(), 0), Ok(()));
    assert_eq!(reg.get_proof(&hash), Some((1, 0)));
}

#[test]
fn it_lets_user_revoke_claims() {
    let mut reg = registry();
    let hash: Vec<u8> = [0, 1, 2].to_vec();
    assert_eq!(reg.create_claim(Origin::Signed(1), hash.clone(), 0), Ok(()));
    assert_eq!(reg.revoke_claim(Origin::Signed(1), hash), Ok(()));
}

#[test]
fn it_lets_user_transfer_claims() {
    let mut reg = registry();
    let hash: Vec<u8> = [0, 1, 2].to_vec();
    assert_eq!(reg.create_claim(Origin::Signed(1), hash.clone(), 0), Ok(()));
    assert_eq!(reg.transfer_claim(Origin::Signed(1), hash.clone(), 2), Ok(()));
    assert_eq!(reg.get_proof(&hash), Some((2, 0)));
}

#[test]
fn create_claim_error_proof_already_claimed() {
    let mut reg = registry();
    let hash: Vec<u8> = [0, 1, 2].to_vec();
    assert_eq!(reg.create_claim(Origin::Signed(1), hash.clone(), 0), Ok(()));
    let h = hash.clone();
    assert_noop(&mut reg, module_err(PoeError::ProofAlreadyExist), |r| r.create_claim(Origin::Signed(1), h, 0), &[hash]);
}

#[test]
fn revoke_claim_error_no_such_proof() {
    let mut reg = registry();
    let hash: Vec<u8> = [0, 1, 2].to_vec();
    assert_eq!(reg.create_claim(Origin::Signed(1), hash.clone(), 0), Ok(()));
    let another_hash: Vec<u8> = [4, 5, 6].to_vec();
    let a = another_hash.clone();
    assert_noop(&mut reg, module_err(PoeError::ProofNotExist), |r| r.revoke_claim(Origin::Signed(1), a), &[hash, another_hash]);
}

#[test]
fn revoke_claim_error_not_proof_owner() {
    let mut reg = registry();
    let hash: Vec<u8> = [0, 1, 2].to_vec();
    assert_eq!(reg.create_claim(Origin::Signed(1), hash.clone(), 0), Ok(()));
    let h = hash.clone();
    assert_noop(&mut reg, module_err(PoeError::NotClaimOwner), |r| r.revoke_claim(Origin::Signed(2), h), &[hash]);
}

#[test]
fn transfer_claim_error_no_such_proof() {
    let mut reg = registry();
    let hash: Vec<u8> = [0, 1, 2].to_vec();
    let h = hash.clone();
    assert_noop(&mut reg, module_err(PoeError::ProofNotExist), |r| r.transfer_claim(Origin::Signed(1), h, 2), &[hash]);
}

#[test]
fn transfer_claim_error_not_proof_owner() {
    let mut reg = registry();
    let hash: Vec<u8> = [0, 1, 2].to_vec();
    assert_eq!(reg.create_claim(Origin::Signed(1), hash.clone(), 0), Ok(()));
    let h = hash.clone();
    assert_noop(&mut reg, module_err(PoeError::NotClaimOwner), |r| r.transfer_claim(Origin::Signed(2), h, 3), &[hash]);
}

#[test]
fn create_and_revoke() {
    let mut reg = registry();
    let claim = vec![1u8, 1];
    assert_eq!(reg.create_claim(Origin::Signed(1), claim.clone(), 1), Ok(()));
    assert_eq!(reg.get_proof(&claim), Some((1, 1)));
    let c = claim.clone();
    assert_noop(&mut reg, module_err(PoeError::ProofAlreadyExist), |r| r.create_claim(Origin::Signed(1), c, 1), &[claim.clone()]);
    let c = claim.clone();
    assert_noop(&mut reg, module_err(PoeError::NotClaimOwner), |r| r.revoke_claim(Origin::Signed(2), c), &[claim.clone()]);
    assert_noop(&mut reg, module_err(PoeError::ProofNotExist), |r| r.revoke_claim(Origin::Signed(2), vec![2, 2]), &[claim.clone(), vec![2, 2]]);
    assert_eq!(reg.revoke_claim(Origin::Signed(1), claim.clone()), Ok(()));
    let c = claim.clone();
    assert_noop(&mut reg, module_err(PoeError::ProofNotExist), |r| r.revoke_claim(Origin::Signed(1), c), &[claim.clone()]);
    assert_noop(&mut reg, module_err(PoeError::TooLong), |r| r.create_claim(Origin::Signed(1), vec![0u8; 1024], 1), &[vec![0u8; 1024]]);
    assert_noop(&mut reg, module_err(PoeError::TooShort), |r| r.create_claim(Origin::Signed(1), vec![0u8; 0], 1), &[vec![0u8; 0]]);
    let expect_value = vec![
        PoeEvent::ClaimCreated(1, vec![1, 1]),
        PoeEvent::ClaimRevoked(1, vec![1, 1], 1),
    ];
    assert_eq!(reg.events().len(), expect_value.len());
    assert!(!reg.events().iter().zip(expect_value).any(|(a, b)| *a != b));
}

#[test]
fn root_and_unsigned() {
    let mut reg = registry();
    let claim = vec![1u8, 1];
    let c = claim.clone();
    assert_noop(&mut reg, Err(DispatchError::BadOrigin), |r| r.create_claim(Origin::Root, c, 1), &[claim.clone()]);
    let c = claim.clone();
    assert_noop(&mut reg, Err(DispatchError::BadOrigin), |r| r.create_claim(Origin::Unsigned, c, 1), &[claim]);
}

#[test]
fn transfer() {
    let mut reg = registry();
    let claim = vec![1u8, 1];
    assert_eq!(reg.create_claim(Origin::Signed(1), claim.clone(), 1), Ok(()));
    assert_eq!(reg.transfer_claim(Origin::Signed(1), claim.clone(), 2), Ok(()));
    let expected_event = PoeEvent::ClaimTransferred(1, 2, claim.clone(), 1);
    assert!(reg.events().iter().any(|a| *a == expected_event));
    assert_eq!(reg.get_proof(&claim), Some((2, 1)));
    let c = claim.clone();
    assert_noop(&mut reg, module_err(PoeError::NotClaimOwner), |r| r.transfer_claim(Origin::Signed(3), c, 4), &[claim.clone()]);
    assert_noop(&mut reg, module_err(PoeError::ProofNotExist), |r| r.transfer_claim(Origin::Signed(3), vec![8, 8, 8], 4), &[claim, vec![8, 8, 8]]);
}

#[test]
fn poe_revoke_after_create_restores_registry() {
    let mut reg = registry();
    let keep = vec![9u8, 9, 9];
    assert_eq!(reg.create_claim(Origin::Signed(7), keep.clone(), 3), Ok(()));
    let claim = vec![5u8, 6];
    assert_eq!(reg.get_proof(&claim), None);
    assert_eq!(reg.create_claim(Origin::Signed(1), claim.clone(), 4), Ok(()));
    assert_eq!(reg.revoke_claim(Origin::Signed(1), claim.clone()), Ok(()));
    assert_eq!(reg.get_proof(&claim), None);
    assert_eq!(reg.get_proof(&keep), Some((7, 3)));
    assert_eq!(reg.events().len(), 3);
    assert_eq!(reg.events()[2], PoeEvent::ClaimRevoked(1, claim, 4));
}

#[test]
fn poe_transfer_keeps_block_and_lets_receiver_revoke() {
    let mut reg = registry();
    let claim = vec![3u8, 4, 5];
    assert_eq!(reg.create_claim(Origin::Signed(1), claim.clone(), 11), Ok(()));
    assert_eq!(reg.transfer_claim(Origin::Signed(1), claim.clone(), 2), Ok(()));
    assert_eq!(reg.get_proof(&claim), Some((2, 11)));
    assert_eq!(reg.revoke_claim(Origin::Signed(1), claim.clone()), module_err(PoeError::NotClaimOwner));
    assert_eq!(reg.revoke_claim(Origin::Signed(2), claim.clone()), Ok(()));
    assert_eq!(reg.events()[2], PoeEvent::ClaimRevoked(2, claim, 11));
}

#[test]
fn poe_unsigned_revoke_and_transfer_refused() {
    let mut reg = registry();
    let claim = vec![3u8];
    assert_eq!(reg.create_claim(Origin::Signed(1), claim.clone(), 1), Ok(()));
    let c = claim.clone();
    assert_noop(&mut reg, Err(DispatchError::BadOrigin), |r| r.revoke_claim(Origin::Root, c), &[claim.clone()]);
    let c = claim.clone();
    assert_noop(&mut reg, Err(DispatchError::BadOrigin), |r| r.transfer_claim(Origin::Unsigned, c, 2), &[claim]);
}

#[test]
fn poe_origin_checked_before_length() {
    let mut reg = registry();
    assert_eq!(reg.create_claim(Origin::Root, vec![], 1), Err(DispatchError::BadOrigin));
    assert_eq!(reg.create_claim(Origin::Signed(1), vec![], 1), module_err(PoeError::TooShort));
}

#[test]
fn poe_length_bounds_are_inclusive() {
    let mut reg = PoeRegistry::new(2, 4);
    assert_eq!(reg.min_length(), 2);
    assert_eq!(reg.max_length(), 4);
    assert_eq!(reg.create_claim(Origin::Signed(1), vec![1], 1), module_err(PoeError::TooShort));
    assert_eq!(reg.create_claim(Origin::Signed(1), vec![1, 2], 1), Ok(()));
    assert_eq!(reg.create_claim(Origin::Signed(1), vec![1, 2, 3, 4], 1), Ok(()));
    assert_eq!(reg.create_claim(Origin::Signed(1), vec![1, 2, 3, 4, 5], 1), module_err(PoeError::TooLong));
}

#[test]
fn poe_must_get_with_owner() {
    let mut reg = registry();
    let claim = vec![1u8, 2];
    assert_eq!(reg.must_get_with_owner(1, &claim), Err(DispatchError::Module(PoeError::ProofNotExist)));
    assert_eq!(reg.create_claim(Origin::Signed(1), claim.clone(), 6), Ok(()));
    assert_eq!(reg.must_get_with_owner(1, &claim), Ok((1, 6)));
    assert_eq!(reg.must_get_with_owner(2, &claim), Err(DispatchError::Module(PoeError::NotClaimOwner)));
}

#[test]
fn poe_decisions_on_single_entries() {
    let cfg = poe::proofs::ClaimConfig { min_length: 1, max_length: 8 };
    let claim = vec![1u8, 2];
    let held = Some(Proof { owner: 1, block_number: 3 });
    assert_eq!(decide_create(cfg, Origin::Signed(4), &claim, None, 9), Ok((Proof { owner: 4, block_number: 9 }, PoeEvent::ClaimCreated(4, claim.clone()))));
    assert_eq!(decide_create(cfg, Origin::Signed(4), &claim, held, 9), Err(DispatchError::Module(PoeError::ProofAlreadyExist)));
    assert_eq!(decide_revoke(Origin::Signed(1), &claim, held), Ok(PoeEvent::ClaimRevoked(1, claim.clone(), 3)));
    assert_eq!(decide_revoke(Origin::Signed(2), &claim, held), Err(DispatchError::Module(PoeError::NotClaimOwner)));
    assert_eq!(decide_transfer(Origin::Signed(1), &claim, 5, held), Ok((Proof { owner: 5, block_number: 3 }, PoeEvent::ClaimTransferred(1, 5, claim.clone(), 3))));
    assert_eq!(decide_transfer(Origin::Signed(1), &claim, 5, None), Err(DispatchError::Module(PoeError::ProofNotExist)));
    assert_eq!(check_owner(1, held), Ok(Proof { owner: 1, block_number: 3 }));
}
