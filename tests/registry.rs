use pallet_template::{Error, Event, Pallet};

const ALICE: u64 = 1;
const BOB: u64 = 2;

fn dead() -> Vec<u8> {
    vec![0xDE, 0xAD]
}

#[test]
fn scenario_claim_reject_revoke() {
    let mut pallet = Pallet::new();

    assert_eq!(pallet.create_claim(ALICE, dead(), 100), Ok(()));
    assert_eq!(pallet.events()[0], Event::ClaimCreated(ALICE, dead()));
    assert_eq!(pallet.proofs(&dead()), Some((ALICE, 100)));

    assert_eq!(pallet.create_claim(BOB, dead(), 100), Err(Error::ProofAlreadyClaimed));
    assert_eq!(pallet.revoke_claim(BOB, dead()), Err(Error::NotProofOwner));
    assert_eq!(pallet.events().len(), 1);

    assert_eq!(pallet.revoke_claim(ALICE, dead()), Ok(()));
    assert_eq!(pallet.events()[1], Event::ClaimRevoked(ALICE, dead()));
    assert_eq!(pallet.proofs(&dead()), None);

    assert_eq!(pallet.revoke_claim(ALICE, dead()), Err(Error::NoSuchProof));
    assert_eq!(pallet.events().len(), 2);
}

#[test]
fn fresh_claim_is_recorded_with_height() {
    let mut pallet = Pallet::new();
    assert_eq!(pallet.proofs(&vec![7, 7, 7]), None);
    assert_eq!(pallet.create_claim(BOB, vec![7, 7, 7], 42), Ok(()));
    assert_eq!(pallet.proofs(&vec![7, 7, 7]), Some((BOB, 42)));
    assert_eq!(pallet.events(), &vec![Event::ClaimCreated(BOB, vec![7, 7, 7])]);
}

#[test]
fn second_claim_leaves_record_unchanged() {
    let mut pallet = Pallet::new();
    assert_eq!(pallet.create_claim(ALICE, dead(), 5), Ok(()));
    assert_eq!(pallet.create_claim(ALICE, dead(), 6), Err(Error::ProofAlreadyClaimed));
    assert_eq!(pallet.create_claim(BOB, dead(), 7), Err(Error::ProofAlreadyClaimed));
    assert_eq!(pallet.proofs(&dead()), Some((ALICE, 5)));
    assert_eq!(pallet.events().len(), 1);
}

#[test]
fn revoking_unclaimed_proof_fails() {
    let mut pallet = Pallet::new();
    assert_eq!(pallet.revoke_claim(ALICE, dead()), Err(Error::NoSuchProof));
    assert_eq!(pallet.create_claim(ALICE, vec![1], 3), Ok(()));
    assert_eq!(pallet.revoke_claim(ALICE, vec![1, 0]), Err(Error::NoSuchProof));
    assert_eq!(pallet.revoke_claim(ALICE, vec![]), Err(Error::NoSuchProof));
    assert!(pallet.events().len() == 1);
}

#[test]
fn only_owner_can_revoke() {
    let mut pallet = Pallet::new();
    assert_eq!(pallet.create_claim(ALICE, dead(), 9), Ok(()));
    assert_eq!(pallet.revoke_claim(BOB, dead()), Err(Error::NotProofOwner));
    assert_eq!(pallet.proofs(&dead()), Some((ALICE, 9)));
    assert_eq!(pallet.revoke_claim(ALICE, dead()), Ok(()));
    assert_eq!(pallet.proofs(&dead()), None);
}

#[test]
fn proof_is_reusable_after_revocation() {
    let mut pallet = Pallet::new();
    assert_eq!(pallet.create_claim(ALICE, dead(), 10), Ok(()));
    assert_eq!(pallet.revoke_claim(ALICE, dead()), Ok(()));
    assert_eq!(pallet.create_claim(BOB, dead(), 11), Ok(()));
    assert_eq!(pallet.proofs(&dead()), Some((BOB, 11)));
    assert_eq!(
        pallet.events(),
        &vec![
            Event::ClaimCreated(ALICE, dead()),
            Event::ClaimRevoked(ALICE, dead()),
            Event::ClaimCreated(BOB, dead()),
        ]
    );
}

#[test]
fn empty_proof_is_an_ordinary_key() {
    let mut pallet = Pallet::new();
    assert_eq!(pallet.create_claim(ALICE, vec![], 0), Ok(()));
    assert_eq!(pallet.proofs(&vec![]), Some((ALICE, 0)));
    assert_eq!(pallet.proofs(&vec![0]), None);
    assert_eq!(pallet.create_claim(BOB, vec![], 1), Err(Error::ProofAlreadyClaimed));
    assert_eq!(pallet.revoke_claim(ALICE, vec![]), Ok(()));
}

#[test]
fn distinct_proofs_are_independent() {
    let mut pallet = Pallet::new();
    assert_eq!(pallet.create_claim(ALICE, vec![1, 2], 1), Ok(()));
    assert_eq!(pallet.create_claim(BOB, vec![2, 1], 2), Ok(()));
    assert_eq!(pallet.create_claim(BOB, vec![1, 2, 3], 3), Ok(()));
    assert_eq!(pallet.revoke_claim(ALICE, vec![1, 2]), Ok(()));
    assert_eq!(pallet.proofs(&vec![1, 2]), None);
    assert_eq!(pallet.proofs(&vec![2, 1]), Some((BOB, 2)));
    assert_eq!(pallet.proofs(&vec![1, 2, 3]), Some((BOB, 3)));
    assert_eq!(pallet.revoke_claim(ALICE, vec![2, 1]), Err(Error::NotProofOwner));
}

#[test]
fn largest_height_and_account_are_kept() {
    let mut pallet = Pallet::new();
    assert_eq!(pallet.create_claim(u64::MAX, dead(), u64::MAX), Ok(()));
    assert_eq!(pallet.proofs(&dead()), Some((u64::MAX, u64::MAX)));
    assert_eq!(pallet.revoke_claim(u64::MAX - 1, dead()), Err(Error::NotProofOwner));
}
