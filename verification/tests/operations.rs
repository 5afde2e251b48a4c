use pallet_poe::{AccountId, Config, Error, Event, OwnershipRecord, Pallet};

fn account(name: &str) -> AccountId {
    AccountId::new(name.as_bytes().to_vec())
}

fn claim(text: &str) -> Vec<u8> {
    text.as_bytes().to_vec()
}

fn registry_of_32() -> Pallet {
    Pallet::new(Config { max_claim_length: 32 })
}

fn with_doc1_of_alice() -> Pallet {
    let mut pallet = registry_of_32();
    pallet.create_claim(account("alice"), claim("doc1"), 10).unwrap();
    pallet
}

fn record(owner: &str, registered_at: u64) -> OwnershipRecord {
    OwnershipRecord { owner: account(owner), registered_at }
}

#[test]
fn create_claim_records_owner_and_time() {
    let mut pallet = registry_of_32();
    let result = pallet.create_claim(account("alice"), claim("doc1"), 10);
    assert_eq!(result, Ok(Event::ClaimCreated { who: account("alice"), claim: claim("doc1") }));
    assert_eq!(pallet.proofs().get(&claim("doc1")), Some(&record("alice", 10)));
    assert_eq!(pallet.proofs().len(), 1);
}

#[test]
fn create_claim_that_exists_is_rejected() {
    let mut pallet = with_doc1_of_alice();
    let result = pallet.create_claim(account("bob"), claim("doc1"), 11);
    assert_eq!(result, Err(Error::ProofAlreadyExist));
    assert_eq!(pallet.proofs().get(&claim("doc1")), Some(&record("alice", 10)));
    assert_eq!(pallet.proofs().len(), 1);
}

#[test]
fn create_claim_again_by_its_owner_is_rejected() {
    let mut pallet = with_doc1_of_alice();
    let result = pallet.create_claim(account("alice"), claim("doc1"), 99);
    assert_eq!(result, Err(Error::ProofAlreadyExist));
    assert_eq!(pallet.proofs().get(&claim("doc1")), Some(&record("alice", 10)));
}

#[test]
fn revoke_claim_by_another_is_rejected() {
    let mut pallet = with_doc1_of_alice();
    let result = pallet.revoke_claim(account("bob"), claim("doc1"));
    assert_eq!(result, Err(Error::NotClaimOwner));
    assert_eq!(pallet.proofs().get(&claim("doc1")), Some(&record("alice", 10)));
}

#[test]
fn revoke_claim_by_owner_removes_it() {
    let mut pallet = with_doc1_of_alice();
    let result = pallet.revoke_claim(account("alice"), claim("doc1"));
    assert_eq!(result, Ok(Event::ClaimRevoked { who: account("alice"), claim: claim("doc1") }));
    assert_eq!(pallet.proofs().get(&claim("doc1")), None);
    assert!(!pallet.proofs().contains_key(&claim("doc1")));
    assert!(pallet.proofs().is_empty());
}

#[test]
fn transfer_claim_changes_owner_and_time() {
    let mut pallet = with_doc1_of_alice();
    let result = pallet.transfer_claim(account("alice"), account("bob"), claim("doc1"), 20);
    assert_eq!(
        result,
        Ok(Event::ClaimTransferred {
            from: account("alice"),
            to: account("bob"),
            claim: claim("doc1"),
        })
    );
    assert_eq!(pallet.proofs().get(&claim("doc1")), Some(&record("bob", 20)));
    assert_eq!(pallet.proofs().len(), 1);
}

#[test]
fn create_claim_of_33_bytes_is_too_long() {
    let mut pallet = registry_of_32();
    let long = vec![b'x'; 33];
    let result = pallet.create_claim(account("carol"), long.clone(), 5);
    assert_eq!(result, Err(Error::ClaimTooLong));
    assert!(!pallet.proofs().contains_key(&long));
    assert!(pallet.proofs().is_empty());
}

#[test]
fn create_claim_of_exactly_the_maximum_is_accepted() {
    let mut pallet = registry_of_32();
    let full = vec![b'x'; 32];
    let result = pallet.create_claim(account("carol"), full.clone(), 5);
    assert_eq!(result, Ok(Event::ClaimCreated { who: account("carol"), claim: full.clone() }));
    assert_eq!(pallet.proofs().get(&full), Some(&record("carol", 5)));
}

#[test]
fn empty_claim_is_a_claim() {
    let mut pallet = registry_of_32();
    assert_eq!(
        pallet.create_claim(account("alice"), Vec::new(), 1),
        Ok(Event::ClaimCreated { who: account("alice"), claim: Vec::new() })
    );
    assert_eq!(pallet.create_claim(account("bob"), Vec::new(), 2), Err(Error::ProofAlreadyExist));
    assert_eq!(pallet.proofs().get(&Vec::new()), Some(&record("alice", 1)));
}

#[test]
fn maximum_of_zero_admits_the_empty_claim_only() {
    let mut pallet = Pallet::new(Config { max_claim_length: 0 });
    assert_eq!(pallet.create_claim(account("alice"), vec![0], 1), Err(Error::ClaimTooLong));
    assert!(pallet.create_claim(account("alice"), Vec::new(), 1).is_ok());
    assert_eq!(pallet.proofs().len(), 1);
}

#[test]
fn oversized_claim_is_rejected_by_every_operation() {
    let mut pallet = with_doc1_of_alice();
    let long = vec![7u8; 33];
    assert_eq!(pallet.create_claim(account("alice"), long.clone(), 11), Err(Error::ClaimTooLong));
    assert_eq!(pallet.revoke_claim(account("alice"), long.clone()), Err(Error::ClaimTooLong));
    assert_eq!(
        pallet.transfer_claim(account("alice"), account("bob"), long.clone(), 12),
        Err(Error::ClaimTooLong)
    );
    assert_eq!(pallet.proofs().len(), 1);
    assert_eq!(pallet.proofs().get(&claim("doc1")), Some(&record("alice", 10)));
    assert_eq!(pallet.proofs().get(&long), None);
}

#[test]
fn length_is_tested_before_existence() {
    let mut pallet = registry_of_32();
    let long = vec![0u8; 1000];
    assert_eq!(pallet.revoke_claim(account("alice"), long.clone()), Err(Error::ClaimTooLong));
    assert_eq!(
        pallet.transfer_claim(account("alice"), account("bob"), long, 1),
        Err(Error::ClaimTooLong)
    );
    assert_eq!(pallet.revoke_claim(account("alice"), claim("short")), Err(Error::ClaimNotExist));
}

#[test]
fn absent_claim_can_be_neither_revoked_nor_transferred() {
    let mut pallet = with_doc1_of_alice();
    assert_eq!(pallet.revoke_claim(account("alice"), claim("doc2")), Err(Error::ClaimNotExist));
    assert_eq!(
        pallet.transfer_claim(account("alice"), account("bob"), claim("doc2"), 11),
        Err(Error::ClaimNotExist)
    );
    assert_eq!(pallet.proofs().len(), 1);
    assert_eq!(pallet.proofs().get(&claim("doc2")), None);
    assert_eq!(pallet.proofs().get(&claim("doc1")), Some(&record("alice", 10)));
}

#[test]
fn transfer_claim_by_another_is_rejected() {
    let mut pallet = with_doc1_of_alice();
    let result = pallet.transfer_claim(account("bob"), account("bob"), claim("doc1"), 20);
    assert_eq!(result, Err(Error::NotClaimOwner));
    assert_eq!(pallet.proofs().get(&claim("doc1")), Some(&record("alice", 10)));
}

#[test]
fn revoked_claim_can_be_created_by_anyone() {
    let mut pallet = registry_of_32();
    assert!(pallet.create_claim(account("alice"), claim("doc1"), 1).is_ok());
    assert!(pallet.revoke_claim(account("alice"), claim("doc1")).is_ok());
    assert!(!pallet.proofs().contains_key(&claim("doc1")));
    assert_eq!(
        pallet.create_claim(account("bob"), claim("doc1"), 2),
        Ok(Event::ClaimCreated { who: account("bob"), claim: claim("doc1") })
    );
    assert_eq!(pallet.proofs().get(&claim("doc1")), Some(&record("bob", 2)));
}

#[test]
fn transfer_to_oneself_refreshes_the_time() {
    let mut pallet = with_doc1_of_alice();
    let result = pallet.transfer_claim(account("alice"), account("alice"), claim("doc1"), 30);
    assert_eq!(
        result,
        Ok(Event::ClaimTransferred {
            from: account("alice"),
            to: account("alice"),
            claim: claim("doc1"),
        })
    );
    assert_eq!(pallet.proofs().get(&claim("doc1")), Some(&record("alice", 30)));
}

#[test]
fn transfer_hands_over_the_right_to_dispose() {
    let mut pallet = with_doc1_of_alice();
    assert!(pallet.transfer_claim(account("alice"), account("bob"), claim("doc1"), 20).is_ok());
    assert_eq!(pallet.revoke_claim(account("alice"), claim("doc1")), Err(Error::NotClaimOwner));
    assert_eq!(
        pallet.transfer_claim(account("alice"), account("alice"), claim("doc1"), 21),
        Err(Error::NotClaimOwner)
    );
    assert_eq!(pallet.proofs().get(&claim("doc1")), Some(&record("bob", 20)));
    assert!(pallet.revoke_claim(account("bob"), claim("doc1")).is_ok());
    assert!(pallet.proofs().is_empty());
}

#[test]
fn rejected_operations_change_nothing() {
    let mut pallet = registry_of_32();
    pallet.create_claim(account("alice"), claim("a"), 1).unwrap();
    pallet.create_claim(account("bob"), claim("b"), 2).unwrap();
    let rejected = [
        pallet.create_claim(account("carol"), claim("a"), 3),
        pallet.create_claim(account("carol"), vec![1u8; 40], 3),
        pallet.revoke_claim(account("carol"), claim("a")),
        pallet.revoke_claim(account("carol"), claim("c")),
        pallet.transfer_claim(account("carol"), account("carol"), claim("b"), 3),
        pallet.transfer_claim(account("alice"), account("carol"), claim("c"), 3),
    ];
    assert_eq!(
        rejected,
        [
            Err(Error::ProofAlreadyExist),
            Err(Error::ClaimTooLong),
            Err(Error::NotClaimOwner),
            Err(Error::ClaimNotExist),
            Err(Error::NotClaimOwner),
            Err(Error::ClaimNotExist),
        ]
    );
    assert_eq!(pallet.proofs().len(), 2);
    assert_eq!(pallet.proofs().get(&claim("a")), Some(&record("alice", 1)));
    assert_eq!(pallet.proofs().get(&claim("b")), Some(&record("bob", 2)));
    assert_eq!(pallet.proofs().get(&claim("c")), None);
}

#[test]
fn operations_on_one_claim_leave_the_others() {
    let mut pallet = registry_of_32();
    pallet.create_claim(account("alice"), claim("a"), 1).unwrap();
    pallet.create_claim(account("bob"), claim("b"), 2).unwrap();
    pallet.create_claim(account("carol"), claim("c"), 3).unwrap();
    pallet.transfer_claim(account("bob"), account("alice"), claim("b"), 4).unwrap();
    pallet.revoke_claim(account("carol"), claim("c")).unwrap();
    assert_eq!(pallet.proofs().get(&claim("a")), Some(&record("alice", 1)));
    assert_eq!(pallet.proofs().get(&claim("b")), Some(&record("alice", 4)));
    assert_eq!(pallet.proofs().get(&claim("c")), None);
    assert_eq!(pallet.proofs().len(), 2);
}

#[test]
fn configuration_is_kept() {
    let mut pallet = Pallet::new(Config { max_claim_length: 4 });
    assert_eq!(pallet.config(), Config { max_claim_length: 4 });
    pallet.create_claim(account("alice"), claim("abcd"), 1).unwrap();
    assert_eq!(pallet.create_claim(account("alice"), claim("abcde"), 1), Err(Error::ClaimTooLong));
    pallet.revoke_claim(account("alice"), claim("abcd")).unwrap();
    assert_eq!(pallet.config().max_claim_length, 4);
}

#[test]
fn claims_of_any_bytes_in_any_order() {
    let mut pallet = Pallet::new(Config { max_claim_length: 8 });
    let keys: Vec<Vec<u8>> = vec![
        vec![200],
        vec![],
        vec![0],
        vec![0, 0],
        vec![255, 255, 255],
        vec![1, 2, 3],
        vec![1, 2],
        vec![1, 2, 4],
        vec![0, 255],
        vec![255],
        vec![1],
        vec![128, 0, 0, 0, 0, 0, 0, 0],
    ];
    for (i, key) in keys.iter().enumerate() {
        assert!(pallet.create_claim(account("alice"), key.clone(), i as u64).is_ok());
    }
    assert_eq!(pallet.proofs().len(), keys.len());
    for (i, key) in keys.iter().enumerate() {
        assert_eq!(pallet.proofs().get(key), Some(&record("alice", i as u64)));
        assert_eq!(
            pallet.create_claim(account("bob"), key.clone(), 100),
            Err(Error::ProofAlreadyExist)
        );
    }
    assert_eq!(pallet.proofs().get(&vec![1, 2, 5]), None);
    assert_eq!(pallet.proofs().get(&vec![0, 0, 0]), None);
    for key in keys.iter().rev().step_by(2) {
        assert!(pallet.revoke_claim(account("alice"), key.clone()).is_ok());
    }
    assert_eq!(pallet.proofs().len(), keys.len() / 2);
    for (i, key) in keys.iter().enumerate() {
        let expected = if i % 2 == 0 { Some(record("alice", i as u64)) } else { None };
        assert_eq!(pallet.proofs().get(key), expected.as_ref());
    }
}

#[test]
fn accounts_are_told_apart_by_their_bytes() {
    let mut pallet = registry_of_32();
    let short = AccountId::new(vec![1]);
    let longer = AccountId::new(vec![1, 0]);
    pallet.create_claim(short.clone(), claim("doc"), 1).unwrap();
    assert_eq!(pallet.revoke_claim(longer.clone(), claim("doc")), Err(Error::NotClaimOwner));
    assert_eq!(
        pallet.transfer_claim(AccountId::new(vec![1]), longer.clone(), claim("doc"), 2),
        Ok(Event::ClaimTransferred { from: short, to: longer.clone(), claim: claim("doc") })
    );
    assert_eq!(
        pallet.proofs().get(&claim("doc")),
        Some(&OwnershipRecord { owner: longer, registered_at: 2 })
    );
}

#[test]
fn claim_is_live_from_creation_until_revocation() {
    let mut pallet = registry_of_32();
    assert!(!pallet.proofs().contains_key(b"doc1"));
    pallet.create_claim(account("alice"), claim("doc1"), 1).unwrap();
    assert!(pallet.proofs().contains_key(b"doc1"));
    pallet.transfer_claim(account("alice"), account("bob"), claim("doc1"), 2).unwrap();
    assert!(pallet.proofs().contains_key(b"doc1"));
    pallet.transfer_claim(account("bob"), account("carol"), claim("doc1"), 3).unwrap();
    assert!(pallet.proofs().contains_key(b"doc1"));
    pallet.revoke_claim(account("carol"), claim("doc1")).unwrap();
    assert!(!pallet.proofs().contains_key(b"doc1"));
    assert_eq!(pallet.revoke_claim(account("carol"), claim("doc1")), Err(Error::ClaimNotExist));
    pallet.create_claim(account("alice"), claim("doc1"), 4).unwrap();
    assert!(pallet.proofs().contains_key(b"doc1"));
}

#[test]
fn record_is_what_the_last_successful_operation_left() {
    let mut pallet = registry_of_32();
    pallet.create_claim(account("alice"), claim("doc1"), 5).unwrap();
    assert_eq!(pallet.proofs().get(b"doc1"), Some(&record("alice", 5)));
    assert!(pallet.create_claim(account("bob"), claim("doc1"), 6).is_err());
    assert!(pallet.transfer_claim(account("bob"), account("bob"), claim("doc1"), 7).is_err());
    assert_eq!(pallet.proofs().get(b"doc1"), Some(&record("alice", 5)));
    pallet.transfer_claim(account("alice"), account("bob"), claim("doc1"), 8).unwrap();
    assert_eq!(pallet.proofs().get(b"doc1"), Some(&record("bob", 8)));
    pallet.create_claim(account("alice"), claim("doc2"), 9).unwrap();
    assert!(pallet.revoke_claim(account("alice"), claim("doc1")).is_err());
    assert_eq!(pallet.proofs().get(b"doc1"), Some(&record("bob", 8)));
    pallet.transfer_claim(account("bob"), account("bob"), claim("doc1"), 8).unwrap();
    assert_eq!(pallet.proofs().get(b"doc1"), Some(&record("bob", 8)));
    pallet.transfer_claim(account("bob"), account("alice"), claim("doc1"), 10).unwrap();
    assert_eq!(pallet.proofs().get(b"doc1"), Some(&record("alice", 10)));
}
