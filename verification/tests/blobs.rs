use sputnikdao2::blobs::{
    distinct_hashes, find_blob, same_bytes, store_blob, store_blob_replying, stored_cost,
};
use sputnikdao2::{Blob, Config, Contract, DaoError, VersionedPolicy};

fn fresh() -> Contract {
    Contract::new(Config::test_config(), VersionedPolicy::Default(vec![]), 0)
}

const BYTE: u128 = 10_000_000_000_000_000_000;

#[test]
fn the_cost_of_a_blob() {
    assert_eq!(stored_cost(0), 32 * BYTE);
    assert_eq!(stored_cost(100), 132 * BYTE);
    assert_eq!(stored_cost(u64::MAX), (u64::MAX as u128 + 32) * BYTE);
}

#[test]
fn storing_returns_the_hash_as_json_base64() {
    let mut contract = fresh();
    let hash = vec![100u8, 121, 31, 20, 0, 23, 32];
    let reply = store_blob(&mut contract, &"bob".to_string(), hash.clone(), 10, 42 * BYTE).unwrap();
    assert_eq!(reply, "\"ZHkfFAAXIA==\"");
    assert_eq!(contract.get_locked_amount(), 42 * BYTE);
    assert_eq!(contract.data().blobs.len(), 1);
    assert_eq!(contract.data().blobs[0].hash, hash);
    assert_eq!(contract.data().blobs[0].owner, "bob");
    let reply = store_blob(&mut contract, &"bob".to_string(), vec![], 0, 32 * BYTE).unwrap();
    assert_eq!(reply, "\"\"");
    let reply = store_blob(&mut contract, &"bob".to_string(), vec![0u8; 32], 0, 32 * BYTE).unwrap();
    assert_eq!(reply, "\"AAAAAAAAAAAAAAAAAAAAAAAAAAAAAAAAAAAAAAAAAAA=\"");
}

#[test]
fn storing_is_refused_for_a_known_hash_or_a_small_deposit() {
    let mut contract = fresh();
    let bob = "bob".to_string();
    assert_eq!(
        store_blob(&mut contract, &bob, vec![1, 2, 3], 10, 42 * BYTE - 1),
        Err(DaoError::InsufficientDeposit)
    );
    assert_eq!(contract.data().blobs.len(), 0);
    assert_eq!(contract.get_locked_amount(), 0);
    store_blob(&mut contract, &bob, vec![1, 2, 3], 10, 42 * BYTE).unwrap();
    assert_eq!(
        store_blob(&mut contract, &"alice".to_string(), vec![1, 2, 3], 0, u128::MAX),
        Err(DaoError::BlobExists)
    );
    assert_eq!(contract.data().blobs.len(), 1);
    assert_eq!(contract.get_locked_amount(), 42 * BYTE);
    contract.data_mut().locked_amount = u128::MAX - 32 * BYTE + 1;
    assert_eq!(
        store_blob(&mut contract, &bob, vec![9], 0, u128::MAX),
        Err(DaoError::AccountingCorruption)
    );
    contract.data_mut().locked_amount = u128::MAX - 32 * BYTE;
    assert!(store_blob(&mut contract, &bob, vec![9], 0, u128::MAX).is_ok());
    assert_eq!(contract.get_locked_amount(), u128::MAX);
}

#[test]
fn storing_with_a_given_reply() {
    let mut contract = fresh();
    let bob = "bob".to_string();
    assert_eq!(
        store_blob_replying(&mut contract, &bob, vec![1], 0, 32 * BYTE, "text".to_string()),
        Ok("text".to_string())
    );
    assert_eq!(contract.data().blobs.len(), 1);
    assert_eq!(contract.data().blobs[0].owner, "bob");
    assert_eq!(contract.get_locked_amount(), 32 * BYTE);
    assert_eq!(
        store_blob_replying(&mut contract, &bob, vec![2], 1, 32 * BYTE, "text".to_string()),
        Err(DaoError::InsufficientDeposit)
    );
    assert_eq!(
        store_blob_replying(&mut contract, &bob, vec![1], 0, 32 * BYTE, "other".to_string()),
        Err(DaoError::BlobExists)
    );
    assert_eq!(contract.data().blobs.len(), 1);
    assert_eq!(contract.get_locked_amount(), 32 * BYTE);
}

#[test]
fn removing_pays_the_cost_back_to_the_owner() {
    let mut contract = fresh();
    let bob = "bob".to_string();
    store_blob(&mut contract, &bob, vec![1, 2, 3], 10, 42 * BYTE).unwrap();
    store_blob(&mut contract, &bob, vec![4], 0, 32 * BYTE).unwrap();
    assert_eq!(
        contract.remove_blob(&bob, &vec![9, 9], 10),
        Err(DaoError::BlobNotFound)
    );
    assert_eq!(
        contract.remove_blob(&"alice".to_string(), &vec![1, 2, 3], 10),
        Err(DaoError::InvalidCaller)
    );
    assert_eq!(contract.check_blob_removal(&bob, &vec![9, 9]), Err(DaoError::BlobNotFound));
    assert_eq!(
        contract.check_blob_removal(&"alice".to_string(), &vec![1, 2, 3]),
        Err(DaoError::InvalidCaller)
    );
    assert_eq!(contract.check_blob_removal(&bob, &vec![1, 2, 3]), Ok(()));
    assert_eq!(contract.data().blobs.len(), 2);
    assert_eq!(contract.get_locked_amount(), 74 * BYTE);
    assert_eq!(contract.remove_blob(&bob, &vec![1, 2, 3], 10), Ok(42 * BYTE));
    assert_eq!(contract.data().blobs.len(), 1);
    assert_eq!(contract.data().blobs[0].hash, vec![4]);
    assert_eq!(contract.get_locked_amount(), 32 * BYTE);
    assert_eq!(contract.remove_blob(&bob, &vec![1, 2, 3], 10), Err(DaoError::BlobNotFound));
    // less locked than the cost
    assert_eq!(contract.remove_blob(&bob, &vec![4], 1), Err(DaoError::AccountingCorruption));
    assert_eq!(contract.data().blobs.len(), 1);
    assert_eq!(contract.remove_blob(&bob, &vec![4], 0), Ok(32 * BYTE));
    assert_eq!(contract.get_locked_amount(), 0);
}

#[test]
fn blobs_are_found_by_their_bytes() {
    let blobs = vec![
        Blob { hash: vec![1], owner: "a".to_string() },
        Blob { hash: vec![1, 2], owner: "b".to_string() },
    ];
    assert_eq!(find_blob(&blobs, &vec![1, 2]), 1);
    assert_eq!(find_blob(&blobs, &vec![1]), 0);
    assert_eq!(find_blob(&blobs, &vec![2]), 2);
    assert!(same_bytes(&vec![], &vec![]));
    assert!(same_bytes(&vec![1, 2], &vec![1, 2]));
    assert!(!same_bytes(&vec![1, 2], &vec![1, 3]));
    assert!(!same_bytes(&vec![1, 2], &vec![1]));
}

#[test]
fn two_blobs_under_one_hash_are_not_in_order() {
    let mut contract = fresh();
    store_blob(&mut contract, &"bob".to_string(), vec![1], 0, 32 * BYTE).unwrap();
    store_blob(&mut contract, &"bob".to_string(), vec![2], 0, 32 * BYTE).unwrap();
    assert!(distinct_hashes(&contract.data().blobs));
    assert!(contract.data().check());
    contract.data_mut().blobs.push(Blob { hash: vec![1], owner: "alice".to_string() });
    assert!(!distinct_hashes(&contract.data().blobs));
    assert!(!contract.data().check());
    assert!(distinct_hashes(&vec![]));
}
