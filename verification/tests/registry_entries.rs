use exchainge::errors::ErrorCode;
use exchainge::registry::{
    process_close_registry, process_register_dataset, process_register_hash, process_update_hash,
};
use sha2::Digest;

const OWNER: u64 = 51;

#[test]
fn trustless_registration_derives_the_digest() {
    let reg = process_register_dataset(OWNER, 1, 2, b"k".to_vec(), 100).unwrap();
    assert_eq!(reg.owner, OWNER);
    assert_eq!(reg.internal_key, b"dataset_1".to_vec());
    assert_eq!(reg.dataset_id, Some(1));
    assert_eq!(reg.file_size, Some(2));
    assert_eq!(reg.file_key, Some(b"k".to_vec()));
    assert_eq!(reg.created_at, 100);
    // The stored digest is the SHA-256 of "file_key:dataset_id:file_size".
    let expected: Vec<u8> = sha2::Sha256::digest(b"k:1:2").to_vec();
    assert_eq!(reg.dataset_hash, expected);
}

#[test]
fn trustless_registration_formats_large_numbers() {
    let reg =
        process_register_dataset(OWNER, 987_654_321, 10_000_000_000, b"data.bin".to_vec(), 100)
            .unwrap();
    assert_eq!(reg.internal_key, b"dataset_987654321".to_vec());
    let expected: Vec<u8> = sha2::Sha256::digest(b"data.bin:987654321:10000000000").to_vec();
    assert_eq!(reg.dataset_hash, expected);
}

#[test]
fn trustless_registration_validates_inputs() {
    assert_eq!(
        process_register_dataset(OWNER, 1, 2, Vec::new(), 100).err(),
        Some(ErrorCode::InvalidFileKey)
    );
    assert_eq!(
        process_register_dataset(OWNER, 1, 2, vec![b'k'; 101], 100).err(),
        Some(ErrorCode::InvalidFileKey)
    );
    assert_eq!(
        process_register_dataset(OWNER, 1, 0, b"k".to_vec(), 100).err(),
        Some(ErrorCode::InvalidFileSize)
    );
}

#[test]
fn precomputed_registration_stores_the_given_digest() {
    let digest = vec![0xAAu8; 32];
    let reg = process_register_hash(OWNER, b"my-key".to_vec(), digest.clone(), 100).unwrap();
    assert_eq!(reg.internal_key, b"my-key".to_vec());
    assert_eq!(reg.dataset_hash, digest);
    assert_eq!(reg.dataset_id, None);
    assert_eq!(reg.file_size, None);
    assert_eq!(reg.file_key, None);
}

#[test]
fn precomputed_registration_validates_inputs() {
    assert_eq!(
        process_register_hash(OWNER, Vec::new(), vec![0u8; 32], 100).err(),
        Some(ErrorCode::InvalidInternalKey)
    );
    assert_eq!(
        process_register_hash(OWNER, vec![b'k'; 65], vec![0u8; 32], 100).err(),
        Some(ErrorCode::InvalidInternalKey)
    );
    assert_eq!(
        process_register_hash(OWNER, b"k".to_vec(), vec![0u8; 31], 100).err(),
        Some(ErrorCode::InvalidDatasetHash)
    );
}

#[test]
fn hash_update_is_owner_gated() {
    let mut reg = process_register_hash(OWNER, b"k".to_vec(), vec![0u8; 32], 100).unwrap();
    assert_eq!(
        process_update_hash(&mut reg, 999, vec![1u8; 32]).err(),
        Some(ErrorCode::Unauthorized)
    );
    assert_eq!(reg.dataset_hash, vec![0u8; 32]);

    process_update_hash(&mut reg, OWNER, vec![1u8; 32]).unwrap();
    assert_eq!(reg.dataset_hash, vec![1u8; 32]);

    assert_eq!(
        process_update_hash(&mut reg, OWNER, vec![1u8; 33]).err(),
        Some(ErrorCode::InvalidDatasetHash)
    );
}

#[test]
fn closing_is_owner_gated() {
    let reg = process_register_hash(OWNER, b"k".to_vec(), vec![0u8; 32], 100).unwrap();
    assert_eq!(
        process_close_registry(&reg, 999).err(),
        Some(ErrorCode::Unauthorized)
    );
    assert!(process_close_registry(&reg, OWNER).is_ok());
}
