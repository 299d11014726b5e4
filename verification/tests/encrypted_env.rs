use rocksdb::env::{zero_key, KEY_LEN};
use rocksdb::EncryptedEnv;

/// A 32-byte test key.
fn test_key() -> Vec<u8> {
    vec![0x42u8; 32]
}

#[test]
fn test_encrypted_env_creates_without_error() {
    let env = EncryptedEnv::new(test_key());
    assert!(env.is_ok(), "EncryptedEnv creation failed: {:?}", env.err());
}

#[test]
fn test_encrypted_env_wrong_key_length() {
    let result = EncryptedEnv::new(vec![0u8; 16]);
    assert!(result.is_err());
    match result {
        Err(msg) => assert!(msg.contains("32 bytes")),
        Ok(_) => panic!("Expected error, got Ok"),
    }
}

#[test]
fn wrong_key_length_message_gives_the_length() {
    let msg = EncryptedEnv::new(vec![0u8; 16]).err().unwrap();
    assert_eq!(msg, "EncryptedEnv key must be exactly 32 bytes, got 16");
    let msg = EncryptedEnv::new(Vec::new()).err().unwrap();
    assert_eq!(msg, "EncryptedEnv key must be exactly 32 bytes, got 0");
    let msg = EncryptedEnv::new(vec![1u8; 33]).err().unwrap();
    assert_eq!(msg, "EncryptedEnv key must be exactly 32 bytes, got 33");
    let msg = EncryptedEnv::new(vec![1u8; 31]).err().unwrap();
    assert_eq!(msg, "EncryptedEnv key must be exactly 32 bytes, got 31");
    let msg = EncryptedEnv::new(vec![1u8; 100]).err().unwrap();
    assert_eq!(msg, "EncryptedEnv key must be exactly 32 bytes, got 100");
}

#[test]
fn accepted_key_is_handed_over_unchanged() {
    let key: Vec<u8> = (0u8..32).collect();
    let pending = EncryptedEnv::new(key.clone()).unwrap();
    assert_eq!(pending.key(), key.as_slice());
    assert_eq!(KEY_LEN, 32);
}

#[test]
fn zero_key_overwrites_every_byte() {
    let mut key = test_key();
    zero_key(&mut key);
    assert_eq!(key, vec![0u8; 32]);
    let mut empty: Vec<u8> = Vec::new();
    zero_key(&mut empty);
    assert!(empty.is_empty());
}

#[test]
fn failed_provider_creation_is_an_error() {
    let pending = EncryptedEnv::new(test_key()).unwrap();
    let r = pending.provider_created(0);
    assert_eq!(r.err().unwrap(), "Failed to create CTREncryptionProvider");
}

#[test]
fn failed_env_creation_is_an_error() {
    let pending = EncryptedEnv::new(test_key()).unwrap();
    let pending_env = pending.provider_created(0x1000).unwrap();
    assert_eq!(pending_env.provider(), 0x1000);
    let r = pending_env.env_created(0);
    assert_eq!(r.err().unwrap(), "Failed to create EncryptedEnv");
}

#[test]
fn created_env_keeps_both_handles() {
    let pending = EncryptedEnv::new(test_key()).unwrap();
    let env = pending.provider_created(0x1000).unwrap().env_created(0x2000).unwrap();
    assert_eq!(env.as_ptr(), 0x2000);
    assert_eq!(env.provider_ptr(), 0x1000);
    let copy = env.clone();
    assert_eq!(copy, env);
}
