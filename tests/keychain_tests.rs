use snapto::keychain::updated_keys;
use snapto::{CredentialMap, KeychainManager, SecurityConfig, SnaptoError};

fn test_config() -> SecurityConfig {
    SecurityConfig {
        use_system_keychain: false,
        encrypt_credentials: true,
    }
}

fn manager() -> KeychainManager {
    KeychainManager::new(&test_config(), "/home/tester", "master-secret".to_string())
}

#[test]
fn test_keychain_manager_creation() {
    let config = test_config();
    let manager = KeychainManager::new(&config, "/home/tester", "master-secret".to_string());
    assert!(!manager.use_system_keychain());
    assert!(manager.encrypted_file_path().is_some());
}

#[test]
fn encrypted_file_path_is_under_home() {
    assert_eq!(manager().encrypted_file_path(), Some("/home/tester/.snapto/credentials.enc".to_string()));
}

#[test]
fn test_set_and_get() {
    let manager = manager();
    let store = manager.set(None, "test_key", "test_value").unwrap().unwrap();
    let value = manager.get(Some(&store), "test_key").unwrap();
    assert_eq!(value, Some("test_value".to_string()));
}

#[test]
fn keychain_test_delete() {
    let manager = manager();
    let store = manager.set(None, "test_delete", "value").unwrap().unwrap();
    assert!(manager.get(Some(&store), "test_delete").unwrap().is_some());
    let store = manager.delete(Some(&store), "test_delete").unwrap().unwrap();
    assert!(manager.get(Some(&store), "test_delete").unwrap().is_none());
}

#[test]
fn test_list_keys() {
    let manager = manager();
    let store = manager.set(None, "key1", "value1").unwrap().unwrap();
    let store = manager.set(Some(&store), "key2", "value2").unwrap().unwrap();
    let store = manager.set(Some(&store), "key3", "value3").unwrap().unwrap();

    let keys = manager.list_keys(Some(&store)).unwrap();
    assert_eq!(keys.len(), 3);
    assert!(keys.contains(&"key1".to_string()));
    assert!(keys.contains(&"key2".to_string()));
    assert!(keys.contains(&"key3".to_string()));
}

#[test]
fn test_encryption_decryption() {
    let manager = manager();
    let plain = "sensitive data";
    let password = "test_password";
    let salt = argon2::password_hash::SaltString::generate(&mut aes_gcm::aead::OsRng);
    let nonce = [7u8; 12];

    let encrypted = manager.encrypt(plain, password, salt.as_str(), &nonce).unwrap();
    let decrypted = manager.decrypt(&encrypted, password, salt.as_str(), &nonce).unwrap();

    assert_eq!(plain, decrypted);
}

#[test]
fn test_clear_all() {
    let manager = manager();
    let store = manager.set(None, "key1", "value1").unwrap().unwrap();
    let store = manager.set(Some(&store), "key2", "value2").unwrap().unwrap();
    assert_eq!(manager.list_keys(Some(&store)).unwrap().len(), 2);

    assert_eq!(manager.clear_all(), Ok(true));
    assert_eq!(manager.list_keys(None).unwrap().len(), 0);
}

#[test]
fn overwrite_keeps_latest_value() {
    let manager = manager();
    let store = manager.set(None, "k", "one").unwrap().unwrap();
    let store = manager.set(Some(&store), "k", "two").unwrap().unwrap();
    assert_eq!(manager.get(Some(&store), "k").unwrap(), Some("two".to_string()));
    assert_eq!(manager.list_keys(Some(&store)).unwrap(), vec!["k".to_string()]);
}

#[test]
fn every_write_uses_fresh_salt_and_nonce() {
    let manager = manager();
    let a = manager.set(None, "k", "secret").unwrap().unwrap();
    let b = manager.set(None, "k", "secret").unwrap().unwrap();
    assert_eq!(a.nonce.len(), 12);
    assert!(a.nonce != b.nonce || a.salt != b.salt);
    assert_ne!(a.data, b"{\"k\":\"secret\"}".to_vec());
}

#[test]
fn corrupted_ciphertext_is_a_vault_error() {
    let manager = manager();
    let mut store = manager.set(None, "k", "secret").unwrap().unwrap();
    store.data[0] ^= 0xff;
    match manager.get(Some(&store), "k") {
        Err(SnaptoError::Encryption(_)) => {}
        other => panic!("expected a vault error, got {:?}", other),
    }
}

#[test]
fn wrong_master_password_is_a_vault_error() {
    let store = manager().set(None, "k", "secret").unwrap().unwrap();
    let other = KeychainManager::new(&test_config(), "/home/tester", "another".to_string());
    assert!(other.get(Some(&store), "k").is_err());
}

#[test]
fn bad_nonce_length_is_rejected() {
    let manager = manager();
    let mut store = manager.set(None, "k", "secret").unwrap().unwrap();
    store.nonce.pop();
    assert!(matches!(manager.get(Some(&store), "k"), Err(SnaptoError::Encryption(_))));
    assert!(manager.encrypt("x", "pw", "c2FsdHNhbHRzYWx0", &[1, 2, 3]).is_err());
}

#[test]
fn missing_file_holds_no_secrets() {
    let manager = manager();
    assert_eq!(manager.get(None, "anything").unwrap(), None);
    assert!(manager.list_keys(None).unwrap().is_empty());
}

#[test]
fn credential_map_round_trip() {
    let mut m = CredentialMap::new();
    m.insert("a", "1");
    m.insert("b", "2");
    m.insert("a", "3");
    assert_eq!(m.get("a"), Some("3".to_string()));
    assert_eq!(m.len(), 2);
    m.remove("a");
    assert_eq!(m.get("a"), None);
    assert_eq!(m.keys(), vec!["b".to_string()]);
}

#[test]
fn keys_index_updates() {
    let keys = vec!["a".to_string(), "b".to_string()];
    assert_eq!(updated_keys(keys.clone(), "c", true), vec!["a", "b", "c"]);
    assert_eq!(updated_keys(keys.clone(), "a", true), vec!["a", "b"]);
    assert_eq!(updated_keys(keys, "a", false), vec!["b"]);
}

#[test]
fn sealing_with_given_salt_and_nonce_reads_back() {
    let manager = manager();
    let store = manager
        .set_encrypted_file_with(None, "k", "v", &vec![9u8; 16], vec![3u8; 12])
        .unwrap();
    assert_eq!(store.nonce, vec![3u8; 12]);
    assert_eq!(manager.get(Some(&store), "k").unwrap(), Some("v".to_string()));
    let store = manager.delete_encrypted_file_with(Some(&store), "k", &vec![8u8; 16], vec![4u8; 12]).unwrap();
    assert_eq!(manager.get(Some(&store), "k").unwrap(), None);
}
