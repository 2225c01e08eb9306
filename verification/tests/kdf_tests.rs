use hybridguard::error::HybridGuardError;
use hybridguard::kdf::KeyDerivation;
use hybridguard::key_manager::KeyManager;

#[test]
fn test_key_derivation() {
    let master_key = vec![0u8; 32];
    let kd = KeyDerivation::new(master_key);

    let key1 = kd.derive_layer_key(1, 32).unwrap();
    let key2 = kd.derive_layer_key(2, 32).unwrap();

    // Keys should be different
    assert_ne!(key1, key2);

    // Keys should be deterministic
    let key1_again = kd.derive_layer_key(1, 32).unwrap();
    assert_eq!(key1, key1_again);
}

#[test]
fn test_derive_all_keys() {
    let master_key = vec![0u8; 32];
    let kd = KeyDerivation::new(master_key);

    let keys = kd.derive_all_keys().unwrap();

    // All keys should be different
    assert_ne!(keys.layer1_key, keys.layer2_key);
    assert_ne!(keys.layer2_key, keys.layer3_key);
    assert_ne!(keys.layer3_key, keys.layer4_key);
}

#[test]
fn test_derive_all_keys_deterministic() {
    let kd1 = KeyDerivation::new(vec![7u8; 32]);
    let kd2 = KeyDerivation::new(vec![7u8; 32]);

    let a = kd1.derive_all_keys().unwrap();
    let b = kd2.derive_all_keys().unwrap();

    assert_eq!(a.layer1_key, b.layer1_key);
    assert_eq!(a.layer2_key, b.layer2_key);
    assert_eq!(a.layer3_key, b.layer3_key);
    assert_eq!(a.layer4_key, b.layer4_key);
}

#[test]
fn test_derive_all_keys_sizes() {
    let kd = KeyDerivation::new(vec![0u8; 32]);
    let keys = kd.derive_all_keys().unwrap();
    assert_eq!(keys.layer1_key.len(), 32);
    assert_eq!(keys.layer2_key.len(), 32);
    assert_eq!(keys.layer3_key.len(), 32);
    assert_eq!(keys.layer4_key.len(), 32);
}

#[test]
fn test_derive_layer_key_zero_size_rejected() {
    let kd = KeyDerivation::new(vec![0u8; 32]);
    let r = kd.derive_layer_key(1, 0);
    assert!(matches!(r, Err(HybridGuardError::InvalidInput(_))));
}

#[test]
fn test_derive_layer_key_expanded_size() {
    let kd = KeyDerivation::new(vec![3u8; 32]);
    let key = kd.derive_layer_key(2, 100).unwrap();
    assert_eq!(key.len(), 100);
    // The expanded key starts with the same bytes as the truncated one.
    let short = kd.derive_layer_key(2, 32).unwrap();
    assert_ne!(&key[..32], &short[..]);
}

#[test]
fn test_from_password_deterministic() {
    let a = KeyDerivation::from_password("secret", b"salt-bytes");
    let b = KeyDerivation::from_password("secret", b"salt-bytes");
    let ka = a.derive_all_keys().unwrap();
    let kb = b.derive_all_keys().unwrap();
    assert_eq!(ka.layer1_key, kb.layer1_key);
    assert_eq!(ka.layer4_key, kb.layer4_key);
}

#[test]
fn test_key_manager_id_shape() {
    let km = KeyManager::generate("a password").unwrap();
    let id = km.key_id();
    assert_eq!(id.len(), 67);
    assert!(id.starts_with("hg-"));
    let keys = km.get_keys();
    assert_eq!(keys.layer1_key.len(), 32);
    assert_eq!(keys.layer4_key.len(), 32);
}
