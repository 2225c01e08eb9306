use hybridguard::encryptor::HybridGuardEncryptor;
use hybridguard::hybridguard::HybridGuard;
use hybridguard::kdf::KeyDerivation;
use hybridguard::key_manager::KeyManager;

#[test]
fn encryptor_test_encrypt_decrypt() {
    let encryptor = HybridGuardEncryptor::new();

    // Generate keys
    let kd = KeyDerivation::new(vec![0u8; 32]);
    let keys = kd.derive_all_keys().unwrap();

    // Test data
    let data = b"Hello, Quantum World!";

    // Encrypt
    let encrypted = encryptor.encrypt(data, &keys).unwrap();

    // Decrypt
    let decrypted = encryptor.decrypt(&encrypted, &keys).unwrap();

    // Verify
    assert_eq!(data.to_vec(), decrypted);
}

#[test]
fn test_layer_info() {
    let encryptor = HybridGuardEncryptor::new();
    let info = encryptor.layer_info();

    assert_eq!(info.len(), 4);
    assert_eq!(info[0].name, "ML-KEM-768 (Lattice-based)");
    assert_eq!(info[1].name, "HQC (Code-based)");
    assert_eq!(info[2].name, "Quantum Noise Injection");
}

#[test]
fn hybridguard_test_encrypt_decrypt() {
    let hg = HybridGuard::new("test_password_123").unwrap();

    let plaintext = b"Hello, HybridGuard!";
    let encrypted = hg.encrypt(plaintext).unwrap();
    let decrypted = hg.decrypt(&encrypted).unwrap();

    assert_eq!(plaintext, &decrypted[..]);
}

#[test]
fn test_end_to_end_zero_master() {
    // Master secret of 32 zero bytes, full four-layer pipeline.
    let kd = KeyDerivation::new(vec![0u8; 32]);
    let keys = kd.derive_all_keys().unwrap();
    let km = KeyManager::from_keys(keys, "hg-fixed".to_string());
    let hg = HybridGuard::load(km);

    let plaintext = b"Hello, HybridGuard!";
    let envelope = hg.encrypt(plaintext).unwrap();
    assert_eq!(envelope.layers.len(), 4);

    let decrypted = hg.decrypt(&envelope).unwrap();
    assert_eq!(plaintext.to_vec(), decrypted);
}

#[test]
fn test_envelope_metadata() {
    let kd = KeyDerivation::new(vec![1u8; 32]);
    let keys = kd.derive_all_keys().unwrap();
    let encryptor = HybridGuardEncryptor::new();
    let envelope = encryptor.encrypt(b"x", &keys).unwrap();
    assert_eq!(envelope.layers.len(), 4);
    assert_eq!(envelope.layers[0], "ML-KEM-768");
    assert_eq!(envelope.layers[1], "HQC");
    assert_eq!(envelope.layers[2], "QuantumNoise");
    assert_eq!(envelope.layers[3], "FHE");
    assert_eq!(envelope.version, "0.1.0");
}

#[test]
fn test_get_stats() {
    let hg = HybridGuard::new("stats password").unwrap();
    let stats = hg.get_stats();
    assert_eq!(stats.layers.len(), 4);
    assert_eq!(stats.layers[0].name, "ML-KEM-768 (Lattice-based)");
    assert_eq!(stats.layers[0].security_bits, 192);
    assert_eq!(stats.layers[1].name, "HQC (Code-based)");
    assert_eq!(stats.layers[2].name, "Quantum Noise Injection");
    assert_eq!(stats.layers[3].name, "FHE (Homomorphic)");
    assert_eq!(stats.layers[3].security_bits, 256);
    assert!(stats.key_id.starts_with("hg-"));
}

#[test]
fn test_pipeline_deterministic_ciphertext() {
    // The whole pipeline is deterministic for a fixed key set.
    let kd = KeyDerivation::new(vec![9u8; 32]);
    let keys = kd.derive_all_keys().unwrap();
    let km1 = KeyManager::from_keys(keys, "hg-a".to_string());
    let hg1 = HybridGuard::load(km1);
    let kd2 = KeyDerivation::new(vec![9u8; 32]);
    let keys2 = kd2.derive_all_keys().unwrap();
    let km2 = KeyManager::from_keys(keys2, "hg-b".to_string());
    let hg2 = HybridGuard::load(km2);

    let a = hg1.encrypt(b"same payload").unwrap();
    let b = hg2.encrypt(b"same payload").unwrap();
    assert_eq!(a.ciphertext, b.ciphertext);
}

#[test]
fn test_empty_payload_round_trip() {
    // Even an empty payload survives the full pipeline: the inner layers
    // prepend their encapsulation blobs, so the padded-block layer never
    // sees empty input.
    let kd = KeyDerivation::new(vec![4u8; 32]);
    let keys = kd.derive_all_keys().unwrap();
    let km = KeyManager::from_keys(keys, "hg-empty".to_string());
    let hg = HybridGuard::load(km);

    let envelope = hg.encrypt(&[]).unwrap();
    let decrypted = hg.decrypt(&envelope).unwrap();
    assert!(decrypted.is_empty());
}
