use hybridguard::error::HybridGuardError;
use hybridguard::layer_fhe::FHELayer;
use hybridguard::layer_hqc::{HqcLayer, HQC_ENCAP_LEN};
use hybridguard::layer_mlkem::{MlKemLayer, MLKEM_ENCAP_LEN};
use hybridguard::layer_noise::QuantumNoiseLayer;

#[test]
fn test_hqc_layer_info() {
    let layer = HqcLayer::new();
    assert_eq!(layer.name(), "HQC (Code-based)");
    assert_eq!(layer.security_level(), 256);
}

#[test]
fn test_hqc_encrypt_decrypt() {
    let layer = HqcLayer::new();
    let key = vec![0u8; 32]; // Test key
    let data = b"Test data for HQC encryption";

    // Encrypt
    let encrypted = layer.encrypt(data, &key).unwrap();
    assert!(encrypted.len() > data.len()); // Should be larger due to KEM ciphertext

    // Decrypt
    let decrypted = layer.decrypt(&encrypted, &key).unwrap();
    assert_eq!(data.to_vec(), decrypted);
}

#[test]
fn test_hqc_ciphertext_length() {
    let layer = HqcLayer::new();
    let key = vec![9u8; 32];
    let data = b"abc";
    let encrypted = layer.encrypt(data, &key).unwrap();
    assert_eq!(encrypted.len(), HQC_ENCAP_LEN + data.len());
}

#[test]
fn test_hqc_decrypt_short_input() {
    let layer = HqcLayer::new();
    let key = vec![0u8; 32];
    let r = layer.decrypt(&[1, 2, 3], &key);
    assert!(matches!(r, Err(HybridGuardError::Decryption(_))));
}

#[test]
fn test_mlkem_layer_info() {
    let layer = MlKemLayer::new();
    assert_eq!(layer.name(), "ML-KEM-768 (Lattice-based)");
    assert_eq!(layer.security_level(), 192);
}

#[test]
fn test_mlkem_encrypt_decrypt() {
    let layer = MlKemLayer::new();
    let key = vec![5u8; 32];
    let data = b"Test data for the lattice layer";

    let encrypted = layer.encrypt(data, &key).unwrap();
    assert_eq!(encrypted.len(), MLKEM_ENCAP_LEN + data.len());

    let decrypted = layer.decrypt(&encrypted, &key).unwrap();
    assert_eq!(data.to_vec(), decrypted);
}

#[test]
fn test_mlkem_decrypt_short_input() {
    let layer = MlKemLayer::new();
    let key = vec![5u8; 32];
    let r = layer.decrypt(&[0u8; 100], &key);
    assert!(matches!(r, Err(HybridGuardError::Decryption(_))));
}

#[test]
fn test_noise_layer_info() {
    let layer = QuantumNoiseLayer::new();
    assert_eq!(layer.name(), "Quantum Noise Injection");
    assert_eq!(layer.security_level(), 256);
}

#[test]
fn test_noise_encrypt_decrypt() {
    let layer = QuantumNoiseLayer::new();
    let key = vec![0u8; 32]; // Test key
    let data = b"Test data for quantum noise layer";

    // Encrypt (inject noise)
    let encrypted = layer.encrypt(data, &key).unwrap();
    assert_eq!(encrypted.len(), data.len()); // Same size
    assert_ne!(&encrypted[..], data); // Should be different

    // Decrypt (remove noise)
    let decrypted = layer.decrypt(&encrypted, &key).unwrap();
    assert_eq!(data.to_vec(), decrypted); // Should match original
}

#[test]
fn test_noise_deterministic() {
    let layer = QuantumNoiseLayer::new();
    let key = vec![42u8; 32];
    let data = b"Deterministic test";

    // Encrypt twice with same key
    let encrypted1 = layer.encrypt(data, &key).unwrap();
    let encrypted2 = layer.encrypt(data, &key).unwrap();

    // Should produce same result
    assert_eq!(encrypted1, encrypted2);
}

#[test]
fn test_noise_encrypt_equals_decrypt() {
    let layer = QuantumNoiseLayer::new();
    let key = vec![11u8; 32];
    let data = b"the transform is self-inverse";
    let e = layer.encrypt(data, &key).unwrap();
    let d = layer.decrypt(data, &key).unwrap();
    assert_eq!(e, d);
}

#[test]
fn test_fhe_encrypt_decrypt() {
    let layer = FHELayer::new();
    let data = b"Test data for FHE encryption";
    let key = b"this-is-a-32-byte-secret-key!!!!";

    let ciphertext = layer.encrypt(data, key).unwrap();
    assert_ne!(ciphertext, data);

    let decrypted = layer.decrypt(&ciphertext, key).unwrap();
    assert_eq!(decrypted, data);
}

#[test]
fn test_homomorphic_add() {
    let layer = FHELayer::new();
    let ct1 = vec![1, 2, 3, 4];
    let ct2 = vec![5, 6, 7, 8];

    let result = layer.homomorphic_add(&ct1, &ct2).unwrap();
    assert_eq!(result.len(), ct1.len());
}

#[test]
fn test_homomorphic_add_exact() {
    let layer = FHELayer::new();
    let result = layer.homomorphic_add(&[1, 2, 3, 4], &[5, 6, 7, 8]).unwrap();
    assert_eq!(result, vec![4, 4, 4, 12]);
}

#[test]
fn test_homomorphic_add_mismatch() {
    let layer = FHELayer::new();
    let r = layer.homomorphic_add(&[1, 2, 3], &[1, 2]);
    assert!(matches!(r, Err(HybridGuardError::InvalidInput(_))));
}

#[test]
fn test_homomorphic_multiply() {
    let layer = FHELayer::new();
    let ct = vec![1, 2, 3, 4];
    let scalar = 2;

    let result = layer.homomorphic_multiply(&ct, scalar).unwrap();
    assert_eq!(result.len(), ct.len());
}

#[test]
fn test_homomorphic_multiply_exact() {
    let layer = FHELayer::new();
    let result = layer.homomorphic_multiply(&[1, 2, 3, 200], 3).unwrap();
    assert_eq!(result, vec![3, 6, 9, 88]);
}

#[test]
fn test_empty_data() {
    let layer = FHELayer::new();
    let key = b"this-is-a-32-byte-secret-key!!!!";

    let result = layer.encrypt(&[], key);
    assert!(result.is_err());
}

#[test]
fn test_short_key() {
    let layer = FHELayer::new();
    let data = b"Test data";
    let short_key = b"short";

    let result = layer.encrypt(data, short_key);
    assert!(result.is_err());
}

#[test]
fn test_fhe_key_of_31_bytes_rejected() {
    let layer = FHELayer::new();
    let r = layer.encrypt(b"payload", &[7u8; 31]);
    assert!(matches!(r, Err(HybridGuardError::InvalidInput(_))));
}

#[test]
fn test_fhe_empty_data_invalid_input() {
    let layer = FHELayer::new();
    let r = layer.encrypt(&[], &[7u8; 32]);
    assert!(matches!(r, Err(HybridGuardError::InvalidInput(_))));
}

#[test]
fn test_fhe_output_block_aligned() {
    let layer = FHELayer::new();
    let key = vec![1u8; 32];
    for len in [1usize, 31, 32, 33, 64] {
        let data = vec![0xaau8; len];
        let ct = layer.encrypt(&data, &key).unwrap();
        assert!(ct.len() > 0);
        assert_eq!(ct.len() % 32, 0);
        assert!(ct.len() > len);
    }
}

#[test]
fn test_fhe_exact_padded_lengths() {
    let layer = FHELayer::new();
    let key = vec![1u8; 32];
    // One byte pads to one block; a full block pads to two.
    assert_eq!(layer.encrypt(&[9u8], &key).unwrap().len(), 32);
    assert_eq!(layer.encrypt(&[9u8; 32], &key).unwrap().len(), 64);
}

#[test]
fn test_fhe_trailing_marker_byte_round_trip() {
    // A payload whose last byte equals the padding marker still round-trips,
    // because a fresh marker is always appended.
    let layer = FHELayer::new();
    let key = vec![2u8; 32];
    let data = [1u8, 2, 3, 0x80];
    let ct = layer.encrypt(&data, &key).unwrap();
    let pt = layer.decrypt(&ct, &key).unwrap();
    assert_eq!(pt, data.to_vec());
}
