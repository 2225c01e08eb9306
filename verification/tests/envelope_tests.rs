use hybridguard::envelope::EncryptedData;
use hybridguard::error::HybridGuardError;
use hybridguard::layer_fhe::FHELayer;

#[test]
fn test_envelope_new_fields() {
    let envelope = EncryptedData::new(vec![1, 2, 3]);
    assert_eq!(envelope.ciphertext, vec![1, 2, 3]);
    assert_eq!(envelope.layers.len(), 4);
    assert_eq!(envelope.layers[0], "ML-KEM-768");
    assert_eq!(envelope.layers[3], "FHE");
    assert_eq!(envelope.version, "0.1.0");
}

#[test]
fn test_error_message() {
    let layer = FHELayer::new();
    let err = layer.encrypt(&[], &[0u8; 32]).unwrap_err();
    match err {
        HybridGuardError::InvalidInput(_) => {
            assert_eq!(err.message(), "data cannot be empty");
        }
        _ => panic!("unexpected error kind"),
    }
}
