use hybridguard::hash::{sha256, sha3_256};

fn from_hex(s: &str) -> Vec<u8> {
    let bytes = s.as_bytes();
    let mut out = Vec::new();
    let mut i = 0;
    while i + 1 < bytes.len() {
        let hi = (bytes[i] as char).to_digit(16).unwrap() as u8;
        let lo = (bytes[i + 1] as char).to_digit(16).unwrap() as u8;
        out.push(hi * 16 + lo);
        i += 2;
    }
    out
}

#[test]
fn test_sha256_known_vector() {
    // SHA-256 of the empty input, per FIPS 180-4.
    let digest = sha256(&[]);
    assert_eq!(
        digest,
        from_hex("e3b0c44298fc1c149afbf4c8996fb92427ae41e4649b934ca495991b7852b855")
    );
}

#[test]
fn test_sha3_256_known_vector() {
    // SHA3-256 of the empty input, per FIPS 202.
    let digest = sha3_256(&[]);
    assert_eq!(
        digest,
        from_hex("a7ffc6f8bf1ed76651c14756a061d662f580ff4de43b49fa82d80a4b80f8434a")
    );
}

#[test]
fn test_sha256_abc_vector() {
    // SHA-256 of "abc", per FIPS 180-4.
    let digest = sha256(b"abc");
    assert_eq!(
        digest,
        from_hex("ba7816bf8f01cfea414140de5dae2223b00361a396177a9cb410ff61f20015ad")
    );
}
