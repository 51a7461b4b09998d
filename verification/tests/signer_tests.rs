use tinywindow::signer::{keygen, sign, verify};

#[test]
fn test_keygen_deterministic() {
    let seed = 42u64;
    let key1 = keygen(seed);
    let key2 = keygen(seed);
    assert_eq!(key1, key2, "keygen must be deterministic for the same seed");
    assert_eq!(key1.len(), 32);
}

#[test]
fn test_keygen_different_seeds() {
    let key1 = keygen(42);
    let key2 = keygen(43);
    assert_ne!(key1, key2, "different seeds should produce different keys");
}

#[test]
fn test_sign_deterministic() {
    let key = keygen(42);
    let payload = b"hello deterministic world";
    let sig1 = sign(&key, payload);
    let sig2 = sign(&key, payload);
    assert_eq!(
        sig1, sig2,
        "sign must be deterministic for the same key and payload"
    );
    assert_eq!(sig1.len(), 32);
}

#[test]
fn test_sign_verify_roundtrip() {
    let key = keygen(42);
    let payload = b"hello deterministic world";
    let sig = sign(&key, payload);
    assert!(
        verify(&key, payload, &sig),
        "verify should return true for valid signature"
    );
}

#[test]
fn test_verify_fails_with_wrong_key() {
    let key1 = keygen(42);
    let key2 = keygen(43);
    let payload = b"hello deterministic world";
    let sig = sign(&key1, payload);
    assert!(
        !verify(&key2, payload, &sig),
        "verify should fail with wrong key"
    );
}

#[test]
fn test_verify_fails_with_wrong_payload() {
    let key = keygen(42);
    let payload1 = b"hello deterministic world";
    let payload2 = b"different payload";
    let sig = sign(&key, payload1);
    assert!(
        !verify(&key, payload2, &sig),
        "verify should fail with wrong payload"
    );
}

#[test]
fn test_verify_fails_with_tampered_signature() {
    let key = keygen(42);
    let payload = b"hello deterministic world";
    let mut sig = sign(&key, payload);
    sig[0] ^= 0xff;
    assert!(
        !verify(&key, payload, &sig),
        "verify should fail with tampered signature"
    );
}
