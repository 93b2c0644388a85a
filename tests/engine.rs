use cryptocrate::container::parse_container;
use cryptocrate::crypto::KdfParams;
use cryptocrate::engine::{encrypt_bytes, open_container, seal_container, CryptoSettings};
use cryptocrate::error::CrateError;
use cryptocrate::format::HEADER_SIZE;
use cryptocrate::streaming::{exceeds_streaming_threshold, plan_encryption, EncryptionMode, STREAMING_THRESHOLD};

fn fast() -> CryptoSettings {
    CryptoSettings { compression_level: 3, kdf: KdfParams { memory_kib: 64, time_cost: 1, parallelism: 1 } }
}

#[test]
fn test_encrypt_decrypt_roundtrip() {
    let data = b"Hello, CryptoCrate! This is a test.";
    let settings = CryptoSettings::standard();
    let c = encrypt_bytes(data, "super_secret_password", false, "test.txt", Some(1_700_000_000), &settings).unwrap();
    let d = open_container(&c, "super_secret_password", &settings).unwrap();
    assert_eq!(d.plaintext, data.to_vec());
    assert_eq!(d.metadata.filename, "test.txt");
    assert!(!d.metadata.is_compressed);
    assert_eq!(d.metadata.original_size, data.len() as u64);
    assert_eq!(d.metadata.modified_time, Some(1_700_000_000));
}

#[test]
fn test_encrypt_decrypt_with_compression() {
    let data = b"Hello, World! ".repeat(100);
    let settings = CryptoSettings::standard();
    let c = encrypt_bytes(&data, "super_secret_password", true, "test.txt", None, &settings).unwrap();
    let d = open_container(&c, "super_secret_password", &settings).unwrap();
    assert!(d.metadata.is_compressed);
    assert_eq!(d.plaintext, data);
    assert!(c.len() < data.len());
}

#[test]
fn round_trip_fast_costs() {
    let c = encrypt_bytes(b"Secret data", "correct_password", false, "test.txt", None, &fast()).unwrap();
    let d = open_container(&c, "correct_password", &fast()).unwrap();
    assert_eq!(d.plaintext, b"Secret data".to_vec());
}

#[test]
fn empty_plaintext_is_never_marked_compressed() {
    let c = encrypt_bytes(b"", "pw", true, "empty", None, &fast()).unwrap();
    let d = open_container(&c, "pw", &fast()).unwrap();
    assert!(!d.metadata.is_compressed);
    assert!(d.plaintext.is_empty());
}

#[test]
fn test_wrong_password() {
    let settings = CryptoSettings::standard();
    let c = encrypt_bytes(b"Secret data", "correct_password", false, "test.txt", None, &settings).unwrap();
    let result = open_container(&c, "wrong_password", &settings);
    assert!(result.is_err());
    assert!(matches!(result, Err(CrateError::InvalidPassword)));
}

#[test]
fn tampered_ciphertext_is_invalid_password() {
    let mut c = encrypt_bytes(b"Secret data", "pw", false, "test.txt", None, &fast()).unwrap();
    let last = c.len() - 1;
    c[last] ^= 1;
    assert!(matches!(open_container(&c, "pw", &fast()), Err(CrateError::InvalidPassword)));
}

#[test]
fn bad_magic_is_invalid_format() {
    let mut c = encrypt_bytes(b"data", "pw", false, "f", None, &fast()).unwrap();
    c[0] = b'Z';
    assert!(matches!(open_container(&c, "pw", &fast()), Err(CrateError::InvalidFormat(_))));
    assert!(matches!(open_container(b"", "pw", &fast()), Err(CrateError::InvalidFormat(_))));
}

#[test]
fn newer_version_is_unsupported() {
    let mut c = encrypt_bytes(b"data", "pw", false, "f", None, &fast()).unwrap();
    c[4] += 1;
    assert!(matches!(open_container(&c, "pw", &fast()), Err(CrateError::UnsupportedVersion(2))));
}

#[test]
fn algorithm_is_checked_before_metadata() {
    let mut c = encrypt_bytes(b"data", "pw", false, "f", None, &fast()).unwrap();
    c[5] = 2;
    c.truncate(60);
    assert!(matches!(parse_container(&c), Err(CrateError::InvalidFormat(m)) if m.contains("algorithm")));
}

#[test]
fn flag_set_on_uncompressed_payload_is_decryption_error() {
    let mut c = encrypt_bytes(b"plain bytes", "pw", false, "f", None, &fast()).unwrap();
    // Metadata block starts after the header: 2-byte name length, name, size, time, flag.
    let flag_at = HEADER_SIZE + 2 + 1 + 8 + 8;
    assert_eq!(c[flag_at], 0);
    c[flag_at] = 1;
    assert!(matches!(open_container(&c, "pw", &fast()), Err(CrateError::Decryption(_))));
}

#[test]
fn unknown_algorithm_is_invalid_format() {
    let mut c = encrypt_bytes(b"data", "pw", false, "f", None, &fast()).unwrap();
    c[5] = 2;
    assert!(matches!(open_container(&c, "pw", &fast()), Err(CrateError::InvalidFormat(_))));
}

#[test]
fn container_layout() {
    let salt = [3u8; 32];
    let nonce = [4u8; 12];
    let data = b"abc";
    let c = seal_container(data, "pw", false, "n", None, &salt, &nonce, &fast()).unwrap();
    assert_eq!(&c[0..4], b"CRAT");
    assert_eq!(c[4], 1);
    assert_eq!(c[5], 1);
    assert_eq!(&c[6..38], &salt);
    assert_eq!(&c[38..50], &nonce);
    let metadata_len = u32::from_le_bytes([c[50], c[51], c[52], c[53]]) as usize;
    assert_eq!(metadata_len, 2 + 1 + 8 + 8 + 1);
    assert_eq!(c.len(), HEADER_SIZE + metadata_len + data.len() + 16);
    let parts = parse_container(&c).unwrap();
    assert_eq!(parts.metadata.filename, "n");
    assert_eq!(parts.ciphertext.len(), data.len() + 16);
}

#[test]
fn same_salt_and_nonce_give_same_container() {
    let salt = [5u8; 32];
    let nonce = [6u8; 12];
    let a = seal_container(b"xyz", "pw", false, "n", Some(9), &salt, &nonce, &fast()).unwrap();
    let b = seal_container(b"xyz", "pw", false, "n", Some(9), &salt, &nonce, &fast()).unwrap();
    assert_eq!(a, b);
    let c = encrypt_bytes(b"xyz", "pw", false, "n", Some(9), &fast()).unwrap();
    let d = encrypt_bytes(b"xyz", "pw", false, "n", Some(9), &fast()).unwrap();
    assert_ne!(c, d);
}

#[test]
fn too_long_filename_is_refused() {
    let name = "y".repeat(65536);
    let result = encrypt_bytes(b"data", "pw", false, &name, None, &fast());
    assert!(matches!(result, Err(CrateError::InvalidFormat(_))));
}

#[test]
fn invalid_costs_are_key_derivation_errors() {
    let bad = CryptoSettings { compression_level: 3, kdf: KdfParams { memory_kib: 64, time_cost: 0, parallelism: 1 } };
    let result = encrypt_bytes(b"data", "pw", false, "f", None, &bad);
    assert!(matches!(result, Err(CrateError::KeyDerivation(_))));
}

#[test]
fn streaming_and_buffered_containers_interoperate() {
    // The streaming path encrypts without compression; both paths share one framing.
    let data = vec![0xABu8; 64 * 1024];
    let streamed = encrypt_bytes(&data, "streaming_test_password", false, "test.dat", None, &fast()).unwrap();
    let buffered = encrypt_bytes(&data, "streaming_test_password", true, "test.dat", None, &fast()).unwrap();
    for c in [&streamed, &buffered] {
        let d = open_container(c, "streaming_test_password", &fast()).unwrap();
        assert_eq!(d.plaintext, data);
        assert_eq!(d.metadata.filename, "test.dat");
    }
}

#[test]
fn test_encrypt_decrypt_streaming() {
    let test_data = vec![0xABu8; 5 * 1024 * 1024];
    let settings = CryptoSettings::standard();
    let c = encrypt_bytes(&test_data, "streaming_test_password", false, "test.dat", None, &settings).unwrap();
    let d = open_container(&c, "streaming_test_password", &settings).unwrap();
    assert_eq!(d.metadata.filename, "test.dat");
    assert_eq!(d.plaintext, test_data);
}

#[test]
fn test_streaming_threshold() {
    assert!(!exceeds_streaming_threshold(1024));
    assert!(!exceeds_streaming_threshold(STREAMING_THRESHOLD));
    assert!(exceeds_streaming_threshold(STREAMING_THRESHOLD + 1));
    assert_eq!(plan_encryption(STREAMING_THRESHOLD + 1, true), EncryptionMode::Streaming);
    assert_eq!(plan_encryption(1024, true), EncryptionMode::Buffered { compress: true });
    assert_eq!(plan_encryption(1024, false), EncryptionMode::Buffered { compress: false });
}
