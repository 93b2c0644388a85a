use cryptocrate::crypto::derive_key;
use cryptocrate::error::CrateError;
use cryptocrate::format::KEY_LENGTH;
use cryptocrate::keyfile::{
    check_keyfile_length, combine_password_and_keyfile, generate_keyfile_bytes, keyfile_digest,
    resolve_secret, MAX_KEYFILE_SIZE,
};

#[test]
fn test_key_derivation() {
    let password = "test_password";
    let salt = [0u8; 32];

    let key = derive_key(password, &salt).unwrap();
    assert_eq!(key.len(), KEY_LENGTH);

    // Same password and salt should produce same key
    let key2 = derive_key(password, &salt).unwrap();
    assert_eq!(key, key2);

    // Different salt should produce different key
    let salt2 = [1u8; 32];
    let key3 = derive_key(password, &salt2).unwrap();
    assert_ne!(key, key3);
}

#[test]
fn short_salt_is_key_derivation_error() {
    assert!(matches!(derive_key("pw", &[0u8; 7]), Err(CrateError::KeyDerivation(_))));
}

#[test]
fn test_combine_password_and_keyfile() {
    let password = "test_password";
    let keyfile_hash = [42u8; 32];

    let combined1 = combine_password_and_keyfile(password, &keyfile_hash);
    let combined2 = combine_password_and_keyfile(password, &keyfile_hash);

    assert_eq!(combined1, combined2);
    assert_eq!(combined1.len(), 32);

    // Different password should give different result
    let combined3 = combine_password_and_keyfile("different", &keyfile_hash);
    assert_ne!(combined1, combined3);
}

#[test]
fn combine_is_sha256_of_concatenation() {
    // With an empty password the input is the keyfile digest alone.
    let combined = combine_password_and_keyfile("", &[0u8; 32]);
    let direct = keyfile_digest(&[0u8; 32]).unwrap();
    assert_eq!(combined, direct.to_vec());
}

#[test]
fn test_generate_and_read_keyfile() {
    let data = generate_keyfile_bytes(Some(1024)).unwrap();
    assert_eq!(data.len(), 1024);

    let key1 = keyfile_digest(&data).unwrap();
    assert_eq!(key1.len(), 32);

    let key2 = keyfile_digest(&data).unwrap();
    assert_eq!(key1, key2);
}

#[test]
fn distinct_keyfiles_give_distinct_digests() {
    let a = generate_keyfile_bytes(None).unwrap();
    let b = generate_keyfile_bytes(None).unwrap();
    assert_eq!(a.len(), 4096);
    assert_ne!(keyfile_digest(&a).unwrap(), keyfile_digest(&b).unwrap());
}

#[test]
fn test_empty_keyfile() {
    let result = keyfile_digest(&[]);
    assert!(result.is_err());
    assert!(matches!(check_keyfile_length(0), Err(CrateError::InvalidFormat(_))));
}

#[test]
fn keyfile_size_limits() {
    assert!(matches!(
        generate_keyfile_bytes(Some(MAX_KEYFILE_SIZE + 1)),
        Err(CrateError::InvalidFormat(_))
    ));
    assert!(check_keyfile_length(MAX_KEYFILE_SIZE as u64).is_ok());
    assert!(matches!(
        check_keyfile_length(MAX_KEYFILE_SIZE as u64 + 1),
        Err(CrateError::InvalidFormat(_))
    ));
}

#[test]
fn keyfile_digest_known_value() {
    let digest = keyfile_digest(b"abc").unwrap();
    assert_eq!(
        digest.iter().map(|b| format!("{:02x}", b)).collect::<String>(),
        "ba7816bf8f01cfea414140de5dae2223b00361a396177a9cb410ff61f20015ad"
    );
}

#[test]
fn resolve_secret_cases() {
    assert_eq!(resolve_secret("", None), None);
    assert_eq!(resolve_secret("pw", None), Some("pw".to_string()));
    let digest = [0xABu8; 32];
    assert_eq!(resolve_secret("", Some(digest)), Some("ab".repeat(32)));
    let combined = combine_password_and_keyfile("pw", &digest);
    let hex: String = combined.iter().map(|b| format!("{:02x}", b)).collect();
    assert_eq!(resolve_secret("pw", Some(digest)), Some(hex));
}

#[test]
fn too_many_lanes_is_key_derivation_error() {
    use_params(u32::MAX);
    use_params(0x100_0000);
}

fn use_params(parallelism: u32) {
    let params = cryptocrate::crypto::KdfParams { memory_kib: u32::MAX, time_cost: 1, parallelism };
    let result = cryptocrate::crypto::derive_key_with("pw", &[0u8; 16], params);
    assert!(matches!(result, Err(CrateError::KeyDerivation(_))));
}
