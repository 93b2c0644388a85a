//! Keyfiles: random secret files whose SHA-256 digest is combined with a
//! password into the secret handed to encryption and decryption.

use vstd::prelude::*;
use vstd::utf8::encode_utf8;

use crate::bytes::{push_all, to_vec};
use crate::crypto::{hex_encode, hex_of, random_bytes, sha256, sha256_of};
use crate::error::CrateError;

verus! {

/// Size of a generated keyfile when none is given: 4 KiB.
pub const DEFAULT_KEYFILE_SIZE: usize = 4096;

/// Largest keyfile generated or read: 10 MiB.
pub const MAX_KEYFILE_SIZE: usize = 10 * 1024 * 1024;

/// The size a new keyfile gets.
pub open spec fn requested_size(size: Option<usize>) -> usize {
    match size {
        Some(s) => s,
        None => DEFAULT_KEYFILE_SIZE,
    }
}

/// Random content for a new keyfile of the given size (4096 by default).
/// Sizes above 10 MiB are refused before anything is drawn.
pub fn generate_keyfile_bytes(size: Option<usize>) -> (r: Result<Vec<u8>, CrateError>)
    ensures
        r is Ok <==> requested_size(size) <= MAX_KEYFILE_SIZE,
        r matches Ok(v) ==> v@.len() == requested_size(size),
        r matches Err(e) ==> e is InvalidFormat,
{
    let size = match size {
        Some(s) => s,
        None => DEFAULT_KEYFILE_SIZE,
    };
    if size > MAX_KEYFILE_SIZE {
        return Err(CrateError::InvalidFormat("Key file size too large (max 10485760 bytes)".to_string()));
    }
    Ok(random_bytes(size))
}

/// Checks a keyfile's length before it is read: empty files and files over
/// 10 MiB are refused.
pub fn check_keyfile_length(len: u64) -> (r: Result<(), CrateError>)
    ensures
        r is Ok <==> 0 < len <= MAX_KEYFILE_SIZE,
        r matches Err(e) ==> e is InvalidFormat,
{
    if len > MAX_KEYFILE_SIZE as u64 {
        return Err(CrateError::InvalidFormat("Key file too large (max 10485760 bytes)".to_string()));
    }
    if len == 0 {
        return Err(CrateError::InvalidFormat("Key file is empty".to_string()));
    }
    Ok(())
}

/// The digest of a keyfile's content, the part of it treated as secret.
/// The digest depends on the content alone.
pub fn keyfile_digest(data: &[u8]) -> (r: Result<[u8; 32], CrateError>)
    ensures
        r is Ok <==> 0 < data@.len() <= MAX_KEYFILE_SIZE,
        r matches Ok(d) ==> d@ == sha256_of(data@),
        r matches Err(e) ==> e is InvalidFormat,
{
    check_keyfile_length(data.len() as u64)?;
    Ok(sha256(data))
}

/// SHA-256 of the password's UTF-8 bytes followed by the keyfile digest.
pub fn combine_password_and_keyfile(password: &str, keyfile_hash: &[u8; 32]) -> (r: Vec<u8>)
    ensures
        r@ == sha256_of(encode_utf8(password@) + keyfile_hash@),
        r@.len() == 32,
{
    let mut material = to_vec(password.as_bytes());
    push_all(&mut material, keyfile_hash.as_slice());
    let digest = sha256(material.as_slice());
    to_vec(digest.as_slice())
}

/// The secret for a password and an optional keyfile digest: with a keyfile,
/// the hex of the digest alone (empty password) or of the combination; without
/// one, the password itself, which must then be non-empty.
pub open spec fn secret_for(password: Seq<char>, keyfile_hash: Option<Seq<u8>>) -> Option<Seq<char>> {
    match keyfile_hash {
        Some(h) => if password.len() == 0 {
            Some(hex_of(h))
        } else {
            Some(hex_of(sha256_of(encode_utf8(password) + h)))
        },
        None => if password.len() == 0 {
            None
        } else {
            Some(password)
        },
    }
}

/// The bytes of an optional digest.
pub open spec fn digest_view(h: Option<[u8; 32]>) -> Option<Seq<u8>> {
    match h {
        Some(d) => Some(d@),
        None => None,
    }
}

/// Resolves the secret handed to encryption and decryption; `None` when
/// there is neither a password nor a keyfile.
pub fn resolve_secret(password: &str, keyfile_hash: Option<[u8; 32]>) -> (r: Option<String>)
    ensures
        r is Some <==> secret_for(password@, digest_view(keyfile_hash)) is Some,
        r matches Some(s) ==> Some(s@) == secret_for(password@, digest_view(keyfile_hash)),
{
    match keyfile_hash {
        Some(h) => {
            if password.is_empty() {
                Some(hex_encode(h.as_slice()))
            } else {
                let combined = combine_password_and_keyfile(password, &h);
                Some(hex_encode(combined.as_slice()))
            }
        },
        None => {
            if password.is_empty() {
                None
            } else {
                Some(password.to_string())
            }
        },
    }
}

} // verus!
