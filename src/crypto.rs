//! Cryptographic primitives used by the container engine: key derivation,
//! authenticated encryption, hashing, randomness and hex text.
//!
//! Each primitive is an outside implementation; its result is named by an
//! uninterpreted function of its inputs, so the engine's contracts can say
//! exactly which bytes go where.

use aes_gcm::aead::{Aead, KeyInit};
use sha2::Digest;
use vstd::prelude::*;
use vstd::utf8::encode_utf8;

use crate::format::{KEY_LENGTH, NONCE_LENGTH, TAG_LENGTH};

verus! {

/// Largest plaintext AES-GCM accepts: 2^36 bytes.
pub const AES_GCM_MAX_PLAINTEXT: u64 = 0x10_0000_0000;

/// Names the Argon2id (version 0x13) 32-byte output for a password, salt and costs.
pub uninterp spec fn argon2id_key(password: Seq<u8>, salt: Seq<u8>, memory_kib: u32, time_cost: u32, parallelism: u32) -> Seq<u8>;

/// Names the AES-256-GCM ciphertext-and-tag for a key, nonce and plaintext (no associated data).
pub uninterp spec fn aes256gcm_sealed(key: Seq<u8>, nonce: Seq<u8>, plaintext: Seq<u8>) -> Seq<u8>;

/// Names the AES-256-GCM opening of a ciphertext-and-tag: `None` when the tag does not verify.
pub uninterp spec fn aes256gcm_opened(key: Seq<u8>, nonce: Seq<u8>, ciphertext: Seq<u8>) -> Option<Seq<u8>>;

/// Names the SHA-256 digest of a byte sequence.
pub uninterp spec fn sha256_of(data: Seq<u8>) -> Seq<u8>;

/// Argon2 cost parameters: memory in KiB, iterations, and lanes.
#[derive(Debug, Clone, Copy, PartialEq, Eq)]
pub struct KdfParams {
    pub memory_kib: u32,
    pub time_cost: u32,
    pub parallelism: u32,
}

impl KdfParams {
    /// The standard costs: 64 MiB of memory, 3 iterations, 4 lanes.
    pub fn standard() -> (r: KdfParams)
        ensures
            r.memory_kib == 65536,
            r.time_cost == 3,
            r.parallelism == 4,
    {
        KdfParams { memory_kib: 65536, time_cost: 3, parallelism: 4 }
    }

    /// The costs are inside the ranges Argon2 accepts.
    pub open spec fn valid(&self) -> bool {
        &&& self.memory_kib >= 8
        &&& self.memory_kib >= 8 * self.parallelism
        &&& self.time_cost >= 1
        &&& 1 <= self.parallelism <= MAX_PARALLELISM
    }
}

/// Most lanes Argon2 accepts.
pub const MAX_PARALLELISM: u32 = 0xFF_FFFF;

/// Relies on argon2's `Params::new`, `Argon2::new` and `Argon2::hash_password_into`
/// (Argon2id, version 0x13, 32-byte output): the key depends on its inputs alone,
/// and `Params::new` refuses costs out of range, `hash_password_into` salts under 8 bytes.
/// `Params::new` computes `p_cost * 8` in `u32`, so larger lane counts are kept out.
/// With valid costs, a salt of 8 to 2^32-1 bytes and a password of at most
/// 2^32-1 bytes nothing refuses the call.
#[verifier::external_body]
fn argon2id_hash(password: &[u8], salt: &[u8], params: KdfParams) -> (r: Result<[u8; KEY_LENGTH], String>)
    requires
        params.parallelism <= MAX_PARALLELISM,
    ensures
        r matches Ok(k) ==> k@ == argon2id_key(password@, salt@, params.memory_kib, params.time_cost, params.parallelism),
        r is Ok <==> kdf_inputs_accepted(password@, salt@, params),
{
    let p = argon2::Params::new(params.memory_kib, params.time_cost, params.parallelism, Some(KEY_LENGTH))
        .map_err(|e| e.to_string())?;
    let mut key = [0u8; KEY_LENGTH];
    argon2::Argon2::new(argon2::Algorithm::Argon2id, argon2::Version::V0x13, p)
        .hash_password_into(password, salt, &mut key)
        .map_err(|e| e.to_string())?;
    Ok(key)
}

/// Argon2 accepts these costs, salt and password.
pub open spec fn kdf_inputs_accepted(password: Seq<u8>, salt: Seq<u8>, params: KdfParams) -> bool {
    &&& params.valid()
    &&& 8 <= salt.len() <= u32::MAX
    &&& password.len() <= u32::MAX
}

/// Derives the 32-byte key for a secret and salt with the given costs.
/// Fails with `KeyDerivation` exactly when Argon2 refuses the costs or inputs.
pub fn derive_key_with(password: &str, salt: &[u8], params: KdfParams) -> (r: Result<[u8; KEY_LENGTH], crate::error::CrateError>)
    ensures
        r matches Ok(k) ==> k@ == argon2id_key(encode_utf8(password@), salt@, params.memory_kib, params.time_cost, params.parallelism),
        r matches Err(e) ==> e is KeyDerivation,
        r is Ok <==> kdf_inputs_accepted(encode_utf8(password@), salt@, params),
{
    if params.parallelism > MAX_PARALLELISM {
        return Err(crate::error::CrateError::KeyDerivation("Too many lanes".to_string()));
    }
    match argon2id_hash(password.as_bytes(), salt, params) {
        Ok(k) => Ok(k),
        Err(msg) => Err(crate::error::CrateError::KeyDerivation(msg)),
    }
}

/// Derives the 32-byte key for a secret and salt with the standard costs.
pub fn derive_key(password: &str, salt: &[u8]) -> (r: Result<[u8; KEY_LENGTH], crate::error::CrateError>)
    ensures
        r matches Ok(k) ==> k@ == argon2id_key(encode_utf8(password@), salt@, 65536, 3, 4),
        r matches Err(e) ==> e is KeyDerivation,
        r is Ok <==> kdf_inputs_accepted(encode_utf8(password@), salt@, KdfParams { memory_kib: 65536, time_cost: 3, parallelism: 4 }),
{
    derive_key_with(password, salt, KdfParams::standard())
}

/// Relies on aes-gcm's `Aes256Gcm` through `aead::Aead::encrypt`: the output is
/// a function of key, nonce and plaintext, the plaintext's length plus the
/// 16-byte tag, and it fails only for a plaintext over 2^36 bytes.
#[verifier::external_body]
pub(crate) fn aes256gcm_encrypt(key: &[u8; KEY_LENGTH], nonce: &[u8; NONCE_LENGTH], plaintext: &[u8]) -> (r: Result<Vec<u8>, String>)
    ensures
        r matches Ok(c) ==> c@ == aes256gcm_sealed(key@, nonce@, plaintext@),
        r matches Ok(c) ==> c@.len() == plaintext@.len() + TAG_LENGTH,
        plaintext@.len() <= AES_GCM_MAX_PLAINTEXT ==> r is Ok,
{
    let cipher = aes_gcm::Aes256Gcm::new(aes_gcm::Key::<aes_gcm::Aes256Gcm>::from_slice(key));
    cipher.encrypt(aes_gcm::Nonce::from_slice(nonce), plaintext).map_err(|e| e.to_string())
}

/// Relies on aes-gcm's `Aes256Gcm` through `aead::Aead::decrypt`: the plaintext,
/// 16 bytes shorter than its input, is released only when the tag verifies;
/// an input shorter than a tag is refused; opening what `encrypt` sealed under
/// the same key and nonce gives the plaintext back.
#[verifier::external_body]
pub(crate) fn aes256gcm_decrypt(key: &[u8; KEY_LENGTH], nonce: &[u8; NONCE_LENGTH], ciphertext: &[u8]) -> (r: Option<Vec<u8>>)
    ensures
        r is Some <==> aes256gcm_opened(key@, nonce@, ciphertext@) is Some,
        r matches Some(p) ==> aes256gcm_opened(key@, nonce@, ciphertext@) == Some(p@),
        r matches Some(p) ==> p@.len() + TAG_LENGTH == ciphertext@.len(),
        ciphertext@.len() < TAG_LENGTH ==> r is None,
        forall|p: Seq<u8>| r is Some && r->Some_0@ == p || #[trigger] aes256gcm_sealed(key@, nonce@, p) != ciphertext@,
{
    let cipher = aes_gcm::Aes256Gcm::new(aes_gcm::Key::<aes_gcm::Aes256Gcm>::from_slice(key));
    cipher.decrypt(aes_gcm::Nonce::from_slice(nonce), ciphertext).ok()
}

/// Relies on sha2's `Sha256::digest`: a 32-byte digest of the input.
#[verifier::external_body]
pub(crate) fn sha256(data: &[u8]) -> (r: [u8; 32])
    ensures
        r@ == sha256_of(data@),
{
    let digest = sha2::Sha256::digest(data);
    let mut out = [0u8; 32];
    out.copy_from_slice(&digest);
    out
}

/// Relies on rand's `thread_rng` and `RngCore::fill_bytes`: `len` bytes from a
/// cryptographically secure generator. Nothing is known of their values.
#[verifier::external_body]
pub(crate) fn random_bytes(len: usize) -> (r: Vec<u8>)
    ensures
        r@.len() == len,
{
    let mut v = vec![0u8; len];
    rand::RngCore::fill_bytes(&mut rand::thread_rng(), &mut v);
    v
}

/// The lower-case hexadecimal digit for a value below 16.
pub open spec fn hex_digit(v: u8) -> char {
    if v < 10 {
        ((48 + v) as u8) as char
    } else {
        ((87 + v) as u8) as char
    }
}

/// Lower-case hexadecimal text of a byte sequence, high nibble first.
pub open spec fn hex_of(b: Seq<u8>) -> Seq<char>
    decreases b.len(),
{
    if b.len() == 0 {
        Seq::empty()
    } else {
        hex_of(b.drop_last()) + seq![hex_digit(b.last() / 16), hex_digit(b.last() % 16)]
    }
}

/// Relies on hex's `encode`: two lower-case digits per byte, high nibble first.
#[verifier::external_body]
pub(crate) fn hex_encode(b: &[u8]) -> (r: String)
    ensures
        r@ == hex_of(b@),
{
    hex::encode(b)
}

} // verus!
