//! Container layout: constants and the fixed-size header.

use vstd::prelude::*;

verus! {

/// The four bytes every container starts with: "CRAT".
pub const MAGIC_BYTES: [u8; 4] = [0x43, 0x52, 0x41, 0x54];

/// The format revision written and accepted by this library.
pub const VERSION: u8 = 1;

/// Algorithm identifier for AES-256-GCM.
pub const ALGORITHM_AES256_GCM: u8 = 1;

/// Length of the key-derivation salt.
pub const SALT_LENGTH: usize = 32;

/// Length of the AEAD nonce.
pub const NONCE_LENGTH: usize = 12;

/// Length of the derived symmetric key.
pub const KEY_LENGTH: usize = 32;

/// Length of the authentication tag appended by the cipher.
pub const TAG_LENGTH: usize = 16;

/// Size of the fixed part of a container, before the metadata block.
pub const HEADER_SIZE: usize = 4 + 1 + 1 + SALT_LENGTH + NONCE_LENGTH + 4;

/// The magic bytes as a sequence.
pub open spec fn magic_seq() -> Seq<u8> {
    seq![0x43u8, 0x52u8, 0x41u8, 0x54u8]
}

/// The fixed-size header of a container.
#[derive(Debug, Clone)]
pub struct FileHeader {
    pub version: u8,
    pub algorithm: u8,
    pub salt: [u8; SALT_LENGTH],
    pub nonce: [u8; NONCE_LENGTH],
    pub metadata_length: u32,
}

impl FileHeader {
    /// A header for the current version and algorithm.
    pub fn new(salt: [u8; SALT_LENGTH], nonce: [u8; NONCE_LENGTH], metadata_length: u32) -> (r: Self)
        ensures
            r.version == VERSION,
            r.algorithm == ALGORITHM_AES256_GCM,
            r.salt@ == salt@,
            r.nonce@ == nonce@,
            r.metadata_length == metadata_length,
    {
        FileHeader { version: VERSION, algorithm: ALGORITHM_AES256_GCM, salt, nonce, metadata_length }
    }
}

} // verus!
