//! The size gate between the buffered and the streaming encryptor.
//!
//! Both produce the same framing, so either decryptor reads either container.
//! The streaming encryptor only reads its input in chunks; it still encrypts
//! the whole plaintext in one AEAD call, and never compresses.

use vstd::prelude::*;

verus! {

/// Files larger than this (100 MiB) take the streaming path.
pub const STREAMING_THRESHOLD: u64 = 100 * 1024 * 1024;

/// Size of each read of the streaming encryptor: 1 MiB.
pub const CHUNK_SIZE: usize = 1024 * 1024;

/// Whether a file of this size takes the streaming path.
pub fn exceeds_streaming_threshold(file_size: u64) -> (r: bool)
    ensures
        r == (file_size > STREAMING_THRESHOLD),
{
    file_size > STREAMING_THRESHOLD
}

/// How a file is encrypted.
#[derive(Debug, Clone, Copy, PartialEq, Eq)]
pub enum EncryptionMode {
    /// Read in chunks, never compressed.
    Streaming,
    /// Read at once, compressed when asked.
    Buffered { compress: bool },
}

/// Picks the path for a file: large files stream and drop compression.
pub fn plan_encryption(file_size: u64, compress_requested: bool) -> (r: EncryptionMode)
    ensures
        file_size > STREAMING_THRESHOLD ==> r == EncryptionMode::Streaming,
        file_size <= STREAMING_THRESHOLD ==> r == (EncryptionMode::Buffered { compress: compress_requested }),
{
    if exceeds_streaming_threshold(file_size) {
        EncryptionMode::Streaming
    } else {
        EncryptionMode::Buffered { compress: compress_requested }
    }
}

} // verus!
