//! The library's error type.

use vstd::prelude::*;

verus! {

/// What went wrong in an operation on a container, a keyfile or a file.
#[derive(Debug)]
pub enum CrateError {
    /// A failure reported by the file system.
    Io(std::io::Error),
    /// Cipher, compression or framing failure while encrypting.
    Encryption(String),
    /// Failure after the authentication tag was accepted (for instance a bad compressed stream).
    Decryption(String),
    /// The input is not a well-formed container, keyfile or metadata block.
    InvalidFormat(String),
    /// The authentication tag did not verify: wrong secret or altered ciphertext.
    InvalidPassword,
    /// The key derivation function refused its parameters or inputs.
    KeyDerivation(String),
    /// A source path could not be opened.
    FileNotFound(String),
    /// The container's version byte is not one this library reads.
    UnsupportedVersion(u8),
}

/// The standard I/O error, carried through unchanged.
#[verifier::external_type_specification]
#[verifier::external_body]
pub struct ExIoError(std::io::Error);

} // verus!
