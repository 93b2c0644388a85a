//! Encrypted file containers: framing, metadata, key material, compression,
//! secure-deletion scheduling and inspection.

mod bytes;
pub mod compression;
pub mod config;
pub mod container;
pub mod crypto;
pub mod engine;
pub mod error;
pub mod format;
pub mod inspect;
pub mod keyfile;
pub mod metadata;
pub mod secure_delete;
pub mod streaming;
pub mod strings;
pub mod text;
