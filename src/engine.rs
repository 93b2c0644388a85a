//! The encrypt / decrypt pipeline on bytes: compression, key derivation,
//! authenticated encryption and framing.

use vstd::bytes::*;
use vstd::prelude::*;
use vstd::utf8::encode_utf8;

use crate::bytes::to_array;
use crate::compression::{bounded_decompression, compress, decompress, zstd_compressed, MAX_DECOMPRESSED_SIZE};
use crate::container::{
    ciphertext_part, container_readable, frame_container, has_magic, header_encoding,
    lemma_framing_reads_back, metadata_block, parse_container, stored_compressed,
};
use crate::crypto::{
    aes256gcm_decrypt, aes256gcm_encrypt, aes256gcm_opened, aes256gcm_sealed, argon2id_key,
    derive_key_with, kdf_inputs_accepted, random_bytes, KdfParams, AES_GCM_MAX_PLAINTEXT,
};
use crate::error::CrateError;
use crate::format::{FileHeader, ALGORITHM_AES256_GCM, NONCE_LENGTH, SALT_LENGTH, VERSION};
use crate::metadata::{lemma_encoding_complete, lemma_encoding_decodes, metadata_encoding, FileMetadata, MAX_FILENAME_BYTES};

verus! {

broadcast use vstd::seq::group_seq_axioms;

/// The explicit configuration an encryption or decryption runs with.
#[derive(Debug, Clone, Copy)]
pub struct CryptoSettings {
    /// zstd level for compressed containers.
    pub compression_level: i32,
    /// Argon2 costs.
    pub kdf: KdfParams,
}

impl CryptoSettings {
    /// Level 3 and the standard Argon2 costs.
    pub fn standard() -> (r: CryptoSettings)
        ensures
            r.compression_level == 3,
            r.kdf.memory_kib == 65536,
            r.kdf.time_cost == 3,
            r.kdf.parallelism == 4,
    {
        CryptoSettings { compression_level: 3, kdf: KdfParams::standard() }
    }
}

/// The key derived from a secret and salt under some settings.
pub open spec fn key_for(secret: Seq<char>, salt: Seq<u8>, settings: CryptoSettings) -> Seq<u8> {
    argon2id_key(encode_utf8(secret), salt, settings.kdf.memory_kib, settings.kdf.time_cost, settings.kdf.parallelism)
}

/// Whether a plaintext is stored compressed: only when asked and non-empty.
pub open spec fn stores_compressed(plaintext: Seq<u8>, compress: bool) -> bool {
    compress && plaintext.len() > 0
}

/// The bytes that are encrypted: the plaintext, or its compressed form.
pub open spec fn payload_of(plaintext: Seq<u8>, compress: bool, level: i32) -> Seq<u8> {
    if stores_compressed(plaintext, compress) {
        zstd_compressed(plaintext, level)
    } else {
        plaintext
    }
}

/// The complete container for a plaintext, secret, source file and fresh salt and nonce.
pub open spec fn sealed_container(
    plaintext: Seq<u8>,
    secret: Seq<char>,
    compress: bool,
    filename: Seq<char>,
    modified_time: Option<u64>,
    salt: Seq<u8>,
    nonce: Seq<u8>,
    settings: CryptoSettings,
) -> Seq<u8> {
    let meta = metadata_encoding(filename, plaintext.len() as u64, modified_time, stores_compressed(plaintext, compress));
    let ciphertext = aes256gcm_sealed(key_for(secret, salt, settings), nonce, payload_of(plaintext, compress, settings.compression_level));
    header_encoding(VERSION, ALGORITHM_AES256_GCM, salt, nonce, meta.len() as u32) + meta + ciphertext
}

/// The secret and costs are ones Argon2 accepts (with a 32-byte salt).
pub open spec fn secret_accepted(secret: Seq<char>, settings: CryptoSettings) -> bool {
    settings.kdf.valid() && encode_utf8(secret).len() <= u32::MAX
}

/// Builds a container with the given salt and nonce. It succeeds for a
/// filename of at most 65535 bytes and an accepted secret and costs, unless
/// compression fails or the payload exceeds what AES-GCM takes. `filename` and
/// `modified_time` describe the source file; the recorded size is the
/// plaintext's length.
pub fn seal_container(
    plaintext: &[u8],
    secret: &str,
    compress: bool,
    filename: &str,
    modified_time: Option<u64>,
    salt: &[u8; SALT_LENGTH],
    nonce: &[u8; NONCE_LENGTH],
    settings: &CryptoSettings,
) -> (r: Result<Vec<u8>, CrateError>)
    ensures
        r matches Ok(c) ==> c@ == sealed_container(plaintext@, secret@, compress, filename@, modified_time, salt@, nonce@, *settings),
        encode_utf8(filename@).len() > MAX_FILENAME_BYTES <==> r matches Err(CrateError::InvalidFormat(_)),
        r matches Err(CrateError::KeyDerivation(_)) ==> !secret_accepted(secret@, *settings),
        encode_utf8(filename@).len() <= MAX_FILENAME_BYTES && !secret_accepted(secret@, *settings)
            && !stores_compressed(plaintext@, compress) ==> r matches Err(CrateError::KeyDerivation(_)),
        encode_utf8(filename@).len() <= MAX_FILENAME_BYTES && secret_accepted(secret@, *settings)
            && !stores_compressed(plaintext@, compress) && plaintext@.len() <= AES_GCM_MAX_PLAINTEXT ==> r is Ok,
        encode_utf8(filename@).len() <= MAX_FILENAME_BYTES && secret_accepted(secret@, *settings)
            && stores_compressed(plaintext@, compress) ==> (r is Ok || r matches Err(CrateError::Encryption(_))),
        r matches Err(e) ==> (e is InvalidFormat || e is Encryption || e is KeyDerivation),
{
    let name_len = filename.as_bytes().len();
    if name_len > MAX_FILENAME_BYTES {
        return Err(CrateError::InvalidFormat("Filename too long".to_string()));
    }
    let is_compressed = compress && plaintext.len() > 0;
    let compressed;
    let payload: &[u8] = if is_compressed {
        compressed = compress_payload(plaintext, settings.compression_level)?;
        compressed.as_slice()
    } else {
        plaintext
    };
    let key = derive_key_with(secret, salt.as_slice(), settings.kdf)?;
    let ciphertext = match aes256gcm_encrypt(&key, nonce, payload) {
        Ok(c) => c,
        Err(msg) => return Err(CrateError::Encryption(msg)),
    };
    let metadata = FileMetadata {
        filename: filename.to_string(),
        original_size: plaintext.len() as u64,
        modified_time,
        is_compressed,
    };
    proof {
        assert(metadata.filename@ == filename@) by {
            vstd::string::to_string_from_display_ensures_for_str(filename, metadata.filename);
        }
    }
    let metadata_bytes = metadata.to_bytes();
    let header = FileHeader::new(*salt, *nonce, metadata_bytes.len() as u32);
    Ok(frame_container(&header, metadata_bytes.as_slice(), ciphertext.as_slice()))
}

fn compress_payload(plaintext: &[u8], level: i32) -> (r: Result<Vec<u8>, CrateError>)
    ensures
        r matches Ok(c) ==> c@ == zstd_compressed(plaintext@, level),
        r matches Err(e) ==> e is Encryption,
{
    compress(plaintext, Some(level))
}

/// Builds a container under a freshly drawn random salt and nonce.
pub fn encrypt_bytes(
    plaintext: &[u8],
    secret: &str,
    compress: bool,
    filename: &str,
    modified_time: Option<u64>,
    settings: &CryptoSettings,
) -> (r: Result<Vec<u8>, CrateError>)
    ensures
        r matches Ok(c) ==> exists|salt: Seq<u8>, nonce: Seq<u8>|
            salt.len() == SALT_LENGTH && nonce.len() == NONCE_LENGTH
            && c@ == #[trigger] sealed_container(plaintext@, secret@, compress, filename@, modified_time, salt, nonce, *settings),
        encode_utf8(filename@).len() > MAX_FILENAME_BYTES <==> r matches Err(CrateError::InvalidFormat(_)),
        r matches Err(CrateError::KeyDerivation(_)) ==> !secret_accepted(secret@, *settings),
        encode_utf8(filename@).len() <= MAX_FILENAME_BYTES && !secret_accepted(secret@, *settings)
            && !stores_compressed(plaintext@, compress) ==> r matches Err(CrateError::KeyDerivation(_)),
        encode_utf8(filename@).len() <= MAX_FILENAME_BYTES && secret_accepted(secret@, *settings)
            && !stores_compressed(plaintext@, compress) && plaintext@.len() <= AES_GCM_MAX_PLAINTEXT ==> r is Ok,
        encode_utf8(filename@).len() <= MAX_FILENAME_BYTES && secret_accepted(secret@, *settings)
            && stores_compressed(plaintext@, compress) ==> (r is Ok || r matches Err(CrateError::Encryption(_))),
        r matches Err(e) ==> (e is InvalidFormat || e is Encryption || e is KeyDerivation),
{
    let salt_bytes = random_bytes(SALT_LENGTH);
    let nonce_bytes = random_bytes(NONCE_LENGTH);
    let salt: [u8; SALT_LENGTH] = to_array(salt_bytes.as_slice());
    let nonce: [u8; NONCE_LENGTH] = to_array(nonce_bytes.as_slice());
    seal_container(plaintext, secret, compress, filename, modified_time, &salt, &nonce, settings)
}

/// What a successful decryption yields.
#[derive(Debug)]
pub struct DecryptedFile {
    pub metadata: FileMetadata,
    pub plaintext: Vec<u8>,
}

/// The key a container's stored salt gives for a secret.
pub open spec fn container_key(b: Seq<u8>, secret: Seq<char>, settings: CryptoSettings) -> Seq<u8> {
    key_for(secret, b.subrange(6, 38), settings)
}

/// The AEAD opening of a container's ciphertext under a key.
pub open spec fn container_opening(b: Seq<u8>, key: Seq<u8>) -> Option<Seq<u8>> {
    aes256gcm_opened(key, b.subrange(38, 50), ciphertext_part(b))
}

/// What decryption yields from a readable container: the opened payload,
/// decompressed (within the ceiling) when the stored flag says so.
pub open spec fn opened_plaintext(b: Seq<u8>, secret: Seq<char>, settings: CryptoSettings) -> Option<Seq<u8>> {
    match container_opening(b, container_key(b, secret, settings)) {
        Some(x) => if stored_compressed(b) {
            bounded_decompression(x, MAX_DECOMPRESSED_SIZE as int)
        } else {
            Some(x)
        },
        None => None,
    }
}

/// The conditions under which a sealed container decrypts back: a filename of
/// at most 65535 bytes, a salt and nonce of the right lengths, an accepted
/// secret, and a compressed plaintext within the decompression ceiling.
pub open spec fn round_trip_ready(
    plaintext: Seq<u8>,
    secret: Seq<char>,
    compress: bool,
    filename: Seq<char>,
    salt: Seq<u8>,
    nonce: Seq<u8>,
    settings: CryptoSettings,
) -> bool {
    &&& encode_utf8(filename).len() <= MAX_FILENAME_BYTES
    &&& plaintext.len() <= u64::MAX
    &&& salt.len() == SALT_LENGTH
    &&& nonce.len() == NONCE_LENGTH
    &&& secret_accepted(secret, settings)
    &&& stores_compressed(plaintext, compress) ==> plaintext.len() <= MAX_DECOMPRESSED_SIZE
}

/// Decrypts a container: header checks first (magic, version, algorithm,
/// metadata), then key derivation, the tag, and decompression when the
/// metadata says so. A tag that does not verify is reported as
/// `InvalidPassword`, and no plaintext is released. A container sealed with
/// the same secret and settings decrypts to its plaintext and metadata.
pub fn open_container(container: &[u8], secret: &str, settings: &CryptoSettings) -> (r: Result<DecryptedFile, CrateError>)
    ensures
        r is Ok <==> container_readable(container@) && secret_accepted(secret@, *settings)
            && opened_plaintext(container@, secret@, *settings) is Some,
        r matches Ok(d) ==> d.metadata.decoded_from(metadata_block(container@))
            && Some(d.plaintext@) == opened_plaintext(container@, secret@, *settings),
        !container_readable(container@) ==> (r matches Err(e) && (e is InvalidFormat || e is UnsupportedVersion)),
        !has_magic(container@) ==> r matches Err(CrateError::InvalidFormat(_)),
        has_magic(container@) && container@.len() >= 5 && container@[4] != VERSION
            ==> r == Err::<DecryptedFile, CrateError>(CrateError::UnsupportedVersion(container@[4])),
        has_magic(container@) && (container@.len() < 5 || container@[4] == VERSION) && !container_readable(container@)
            ==> r matches Err(CrateError::InvalidFormat(_)),
        container_readable(container@) && !secret_accepted(secret@, *settings)
            ==> r matches Err(CrateError::KeyDerivation(_)),
        container_readable(container@) && secret_accepted(secret@, *settings)
            && container_opening(container@, container_key(container@, secret@, *settings)) is None
            ==> r == Err::<DecryptedFile, CrateError>(CrateError::InvalidPassword),
        container_readable(container@) && secret_accepted(secret@, *settings)
            && container_opening(container@, container_key(container@, secret@, *settings)) is Some
            && opened_plaintext(container@, secret@, *settings) is None
            ==> r matches Err(CrateError::Decryption(_)),
        forall|p: Seq<u8>, z: bool, f: Seq<char>, t: Option<u64>, salt: Seq<u8>, nonce: Seq<u8>|
            #[trigger] sealed_container(p, secret@, z, f, t, salt, nonce, *settings) == container@
            && round_trip_ready(p, secret@, z, f, salt, nonce, *settings)
            ==> (r matches Ok(d) && d.plaintext@ == p && d.metadata.filename@ == f
                && d.metadata.original_size == p.len() && d.metadata.is_compressed == stores_compressed(p, z)
                && (t != Some(0u64) ==> d.metadata.modified_time == t)),
{
    let parts = match parse_container(container) {
        Ok(p) => p,
        Err(e) => {
            proof {
                assert forall|p: Seq<u8>, z: bool, f: Seq<char>, t: Option<u64>, salt: Seq<u8>, nonce: Seq<u8>|
                    #[trigger] sealed_container(p, secret@, z, f, t, salt, nonce, *settings) == container@
                    && round_trip_ready(p, secret@, z, f, salt, nonce, *settings) implies false by {
                    lemma_sealed_layout(p, secret@, z, f, t, salt, nonce, *settings);
                }
            }
            return Err(e);
        },
    };
    proof {
        assert(parts.header.salt@.len() == SALT_LENGTH);
    }
    let key = match derive_key_with(secret, parts.header.salt.as_slice(), settings.kdf) {
        Ok(k) => k,
        Err(e) => {
            return Err(e);
        },
    };
    let opened = match aes256gcm_decrypt(&key, &parts.header.nonce, parts.ciphertext.as_slice()) {
        Some(p) => p,
        None => {
            proof {
                assert forall|p: Seq<u8>, z: bool, f: Seq<char>, t: Option<u64>, salt: Seq<u8>, nonce: Seq<u8>|
                    #[trigger] sealed_container(p, secret@, z, f, t, salt, nonce, *settings) == container@
                    && round_trip_ready(p, secret@, z, f, salt, nonce, *settings) implies false by {
                    lemma_sealed_layout(p, secret@, z, f, t, salt, nonce, *settings);
                    let payload = payload_of(p, z, settings.compression_level);
                    assert(aes256gcm_sealed(key@, parts.header.nonce@, payload) == parts.ciphertext@);
                }
            }
            return Err(CrateError::InvalidPassword);
        },
    };
    let plaintext = if parts.metadata.is_compressed {
        match decompress(opened.as_slice(), MAX_DECOMPRESSED_SIZE) {
            Ok(d) => d,
            Err(e) => {
                proof {
                    assert forall|p: Seq<u8>, z: bool, f: Seq<char>, t: Option<u64>, salt: Seq<u8>, nonce: Seq<u8>|
                        #[trigger] sealed_container(p, secret@, z, f, t, salt, nonce, *settings) == container@
                        && round_trip_ready(p, secret@, z, f, salt, nonce, *settings) implies false by {
                        lemma_sealed_layout(p, secret@, z, f, t, salt, nonce, *settings);
                        let payload = payload_of(p, z, settings.compression_level);
                        assert(aes256gcm_sealed(key@, parts.header.nonce@, payload) == parts.ciphertext@);
                        lemma_sealed_flag(p, secret@, z, f, t, salt, nonce, *settings, parts.metadata);
                        assert(zstd_compressed(p, settings.compression_level) == opened@);
                    }
                }
                return Err(e);
            },
        }
    } else {
        opened
    };
    proof {
        assert forall|p: Seq<u8>, z: bool, f: Seq<char>, t: Option<u64>, salt: Seq<u8>, nonce: Seq<u8>|
            #[trigger] sealed_container(p, secret@, z, f, t, salt, nonce, *settings) == container@
            && round_trip_ready(p, secret@, z, f, salt, nonce, *settings) implies plaintext@ == p
                && parts.metadata.filename@ == f && parts.metadata.original_size == p.len()
                && parts.metadata.is_compressed == stores_compressed(p, z)
                && (t != Some(0u64) ==> parts.metadata.modified_time == t) by {
            lemma_sealed_layout(p, secret@, z, f, t, salt, nonce, *settings);
            let payload = payload_of(p, z, settings.compression_level);
            assert(aes256gcm_sealed(key@, parts.header.nonce@, payload) == parts.ciphertext@);
            lemma_sealed_flag(p, secret@, z, f, t, salt, nonce, *settings, parts.metadata);
            if stores_compressed(p, z) {
                assert(zstd_compressed(p, settings.compression_level) == opened@);
            }
        }
    }
    Ok(DecryptedFile { metadata: parts.metadata, plaintext })
}

/// Where the parts of a sealed container sit.
proof fn lemma_sealed_layout(
    plaintext: Seq<u8>,
    secret: Seq<char>,
    compress: bool,
    filename: Seq<char>,
    modified_time: Option<u64>,
    salt: Seq<u8>,
    nonce: Seq<u8>,
    settings: CryptoSettings,
)
    requires
        round_trip_ready(plaintext, secret, compress, filename, salt, nonce, settings),
    ensures
        ({
            let c = sealed_container(plaintext, secret, compress, filename, modified_time, salt, nonce, settings);
            &&& container_readable(c)
            &&& c.subrange(6, 38) == salt
            &&& c.subrange(38, 50) == nonce
            &&& metadata_block(c) == metadata_encoding(filename, plaintext.len() as u64, modified_time,
                stores_compressed(plaintext, compress))
            &&& ciphertext_part(c) == aes256gcm_sealed(key_for(secret, salt, settings), nonce,
                payload_of(plaintext, compress, settings.compression_level))
        }),
{
    let is_c = stores_compressed(plaintext, compress);
    let meta = metadata_encoding(filename, plaintext.len() as u64, modified_time, is_c);
    let ct = aes256gcm_sealed(key_for(secret, salt, settings), nonce, payload_of(plaintext, compress, settings.compression_level));
    lemma_auto_spec_u16_to_from_le_bytes();
    lemma_auto_spec_u64_to_from_le_bytes();
    assert(meta.len() == 19 + encode_utf8(filename).len());
    lemma_framing_reads_back(VERSION, ALGORITHM_AES256_GCM, salt, nonce, meta, ct);
    let c = sealed_container(plaintext, secret, compress, filename, modified_time, salt, nonce, settings);
    lemma_encoding_complete(filename, plaintext.len() as u64, modified_time, is_c);
}

/// The metadata decoded from a sealed container is the source's.
proof fn lemma_sealed_flag(
    plaintext: Seq<u8>,
    secret: Seq<char>,
    compress: bool,
    filename: Seq<char>,
    modified_time: Option<u64>,
    salt: Seq<u8>,
    nonce: Seq<u8>,
    settings: CryptoSettings,
    m: FileMetadata,
)
    requires
        round_trip_ready(plaintext, secret, compress, filename, salt, nonce, settings),
        m.decoded_from(metadata_block(sealed_container(plaintext, secret, compress, filename, modified_time, salt, nonce, settings))),
    ensures
        m.filename@ == filename,
        m.original_size == plaintext.len(),
        m.is_compressed == stores_compressed(plaintext, compress),
        modified_time != Some(0u64) ==> m.modified_time == modified_time,
{
    lemma_sealed_layout(plaintext, secret, compress, filename, modified_time, salt, nonce, settings);
    lemma_encoding_decodes(filename, plaintext.len() as u64, modified_time, stores_compressed(plaintext, compress), m);
}

/// A sealed container reads back as itself: whichever encryptor produced it,
/// the decryptor accepts its framing, recovers the source's metadata, derives
/// the same key from the same secret, and finds exactly the AEAD sealing of
/// the (possibly compressed) plaintext under that key and nonce. Holds for a
/// filename of at most 65535 UTF-8 bytes and a known, non-zero time.
pub proof fn lemma_sealed_container_reads_back(
    plaintext: Seq<u8>,
    secret: Seq<char>,
    compress: bool,
    filename: Seq<char>,
    modified_time: Option<u64>,
    salt: Seq<u8>,
    nonce: Seq<u8>,
    settings: CryptoSettings,
    m: FileMetadata,
)
    requires
        encode_utf8(filename).len() <= MAX_FILENAME_BYTES,
        plaintext.len() <= u64::MAX,
        modified_time != Some(0u64),
        salt.len() == SALT_LENGTH,
        nonce.len() == NONCE_LENGTH,
        m.decoded_from(metadata_block(sealed_container(plaintext, secret, compress, filename, modified_time, salt, nonce, settings))),
    ensures
        ({
            let c = sealed_container(plaintext, secret, compress, filename, modified_time, salt, nonce, settings);
            &&& container_readable(c)
            &&& c.subrange(6, 38) == salt
            &&& c.subrange(38, 50) == nonce
            &&& container_key(c, secret, settings) == key_for(secret, salt, settings)
            &&& ciphertext_part(c) == aes256gcm_sealed(key_for(secret, salt, settings), nonce,
                payload_of(plaintext, compress, settings.compression_level))
            &&& container_opening(c, container_key(c, secret, settings)) == aes256gcm_opened(
                key_for(secret, salt, settings), nonce, aes256gcm_sealed(key_for(secret, salt, settings), nonce,
                payload_of(plaintext, compress, settings.compression_level)))
        }),
        m.filename@ == filename,
        m.original_size == plaintext.len(),
        m.modified_time == modified_time,
        m.is_compressed == stores_compressed(plaintext, compress),
{
    let c = sealed_container(plaintext, secret, compress, filename, modified_time, salt, nonce, settings);
    let is_c = stores_compressed(plaintext, compress);
    let meta = metadata_encoding(filename, plaintext.len() as u64, modified_time, is_c);
    let ct = aes256gcm_sealed(key_for(secret, salt, settings), nonce, payload_of(plaintext, compress, settings.compression_level));
    lemma_auto_spec_u16_to_from_le_bytes();
    lemma_auto_spec_u64_to_from_le_bytes();
    assert(meta.len() == 19 + encode_utf8(filename).len());
    lemma_framing_reads_back(VERSION, ALGORITHM_AES256_GCM, salt, nonce, meta, ct);
    lemma_encoding_decodes(filename, plaintext.len() as u64, modified_time, is_c, m);
}

} // verus!
