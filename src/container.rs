//! Framing of a whole container: header, metadata block and ciphertext.

use vstd::bytes::*;
use vstd::prelude::*;
use vstd::slice::slice_subrange;

use crate::bytes::{push_all, to_array, to_vec};
use crate::error::CrateError;
use crate::format::{magic_seq, FileHeader, ALGORITHM_AES256_GCM, HEADER_SIZE, MAGIC_BYTES, NONCE_LENGTH, SALT_LENGTH, VERSION};
use crate::metadata::{lemma_metadata_round_trip, metadata_block_complete, stored_name_len, FileMetadata};

verus! {

broadcast use vstd::seq::group_seq_axioms;

/// The bytes of a header with the given fields.
pub open spec fn header_encoding(version: u8, algorithm: u8, salt: Seq<u8>, nonce: Seq<u8>, metadata_length: u32) -> Seq<u8> {
    magic_seq() + seq![version] + seq![algorithm] + salt + nonce + spec_u32_to_le_bytes(metadata_length)
}

/// The bytes of a whole container.
pub open spec fn container_encoding(h: FileHeader, metadata: Seq<u8>, ciphertext: Seq<u8>) -> Seq<u8> {
    header_encoding(h.version, h.algorithm, h.salt@, h.nonce@, h.metadata_length) + metadata + ciphertext
}

/// The input starts with the magic bytes.
pub open spec fn has_magic(b: Seq<u8>) -> bool {
    b.len() >= 4 && b.subrange(0, 4) == magic_seq()
}

/// The stored metadata length of a header-sized input.
pub open spec fn stored_metadata_len(b: Seq<u8>) -> int {
    spec_u32_from_le_bytes(b.subrange(50, 54)) as int
}

/// The input holds a whole header of the supported version.
pub open spec fn header_readable(b: Seq<u8>) -> bool {
    has_magic(b) && b.len() >= HEADER_SIZE && b[4] == VERSION
}

/// The input holds a readable header followed by a complete metadata block.
pub open spec fn metadata_readable(b: Seq<u8>) -> bool {
    &&& header_readable(b)
    &&& HEADER_SIZE + stored_metadata_len(b) <= b.len()
    &&& metadata_block_complete(metadata_block(b))
}

/// The metadata block of an input with a readable header.
pub open spec fn metadata_block(b: Seq<u8>) -> Seq<u8> {
    b.subrange(HEADER_SIZE as int, HEADER_SIZE + stored_metadata_len(b))
}

/// The bytes after the metadata block.
pub open spec fn ciphertext_part(b: Seq<u8>) -> Seq<u8> {
    b.subrange(HEADER_SIZE + stored_metadata_len(b), b.len() as int)
}

/// The input is a container this library can decrypt.
pub open spec fn container_readable(b: Seq<u8>) -> bool {
    metadata_readable(b) && b[5] == ALGORITHM_AES256_GCM
}

impl FileHeader {
    /// This header is the one stored at the start of `b`.
    pub open spec fn read_from(&self, b: Seq<u8>) -> bool {
        &&& self.version == b[4]
        &&& self.algorithm == b[5]
        &&& self.salt@ == b.subrange(6, 38)
        &&& self.nonce@ == b.subrange(38, 50)
        &&& self.metadata_length as int == stored_metadata_len(b)
    }
}

/// The parts of a container, as read from its bytes.
#[derive(Debug)]
pub struct ContainerParts {
    pub header: FileHeader,
    pub metadata: FileMetadata,
    pub ciphertext: Vec<u8>,
}

impl ContainerParts {
    /// These parts are the ones stored in `b`.
    pub open spec fn read_from(&self, b: Seq<u8>) -> bool {
        &&& self.header.read_from(b)
        &&& self.metadata.decoded_from(metadata_block(b))
        &&& self.ciphertext@ == ciphertext_part(b)
    }
}

/// Writes a container: header, metadata block, then ciphertext.
pub fn frame_container(header: &FileHeader, metadata: &[u8], ciphertext: &[u8]) -> (r: Vec<u8>)
    ensures
        r@ == container_encoding(*header, metadata@, ciphertext@),
{
    let mut out = to_vec(MAGIC_BYTES.as_slice());
    out.push(header.version);
    out.push(header.algorithm);
    push_all(&mut out, header.salt.as_slice());
    push_all(&mut out, header.nonce.as_slice());
    let len_bytes = u32_to_le_bytes(header.metadata_length);
    push_all(&mut out, len_bytes.as_slice());
    push_all(&mut out, metadata);
    push_all(&mut out, ciphertext);
    out
}

/// Reads and checks the fixed header: magic first, then version, then length.
pub fn read_header(bytes: &[u8]) -> (r: Result<FileHeader, CrateError>)
    ensures
        r is Ok <==> header_readable(bytes@),
        r matches Ok(h) ==> h.read_from(bytes@),
        !has_magic(bytes@) ==> r matches Err(CrateError::InvalidFormat(_)),
        has_magic(bytes@) && bytes@.len() >= 5 && bytes@[4] != VERSION
            ==> r == Err::<FileHeader, CrateError>(CrateError::UnsupportedVersion(bytes@[4])),
        has_magic(bytes@) && (bytes@.len() < 5 || bytes@[4] == VERSION) && !header_readable(bytes@)
            ==> r matches Err(CrateError::InvalidFormat(_)),
{
    if bytes.len() < 4 || bytes[0] != MAGIC_BYTES[0] || bytes[1] != MAGIC_BYTES[1]
        || bytes[2] != MAGIC_BYTES[2] || bytes[3] != MAGIC_BYTES[3] {
        proof {
            if bytes@.len() >= 4 {
                assert(bytes@.subrange(0, 4)[0] == bytes@[0]);
                assert(bytes@.subrange(0, 4)[1] == bytes@[1]);
                assert(bytes@.subrange(0, 4)[2] == bytes@[2]);
                assert(bytes@.subrange(0, 4)[3] == bytes@[3]);
            }
        }
        return Err(CrateError::InvalidFormat("Not a valid CryptoCrate file".to_string()));
    }
    assert(bytes@.subrange(0, 4) =~= magic_seq());
    if bytes.len() < 5 {
        return Err(CrateError::InvalidFormat("Truncated header".to_string()));
    }
    if bytes[4] != VERSION {
        return Err(CrateError::UnsupportedVersion(bytes[4]));
    }
    if bytes.len() < HEADER_SIZE {
        return Err(CrateError::InvalidFormat("Truncated header".to_string()));
    }
    let salt: [u8; SALT_LENGTH] = to_array(slice_subrange(bytes, 6, 38));
    let nonce: [u8; NONCE_LENGTH] = to_array(slice_subrange(bytes, 38, 50));
    let metadata_length = u32_from_le_bytes(slice_subrange(bytes, 50, 54));
    Ok(FileHeader { version: bytes[4], algorithm: bytes[5], salt, nonce, metadata_length })
}

/// Reads the header and the metadata block, without checking the algorithm.
pub fn read_header_and_metadata(bytes: &[u8]) -> (r: Result<(FileHeader, FileMetadata), CrateError>)
    ensures
        r is Ok <==> metadata_readable(bytes@),
        r matches Ok(p) ==> p.0.read_from(bytes@) && p.1.decoded_from(metadata_block(bytes@)),
        !has_magic(bytes@) ==> r matches Err(CrateError::InvalidFormat(_)),
        has_magic(bytes@) && bytes@.len() >= 5 && bytes@[4] != VERSION
            ==> r == Err::<(FileHeader, FileMetadata), CrateError>(CrateError::UnsupportedVersion(bytes@[4])),
        has_magic(bytes@) && (bytes@.len() < 5 || bytes@[4] == VERSION) && !metadata_readable(bytes@)
            ==> r matches Err(CrateError::InvalidFormat(_)),
        r matches Err(e) ==> (e is InvalidFormat || e is UnsupportedVersion),
{
    let header = read_header(bytes)?;
    let end = header.metadata_length as usize;
    if end > bytes.len() - HEADER_SIZE {
        return Err(CrateError::InvalidFormat("Truncated metadata".to_string()));
    }
    let block = slice_subrange(bytes, HEADER_SIZE, HEADER_SIZE + end);
    let metadata = FileMetadata::from_bytes(block)?;
    Ok((header, metadata))
}

/// The stored compression flag of an input whose metadata block is complete.
pub open spec fn stored_compressed(b: Seq<u8>) -> bool {
    let m = metadata_block(b);
    m[18 + stored_name_len(m)] != 0
}

/// Splits a container into its parts, checking magic, version, algorithm and
/// the metadata block in that order.
pub fn parse_container(bytes: &[u8]) -> (r: Result<ContainerParts, CrateError>)
    ensures
        r is Ok <==> container_readable(bytes@),
        r matches Ok(p) ==> p.read_from(bytes@),
        !has_magic(bytes@) ==> r matches Err(CrateError::InvalidFormat(_)),
        has_magic(bytes@) && bytes@.len() >= 5 && bytes@[4] != VERSION
            ==> r == Err::<ContainerParts, CrateError>(CrateError::UnsupportedVersion(bytes@[4])),
        has_magic(bytes@) && (bytes@.len() < 5 || bytes@[4] == VERSION) && !container_readable(bytes@)
            ==> r matches Err(CrateError::InvalidFormat(_)),
        r matches Err(e) ==> (e is InvalidFormat || e is UnsupportedVersion),
{
    let header = match read_header(bytes) {
        Ok(h) => h,
        Err(e) => return Err(e),
    };
    if header.algorithm != ALGORITHM_AES256_GCM {
        return Err(CrateError::InvalidFormat("Unsupported encryption algorithm".to_string()));
    }
    let total: usize = bytes.len();
    let end = header.metadata_length as usize;
    if end > total - HEADER_SIZE {
        return Err(CrateError::InvalidFormat("Truncated metadata".to_string()));
    }
    let start: usize = HEADER_SIZE + end;
    let metadata = FileMetadata::from_bytes(slice_subrange(bytes, HEADER_SIZE, start))?;
    let ciphertext = to_vec(slice_subrange(bytes, start, total));
    Ok(ContainerParts { header, metadata, ciphertext })
}

/// Framing is lossless: a container written from a current-version header,
/// an encoded metadata block and any ciphertext reads back as that header,
/// that metadata and that ciphertext.
pub proof fn lemma_container_round_trip(h: FileHeader, m: FileMetadata, ciphertext: Seq<u8>, p: ContainerParts)
    requires
        h.version == VERSION,
        h.algorithm == ALGORITHM_AES256_GCM,
        m.wf(),
        m.modified_time != Some(0u64),
        h.metadata_length as int == m.encoding().len(),
        p.read_from(container_encoding(h, m.encoding(), ciphertext)),
    ensures
        container_readable(container_encoding(h, m.encoding(), ciphertext)),
        p.header.version == h.version,
        p.header.algorithm == h.algorithm,
        p.header.salt@ == h.salt@,
        p.header.nonce@ == h.nonce@,
        p.header.metadata_length == h.metadata_length,
        p.metadata.filename@ == m.filename@,
        p.metadata.original_size == m.original_size,
        p.metadata.modified_time == m.modified_time,
        p.metadata.is_compressed == m.is_compressed,
        p.ciphertext@ == ciphertext,
{
    lemma_framing_reads_back(h.version, h.algorithm, h.salt@, h.nonce@, m.encoding(), ciphertext);
    lemma_metadata_round_trip(m, p.metadata);
}

/// The fields of a framed container sit where the reader looks for them:
/// magic, version, algorithm, salt, nonce, the metadata block by its stored
/// length, and the rest as ciphertext.
pub proof fn lemma_framing_reads_back(version: u8, algorithm: u8, salt: Seq<u8>, nonce: Seq<u8>, metadata: Seq<u8>, ciphertext: Seq<u8>)
    requires
        salt.len() == SALT_LENGTH,
        nonce.len() == NONCE_LENGTH,
        metadata.len() <= u32::MAX,
    ensures
        ({
            let b = header_encoding(version, algorithm, salt, nonce, metadata.len() as u32) + metadata + ciphertext;
            &&& has_magic(b)
            &&& b.len() >= HEADER_SIZE
            &&& b[4] == version
            &&& b[5] == algorithm
            &&& b.subrange(6, 38) == salt
            &&& b.subrange(38, 50) == nonce
            &&& stored_metadata_len(b) == metadata.len()
            &&& HEADER_SIZE + stored_metadata_len(b) <= b.len()
            &&& metadata_block(b) == metadata
            &&& ciphertext_part(b) == ciphertext
        }),
{
    lemma_auto_spec_u32_to_from_le_bytes();
    let lb = spec_u32_to_le_bytes(metadata.len() as u32);
    let b = header_encoding(version, algorithm, salt, nonce, metadata.len() as u32) + metadata + ciphertext;
    assert(b.subrange(0, 4) =~= magic_seq());
    assert(b.subrange(6, 38) =~= salt);
    assert(b.subrange(38, 50) =~= nonce);
    assert(b.subrange(50, 54) =~= lb);
    assert(metadata_block(b) =~= metadata);
    assert(ciphertext_part(b) =~= ciphertext);
}

} // verus!
