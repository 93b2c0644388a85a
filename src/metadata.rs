//! The metadata block embedded in a container: original name, size,
//! modification time and compression flag.

use vstd::bytes::*;
use vstd::prelude::*;
use vstd::slice::slice_subrange;
use vstd::utf8::*;

use crate::bytes::push_all;
use crate::error::CrateError;

verus! {

broadcast use vstd::seq::group_seq_axioms;

/// Longest filename, in UTF-8 bytes, that the two-byte length prefix can describe.
pub const MAX_FILENAME_BYTES: usize = 65535;

/// Size of the fixed fields around the filename: length prefix, size, time, flag.
pub const METADATA_FIXED_BYTES: usize = 2 + 8 + 8 + 1;

/// Names what `String::from_utf8_lossy` makes of a byte sequence.
pub uninterp spec fn utf8_lossy_of(b: Seq<u8>) -> Seq<char>;

/// The text read from filename bytes: valid UTF-8 decodes as is, anything else
/// goes through the replacement-character decoding.
pub open spec fn lossy_text(b: Seq<u8>) -> Seq<char> {
    if valid_utf8(b) {
        decode_utf8(b)
    } else {
        utf8_lossy_of(b)
    }
}

/// Relies on `String::from_utf8_lossy`: the text is a function of the bytes,
/// and valid UTF-8 is decoded unchanged.
#[verifier::external_body]
fn string_from_utf8_lossy(b: &[u8]) -> (r: String)
    ensures
        valid_utf8(b@) ==> r@ == decode_utf8(b@),
        !valid_utf8(b@) ==> r@ == utf8_lossy_of(b@),
{
    String::from_utf8_lossy(b).into_owned()
}

/// Description of the original file, stored encrypted inside the container.
#[derive(Debug, Clone)]
pub struct FileMetadata {
    pub filename: String,
    pub original_size: u64,
    /// Unix seconds; `None` when unknown (stored as 0).
    pub modified_time: Option<u64>,
    pub is_compressed: bool,
}

/// The stored time field: 0 stands for "unknown".
pub open spec fn time_field(t: Option<u64>) -> u64 {
    match t {
        Some(v) => v,
        None => 0,
    }
}

/// The time recovered from a stored field.
pub open spec fn time_from_field(v: u64) -> Option<u64> {
    if v == 0 { None } else { Some(v) }
}

/// The encoded metadata block for the given fields.
pub open spec fn metadata_encoding(name: Seq<char>, size: u64, time: Option<u64>, compressed: bool) -> Seq<u8> {
    spec_u16_to_le_bytes(encode_utf8(name).len() as u16)
        + encode_utf8(name)
        + spec_u64_to_le_bytes(size)
        + spec_u64_to_le_bytes(time_field(time))
        + seq![if compressed { 1u8 } else { 0u8 }]
}

/// The filename length stored in the first two bytes of a block.
pub open spec fn stored_name_len(b: Seq<u8>) -> int {
    spec_u16_from_le_bytes(b.subrange(0, 2)) as int
}

/// Whether a byte block is long enough for its own filename length.
pub open spec fn metadata_block_complete(b: Seq<u8>) -> bool {
    b.len() >= METADATA_FIXED_BYTES && METADATA_FIXED_BYTES + stored_name_len(b) <= b.len()
}

impl FileMetadata {
    /// The filename fits the two-byte length prefix.
    pub open spec fn wf(&self) -> bool {
        encode_utf8(self.filename@).len() <= MAX_FILENAME_BYTES
    }

    /// The encoded form of this metadata.
    pub open spec fn encoding(&self) -> Seq<u8> {
        metadata_encoding(self.filename@, self.original_size, self.modified_time, self.is_compressed)
    }

    /// The metadata that a complete block decodes to (bytes past the flag are ignored).
    pub open spec fn decoded_from(&self, b: Seq<u8>) -> bool {
        let n = stored_name_len(b);
        &&& self.filename@ == lossy_text(b.subrange(2, 2 + n))
        &&& self.original_size == spec_u64_from_le_bytes(b.subrange(2 + n, 10 + n))
        &&& self.modified_time == time_from_field(spec_u64_from_le_bytes(b.subrange(10 + n, 18 + n)))
        &&& self.is_compressed == (b[18 + n] != 0)
    }

    /// Serializes the metadata block.
    pub fn to_bytes(&self) -> (r: Vec<u8>)
        requires
            self.wf(),
        ensures
            r@ == self.encoding(),
    {
        let name = self.filename.as_str().as_bytes();
        let mut bytes = u16_to_le_bytes(name.len() as u16);
        push_all(&mut bytes, name);
        let size = u64_to_le_bytes(self.original_size);
        push_all(&mut bytes, size.as_slice());
        let time = match self.modified_time {
            Some(t) => t,
            None => 0,
        };
        let time_bytes = u64_to_le_bytes(time);
        push_all(&mut bytes, time_bytes.as_slice());
        bytes.push(if self.is_compressed { 1u8 } else { 0u8 });
        bytes
    }

    /// Parses a metadata block; a block shorter than its fields is rejected.
    pub fn from_bytes(bytes: &[u8]) -> (r: Result<FileMetadata, CrateError>)
        ensures
            r is Ok <==> metadata_block_complete(bytes@),
            r matches Ok(m) ==> m.decoded_from(bytes@),
            r matches Err(e) ==> e is InvalidFormat,
    {
        if bytes.len() < METADATA_FIXED_BYTES {
            return Err(CrateError::InvalidFormat("Metadata too short".to_string()));
        }
        let name_len = u16_from_le_bytes(slice_subrange(bytes, 0, 2)) as usize;
        if name_len > bytes.len() - METADATA_FIXED_BYTES {
            return Err(CrateError::InvalidFormat("Invalid filename length".to_string()));
        }
        let filename = string_from_utf8_lossy(slice_subrange(bytes, 2, 2 + name_len));
        let original_size = u64_from_le_bytes(slice_subrange(bytes, 2 + name_len, 10 + name_len));
        let time_val = u64_from_le_bytes(slice_subrange(bytes, 10 + name_len, 18 + name_len));
        let modified_time = if time_val == 0 { None } else { Some(time_val) };
        let is_compressed = bytes[18 + name_len] != 0;
        Ok(FileMetadata { filename, original_size, modified_time, is_compressed })
    }
}

/// Decoding an encoded block gives back the metadata, for any filename of at
/// most 65535 UTF-8 bytes, any size, and any time other than `Some(0)` (which
/// is stored as the "unknown" sentinel).
pub proof fn lemma_metadata_round_trip(m: FileMetadata, d: FileMetadata)
    requires
        m.wf(),
        m.modified_time != Some(0u64),
        d.decoded_from(m.encoding()),
    ensures
        metadata_block_complete(m.encoding()),
        d.filename@ == m.filename@,
        d.original_size == m.original_size,
        d.modified_time == m.modified_time,
        d.is_compressed == m.is_compressed,
{
    lemma_encoding_decodes(m.filename@, m.original_size, m.modified_time, m.is_compressed, d);
}

/// An encoded block is complete, and its length prefix and flag are where a
/// reader looks for them.
pub proof fn lemma_encoding_complete(name: Seq<char>, size: u64, time: Option<u64>, compressed: bool)
    requires
        encode_utf8(name).len() <= MAX_FILENAME_BYTES,
    ensures
        metadata_block_complete(metadata_encoding(name, size, time, compressed)),
        stored_name_len(metadata_encoding(name, size, time, compressed)) == encode_utf8(name).len(),
        metadata_encoding(name, size, time, compressed)[18 + encode_utf8(name).len() as int]
            == (if compressed { 1u8 } else { 0u8 }),
{
    lemma_auto_spec_u16_to_from_le_bytes();
    lemma_auto_spec_u64_to_from_le_bytes();
    let n = encode_utf8(name).len() as int;
    let b = metadata_encoding(name, size, time, compressed);
    assert(b.subrange(0, 2) == spec_u16_to_le_bytes(n as u16));
}

/// The same law stated over the encoded fields; a `Some(0)` time reads back
/// as unknown.
pub proof fn lemma_encoding_decodes(name: Seq<char>, size: u64, time: Option<u64>, compressed: bool, d: FileMetadata)
    requires
        encode_utf8(name).len() <= MAX_FILENAME_BYTES,
        d.decoded_from(metadata_encoding(name, size, time, compressed)),
    ensures
        metadata_block_complete(metadata_encoding(name, size, time, compressed)),
        d.filename@ == name,
        d.original_size == size,
        d.modified_time == time_from_field(time_field(time)),
        time != Some(0u64) ==> d.modified_time == time,
        d.is_compressed == compressed,
{
    lemma_auto_spec_u16_to_from_le_bytes();
    lemma_auto_spec_u64_to_from_le_bytes();
    encode_utf8_valid_utf8(name);
    encode_utf8_decode_utf8(name);
    let bytes = encode_utf8(name);
    let n = bytes.len() as int;
    let b = metadata_encoding(name, size, time, compressed);
    let p = spec_u16_to_le_bytes(n as u16);
    assert(b.subrange(0, 2) == p);
    assert(stored_name_len(b) == n);
    assert(b.subrange(2, 2 + n) == bytes);
    assert(b.subrange(2 + n, 10 + n) == spec_u64_to_le_bytes(size));
    assert(b.subrange(10 + n, 18 + n) == spec_u64_to_le_bytes(time_field(time)));
    assert(b[18 + n] == if compressed { 1u8 } else { 0u8 });
}

} // verus!
