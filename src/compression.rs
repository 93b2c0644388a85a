//! Bulk compression of plaintext before encryption.

use vstd::prelude::*;

use crate::error::CrateError;

verus! {

/// Compression level used when none is given (levels run from 1 to 21).
pub const DEFAULT_COMPRESSION_LEVEL: i32 = 3;

/// Ceiling on decompressed output, whatever a compressed stream claims: 1 GiB.
pub const MAX_DECOMPRESSED_SIZE: usize = 1024 * 1024 * 1024;

/// Names the zstd frame produced for some data at a compression level.
pub uninterp spec fn zstd_compressed(data: Seq<u8>, level: i32) -> Seq<u8>;

/// Names the content that zstd decompression makes of some bytes; `None`
/// when they are not a valid frame.
pub uninterp spec fn zstd_decompressed(data: Seq<u8>) -> Option<Seq<u8>>;

/// Relies on zstd's `bulk::compress`: the frame depends on the data and level alone.
#[verifier::external_body]
fn zstd_compress(data: &[u8], level: i32) -> (r: Result<Vec<u8>, String>)
    ensures
        r matches Ok(c) ==> c@ == zstd_compressed(data@, level),
{
    zstd::bulk::compress(data, level).map_err(|e| e.to_string())
}

/// Relies on zstd's `bulk::decompress`: the content of a valid frame, refused
/// when it would exceed `capacity` bytes; a frame that `bulk::compress` made
/// gives back the data it was made from.
#[verifier::external_body]
fn zstd_decompress(data: &[u8], capacity: usize) -> (r: Result<Vec<u8>, String>)
    ensures
        r matches Ok(d) ==> zstd_decompressed(data@) == Some(d@),
        r is Ok <==> (zstd_decompressed(data@) matches Some(d) && d.len() <= capacity),
        forall|s: (Seq<u8>, i32)| r is Ok && r->Ok_0@ == s.0 || #[trigger] zstd_compressed(s.0, s.1) != data@ || s.0.len() > capacity,
{
    zstd::bulk::decompress(data, capacity).map_err(|e| e.to_string())
}

/// The level actually used for an optional level.
pub open spec fn effective_level(level: Option<i32>) -> i32 {
    match level {
        Some(l) => l,
        None => DEFAULT_COMPRESSION_LEVEL,
    }
}

/// Compresses data at the given level (3 when none is given).
pub fn compress(data: &[u8], level: Option<i32>) -> (r: Result<Vec<u8>, CrateError>)
    ensures
        r matches Ok(c) ==> c@ == zstd_compressed(data@, effective_level(level)),
        r matches Err(e) ==> e is Encryption,
{
    let level = match level {
        Some(l) => l,
        None => DEFAULT_COMPRESSION_LEVEL,
    };
    match zstd_compress(data, level) {
        Ok(c) => Ok(c),
        Err(msg) => {
            let mut text = "Compression failed: ".to_string();
            text.append(msg.as_str());
            Err(CrateError::Encryption(text))
        },
    }
}

/// Output of a decompression bounded by `max_size`: the frame's content when
/// it is valid and fits.
pub open spec fn bounded_decompression(data: Seq<u8>, max_size: int) -> Option<Seq<u8>> {
    match zstd_decompressed(data) {
        Some(d) => if d.len() <= max_size { Some(d) } else { None },
        None => None,
    }
}

/// Decompresses data, refusing invalid frames and output beyond `max_size` bytes.
pub fn decompress(data: &[u8], max_size: usize) -> (r: Result<Vec<u8>, CrateError>)
    ensures
        r is Ok <==> bounded_decompression(data@, max_size as int) is Some,
        r matches Ok(d) ==> bounded_decompression(data@, max_size as int) == Some(d@),
        r matches Err(e) ==> e is Decryption,
        forall|d: Seq<u8>, level: i32| #[trigger] zstd_compressed(d, level) == data@ && d.len() <= max_size
            ==> (r matches Ok(x) && x@ == d),
{
    let w = zstd_decompress(data, max_size);
    proof {
        assert forall|d: Seq<u8>, level: i32| #[trigger] zstd_compressed(d, level) == data@ && d.len() <= max_size
            implies (w matches Ok(x) && x@ == d) by {
            let s = (d, level);
            assert(zstd_compressed(s.0, s.1) == data@);
        }
    }
    match w {
        Ok(d) => Ok(d),
        Err(msg) => {
            let mut text = "Decompression failed: ".to_string();
            text.append(msg.as_str());
            Err(CrateError::Decryption(text))
        },
    }
}

/// Space saved by compression as an exact fraction `(saved * 100, original)`:
/// the percentage is the first divided by the second. An empty original gives
/// `(0, 1)`, that is 0 percent.
pub fn compression_ratio_parts(original_size: usize, compressed_size: usize) -> (r: (i128, u128))
    ensures
        original_size == 0 ==> r == (0i128, 1u128),
        original_size != 0 ==> r.0 == (original_size - compressed_size) * 100 && r.1 == original_size,
{
    if original_size == 0 {
        return (0, 1);
    }
    let saved: i128 = original_size as i128 - compressed_size as i128;
    (saved * 100, original_size as u128)
}

} // verus!
