use cryptocrate::compression::{compress, compression_ratio_parts, decompress};
use cryptocrate::error::CrateError;

#[test]
fn test_compress_decompress() {
    let original = b"Hello, World! This is a test of compression. ".repeat(100);

    let compressed = compress(&original, None).unwrap();
    assert!(compressed.len() < original.len());

    let decompressed = decompress(&compressed, original.len() * 2).unwrap();
    assert_eq!(decompressed, original);
}

#[test]
fn test_compression_ratio() {
    let (saved, original) = compression_ratio_parts(1000, 500);
    let ratio = saved as f64 / original as f64;
    assert_eq!(ratio, 50.0);
}

#[test]
fn compression_ratio_of_empty_original_is_zero() {
    for x in [0usize, 1, 500, usize::MAX] {
        let (saved, original) = compression_ratio_parts(0, x);
        assert_eq!(saved as f64 / original as f64, 0.0);
    }
}

#[test]
fn compression_ratio_can_be_negative() {
    assert_eq!(compression_ratio_parts(100, 150), (-5000, 100));
}

#[test]
fn decompress_respects_ceiling() {
    let original = vec![0u8; 10_000];
    let compressed = compress(&original, Some(3)).unwrap();
    assert!(matches!(decompress(&compressed, 100), Err(CrateError::Decryption(_))));
}

#[test]
fn decompress_garbage_is_decryption_error() {
    assert!(matches!(decompress(b"not zstd", 1000), Err(CrateError::Decryption(_))));
}
