use cryptocrate::container::{frame_container, read_header};
use cryptocrate::error::CrateError;
use cryptocrate::format::{FileHeader, HEADER_SIZE};
use cryptocrate::inspect::{describe_age, format_size, inspect_container, FileInfo};
use cryptocrate::metadata::FileMetadata;

#[test]
fn test_format_size() {
    assert_eq!(format_size(500), "500 bytes");
    assert_eq!(format_size(1024), "1.00 KB");
    assert_eq!(format_size(1024 * 1024), "1.00 MB");
    assert_eq!(format_size(1024 * 1024 * 1024), "1.00 GB");
}

#[test]
fn format_size_matches_float_rounding() {
    let samples: [u64; 12] = [
        0, 1, 1023, 1152, 1153, 1535, 1536, 10 * 1024 + 5, 1_048_575, 1_048_576 + 5_243,
        5 * 1024 * 1024 * 1024 + 123_456_789, 999_999_999_999,
    ];
    for b in samples {
        let expected = if b >= 1 << 30 {
            format!("{:.2} GB", b as f64 / (1u64 << 30) as f64)
        } else if b >= 1 << 20 {
            format!("{:.2} MB", b as f64 / (1u64 << 20) as f64)
        } else if b >= 1 << 10 {
            format!("{:.2} KB", b as f64 / 1024.0)
        } else {
            format!("{} bytes", b)
        };
        assert_eq!(format_size(b), expected, "size {}", b);
    }
}

#[test]
fn describe_age_thresholds() {
    assert_eq!(describe_age(1000, 1000), "just now");
    assert_eq!(describe_age(1000, 1059), "just now");
    assert_eq!(describe_age(1000, 1060), "1 minutes ago");
    assert_eq!(describe_age(0, 7200), "2 hours ago");
    assert_eq!(describe_age(0, 3 * 86400), "3 days ago");
    assert_eq!(describe_age(0, 14 * 86400), "2 weeks ago");
    assert_eq!(describe_age(0, 60 * 86400), "2 months ago");
    assert_eq!(describe_age(0, 800 * 86400), "2 years ago");
    assert_eq!(describe_age(7200, 0), "2 hours ago");
}

fn sample_container(version_bump: u8) -> Vec<u8> {
    let metadata = FileMetadata {
        filename: "notes.txt".to_string(),
        original_size: 2048,
        modified_time: Some(1_700_000_000),
        is_compressed: true,
    };
    let block = metadata.to_bytes();
    let mut header = FileHeader::new([7u8; 32], [9u8; 12], block.len() as u32);
    header.version += version_bump;
    frame_container(&header, &block, &[1, 2, 3, 4, 5])
}

#[test]
fn inspect_reads_header_and_metadata() {
    let bytes = sample_container(0);
    let info = inspect_container(&bytes).unwrap();
    assert_eq!(info.version, 1);
    assert_eq!(info.algorithm, "AES-256-GCM");
    assert_eq!(info.metadata.filename, "notes.txt");
    assert_eq!(info.metadata.original_size, 2048);
    assert_eq!(info.metadata.modified_time, Some(1_700_000_000));
    assert!(info.metadata.is_compressed);
    assert_eq!(info.encrypted_size, bytes.len() as u64);
}

#[test]
fn inspect_rejects_bad_magic() {
    let mut bytes = sample_container(0);
    bytes[0] = b'X';
    assert!(matches!(inspect_container(&bytes), Err(CrateError::InvalidFormat(_))));
    assert!(matches!(inspect_container(b"CR"), Err(CrateError::InvalidFormat(_))));
}

#[test]
fn inspect_rejects_newer_version() {
    let bytes = sample_container(1);
    assert!(matches!(inspect_container(&bytes), Err(CrateError::UnsupportedVersion(2))));
}

#[test]
fn inspect_rejects_truncated_metadata() {
    let bytes = sample_container(0);
    assert!(matches!(inspect_container(&bytes[..HEADER_SIZE + 5]), Err(CrateError::InvalidFormat(_))));
    assert!(matches!(read_header(&bytes[..HEADER_SIZE - 1]), Err(CrateError::InvalidFormat(_))));
}

#[test]
fn inspect_unknown_algorithm_is_named_unknown() {
    let mut bytes = sample_container(0);
    bytes[5] = 9;
    let info = inspect_container(&bytes).unwrap();
    assert_eq!(info.algorithm, "Unknown");
}

#[test]
fn display_report_lines() {
    let info = FileInfo {
        version: 1,
        algorithm: "AES-256-GCM".to_string(),
        metadata: FileMetadata {
            filename: "a.txt".to_string(),
            original_size: 2000,
            modified_time: Some(100),
            is_compressed: true,
        },
        encrypted_size: 500,
    };
    let text = info.display_at(100 + 3 * 3600);
    let expected = "\u{1F4E6} File Format: CryptoCrate v1\n\
\u{1F510} Algorithm: AES-256-GCM\n\
\u{1F4C4} Original Filename: a.txt\n\
\u{1F4CF} Original Size: 1.95 KB\n\
\u{1F4E6} Encrypted Size: 500 bytes\n\
\u{1F4C5} Modified: 3 hours ago (Unix: 100)\n\
\u{1F5DC}\u{FE0F}  Compressed: Yes\n\
\u{1F4CA} Compression Ratio: 25.0% of original\n";
    assert_eq!(text, expected);
    assert!(info.display().contains("Original Filename: a.txt"));
}
