//! Read-only inspection of a container: header and metadata, no key material.

use vstd::prelude::*;

use crate::container::{has_magic, metadata_block, metadata_readable, read_header_and_metadata};
use crate::error::CrateError;
use crate::format::{ALGORITHM_AES256_GCM, VERSION};
use crate::metadata::FileMetadata;
use crate::text::{decimal_of, fixed_of, push_decimal, push_fixed};

verus! {

pub const KB: u64 = 1024;
pub const MB: u64 = KB * 1024;
pub const GB: u64 = MB * 1024;

pub const MINUTE: u64 = 60;
pub const HOUR: u64 = MINUTE * 60;
pub const DAY: u64 = HOUR * 24;
pub const WEEK: u64 = DAY * 7;
pub const MONTH: u64 = DAY * 30;
pub const YEAR: u64 = DAY * 365;

/// What inspection reports about a container.
#[derive(Debug)]
pub struct FileInfo {
    pub version: u8,
    pub algorithm: String,
    pub metadata: FileMetadata,
    pub encrypted_size: u64,
}

/// Human-readable size: bytes below 1 KiB, otherwise KB, MB or GB with two decimals.
pub open spec fn size_text(bytes: u64) -> Seq<char> {
    if bytes >= GB {
        fixed_of(bytes as nat, GB as nat, 2) + " GB"@
    } else if bytes >= MB {
        fixed_of(bytes as nat, MB as nat, 2) + " MB"@
    } else if bytes >= KB {
        fixed_of(bytes as nat, KB as nat, 2) + " KB"@
    } else {
        decimal_of(bytes as nat) + " bytes"@
    }
}

/// Distance in seconds between a timestamp and now, in either direction.
pub open spec fn age_of(timestamp: u64, now: u64) -> nat {
    if now > timestamp {
        (now - timestamp) as nat
    } else {
        (timestamp - now) as nat
    }
}

/// Relative description of a distance in seconds.
pub open spec fn age_text(diff: nat) -> Seq<char> {
    if diff < MINUTE {
        "just now"@
    } else if diff < HOUR {
        decimal_of(diff / MINUTE as nat) + " minutes ago"@
    } else if diff < DAY {
        decimal_of(diff / HOUR as nat) + " hours ago"@
    } else if diff < WEEK {
        decimal_of(diff / DAY as nat) + " days ago"@
    } else if diff < MONTH {
        decimal_of(diff / WEEK as nat) + " weeks ago"@
    } else if diff < YEAR {
        decimal_of(diff / MONTH as nat) + " months ago"@
    } else {
        decimal_of(diff / YEAR as nat) + " years ago"@
    }
}

/// Formats a byte count for display.
pub fn format_size(bytes: u64) -> (r: String)
    ensures
        r@ == size_text(bytes),
{
    let mut s = String::new();
    if bytes >= GB {
        push_fixed(&mut s, bytes as u128, GB, 2);
        s.append(" GB");
    } else if bytes >= MB {
        push_fixed(&mut s, bytes as u128, MB, 2);
        s.append(" MB");
    } else if bytes >= KB {
        push_fixed(&mut s, bytes as u128, KB, 2);
        s.append(" KB");
    } else {
        push_decimal(&mut s, bytes as u128);
        s.append(" bytes");
    }
    s
}

/// Describes how far a timestamp lies from `now`.
pub fn describe_age(timestamp: u64, now: u64) -> (r: String)
    ensures
        r@ == age_text(age_of(timestamp, now)),
{
    let diff: u64 = if now > timestamp { now - timestamp } else { timestamp - now };
    let mut s = String::new();
    if diff < MINUTE {
        s.append("just now");
    } else if diff < HOUR {
        push_decimal(&mut s, (diff / MINUTE) as u128);
        s.append(" minutes ago");
    } else if diff < DAY {
        push_decimal(&mut s, (diff / HOUR) as u128);
        s.append(" hours ago");
    } else if diff < WEEK {
        push_decimal(&mut s, (diff / DAY) as u128);
        s.append(" days ago");
    } else if diff < MONTH {
        push_decimal(&mut s, (diff / WEEK) as u128);
        s.append(" weeks ago");
    } else if diff < YEAR {
        push_decimal(&mut s, (diff / MONTH) as u128);
        s.append(" months ago");
    } else {
        push_decimal(&mut s, (diff / YEAR) as u128);
        s.append(" years ago");
    }
    s
}

/// Relies on `SystemTime::now` and `duration_since(UNIX_EPOCH)`: the current
/// Unix time in whole seconds, 0 before the epoch. Nothing else is known of it.
#[verifier::external_body]
fn unix_now() -> (r: u64) {
    std::time::SystemTime::now().duration_since(std::time::UNIX_EPOCH).map(|d| d.as_secs()).unwrap_or(0)
}

/// Describes how far a Unix timestamp lies from the current time.
pub fn format_timestamp(timestamp: u64) -> (r: String)
    ensures
        exists|now: u64| r@ == #[trigger] age_text(age_of(timestamp, now)),
{
    let now = unix_now();
    describe_age(timestamp, now)
}

/// The compression ratio shown for a compressed container: the encrypted size
/// as a percentage of the original, with one decimal ("NaN" or "inf" when the
/// original is empty).
pub open spec fn ratio_text(encrypted: u64, original: u64) -> Seq<char> {
    if original == 0 {
        if encrypted == 0 {
            "NaN"@
        } else {
            "inf"@
        }
    } else {
        fixed_of(encrypted as nat * 100, original as nat, 1)
    }
}

/// The modification-time line, present when the time is known.
pub open spec fn modified_line(modified: Option<u64>, now: u64) -> Seq<char> {
    match modified {
        Some(t) => "\u{1F4C5} Modified: "@ + age_text(age_of(t, now)) + " (Unix: "@ + decimal_of(t as nat) + ")\n"@,
        None => Seq::empty(),
    }
}

impl FileInfo {
    /// The report shown for this container when the clock reads `now`.
    pub open spec fn report(&self, now: u64) -> Seq<char> {
        "\u{1F4E6} File Format: CryptoCrate v"@ + decimal_of(self.version as nat) + "\n"@
            + "\u{1F510} Algorithm: "@ + self.algorithm@ + "\n"@
            + "\u{1F4C4} Original Filename: "@ + self.metadata.filename@ + "\n"@
            + "\u{1F4CF} Original Size: "@ + size_text(self.metadata.original_size) + "\n"@
            + "\u{1F4E6} Encrypted Size: "@ + size_text(self.encrypted_size) + "\n"@
            + modified_line(self.metadata.modified_time, now)
            + "\u{1F5DC}\u{FE0F}  Compressed: "@ + (if self.metadata.is_compressed { "Yes"@ } else { "No"@ }) + "\n"@
            + (if self.metadata.is_compressed {
                "\u{1F4CA} Compression Ratio: "@ + ratio_text(self.encrypted_size, self.metadata.original_size)
                    + "% of original\n"@
            } else {
                Seq::empty()
            })
    }

    /// The report for the clock reading `now`.
    pub fn display_at(&self, now: u64) -> (r: String)
        ensures
            r@ == self.report(now),
    {
        let mut out = String::new();
        out.append("\u{1F4E6} File Format: CryptoCrate v");
        push_decimal(&mut out, self.version as u128);
        out.append("\n");
        out.append("\u{1F510} Algorithm: ");
        out.append(self.algorithm.as_str());
        out.append("\n");
        out.append("\u{1F4C4} Original Filename: ");
        out.append(self.metadata.filename.as_str());
        out.append("\n");
        out.append("\u{1F4CF} Original Size: ");
        let original = format_size(self.metadata.original_size);
        out.append(original.as_str());
        out.append("\n");
        out.append("\u{1F4E6} Encrypted Size: ");
        let encrypted = format_size(self.encrypted_size);
        out.append(encrypted.as_str());
        out.append("\n");
        let ghost head = out@;
        if let Some(modified) = self.metadata.modified_time {
            out.append("\u{1F4C5} Modified: ");
            let age = describe_age(modified, now);
            out.append(age.as_str());
            out.append(" (Unix: ");
            push_decimal(&mut out, modified as u128);
            out.append(")\n");
        }
        assert(out@ =~= head + modified_line(self.metadata.modified_time, now));
        let ghost mid = out@;
        out.append("\u{1F5DC}\u{FE0F}  Compressed: ");
        if self.metadata.is_compressed {
            out.append("Yes");
        } else {
            out.append("No");
        }
        out.append("\n");
        let ghost tail = out@;
        if self.metadata.is_compressed {
            out.append("\u{1F4CA} Compression Ratio: ");
            if self.metadata.original_size == 0 {
                if self.encrypted_size == 0 {
                    out.append("NaN");
                } else {
                    out.append("inf");
                }
            } else {
                push_fixed(&mut out, self.encrypted_size as u128 * 100, self.metadata.original_size, 1);
            }
            out.append("% of original\n");
        }
        assert(out@ =~= self.report(now));
        out
    }

    /// The report for the current time.
    pub fn display(&self) -> (r: String)
        ensures
            exists|now: u64| r@ == #[trigger] self.report(now),
    {
        let now = unix_now();
        self.display_at(now)
    }
}

/// The display name of an algorithm identifier.
pub open spec fn algorithm_name(id: u8) -> Seq<char> {
    if id == ALGORITHM_AES256_GCM {
        "AES-256-GCM"@
    } else {
        "Unknown"@
    }
}

/// Inspects a whole container file's bytes: checks magic and version, reads
/// the metadata block, and touches neither salt, nonce nor ciphertext.
pub fn inspect_container(bytes: &[u8]) -> (r: Result<FileInfo, CrateError>)
    ensures
        r is Ok <==> metadata_readable(bytes@),
        r matches Ok(info) ==> {
            &&& info.version == bytes@[4]
            &&& info.algorithm@ == algorithm_name(bytes@[5])
            &&& info.metadata.decoded_from(metadata_block(bytes@))
            &&& info.encrypted_size == bytes@.len()
        },
        !has_magic(bytes@) ==> r matches Err(CrateError::InvalidFormat(_)),
        has_magic(bytes@) && bytes@.len() >= 5 && bytes@[4] != VERSION
            ==> r == Err::<FileInfo, CrateError>(CrateError::UnsupportedVersion(bytes@[4])),
        has_magic(bytes@) && (bytes@.len() < 5 || bytes@[4] == VERSION) && !metadata_readable(bytes@)
            ==> r matches Err(CrateError::InvalidFormat(_)),
        r matches Err(e) ==> (e is InvalidFormat || e is UnsupportedVersion),
{
    let (header, metadata) = match read_header_and_metadata(bytes) {
        Ok(p) => p,
        Err(e) => return Err(e),
    };
    let algorithm = if header.algorithm == ALGORITHM_AES256_GCM {
        "AES-256-GCM".to_string()
    } else {
        "Unknown".to_string()
    };
    Ok(FileInfo { version: header.version, algorithm, metadata, encrypted_size: bytes.len() as u64 })
}

} // verus!
