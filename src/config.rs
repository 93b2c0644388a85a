//! Run configuration: compression and key-derivation costs, defaults for the
//! command-line front end. Loading and saving the file is the caller's work.

use vstd::prelude::*;

use crate::crypto::KdfParams;
use crate::engine::CryptoSettings;

verus! {

/// Name of the configuration file looked up in the working directory.
pub const CONFIG_FILE_NAME: &'static str = "cryptocrate.toml";

/// A commented sample configuration file.
pub const SAMPLE_CONFIG: &'static str = r#"# CryptoCrate Configuration File
# This file configures default behavior for the cryptocrate tool.

# Default compression level (1-21, higher = better compression but slower)
compression_level = 3

# Enable compression by default (can be overridden with --compress flag)
compress_by_default = false

# Default output directory (leave empty to use same directory as input)
# default_output_dir = "/path/to/encrypted"

# Confirm before overwriting existing files
confirm_overwrite = true

# Show detailed progress information
show_detailed_progress = true

# Argon2 key derivation parameters (advanced users only)
# Higher values = more secure but slower
argon2_memory_kb = 65536  # 64 MB
argon2_time_cost = 3       # iterations
argon2_parallelism = 4     # threads
"#;

/// Settings for a run.
#[derive(Debug, Clone)]
pub struct Config {
    /// Compression level (1-21).
    pub compression_level: i32,
    /// Compress unless told otherwise.
    pub compress_by_default: bool,
    /// Where outputs go when no directory is given.
    pub default_output_dir: Option<String>,
    /// Ask before overwriting files.
    pub confirm_overwrite: bool,
    /// Show a line per file while working.
    pub show_detailed_progress: bool,
    /// Argon2 memory cost in KiB.
    pub argon2_memory_kb: u32,
    /// Argon2 iterations.
    pub argon2_time_cost: u32,
    /// Argon2 lanes.
    pub argon2_parallelism: u32,
}

/// Default compression level.
pub fn default_compression_level() -> (r: i32)
    ensures
        r == 3,
{
    3
}

/// Default for the flags that are on unless configured off.
pub fn default_true() -> (r: bool)
    ensures
        r,
{
    true
}

/// Default Argon2 memory cost: 64 MiB.
pub fn default_argon2_memory() -> (r: u32)
    ensures
        r == 65536,
{
    65536
}

/// Default Argon2 iterations.
pub fn default_argon2_time() -> (r: u32)
    ensures
        r == 3,
{
    3
}

/// Default Argon2 lanes.
pub fn default_argon2_parallelism() -> (r: u32)
    ensures
        r == 4,
{
    4
}

impl Default for Config {
    fn default() -> (r: Config)
        ensures
            r.compression_level == 3,
            !r.compress_by_default,
            r.default_output_dir is None,
            r.confirm_overwrite,
            r.show_detailed_progress,
            r.argon2_memory_kb == 65536,
            r.argon2_time_cost == 3,
            r.argon2_parallelism == 4,
    {
        Config {
            compression_level: default_compression_level(),
            compress_by_default: false,
            default_output_dir: None,
            confirm_overwrite: default_true(),
            show_detailed_progress: default_true(),
            argon2_memory_kb: default_argon2_memory(),
            argon2_time_cost: default_argon2_time(),
            argon2_parallelism: default_argon2_parallelism(),
        }
    }
}

impl Config {
    /// The text of a commented sample configuration file.
    pub fn sample() -> (r: String)
        ensures
            r@ == SAMPLE_CONFIG@,
    {
        SAMPLE_CONFIG.to_string()
    }

    /// The compression level and Argon2 costs this configuration asks for.
    pub fn crypto_settings(&self) -> (r: CryptoSettings)
        ensures
            r.compression_level == self.compression_level,
            r.kdf.memory_kib == self.argon2_memory_kb,
            r.kdf.time_cost == self.argon2_time_cost,
            r.kdf.parallelism == self.argon2_parallelism,
    {
        CryptoSettings {
            compression_level: self.compression_level,
            kdf: KdfParams {
                memory_kib: self.argon2_memory_kb,
                time_cost: self.argon2_time_cost,
                parallelism: self.argon2_parallelism,
            },
        }
    }
}

} // verus!
