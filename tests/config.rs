use cryptocrate::config::Config;

#[test]
fn test_default_config() {
    let config = Config::default();
    assert_eq!(config.compression_level, 3);
    assert!(!config.compress_by_default);
    assert!(config.confirm_overwrite);
}

#[test]
fn test_sample_config() {
    let sample = Config::sample();
    assert!(sample.contains("compression_level"));
    assert!(sample.contains("argon2"));
}

#[test]
fn default_config_crypto_settings() {
    let settings = Config::default().crypto_settings();
    assert_eq!(settings.compression_level, 3);
    assert_eq!(settings.kdf.memory_kib, 65536);
    assert_eq!(settings.kdf.time_cost, 3);
    assert_eq!(settings.kdf.parallelism, 4);
}
