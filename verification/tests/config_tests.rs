use nemotron_asr::CacheConfig;
use nemotron_asr::LatencyMode;

#[test]
fn test_cache_config_default() {
    let config = CacheConfig::default();
    assert_eq!(config.sample_rate(), 16000);
    assert_eq!(config.n_mels(), 128);
}

#[test]
fn test_latency_mode_values() {
    assert_eq!(LatencyMode::PureCausal.att_right_context(), 0);
    assert_eq!(LatencyMode::UltraLow.att_right_context(), 1);
    assert_eq!(LatencyMode::Low.att_right_context(), 6);
    assert_eq!(LatencyMode::Default.att_right_context(), 13);
}

#[test]
fn test_cache_config() {
    let config = CacheConfig::default();
    assert!(config.chunk_samples() > 0);
    assert!(config.latency_ms() > 0);
}

#[test]
fn default_config_is_default_latency_mode() {
    assert_eq!(CacheConfig::default(), CacheConfig::with_latency(LatencyMode::Default));
    let from_trait: CacheConfig = Default::default();
    assert_eq!(from_trait, CacheConfig::default());
    assert_eq!(CacheConfig::default().right_context(), 13);
}

#[test]
fn latency_table_of_modes() {
    let table = [
        (LatencyMode::PureCausal, 80, 1280, 8),
        (LatencyMode::UltraLow, 160, 2560, 16),
        (LatencyMode::Low, 560, 8960, 56),
        (LatencyMode::Default, 1120, 17920, 112),
    ];
    for (mode, latency, samples, frames) in table {
        let config = CacheConfig::with_latency(mode);
        assert_eq!(config.latency_ms(), latency);
        assert_eq!(config.chunk_samples(), samples);
        assert_eq!(config.chunk_mel_frames(), frames);
        // the latency is the duration of one chunk of 16kHz audio
        assert_eq!(config.latency_ms() as i64 * 16000, config.chunk_samples() as i64 * 1000);
    }
}

#[test]
fn set_right_context_changes_only_the_right_context() {
    let mut config = CacheConfig::default();
    config.set_right_context(6);
    assert_eq!(config, CacheConfig::with_latency(LatencyMode::Low));
    assert_eq!(config.sample_rate(), 16000);
    assert_eq!(config.n_mels(), 128);
    assert_eq!(config.latency_ms(), 560);
    // chained calls act on the same configuration
    config.set_right_context(0).set_right_context(1);
    assert_eq!(config.right_context(), 1);
    assert_eq!(config, CacheConfig::with_latency(LatencyMode::UltraLow));
}

#[test]
fn non_standard_right_context() {
    let mut config = CacheConfig::default();
    config.set_right_context(3);
    assert_eq!(config.latency_ms(), 320);
    assert_eq!(config.chunk_samples(), 5120);
    assert_eq!(LatencyMode::from_right_context(3), None);
    config.set_right_context(-1);
    assert_eq!(config.right_context(), -1);
    assert_eq!(config.chunk_mel_frames(), 0);
    assert_eq!(config.chunk_samples(), 0);
    assert_eq!(config.latency_ms(), 0);
    config.set_right_context(-5);
    assert_eq!(config.chunk_samples(), -5120);
    assert_eq!(config.latency_ms(), -320);
    config.set_right_context(1_000_000);
    assert_eq!(config.chunk_samples(), 1_280_001_280);
    assert_eq!(config.latency_ms(), 80_000_080);
    assert_eq!(config.chunk_mel_frames(), 8_000_008);
}

#[test]
fn right_context_round_trip() {
    for mode in [LatencyMode::PureCausal, LatencyMode::UltraLow, LatencyMode::Low, LatencyMode::Default] {
        assert_eq!(LatencyMode::from_right_context(mode.att_right_context()), Some(mode));
    }
    for context in [-1, 2, 5, 7, 12, 14, 80] {
        assert_eq!(LatencyMode::from_right_context(context), None);
    }
}

#[test]
fn latency_grows_with_right_context() {
    let mut previous = 0;
    for context in 0..20 {
        let mut config = CacheConfig::default();
        config.set_right_context(context);
        assert!(config.latency_ms() > previous);
        previous = config.latency_ms();
    }
}
