use laser_controller::{ConfigError, DacConfig, SampleRateReading};

fn reading(rate: f32) -> SampleRateReading {
    SampleRateReading { below_one: rate < 1.0, whole: rate as usize }
}

fn build(
    amplitude: f32,
    frequency: f32,
    sample_rate: f32,
    sample_count: usize,
    phase_offset: f32,
    sample_array_default: Option<Vec<f32>>,
) -> Result<DacConfig<f32>, ConfigError> {
    DacConfig::new(amplitude, frequency, sample_rate, reading(sample_rate), sample_count, phase_offset, sample_array_default)
}

#[test]
fn test_dac_config_new_valid() {
    let config = build(2.5, 500.0, 1_000_000.0, 2000, 1.57, None);
    assert!(config.is_ok());
    let config = config.unwrap();
    assert_eq!(config.amplitude, 2.5);
    assert_eq!(config.frequency, 500.0);
    assert_eq!(config.sample_rate, 1_000_000.0);
    assert_eq!(config.sample_count, 2000);
    assert_eq!(config.phase_offset, 1.57);
}

#[test]
fn test_dac_config_invalid_sample_count() {
    let config = build(2.5, 500.0, 1_000_000.0, 0, 0.0, None);
    assert!(config.is_err());
}

#[test]
fn test_dac_config_invalid_sample_rate() {
    let config = build(2.5, 500.0, 0.5, 1000, 0.0, None);
    assert!(config.is_err());
}

#[test]
fn test_dac_config_sample_count_exceeds_rate() {
    let config = build(2.5, 500.0, 1000.0, 2000, 0.0, None);
    assert!(config.is_err());
}

#[test]
fn test_dac_config_custom_array_length_mismatch() {
    let custom_array = vec![1.0, 2.0, 3.0];
    let config = build(2.5, 500.0, 1_000_000.0, 1000, 0.0, Some(custom_array));
    assert!(config.is_err());
}

#[test]
fn test_dac_config_custom_array_valid() {
    let custom_array = vec![1.0; 1000];
    let config = build(2.5, 500.0, 1_000_000.0, 1000, 0.0, Some(custom_array));
    assert!(config.is_ok());
    assert!(config.unwrap().sample_array_default.is_some());
}

#[test]
fn startup_configuration_is_accepted() {
    let config = build(3.3, 1000.0, 1_000_000.0, 1000, 0.0, None).unwrap();
    assert_eq!(config.sample_count, 1000);
    assert!(config.sample_array_default.is_none());
}

#[test]
fn each_error_names_the_first_failed_check() {
    assert_eq!(build(1.0, 1.0, 0.5, 0, 0.0, None).unwrap_err(), ConfigError::SampleCountZero);
    assert_eq!(build(1.0, 1.0, 0.5, 1, 0.0, None).unwrap_err(), ConfigError::SampleRateBelowOne);
    assert_eq!(build(1.0, 1.0, 10.0, 11, 0.0, None).unwrap_err(), ConfigError::SampleCountExceedsRate);
    assert_eq!(
        build(1.0, 1.0, 10.0, 3, 0.0, Some(vec![0.5; 4])).unwrap_err(),
        ConfigError::DefaultArrayLengthMismatch
    );
}

#[test]
fn sample_count_equal_to_rate_is_accepted() {
    assert!(build(1.0, 1.0, 10.0, 10, 0.0, None).is_ok());
    assert!(build(1.0, 1.0, 10.9, 10, 0.0, None).is_ok());
    assert!(build(1.0, 1.0, 1.0, 1, 0.0, Some(vec![0.25])).is_ok());
}

#[test]
fn rate_that_is_not_a_number_is_refused() {
    assert_eq!(build(1.0, 1.0, f32::NAN, 1, 0.0, None).unwrap_err(), ConfigError::SampleCountExceedsRate);
}

#[test]
fn error_messages() {
    assert_eq!(ConfigError::SampleCountZero.message(), "sample_count must be greater than 0");
    assert_eq!(ConfigError::SampleRateBelowOne.message(), "sample_rate must be greater than 1.0");
    assert_eq!(
        ConfigError::SampleCountExceedsRate.message(),
        "sample_count must be less than or equal to sample_rate"
    );
    assert_eq!(
        ConfigError::DefaultArrayLengthMismatch.message(),
        "sample_array_default length must be equal to sample_count"
    );
}
