use vstd::prelude::*;

verus! {

/// What the configuration check reads of a sample rate: whether it lies
/// below one sample per second, and its whole part (the rate truncated to an
/// integer, saturating, with a rate that is not a number read as zero).
#[derive(Clone, Copy, Debug, PartialEq, Eq, Structural)]
pub struct SampleRateReading {
    pub below_one: bool,
    pub whole: usize,
}

/// Why a DAC configuration was refused.
#[derive(Clone, Copy, Debug, PartialEq, Eq, Structural)]
pub enum ConfigError {
    /// No sample per cycle was asked for.
    SampleCountZero,
    /// The sample rate is below one sample per second.
    SampleRateBelowOne,
    /// More samples per cycle than samples per second.
    SampleCountExceedsRate,
    /// A default sample array whose length differs from the sample count.
    DefaultArrayLengthMismatch,
}

/// The DAC's waveform configuration. `F` is the sample type (a float in the
/// running program); the checks below never read a value of it.
#[derive(Clone, Debug)]
pub struct DacConfig<F> {
    /// Maximum amplitude.
    pub amplitude: F,
    /// Frequency of the generated wave, in Hz.
    pub frequency: F,
    /// Samples per second.
    pub sample_rate: F,
    /// Samples generated per cycle.
    pub sample_count: usize,
    /// Phase offset, in radians.
    pub phase_offset: F,
    /// An amplitude envelope that replaces the plain sine wave when present.
    pub sample_array_default: Option<Vec<F>>,
}

/// The checks that a new configuration must pass, in the order they are made:
/// the first that fails names the error.
pub open spec fn config_check(
    sample_count: nat,
    rate: SampleRateReading,
    default_len: Option<nat>,
) -> Result<(), ConfigError> {
    if sample_count < 1 {
        Err(ConfigError::SampleCountZero)
    } else if rate.below_one {
        Err(ConfigError::SampleRateBelowOne)
    } else if sample_count > rate.whole {
        Err(ConfigError::SampleCountExceedsRate)
    } else if default_len is Some && default_len->0 != sample_count {
        Err(ConfigError::DefaultArrayLengthMismatch)
    } else {
        Ok(())
    }
}

/// The length of an optional sample array.
pub open spec fn optional_len<F>(samples: Option<Vec<F>>) -> Option<nat> {
    match samples {
        Some(v) => Some(v@.len()),
        None => None,
    }
}

impl ConfigError {
    /// The message that reports this error.
    pub fn message(&self) -> (text: &'static str)
        ensures
            text@ == match *self {
                ConfigError::SampleCountZero => "sample_count must be greater than 0"@,
                ConfigError::SampleRateBelowOne => "sample_rate must be greater than 1.0"@,
                ConfigError::SampleCountExceedsRate => "sample_count must be less than or equal to sample_rate"@,
                ConfigError::DefaultArrayLengthMismatch => "sample_array_default length must be equal to sample_count"@,
            },
    {
        match self {
            ConfigError::SampleCountZero => "sample_count must be greater than 0",
            ConfigError::SampleRateBelowOne => "sample_rate must be greater than 1.0",
            ConfigError::SampleCountExceedsRate => "sample_count must be less than or equal to sample_rate",
            ConfigError::DefaultArrayLengthMismatch => "sample_array_default length must be equal to sample_count",
        }
    }
}

impl<F> DacConfig<F> {
    /// Builds a configuration after checking it: at least one sample per
    /// cycle, a rate of at least one sample per second, no more samples per
    /// cycle than the whole part of the rate, and a default sample array, if
    /// given, of exactly `sample_count` samples. `rate` is the reading of
    /// `sample_rate`.
    pub fn new(
        amplitude: F,
        frequency: F,
        sample_rate: F,
        rate: SampleRateReading,
        sample_count: usize,
        phase_offset: F,
        sample_array_default: Option<Vec<F>>,
    ) -> (res: Result<DacConfig<F>, ConfigError>)
        ensures
            res is Ok <==> {
                &&& sample_count >= 1
                &&& !rate.below_one
                &&& sample_count <= rate.whole
                &&& (sample_array_default matches Some(v) ==> v@.len() == sample_count)
            },
            match config_check(sample_count as nat, rate, optional_len(sample_array_default)) {
                Ok(_) => res == Ok::<DacConfig<F>, ConfigError>(DacConfig {
                    amplitude,
                    frequency,
                    sample_rate,
                    sample_count,
                    phase_offset,
                    sample_array_default,
                }),
                Err(e) => res == Err::<DacConfig<F>, ConfigError>(e),
            },
    {
        if sample_count < 1 {
            return Err(ConfigError::SampleCountZero);
        }
        if rate.below_one {
            return Err(ConfigError::SampleRateBelowOne);
        }
        if sample_count > rate.whole {
            return Err(ConfigError::SampleCountExceedsRate);
        }
        match &sample_array_default {
            Some(samples) => {
                if samples.len() != sample_count {
                    return Err(ConfigError::DefaultArrayLengthMismatch);
                }
            },
            None => {},
        }
        Ok(DacConfig {
            amplitude,
            frequency,
            sample_rate,
            sample_count,
            phase_offset,
            sample_array_default,
        })
    }
}

} // verus!
