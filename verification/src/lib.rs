//! Control logic of a laser DAC: configuration checks, the command handling
//! state machine of the DAC task, and the routing of user commands to it.

mod config;
mod control;
mod dac;
pub mod laws;

pub use config::{ConfigError, DacConfig, SampleRateReading};
pub use control::{ControlCommand, dac_command_for};
pub use dac::{Dac, DacAction, DacCommand, DacEvent, generate_samples, sample_interval_nanos};
