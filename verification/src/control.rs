use vstd::prelude::*;

use crate::dac::DacCommand;

verus! {

/// A command of the user to the laser controller. `F` is the sample type.
#[derive(Clone, Debug)]
pub enum ControlCommand<F> {
    Start,
    Stop,
    SetAmplitude(F),
    SetAmplitudeRange(F, F),
    SetFrequency(F),
    SetFrequencyRange(F, F),
    SetDeviationTolerance(F),
    SetDeviationToleranceRange(F, F),
    SetSamplingRate(F),
    SetSamplingCount(usize),
}

/// The DAC command that a user command becomes: start, stop, amplitude,
/// frequency, sampling rate and sampling count pass on with their values; the
/// range and tolerance commands have none.
pub open spec fn routed<F>(command: ControlCommand<F>) -> Option<DacCommand<F>> {
    match command {
        ControlCommand::Start => Some(DacCommand::Start),
        ControlCommand::Stop => Some(DacCommand::Stop),
        ControlCommand::SetAmplitude(a) => Some(DacCommand::SetAmplitude(a)),
        ControlCommand::SetFrequency(f) => Some(DacCommand::SetFrequency(f)),
        ControlCommand::SetSamplingRate(r) => Some(DacCommand::SetSampleRate(r)),
        ControlCommand::SetSamplingCount(n) => Some(DacCommand::SetSampleCount(n)),
        ControlCommand::SetAmplitudeRange(_, _) => None,
        ControlCommand::SetFrequencyRange(_, _) => None,
        ControlCommand::SetDeviationTolerance(_) => None,
        ControlCommand::SetDeviationToleranceRange(_, _) => None,
    }
}

/// Translates a user command into the DAC command it stands for, or `None`
/// for a command that the DAC does not handle.
pub fn dac_command_for<F>(command: ControlCommand<F>) -> (routed_command: Option<DacCommand<F>>)
    ensures
        routed_command == routed(command),
{
    match command {
        ControlCommand::Start => Some(DacCommand::Start),
        ControlCommand::Stop => Some(DacCommand::Stop),
        ControlCommand::SetAmplitude(a) => Some(DacCommand::SetAmplitude(a)),
        ControlCommand::SetFrequency(f) => Some(DacCommand::SetFrequency(f)),
        ControlCommand::SetSamplingRate(r) => Some(DacCommand::SetSampleRate(r)),
        ControlCommand::SetSamplingCount(n) => Some(DacCommand::SetSampleCount(n)),
        ControlCommand::SetAmplitudeRange(_, _) => None,
        ControlCommand::SetFrequencyRange(_, _) => None,
        ControlCommand::SetDeviationTolerance(_) => None,
        ControlCommand::SetDeviationToleranceRange(_, _) => None,
    }
}

} // verus!
