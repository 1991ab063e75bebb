use laser_controller::{dac_command_for, ControlCommand, DacCommand};

fn routed(c: ControlCommand<f32>) -> Option<DacCommand<f32>> {
    dac_command_for(c)
}

#[test]
fn handled_commands_pass_on_with_their_values() {
    assert!(matches!(routed(ControlCommand::Start), Some(DacCommand::Start)));
    assert!(matches!(routed(ControlCommand::Stop), Some(DacCommand::Stop)));
    assert!(matches!(routed(ControlCommand::SetAmplitude(2.5)), Some(DacCommand::SetAmplitude(a)) if a == 2.5));
    assert!(matches!(routed(ControlCommand::SetFrequency(1500.0)), Some(DacCommand::SetFrequency(f)) if f == 1500.0));
    assert!(matches!(
        routed(ControlCommand::SetSamplingRate(1_000_000.0)),
        Some(DacCommand::SetSampleRate(r)) if r == 1_000_000.0
    ));
    assert!(matches!(routed(ControlCommand::SetSamplingCount(42)), Some(DacCommand::SetSampleCount(42))));
}

#[test]
fn range_and_tolerance_commands_are_not_handled() {
    assert!(routed(ControlCommand::SetAmplitudeRange(0.0, 1.0)).is_none());
    assert!(routed(ControlCommand::SetFrequencyRange(10.0, 20.0)).is_none());
    assert!(routed(ControlCommand::SetDeviationTolerance(0.1)).is_none());
    assert!(routed(ControlCommand::SetDeviationToleranceRange(0.1, 0.2)).is_none());
}
