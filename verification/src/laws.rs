use vstd::prelude::*;

use crate::config::{ConfigError, DacConfig, SampleRateReading, config_check};
use crate::control::{ControlCommand, routed};
use crate::dac::{Dac, DacAction, DacCommand, DacEvent, cycle_sample, is_cycle, transition};

verus! {

/// The part of the DAC's state that a command writes: 0 to 5 for the
/// configuration fields, 6 for the running flag.
pub open spec fn target<F>(command: DacCommand<F>) -> int {
    match command {
        DacCommand::SetAmplitude(_) => 0,
        DacCommand::SetFrequency(_) => 1,
        DacCommand::SetPhaseOffset(_) => 2,
        DacCommand::SetDefaultSampleArray(_) => 3,
        DacCommand::SetSampleRate(_) => 4,
        DacCommand::SetSampleCount(_) => 5,
        DacCommand::Start => 6,
        DacCommand::Stop => 6,
    }
}

/// The state after two commands, one after the other.
pub open spec fn after_two<F>(dac: Dac<F>, first: DacCommand<F>, second: DacCommand<F>) -> Dac<F> {
    transition(transition(dac, DacEvent::Command(first)).0, DacEvent::Command(second)).0
}

/// Of two commands that write the same part of the state, the later one
/// wins: the earlier leaves no trace.
pub proof fn later_command_wins<F>(dac: Dac<F>, first: DacCommand<F>, second: DacCommand<F>)
    requires
        target(first) == target(second),
    ensures
        after_two(dac, first, second) == transition(dac, DacEvent::Command(second)).0,
{
}

/// Commands that write different parts of the state give the same state in
/// either order.
pub proof fn distinct_commands_commute<F>(dac: Dac<F>, first: DacCommand<F>, second: DacCommand<F>)
    requires
        target(first) != target(second),
    ensures
        after_two(dac, first, second) == after_two(dac, second, first),
{
}

/// Starting and then stopping the DAC leaves it as it was, but stopped.
pub proof fn start_then_stop_stops<F>(dac: Dac<F>)
    ensures
        after_two(dac, DacCommand::Start, DacCommand::Stop) == (Dac { running: false, ..dac }),
{
}

/// A timer tick changes nothing, and emits samples after `Start` and none
/// after `Stop`, whatever came before.
pub proof fn ticks_follow_start_and_stop<F>(dac: Dac<F>)
    ensures
        transition(dac, DacEvent::Tick).0 == dac,
        transition(transition(dac, DacEvent::Command(DacCommand::Start)).0, DacEvent::Tick).1
            == DacAction::EmitSamples,
        transition(transition(dac, DacEvent::Command(DacCommand::Stop)).0, DacEvent::Tick).1
            == DacAction::Idle,
{
}

/// Each setting command writes its value, unchanged, into its own field of
/// the configuration and nothing else, leaves the running flag as it was, and
/// asks for nothing more, whatever the DAC's state.
pub proof fn settings_write_their_value<F>(dac: Dac<F>, amplitude: F, frequency: F, phase_offset: F, envelope: Vec<F>, sample_count: usize)
    ensures
        transition(dac, DacEvent::Command(DacCommand::SetAmplitude(amplitude)))
            == (Dac { config: DacConfig { amplitude, ..dac.config }, ..dac }, DacAction::Idle),
        transition(dac, DacEvent::Command(DacCommand::SetFrequency(frequency)))
            == (Dac { config: DacConfig { frequency, ..dac.config }, ..dac }, DacAction::Idle),
        transition(dac, DacEvent::Command(DacCommand::SetPhaseOffset(phase_offset)))
            == (Dac { config: DacConfig { phase_offset, ..dac.config }, ..dac }, DacAction::Idle),
        transition(dac, DacEvent::Command(DacCommand::SetDefaultSampleArray(envelope)))
            == (Dac { config: DacConfig { sample_array_default: Some(envelope), ..dac.config }, ..dac }, DacAction::Idle),
        transition(dac, DacEvent::Command(DacCommand::SetSampleCount(sample_count)))
            == (Dac { config: DacConfig { sample_count, ..dac.config }, ..dac }, DacAction::Idle),
        transition(dac, DacEvent::Command(DacCommand::SetSampleCount(sample_count))).0.config.sample_count
            == sample_count,
{
}

/// A new sample rate is stored as given and always asks for the sample timer
/// to be restarted, whether the DAC is running or not; nothing else changes.
pub proof fn sample_rate_retunes_timer<F>(dac: Dac<F>, sample_rate: F)
    ensures
        transition(dac, DacEvent::Command(DacCommand::SetSampleRate(sample_rate))).1 == DacAction::RetuneTimer,
        transition(dac, DacEvent::Command(DacCommand::SetSampleRate(sample_rate))).0
            == (Dac { config: DacConfig { sample_rate, ..dac.config }, ..dac }),
{
}

/// `Start` makes the DAC run and `Stop` halts it, the configuration staying
/// as it was and no further action asked.
pub proof fn start_and_stop_set_running<F>(dac: Dac<F>)
    ensures
        transition(dac, DacEvent::Command(DacCommand::Start)) == (Dac { running: true, ..dac }, DacAction::Idle),
        transition(dac, DacEvent::Command(DacCommand::Stop)) == (Dac { running: false, ..dac }, DacAction::Idle),
{
}

/// Every command that the DAC handles passes on with its value unchanged:
/// start, stop, amplitude, frequency, sampling rate (as the sample rate) and
/// sampling count (as the sample count); range and tolerance commands pass on
/// nothing.
pub proof fn routing_keeps_values<F>(amplitude: F, frequency: F, sample_rate: F, sample_count: usize, low: F, high: F)
    ensures
        routed(ControlCommand::<F>::Start) == Some(DacCommand::<F>::Start),
        routed(ControlCommand::<F>::Stop) == Some(DacCommand::<F>::Stop),
        routed(ControlCommand::SetAmplitude(amplitude)) == Some(DacCommand::SetAmplitude(amplitude)),
        routed(ControlCommand::SetFrequency(frequency)) == Some(DacCommand::SetFrequency(frequency)),
        routed(ControlCommand::SetSamplingRate(sample_rate)) == Some(DacCommand::SetSampleRate(sample_rate)),
        routed(ControlCommand::<F>::SetSamplingCount(sample_count))
            == Some(DacCommand::<F>::SetSampleCount(sample_count)),
        routed(ControlCommand::SetAmplitudeRange(low, high)) is None,
        routed(ControlCommand::SetFrequencyRange(low, high)) is None,
        routed(ControlCommand::SetDeviationTolerance(low)) is None,
        routed(ControlCommand::SetDeviationToleranceRange(low, high)) is None,
{
}

/// A timer tick never changes the DAC, and asks for samples exactly when the
/// DAC is running.
pub proof fn tick_emits_exactly_while_running<F>(dac: Dac<F>)
    ensures
        transition(dac, DacEvent::Tick).0 == dac,
        dac.running ==> transition(dac, DacEvent::Tick).1 == DacAction::EmitSamples,
        !dac.running ==> transition(dac, DacEvent::Tick).1 == DacAction::Idle,
{
}

/// Each refusal of a configuration comes on exactly the inputs where its check
/// is the first to fail: no samples; else a rate below one; else more samples
/// than the rate's whole part; else an envelope of another length.
pub proof fn refusals_name_the_first_failed_check(sample_count: nat, rate: SampleRateReading, default_len: Option<nat>)
    ensures
        config_check(sample_count, rate, default_len) == Err::<(), ConfigError>(ConfigError::SampleCountZero)
            <==> sample_count == 0,
        config_check(sample_count, rate, default_len) == Err::<(), ConfigError>(ConfigError::SampleRateBelowOne)
            <==> sample_count >= 1 && rate.below_one,
        config_check(sample_count, rate, default_len) == Err::<(), ConfigError>(ConfigError::SampleCountExceedsRate)
            <==> sample_count >= 1 && !rate.below_one && sample_count > rate.whole,
        config_check(sample_count, rate, default_len)
            == Err::<(), ConfigError>(ConfigError::DefaultArrayLengthMismatch) <==> {
            &&& sample_count >= 1
            &&& !rate.below_one
            &&& sample_count <= rate.whole
            &&& default_len matches Some(n) && n != sample_count
        },
        config_check(sample_count, rate, default_len) is Ok <==> {
            &&& sample_count >= 1
            &&& !rate.below_one
            &&& sample_count <= rate.whole
            &&& (default_len matches Some(n) ==> n == sample_count)
        },
{
}

/// In a cycle, the `i`-th sample is one that the envelope closure gives for
/// the envelope and `i` when the configuration has an envelope, and one that
/// the wave closure gives for `i` when it has none; there are exactly
/// `sample_count` samples.
pub proof fn cycle_samples_come_from_the_selected_closure<F, W: Fn(usize) -> F, E: Fn(&Vec<F>, usize) -> F>(
    config: DacConfig<F>,
    wave_at: W,
    enveloped_at: E,
    samples: Seq<F>,
    i: usize,
)
    requires
        is_cycle(config, wave_at, enveloped_at, samples),
        i < config.sample_count,
    ensures
        samples.len() == config.sample_count,
        config.sample_array_default is None ==> call_ensures(wave_at, (i,), samples[i as int]),
        config.sample_array_default matches Some(envelope) ==> call_ensures(enveloped_at, (&envelope, i), samples[i as int]),
{
    assert(cycle_sample(config, wave_at, enveloped_at, (i as int) as usize, samples[i as int]));
}

/// A wave closure that gives at most one value for each index.
pub open spec fn wave_is_deterministic<F, W: Fn(usize) -> F>(wave_at: W) -> bool {
    forall|i: usize, a: F, b: F|
        #![trigger call_ensures(wave_at, (i,), a), call_ensures(wave_at, (i,), b)]
        call_ensures(wave_at, (i,), a) && call_ensures(wave_at, (i,), b) ==> a == b
}

/// An envelope closure that gives at most one value for each envelope and
/// index.
pub open spec fn envelope_is_deterministic<F, E: Fn(&Vec<F>, usize) -> F>(enveloped_at: E) -> bool {
    forall|v: Vec<F>, i: usize, a: F, b: F|
        #![trigger call_ensures(enveloped_at, (&v, i), a), call_ensures(enveloped_at, (&v, i), b)]
        call_ensures(enveloped_at, (&v, i), a) && call_ensures(enveloped_at, (&v, i), b) ==> a == b
}

/// A cycle of samples depends on the configuration alone: with closures that
/// give one value per input, any two cycles for the same configuration are
/// equal, whatever DAC state they were generated in.
pub proof fn cycle_determined_by_config<F, W: Fn(usize) -> F, E: Fn(&Vec<F>, usize) -> F>(
    config: DacConfig<F>,
    wave_at: W,
    enveloped_at: E,
    first: Seq<F>,
    second: Seq<F>,
)
    requires
        wave_is_deterministic(wave_at),
        envelope_is_deterministic(enveloped_at),
        is_cycle(config, wave_at, enveloped_at, first),
        is_cycle(config, wave_at, enveloped_at, second),
    ensures
        first == second,
{
    assert forall|i: int| 0 <= i < first.len() implies first[i] == second[i] by {
        assert(cycle_sample(config, wave_at, enveloped_at, i as usize, first[i]));
        assert(cycle_sample(config, wave_at, enveloped_at, i as usize, second[i]));
    }
    assert(first =~= second);
}

} // verus!
