use vstd::prelude::*;

use crate::config::DacConfig;

verus! {

/// A command to the DAC task. `F` is the sample type.
#[derive(Clone, Debug)]
pub enum DacCommand<F> {
    SetAmplitude(F),
    SetFrequency(F),
    SetPhaseOffset(F),
    SetDefaultSampleArray(Vec<F>),
    SetSampleRate(F),
    SetSampleCount(usize),
    Start,
    Stop,
}

/// What the DAC task reacts to: a command, or a tick of its sample timer.
#[derive(Clone, Debug)]
pub enum DacEvent<F> {
    Command(DacCommand<F>),
    Tick,
}

/// What the DAC task does after an event.
#[derive(Clone, Copy, Debug, PartialEq, Eq, Structural)]
pub enum DacAction {
    /// Nothing beyond the state change.
    Idle,
    /// Restart the sample timer for the new sample rate.
    RetuneTimer,
    /// Generate one cycle of samples from the configuration and send it.
    EmitSamples,
}

/// The state of the DAC task: its configuration and whether it is running.
#[derive(Clone, Debug)]
pub struct Dac<F> {
    pub config: DacConfig<F>,
    pub running: bool,
}

/// The configuration after a command: the field that the command names takes
/// the command's value; every other field stays.
pub open spec fn configured<F>(config: DacConfig<F>, command: DacCommand<F>) -> DacConfig<F> {
    match command {
        DacCommand::SetAmplitude(a) => DacConfig { amplitude: a, ..config },
        DacCommand::SetFrequency(f) => DacConfig { frequency: f, ..config },
        DacCommand::SetPhaseOffset(p) => DacConfig { phase_offset: p, ..config },
        DacCommand::SetDefaultSampleArray(s) => DacConfig { sample_array_default: Some(s), ..config },
        DacCommand::SetSampleRate(r) => DacConfig { sample_rate: r, ..config },
        DacCommand::SetSampleCount(n) => DacConfig { sample_count: n, ..config },
        DacCommand::Start => config,
        DacCommand::Stop => config,
    }
}

/// One step of the DAC task. A command updates the configuration or the
/// running flag (`Start` sets it, `Stop` clears it) and asks for a new timer
/// when the sample rate changed; a tick changes nothing and emits samples
/// exactly when the DAC is running.
pub open spec fn transition<F>(dac: Dac<F>, event: DacEvent<F>) -> (Dac<F>, DacAction) {
    match event {
        DacEvent::Tick => (dac, if dac.running { DacAction::EmitSamples } else { DacAction::Idle }),
        DacEvent::Command(command) => {
            let running = match command {
                DacCommand::Start => true,
                DacCommand::Stop => false,
                _ => dac.running,
            };
            let action = match command {
                DacCommand::SetSampleRate(_) => DacAction::RetuneTimer,
                _ => DacAction::Idle,
            };
            (Dac { config: configured(dac.config, command), running }, action)
        },
    }
}

impl<F> Dac<F> {
    /// A DAC that is not running, with the given configuration.
    pub fn new(config: DacConfig<F>) -> (dac: Dac<F>)
        ensures
            dac.config == config,
            !dac.running,
    {
        Dac { config, running: false }
    }

    /// Handles one event, as `transition` says, and returns what is to be done.
    pub fn step(&mut self, event: DacEvent<F>) -> (action: DacAction)
        ensures
            (*final(self), action) == transition(*old(self), event),
    {
        match event {
            DacEvent::Tick => {
                if self.running {
                    DacAction::EmitSamples
                } else {
                    DacAction::Idle
                }
            },
            DacEvent::Command(command) => match command {
                DacCommand::SetAmplitude(a) => {
                    self.config.amplitude = a;
                    DacAction::Idle
                },
                DacCommand::SetFrequency(f) => {
                    self.config.frequency = f;
                    DacAction::Idle
                },
                DacCommand::SetPhaseOffset(p) => {
                    self.config.phase_offset = p;
                    DacAction::Idle
                },
                DacCommand::SetDefaultSampleArray(s) => {
                    self.config.sample_array_default = Some(s);
                    DacAction::Idle
                },
                DacCommand::SetSampleRate(r) => {
                    self.config.sample_rate = r;
                    DacAction::RetuneTimer
                },
                DacCommand::SetSampleCount(n) => {
                    self.config.sample_count = n;
                    DacAction::Idle
                },
                DacCommand::Start => {
                    self.running = true;
                    DacAction::Idle
                },
                DacCommand::Stop => {
                    self.running = false;
                    DacAction::Idle
                },
            },
        }
    }
}

/// The period of one sample, in nanoseconds, at `sample_rate` samples per
/// second (the whole part of the rate).
pub fn sample_interval_nanos(sample_rate: u64) -> (nanos: u64)
    requires
        sample_rate >= 1,
    ensures
        nanos == 1_000_000_000int / (sample_rate as int),
{
    1_000_000_000 / sample_rate
}

/// Whether `wave_at` and `enveloped_at` may be called for every sample of a
/// cycle: the envelope closure, with the envelope, when the configuration has
/// one; the plain wave closure otherwise.
pub open spec fn cycle_callable<F, W: Fn(usize) -> F, E: Fn(&Vec<F>, usize) -> F>(
    config: DacConfig<F>,
    wave_at: W,
    enveloped_at: E,
) -> bool {
    forall|i: usize| i < config.sample_count ==> #[trigger] sample_callable(config, wave_at, enveloped_at, i)
}

/// Whether the closure that gives the `i`-th sample of a cycle may be called
/// for it.
pub open spec fn sample_callable<F, W: Fn(usize) -> F, E: Fn(&Vec<F>, usize) -> F>(
    config: DacConfig<F>,
    wave_at: W,
    enveloped_at: E,
    i: usize,
) -> bool {
    match config.sample_array_default {
        Some(envelope) => call_requires(enveloped_at, (&envelope, i)),
        None => call_requires(wave_at, (i,)),
    }
}

/// What the `i`-th sample of a cycle may be: with an envelope in the
/// configuration, a value that `enveloped_at` gives for the envelope and `i`;
/// without one, a value that `wave_at` gives for `i`.
pub open spec fn cycle_sample<F, W: Fn(usize) -> F, E: Fn(&Vec<F>, usize) -> F>(
    config: DacConfig<F>,
    wave_at: W,
    enveloped_at: E,
    i: usize,
    sample: F,
) -> bool {
    match config.sample_array_default {
        Some(envelope) => call_ensures(enveloped_at, (&envelope, i), sample),
        None => call_ensures(wave_at, (i,), sample),
    }
}

/// A cycle of samples for `config`: `sample_count` of them, each as
/// `cycle_sample` says for its index.
pub open spec fn is_cycle<F, W: Fn(usize) -> F, E: Fn(&Vec<F>, usize) -> F>(
    config: DacConfig<F>,
    wave_at: W,
    enveloped_at: E,
    samples: Seq<F>,
) -> bool {
    &&& samples.len() == config.sample_count
    &&& forall|i: int|
        0 <= i < samples.len() ==> cycle_sample(config, wave_at, enveloped_at, i as usize, #[trigger] samples[i])
}

/// One cycle of samples: `config.sample_count` of them, in index order. The
/// `i`-th comes from `enveloped_at`, given the envelope and `i`, when the
/// configuration has an envelope (`sample_array_default`), and from `wave_at`,
/// given `i`, when it has none.
pub fn generate_samples<F, W: Fn(usize) -> F, E: Fn(&Vec<F>, usize) -> F>(
    config: &DacConfig<F>,
    wave_at: W,
    enveloped_at: E,
) -> (samples: Vec<F>)
    requires
        cycle_callable(*config, wave_at, enveloped_at),
    ensures
        is_cycle(*config, wave_at, enveloped_at, samples@),
{
    let count = config.sample_count;
    let mut samples: Vec<F> = Vec::new();
    let mut i: usize = 0;
    while i < count
        invariant
            i <= count,
            count == config.sample_count,
            samples@.len() == i,
            cycle_callable(*config, wave_at, enveloped_at),
            forall|j: int|
                0 <= j < i ==> cycle_sample(*config, wave_at, enveloped_at, j as usize, #[trigger] samples@[j]),
        decreases count - i,
    {
        assert(sample_callable(*config, wave_at, enveloped_at, i));
        let sample = match &config.sample_array_default {
            Some(envelope) => enveloped_at(envelope, i),
            None => wave_at(i),
        };
        samples.push(sample);
        i = i + 1;
    }
    samples
}

} // verus!
