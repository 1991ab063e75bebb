# laser_controller

Control logic of a laser DAC, verified with Verus.

- `src/config.rs`: the DAC configuration and the checks a new one must pass.
- `src/dac.rs`: the DAC task as a state machine (commands and timer ticks in,
  actions out), the sample period for a rate, and the per-cycle sample loop.
- `src/control.rs`: how user commands become DAC commands.
- `src/laws.rs`: properties of the state machine over sequences of commands.
- `app/`: the tokio tasks, logging and the float waveform arithmetic, which
  call the library for every decision.

Sample values are a type parameter in the library; the program uses `f32`.
