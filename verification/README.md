# nam_plug

Control logic of a CLAP plug-in that runs neural amp models, written in Rust and verified with
Verus.

The library decides; the audio engine and the host carry out. It covers

- the command channel between the main thread and the audio thread: coalescing, gapless sequence
  numbers, acknowledgments, deferral and supersession of structural commands;
- loading, clearing and restoring of models and impulse responses, and the rule that a change of
  latency waits for the host to restart the plug-in;
- activation, deactivation and the way back from an activation that failed;
- the start of an audio callback, sample-accurate parameter events, bypass crossfade, delay of the
  dry signal, ring-out of the cab-sim tail and what reaches the outputs;
- gestures of the GUI, status flags and their messages, and the housekeeping of the main thread.

Laws that hold across functions are stated as public proof functions whose names begin with
`law_`. Among them: no resource is lost or dropped on the audio thread, commands keep their order
and are acknowledged exactly, the published latency is that of the installed chain, dry and wet
signal stay aligned, and a restore lands as a whole.

## Layout

- `src/` is the verified library. `ring.rs` holds what is trusted of the `rtrb` crate, and
  `command_scheduler.rs` what is trusted of the clock.
- `tests/` runs it.
- `app/` is the plug-in around it: the host's interface, the audio engine and floating-point work.

The cells that the two threads share, the numbers of the command channel among them, are plain
values in the library, so that contracts can speak of them. `app/` mirrors them into atomics.

Samples and levels are bit patterns or a type parameter in the library; arithmetic on them belongs
to the engine.
