# quietwatch

QuietWatch levels movie and TV audio so quiet dialogue and loud action sit at
one listening loudness.

- `src/` is the portable core, written in Verus and proved against its
  contracts: channel layouts and stream settings, interleaved frame
  arithmetic, device descriptions, the session and backend bookkeeping for
  the null, PipeWire, CoreAudio and WASAPI backends, the true-peak delay
  line, the command-line tool's argument handling and device report, and the
  laws in `src/laws.rs` that tie these operations together.
- `tests/` runs the library on concrete values.
- `app/` is the `quietwatch` command and everything that works on
  floating-point samples and levels (loudness, gain, gate, metering), plus the
  backend trait whose processing callback takes `f32` blocks.
