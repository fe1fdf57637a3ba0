# panasonic_ac

A library for controlling Panasonic heat pumps and air conditioners over
infrared, written in Verus. Its functions are proved against their contracts;
the calls into the standard library and `bitvec` stand behind a few trusted
wrappers whose contracts restate what those functions document. The mock
hardware keeps its history behind shared locks, so its contracts leave open
which history a getter returns.

## Layout

- `src/` — the verified library.
  - `state.rs` — the 27-byte state frame of the Panasonic protocol and the
    32-bit AC32 state: every setting, the clock and timers, model detection,
    checksums; the round-trip laws of the setters and getters.
  - `device.rs` — the devices (`PanasonicAc`, `PanasonicAc32`) around a send
    function, change sets and builders.
  - `encoder.rs` — IR timings: encoding, decoding and their round trip.
  - `utils/` — time and text helpers, and the standard device interface.
  - `cli.rs` — what the command-line controller reads and writes: names of
    models and settings, the command sequence, preset files.
  - `mock.rs`, `hardware.rs` — mock IR hardware for tests, the hardware traits
    and the decisions of the signal capture.
- `tests/` — the tests, run against the compiled library.
- `app/` — the command-line controller for a Raspberry Pi: argument parsing,
  logging, files and the GPIO pins.

Laws stated and proved in the library are the public proof functions whose
names start with `law_`.
