# letsnote_wheelpad

Circular scrolling for a Synaptics touchpad, in the manner of Panasonic's
WheelPad: a finger drawing slow circles on the outer ring of the pad scrolls
the wheel. This crate is the verified core of the daemon.

- `src/detector.rs` – pad geometry: the radial gate (outer ring), the
  horizontal wedge test and the engagement threshold (a sweep of more than
  pi/12 around the centre), all decided in exact integer arithmetic, plus the
  dead band that filters jitter before the chord-angle integrator.
- `src/fsm.rs` – the gesture state machine (Idle, Contact, Moving, Scrolling,
  Debounce) and the wheel events it emits.
- `src/detector_log.rs` – the wrapper through which the state machine drives
  the chord-angle detector; it records every call and answer, so the
  machine's contract states exactly what it asked of the detector.
- `src/evdev.rs` – decoding of multi-touch evdev events into one frame per
  SYN_REPORT, capability checks and device lookup by name.
- `src/pattern.rs` – device-name patterns, matched with the `regex` crate.
- `src/config.rs` – the `[scroll]` settings and their defaults.
- `app/` – the daemon side: evdev device I/O, the error type it reports, and
  the floating-point chord-angle integrator the state machine drives.
