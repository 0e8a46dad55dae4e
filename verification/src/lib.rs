//! Circular-scroll gesture logic for a touchpad "wheel pad": a finger drawing
//! slow circles on the outer ring of the pad scrolls, like Panasonic's
//! WheelPad. The crate holds the gesture state machine, the pad geometry
//! tests and the multi-touch event decoding; the device I/O and the
//! floating-point chord-angle integration live with the daemon around it.
pub mod config;
pub mod detector;
pub mod detector_log;
pub mod error;
pub mod evdev;
pub mod fsm;
pub mod pattern;
