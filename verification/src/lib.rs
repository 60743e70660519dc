//! A Morse-code key decoder.
//!
//! One physical push button is polled together with a monotonic millisecond
//! clock.  Press durations classify as dots and dashes, idle gaps group the
//! symbols into characters and words, and a fixed table resolves each
//! six-slot symbol pattern to a printable character.

pub mod decoder;
pub mod machine;
