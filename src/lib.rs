//! Core of a gesture daemon: it turns raw key and button events into
//! taps, long presses and two-key combos, supervises the device side
//! with an exponential backoff, and fans the gestures out to every
//! connected client.
//!
//! Time is carried as `u64` nanoseconds on a monotonic clock.

pub mod keys;
pub mod backoff;
pub mod classifier;
pub mod hub;
pub mod proto;
pub mod supervisor;
pub mod text_input;

pub use keys::{is_pointer, KeyAction, KeyCode, BTN_LEFT, BTN_RIGHT, KEY_SCROLLDOWN, KEY_SCROLLUP};
