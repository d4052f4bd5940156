//! A verified core for a daemon that merges Nintendo Switch controllers
//! (left/right Joy-Cons and Pro Controllers) into single synthetic input
//! devices and forwards their events.
//!
//! The modules here hold the device-independent logic: identity filtering
//! for discovery, the button-chord pairing engine, synthetic-device
//! capability synthesis, indicator-channel name parsing, the per-tick
//! forwarding plan, the exclusive-capture policy, and the top-level mode
//! state machine. Device I/O itself (evdev reads, uinput writes, control
//! files) lives outside the library and hands plain values in and out.

pub mod events;
pub mod discovery;
pub mod pairing;
pub mod synth;
pub mod indicator;
pub mod forwarding;
pub mod exclusivity;
pub mod modes;
