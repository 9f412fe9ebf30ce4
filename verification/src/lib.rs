//! Audio endpoint state and live change notifications.
//!
//! The crate models the operating system's audio-endpoint surface: a table of
//! endpoints with their direction and state, filtered collection snapshots,
//! default-device lookup, per-device volume control, and callback sinks that
//! forward typed change events into bounded FIFO channels. All decision logic
//! is verified; the platform calls that feed it live data sit outside this
//! crate and hand it plain values.

#![verifier::loop_isolation(false)]

pub mod channel;
pub mod collection;
pub mod comapi;
pub mod device;
pub mod enums;
pub mod errors;
pub mod guard;
pub mod queue;
