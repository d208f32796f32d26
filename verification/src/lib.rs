//! Monitors a QMK keyboard's raw HID interface for layer-status reports and
//! republishes them as newline-delimited JSON events to local subscribers.
//!
//! The verified core covers the report decoder with its deduplication cursor,
//! the static layer-label table, the JSON wire encoding, the subscriber
//! bookkeeping of the broadcast channel, and the reconnect state machine of
//! the monitor loop. Device and socket I/O live outside the library and drive
//! it through plain values.

pub mod channel;
pub mod decode;
pub mod message;
pub mod monitor;
pub mod wire;

use vstd::prelude::*;

verus! {

/// Fixed size in bytes of every raw report packet read from the device.
pub const PACKET_SIZE: usize = 32;

} // verus!
