//! The monitor's reconnect/poll/dispatch state machine.
//!
//! The monitor decides, from its state and the current time, what the caller
//! should do next (attempt a connect, wait out the retry interval, or poll
//! the device), and folds the outcome of each connect attempt and each
//! bounded read back into its state. The caller performs the actual device
//! I/O and hands the results in as plain values.

use crate::decode::{decode_packet, opt_msg_view, spec_decode};
use crate::message::SocketMessage;
use vstd::prelude::*;

verus! {

/// Vendor id of the target device.
pub const VENDOR_ID: u16 = 0x5957;

/// Product id of the target device.
pub const PRODUCT_ID: u16 = 0x0400;

/// Usage page of the device's raw HID interface.
pub const USAGE_PAGE: u16 = 0xFF60;

/// Usage of the device's raw HID interface.
pub const USAGE: u16 = 0x61;

/// Minimum time between two connect attempts, in milliseconds.
pub const RETRY_INTERVAL_MS: u64 = 3000;

/// How long to sleep while waiting out the retry interval, in milliseconds.
pub const IDLE_SLEEP_MS: u64 = 100;

/// Bounded-wait timeout of one device read, in milliseconds.
pub const READ_TIMEOUT_MS: u64 = 100;

/// Fixed sleep at the end of every loop iteration, in milliseconds.
pub const LOOP_SLEEP_MS: u64 = 10;

/// Whether an enumerated HID interface is the device's raw interface: all
/// four identity fields must match the static device identity.
pub fn is_target_interface(vendor_id: u16, product_id: u16, usage_page: u16, usage: u16) -> (r:
    bool)
    ensures
        r == (vendor_id == VENDOR_ID && product_id == PRODUCT_ID && usage_page == USAGE_PAGE
            && usage == USAGE),
{
    vendor_id == VENDOR_ID && product_id == PRODUCT_ID && usage_page == USAGE_PAGE && usage
        == USAGE
}

/// The monitor's view of the device link. `Disconnected` records when the
/// last connect attempt was made (milliseconds on a monotonic clock).
#[derive(Clone, Copy, Debug, PartialEq, Eq, Structural)]
pub enum ConnState {
    Disconnected { since_ms: u64 },
    Connected,
}

/// What the caller should do in the current iteration.
#[derive(Clone, Copy, Debug, PartialEq, Eq, Structural)]
pub enum MonitorCommand {
    /// Attempt to connect to the device now.
    AttemptConnect,
    /// The retry interval has not elapsed: sleep `IDLE_SLEEP_MS` and ask again.
    WaitRetry,
    /// Perform one bounded read on the open device handle.
    PollDevice,
}

/// The command for a given link state and current time: poll while connected;
/// otherwise attempt a connect only once more than the retry interval has
/// passed since the last attempt.
pub open spec fn spec_next_command(state: ConnState, now_ms: u64) -> MonitorCommand {
    match state {
        ConnState::Connected => MonitorCommand::PollDevice,
        ConnState::Disconnected { since_ms } => if now_ms > since_ms + RETRY_INTERVAL_MS {
            MonitorCommand::AttemptConnect
        } else {
            MonitorCommand::WaitRetry
        },
    }
}

/// The reconnect/poll state machine, with the deduplication cursor that
/// persists for the monitor's whole lifetime.
pub struct Monitor {
    /// Current link state.
    pub state: ConnState,
    /// Last layer id actually emitted; never reset.
    pub last_layer_id: Option<u8>,
}

impl Monitor {
    /// A monitor that starts disconnected at `start_ms`, with no layer
    /// emitted yet.
    pub fn new(start_ms: u64) -> (m: Monitor)
        ensures
            m.state == (ConnState::Disconnected { since_ms: start_ms }),
            m.last_layer_id is None,
    {
        Monitor { state: ConnState::Disconnected { since_ms: start_ms }, last_layer_id: None }
    }

    /// Decides what to do at time `now_ms`.
    pub fn next_command(&self, now_ms: u64) -> (c: MonitorCommand)
        ensures
            c == spec_next_command(self.state, now_ms),
    {
        match self.state {
            ConnState::Connected => MonitorCommand::PollDevice,
            ConnState::Disconnected { since_ms } => {
                if now_ms >= since_ms && now_ms - since_ms > RETRY_INTERVAL_MS {
                    MonitorCommand::AttemptConnect
                } else {
                    MonitorCommand::WaitRetry
                }
            },
        }
    }

    /// Folds in the outcome of a connect attempt made at `now_ms`: success
    /// connects, failure stays disconnected and restarts the retry clock.
    /// The deduplication cursor is untouched.
    pub fn on_connect_result(&mut self, success: bool, now_ms: u64)
        requires
            old(self).state is Disconnected,
        ensures
            success ==> final(self).state == ConnState::Connected,
            !success ==> final(self).state == (ConnState::Disconnected { since_ms: now_ms }),
            final(self).last_layer_id == old(self).last_layer_id,
    {
        if success {
            self.state = ConnState::Connected;
        } else {
            self.state = ConnState::Disconnected { since_ms: now_ms };
        }
    }

    /// Folds in one successful bounded read that returned `n` bytes into
    /// `buffer`. A full packet is decoded against the cursor and may emit an
    /// event; anything else (no data, or a partial packet) is a no-op. The
    /// link stays connected either way.
    pub fn on_read_ok(&mut self, buffer: &Vec<u8>, n: usize, now_s: u64) -> (ev: Option<
        SocketMessage,
    >)
        requires
            old(self).state is Connected,
        ensures
            final(self).state == ConnState::Connected,
            n == crate::PACKET_SIZE ==> opt_msg_view(ev) == spec_decode(
                buffer@,
                old(self).last_layer_id,
                now_s,
            ).0 && final(self).last_layer_id == spec_decode(
                buffer@,
                old(self).last_layer_id,
                now_s,
            ).1,
            n != crate::PACKET_SIZE ==> ev is None && *final(self) == *old(self),
    {
        if n == crate::PACKET_SIZE {
            let mut cursor = self.last_layer_id;
            let ev = decode_packet(buffer, &mut cursor, now_s);
            self.last_layer_id = cursor;
            ev
        } else {
            None
        }
    }

    /// Folds in a failed read at `now_ms`: the link is invalidated, the
    /// monitor goes back to `Disconnected` with the retry clock restarted.
    /// The deduplication cursor is untouched.
    pub fn on_read_error(&mut self, now_ms: u64)
        requires
            old(self).state is Connected,
        ensures
            final(self).state == (ConnState::Disconnected { since_ms: now_ms }),
            final(self).last_layer_id == old(self).last_layer_id,
    {
        self.state = ConnState::Disconnected { since_ms: now_ms };
    }
}

/// Law (reconnect scheduling): with the monitor disconnected since time `t` —
/// in particular right after a failed connect attempt at `t` — no new connect
/// attempt is commanded at any time up to `t` plus the retry interval.
pub proof fn lemma_retry_schedule(t: u64, now_ms: u64)
    requires
        now_ms <= t + RETRY_INTERVAL_MS,
    ensures
        spec_next_command(ConnState::Disconnected { since_ms: t }, now_ms)
            != MonitorCommand::AttemptConnect,
{
}

} // verus!
