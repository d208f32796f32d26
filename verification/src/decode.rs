//! The report decoder: interprets raw fixed-size packets into typed events,
//! enforcing the minimum-length rule and the deduplication cursor.

use crate::message::{spec_layer_name, layer_name, LayerStatus, LayerStatusView, SocketMessage,
    SocketMessageView};
use vstd::prelude::*;

verus! {

/// Command code of a layer-status report.
pub const CMD_LAYER_STATUS: u8 = 1;

/// Command code of a favorite-track report.
pub const CMD_FAVORITE_TRACK: u8 = 2;

/// Command code of a window-hints report.
pub const CMD_WINDOW_HINTS: u8 = 3;

/// The model of a decoded `Option<SocketMessage>`.
pub open spec fn opt_msg_view(ev: Option<SocketMessage>) -> Option<SocketMessageView> {
    match ev {
        Some(m) => Some(m@),
        None => None,
    }
}

/// What one packet decodes to: the emitted event, if any, and the cursor
/// after the packet. Byte 0 is the command code. For a layer-status packet,
/// byte 1 is the layer id and bytes 2 and 3 are the low little-endian bytes
/// of the state bitmask; a packet shorter than 4 bytes is ignored, as is one
/// whose layer id equals the cursor. Unrecognized command codes are ignored.
pub open spec fn spec_decode(p: Seq<u8>, cursor: Option<u8>, now: u64) -> (Option<
    SocketMessageView,
>, Option<u8>) {
    if p.len() == 0 {
        (None, cursor)
    } else if p[0] == CMD_LAYER_STATUS {
        if p.len() < 4 {
            (None, cursor)
        } else if cursor == Some(p[1]) {
            (None, cursor)
        } else {
            (
                Some(
                    SocketMessageView::LayerStatus(
                        LayerStatusView {
                            layer_name: spec_layer_name(p[1]),
                            layer_id: p[1],
                            layer_state: (p[2] + 256 * (p[3] as int)) as u32,
                            timestamp: now,
                        },
                    ),
                ),
                Some(p[1]),
            )
        }
    } else if p[0] == CMD_FAVORITE_TRACK {
        (Some(SocketMessageView::FavoriteTrack { timestamp: now }), cursor)
    } else if p[0] == CMD_WINDOW_HINTS {
        (Some(SocketMessageView::WindowHints { timestamp: now }), cursor)
    } else {
        (None, cursor)
    }
}

/// Decodes one raw packet against the deduplication cursor, stamping any
/// emitted event with `now_s` (Unix seconds). Updates the cursor exactly when
/// a layer-status event is emitted.
pub fn decode_packet(packet: &Vec<u8>, cursor: &mut Option<u8>, now_s: u64) -> (ev: Option<
    SocketMessage,
>)
    ensures
        opt_msg_view(ev) == spec_decode(packet@, *old(cursor), now_s).0,
        *final(cursor) == spec_decode(packet@, *old(cursor), now_s).1,
{
    if packet.len() == 0 {
        return None;
    }
    let cmd = packet[0];
    if cmd == CMD_LAYER_STATUS {
        if packet.len() < 4 {
            return None;
        }
        let id = packet[1];
        let duplicate = match *cursor {
            Some(last) => last == id,
            None => false,
        };
        if duplicate {
            return None;
        }
        let state: u32 = packet[2] as u32 + 256 * (packet[3] as u32);
        let status = LayerStatus {
            layer_name: String::from_str(layer_name(id)),
            layer_id: id,
            layer_state: state,
            timestamp: now_s,
        };
        *cursor = Some(id);
        Some(SocketMessage::LayerStatus(status))
    } else if cmd == CMD_FAVORITE_TRACK {
        Some(SocketMessage::FavoriteTrack { timestamp: now_s })
    } else if cmd == CMD_WINDOW_HINTS {
        Some(SocketMessage::WindowHints { timestamp: now_s })
    } else {
        None
    }
}

/// A packet that carries a complete layer-status report.
pub open spec fn layer_packet_ok(p: Seq<u8>) -> bool {
    p.len() >= 4 && p[0] == CMD_LAYER_STATUS
}

/// Law: a packet tagged layer-status but shorter than 4 bytes decodes to no
/// event and leaves the cursor unchanged.
pub proof fn lemma_short_layer_packet_ignored(p: Seq<u8>, cursor: Option<u8>, now: u64)
    requires
        0 < p.len() < 4,
        p[0] == CMD_LAYER_STATUS,
    ensures
        spec_decode(p, cursor, now).0 is None,
        spec_decode(p, cursor, now).1 == cursor,
{
}

/// Law (deduplication, first half): a layer-status packet whose id differs
/// from the cursor emits exactly one event, and a second packet with the same
/// id, fed right after, emits none and leaves the cursor as it was.
pub proof fn lemma_duplicate_suppressed(
    p: Seq<u8>,
    q: Seq<u8>,
    cursor: Option<u8>,
    t1: u64,
    t2: u64,
)
    requires
        layer_packet_ok(p),
        layer_packet_ok(q),
        q[1] == p[1],
        cursor != Some(p[1]),
    ensures
        spec_decode(p, cursor, t1).0 is Some,
        spec_decode(p, cursor, t1).1 == Some(p[1]),
        spec_decode(q, spec_decode(p, cursor, t1).1, t2).0 is None,
        spec_decode(q, spec_decode(p, cursor, t1).1, t2).1 == Some(p[1]),
{
}

/// Law (deduplication, second half): layer ids a, b, a with a != b yield
/// three events — there is no suppression across a different intervening id.
pub proof fn lemma_intervening_id_not_suppressed(
    pa: Seq<u8>,
    pb: Seq<u8>,
    cursor: Option<u8>,
    t1: u64,
    t2: u64,
    t3: u64,
)
    requires
        layer_packet_ok(pa),
        layer_packet_ok(pb),
        pa[1] != pb[1],
        cursor != Some(pa[1]),
    ensures
        spec_decode(pa, cursor, t1).0 is Some,
        spec_decode(pb, spec_decode(pa, cursor, t1).1, t2).0 is Some,
        spec_decode(
            pa,
            spec_decode(pb, spec_decode(pa, cursor, t1).1, t2).1,
            t3,
        ).0 is Some,
{
}

} // verus!
