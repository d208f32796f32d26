//! The wire encoding: each message is one JSON object, sent to subscribers as
//! a single newline-terminated UTF-8 line.

use crate::message::{LayerStatusView, SocketMessage, SocketMessageView};
use vstd::prelude::*;

verus! {

/// The character for one decimal digit value.
pub open spec fn spec_digit_char(d: nat) -> char {
    if d == 0 {
        '0'
    } else if d == 1 {
        '1'
    } else if d == 2 {
        '2'
    } else if d == 3 {
        '3'
    } else if d == 4 {
        '4'
    } else if d == 5 {
        '5'
    } else if d == 6 {
        '6'
    } else if d == 7 {
        '7'
    } else if d == 8 {
        '8'
    } else {
        '9'
    }
}

/// Decimal digits of `n`, most significant first, with no leading zeros
/// (the single digit `0` for zero).
pub open spec fn spec_decimal(n: nat) -> Seq<char>
    decreases n,
{
    if n < 10 {
        seq![spec_digit_char(n)]
    } else {
        spec_decimal(n / 10).push(spec_digit_char(n % 10))
    }
}

fn digit_str(d: u64) -> (r: &'static str)
    requires
        d < 10,
    ensures
        r@ =~= seq![spec_digit_char(d as nat)],
{
    proof {
        reveal_strlit("0");
        reveal_strlit("1");
        reveal_strlit("2");
        reveal_strlit("3");
        reveal_strlit("4");
        reveal_strlit("5");
        reveal_strlit("6");
        reveal_strlit("7");
        reveal_strlit("8");
        reveal_strlit("9");
    }
    match d {
        0 => "0",
        1 => "1",
        2 => "2",
        3 => "3",
        4 => "4",
        5 => "5",
        6 => "6",
        7 => "7",
        8 => "8",
        _ => "9",
    }
}

/// Renders `n` in decimal, most significant digit first.
pub fn u64_to_decimal(n: u64) -> (r: String)
    ensures
        r@ == spec_decimal(n as nat),
    decreases n,
{
    if n < 10 {
        String::from_str(digit_str(n))
    } else {
        let mut s = u64_to_decimal(n / 10);
        s.append(digit_str(n % 10));
        proof {
            assert(s@ =~= spec_decimal(n as nat));
        }
        s
    }
}

/// JSON text of a layer-status event, fields in fixed order.
pub open spec fn spec_serialize_layer(v: LayerStatusView) -> Seq<char> {
    "{\"action\":\"layer_status\",\"data\":{\"name\":\""@ + v.layer_name + "\",\"id\":"@
        + spec_decimal(v.layer_id as nat) + ",\"state\":"@ + spec_decimal(v.layer_state as nat)
        + ",\"timestamp\":"@ + spec_decimal(v.timestamp as nat) + "}}"@
}

/// JSON text of a message: a tagged object whose `action` field names the
/// variant and whose `data` field carries the payload.
pub open spec fn spec_serialize(m: SocketMessageView) -> Seq<char> {
    match m {
        SocketMessageView::LayerStatus(v) => spec_serialize_layer(v),
        SocketMessageView::FavoriteTrack { timestamp } => {
            "{\"action\":\"favorite_track\",\"data\":{\"timestamp\":"@ + spec_decimal(
                timestamp as nat,
            ) + "}}"@
        },
        SocketMessageView::WindowHints { timestamp } => {
            "{\"action\":\"window_hints\",\"data\":{\"timestamp\":"@ + spec_decimal(
                timestamp as nat,
            ) + "}}"@
        },
    }
}

/// Serializes a message to its JSON text. The label is embedded verbatim;
/// labels produced by the decoder are plain ASCII and need no escaping.
pub fn serialize_message(m: &SocketMessage) -> (r: String)
    ensures
        r@ == spec_serialize(m@),
{
    match m {
        SocketMessage::LayerStatus(v) => {
            let mut s = String::from_str("{\"action\":\"layer_status\",\"data\":{\"name\":\"");
            s.append(v.layer_name.as_str());
            s.append("\",\"id\":");
            let id_s = u64_to_decimal(v.layer_id as u64);
            s.append(id_s.as_str());
            s.append(",\"state\":");
            let state_s = u64_to_decimal(v.layer_state as u64);
            s.append(state_s.as_str());
            s.append(",\"timestamp\":");
            let ts_s = u64_to_decimal(v.timestamp);
            s.append(ts_s.as_str());
            s.append("}}");
            proof {
                assert(s@ =~= spec_serialize(m@));
            }
            s
        },
        SocketMessage::FavoriteTrack { timestamp } => {
            let mut s = String::from_str("{\"action\":\"favorite_track\",\"data\":{\"timestamp\":");
            let ts_s = u64_to_decimal(*timestamp);
            s.append(ts_s.as_str());
            s.append("}}");
            proof {
                assert(s@ =~= spec_serialize(m@));
            }
            s
        },
        SocketMessage::WindowHints { timestamp } => {
            let mut s = String::from_str("{\"action\":\"window_hints\",\"data\":{\"timestamp\":");
            let ts_s = u64_to_decimal(*timestamp);
            s.append(ts_s.as_str());
            s.append("}}");
            proof {
                assert(s@ =~= spec_serialize(m@));
            }
            s
        },
    }
}

/// Serializes a message and appends the terminating newline: exactly what is
/// written to each subscriber for one broadcast.
pub fn wire_line(m: &SocketMessage) -> (r: String)
    ensures
        r@ == spec_serialize(m@) + "\n"@,
{
    let mut s = serialize_message(m);
    s.append("\n");
    s
}

} // verus!
