//! Typed events decoded from device reports, and the static layer-label table.

use vstd::prelude::*;

verus! {

/// One observed layer activation: the resolved label, the raw layer id, the
/// 32-bit state bitmask carried verbatim from the packet, and the
/// Unix-epoch-seconds timestamp assigned at decode time.
#[derive(Debug, Clone)]
pub struct LayerStatus {
    pub layer_name: String,
    pub layer_id: u8,
    pub layer_state: u32,
    pub timestamp: u64,
}

/// Mathematical model of a `LayerStatus`: the label as a character sequence,
/// the other fields as plain integers.
pub struct LayerStatusView {
    pub layer_name: Seq<char>,
    pub layer_id: u8,
    pub layer_state: u32,
    pub timestamp: u64,
}

impl View for LayerStatus {
    type V = LayerStatusView;

    open spec fn view(&self) -> LayerStatusView {
        LayerStatusView {
            layer_name: self.layer_name@,
            layer_id: self.layer_id,
            layer_state: self.layer_state,
            timestamp: self.timestamp,
        }
    }
}

/// A message sent to subscribers: a layer-status event, or one of the
/// auxiliary command kinds that carry only a timestamp.
#[derive(Debug, Clone)]
pub enum SocketMessage {
    LayerStatus(LayerStatus),
    FavoriteTrack { timestamp: u64 },
    WindowHints { timestamp: u64 },
}

/// Mathematical model of a `SocketMessage`.
pub enum SocketMessageView {
    LayerStatus(LayerStatusView),
    FavoriteTrack { timestamp: u64 },
    WindowHints { timestamp: u64 },
}

impl View for SocketMessage {
    type V = SocketMessageView;

    open spec fn view(&self) -> SocketMessageView {
        match self {
            SocketMessage::LayerStatus(s) => SocketMessageView::LayerStatus(s@),
            SocketMessage::FavoriteTrack { timestamp } => SocketMessageView::FavoriteTrack {
                timestamp: *timestamp,
            },
            SocketMessage::WindowHints { timestamp } => SocketMessageView::WindowHints {
                timestamp: *timestamp,
            },
        }
    }
}

/// Label of a layer id: ids 0 through 5 have fixed labels, every other byte
/// value maps to the fixed unknown label. Total over all byte values.
pub open spec fn spec_layer_name(id: u8) -> Seq<char> {
    if id == 0 {
        "BASE"@
    } else if id == 1 {
        "SYMBOLS"@
    } else if id == 2 {
        "NUMBERS"@
    } else if id == 3 {
        "SCROLL"@
    } else if id == 4 {
        "MOUSE"@
    } else if id == 5 {
        "MEDIA"@
    } else {
        "UNKNOWN"@
    }
}

/// Resolves a layer id to its human-readable label.
pub fn layer_name(id: u8) -> (r: &'static str)
    ensures
        r@ == spec_layer_name(id),
{
    match id {
        0 => "BASE",
        1 => "SYMBOLS",
        2 => "NUMBERS",
        3 => "SCROLL",
        4 => "MOUSE",
        5 => "MEDIA",
        _ => "UNKNOWN",
    }
}

/// Law: label resolution is total and deterministic. Each id in 0..=5 maps to
/// its fixed label; every other byte value maps to the fixed unknown label —
/// resolution never fails.
pub proof fn lemma_layer_name_total(id: u8)
    ensures
        id == 0 ==> spec_layer_name(id) == "BASE"@,
        id == 1 ==> spec_layer_name(id) == "SYMBOLS"@,
        id == 2 ==> spec_layer_name(id) == "NUMBERS"@,
        id == 3 ==> spec_layer_name(id) == "SCROLL"@,
        id == 4 ==> spec_layer_name(id) == "MOUSE"@,
        id == 5 ==> spec_layer_name(id) == "MEDIA"@,
        id > 5 ==> spec_layer_name(id) == "UNKNOWN"@,
{
}

} // verus!
