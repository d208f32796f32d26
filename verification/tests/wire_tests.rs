use qmk_layer_monitor::message::{LayerStatus, SocketMessage};
use qmk_layer_monitor::wire::{serialize_message, u64_to_decimal, wire_line};

#[test]
fn decimal_rendering_is_exact() {
    assert_eq!(u64_to_decimal(0), "0");
    assert_eq!(u64_to_decimal(7), "7");
    assert_eq!(u64_to_decimal(10), "10");
    assert_eq!(u64_to_decimal(1700000000), "1700000000");
    assert_eq!(u64_to_decimal(u64::MAX), "18446744073709551615");
}

#[test]
fn layer_status_serializes_to_exact_json() {
    let m = SocketMessage::LayerStatus(LayerStatus {
        layer_name: "SYMBOLS".to_string(),
        layer_id: 1,
        layer_state: 0,
        timestamp: 1700000000,
    });
    assert_eq!(
        serialize_message(&m),
        "{\"action\":\"layer_status\",\"data\":{\"name\":\"SYMBOLS\",\"id\":1,\"state\":0,\"timestamp\":1700000000}}"
    );
}

#[test]
fn favorite_track_serializes_to_exact_json() {
    let m = SocketMessage::FavoriteTrack { timestamp: 42 };
    assert_eq!(
        serialize_message(&m),
        "{\"action\":\"favorite_track\",\"data\":{\"timestamp\":42}}"
    );
}

#[test]
fn window_hints_serializes_to_exact_json() {
    let m = SocketMessage::WindowHints { timestamp: 43 };
    assert_eq!(
        serialize_message(&m),
        "{\"action\":\"window_hints\",\"data\":{\"timestamp\":43}}"
    );
}

#[test]
fn wire_line_is_json_plus_newline() {
    let m = SocketMessage::FavoriteTrack { timestamp: 1 };
    let line = wire_line(&m);
    assert!(line.ends_with('\n'));
    assert_eq!(line.trim_end_matches('\n'), serialize_message(&m));
}

#[test]
fn layer_event_round_trips_through_json() {
    let m = SocketMessage::LayerStatus(LayerStatus {
        layer_name: "SYMBOLS".to_string(),
        layer_id: 1,
        layer_state: 0,
        timestamp: 1700000000,
    });
    let text = serialize_message(&m);
    let v: serde_json::Value = serde_json::from_str(&text).expect("valid JSON");
    assert_eq!(v["action"].as_str(), Some("layer_status"));
    let data = &v["data"];
    assert_eq!(data["name"].as_str(), Some("SYMBOLS"));
    assert_eq!(data["id"].as_u64(), Some(1));
    assert_eq!(data["state"].as_u64(), Some(0));
    assert_eq!(data["timestamp"].as_u64(), Some(1700000000));
}
