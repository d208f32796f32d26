use qmk_layer_monitor::decode::decode_packet;
use qmk_layer_monitor::message::{layer_name, SocketMessage};

fn full_packet(cmd: u8, id: u8, lo: u8, hi: u8) -> Vec<u8> {
    let mut p = vec![0u8; 32];
    p[0] = cmd;
    p[1] = id;
    p[2] = lo;
    p[3] = hi;
    p
}

#[test]
fn short_layer_packet_produces_no_event() {
    let p = vec![1u8, 2u8, 0u8];
    let mut cursor: Option<u8> = None;
    let ev = decode_packet(&p, &mut cursor, 100);
    assert!(ev.is_none());
    assert_eq!(cursor, None);
}

#[test]
fn empty_packet_produces_no_event() {
    let p: Vec<u8> = Vec::new();
    let mut cursor: Option<u8> = Some(4);
    let ev = decode_packet(&p, &mut cursor, 100);
    assert!(ev.is_none());
    assert_eq!(cursor, Some(4));
}

#[test]
fn unrecognized_command_is_ignored() {
    let p = full_packet(9, 2, 0, 0);
    let mut cursor: Option<u8> = None;
    let ev = decode_packet(&p, &mut cursor, 100);
    assert!(ev.is_none());
    assert_eq!(cursor, None);
}

#[test]
fn layer_labels_are_total() {
    assert_eq!(layer_name(0), "BASE");
    assert_eq!(layer_name(1), "SYMBOLS");
    assert_eq!(layer_name(2), "NUMBERS");
    assert_eq!(layer_name(3), "SCROLL");
    assert_eq!(layer_name(4), "MOUSE");
    assert_eq!(layer_name(5), "MEDIA");
    assert_eq!(layer_name(6), "UNKNOWN");
    assert_eq!(layer_name(9), "UNKNOWN");
    assert_eq!(layer_name(255), "UNKNOWN");
}

#[test]
fn layer_event_fields_come_from_packet() {
    let p = full_packet(1, 4, 0x34, 0x12);
    let mut cursor: Option<u8> = None;
    let ev = decode_packet(&p, &mut cursor, 1700000000);
    match ev {
        Some(SocketMessage::LayerStatus(s)) => {
            assert_eq!(s.layer_name, "MOUSE");
            assert_eq!(s.layer_id, 4);
            assert_eq!(s.layer_state, 0x1234);
            assert_eq!(s.timestamp, 1700000000);
        }
        other => panic!("expected a layer-status event, got {:?}", other),
    }
    assert_eq!(cursor, Some(4));
}

#[test]
fn duplicate_layer_id_is_suppressed() {
    let p = full_packet(1, 3, 0, 0);
    let mut cursor: Option<u8> = None;
    let first = decode_packet(&p, &mut cursor, 10);
    assert!(first.is_some());
    assert_eq!(cursor, Some(3));
    let second = decode_packet(&p, &mut cursor, 11);
    assert!(second.is_none());
    assert_eq!(cursor, Some(3));
}

#[test]
fn intervening_id_is_not_suppressed() {
    let pa = full_packet(1, 1, 0, 0);
    let pb = full_packet(1, 2, 0, 0);
    let mut cursor: Option<u8> = None;
    assert!(decode_packet(&pa, &mut cursor, 1).is_some());
    assert!(decode_packet(&pb, &mut cursor, 2).is_some());
    assert!(decode_packet(&pa, &mut cursor, 3).is_some());
    assert_eq!(cursor, Some(1));
}

#[test]
fn favorite_track_carries_timestamp_and_keeps_cursor() {
    let p = full_packet(2, 7, 7, 7);
    let mut cursor: Option<u8> = Some(3);
    let ev = decode_packet(&p, &mut cursor, 555);
    match ev {
        Some(SocketMessage::FavoriteTrack { timestamp }) => assert_eq!(timestamp, 555),
        other => panic!("expected a favorite-track event, got {:?}", other),
    }
    assert_eq!(cursor, Some(3));
}

#[test]
fn window_hints_carries_timestamp_and_keeps_cursor() {
    let p = full_packet(3, 7, 7, 7);
    let mut cursor: Option<u8> = None;
    let ev = decode_packet(&p, &mut cursor, 777);
    match ev {
        Some(SocketMessage::WindowHints { timestamp }) => assert_eq!(timestamp, 777),
        other => panic!("expected a window-hints event, got {:?}", other),
    }
    assert_eq!(cursor, None);
}
