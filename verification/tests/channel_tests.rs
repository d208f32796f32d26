use qmk_layer_monitor::channel::{socket_path, BroadcastChannel};

#[test]
fn socket_path_is_well_known() {
    assert_eq!(socket_path(), "/tmp/qmk-layer-monitor.sock");
}

#[test]
fn subscribe_assigns_fresh_ids_in_order() {
    let mut c = BroadcastChannel::new();
    assert!(c.subscriber_ids().is_empty());
    assert!(c.has_capacity());
    let a = c.subscribe();
    let b = c.subscribe();
    let d = c.subscribe();
    assert_ne!(a, b);
    assert_ne!(a, d);
    assert_ne!(b, d);
    assert_eq!(c.subscriber_ids(), vec![a, b, d]);
}

#[test]
fn broadcast_with_all_writes_ok_retains_everyone() {
    let mut c = BroadcastChannel::new();
    let a = c.subscribe();
    let b = c.subscribe();
    let d = c.subscribe();
    let plan = c.subscriber_ids();
    assert_eq!(plan.len(), 3);
    c.apply_write_results(&vec![true, true, true]);
    assert_eq!(c.subscriber_ids(), vec![a, b, d]);
}

#[test]
fn broadcast_prunes_exactly_the_failing_subscribers() {
    let mut c = BroadcastChannel::new();
    let a = c.subscribe();
    let _b = c.subscribe();
    let d = c.subscribe();
    c.apply_write_results(&vec![true, false, true]);
    assert_eq!(c.subscriber_ids(), vec![a, d]);
    c.apply_write_results(&vec![false, false]);
    assert!(c.subscriber_ids().is_empty());
}

#[test]
fn pruned_subscriber_id_is_not_reused() {
    let mut c = BroadcastChannel::new();
    let a = c.subscribe();
    c.apply_write_results(&vec![false]);
    let b = c.subscribe();
    assert_ne!(a, b);
    assert_eq!(c.subscriber_ids(), vec![b]);
}
