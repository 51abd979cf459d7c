use sensor_net::{
    on_receive, on_sensor_message, BroadcastTimer, ReceiveAction, BROADCAST_ADDRESS,
    BROADCAST_INTERVAL_MS,
};

#[test]
fn timer_first_broadcast_after_interval() {
    let t = BroadcastTimer::new(1000);
    assert_eq!(t.next_send, 6000);
    assert!(!t.is_due(5999));
    assert!(t.is_due(6000));
    assert!(t.is_due(6001));
}

#[test]
fn timer_reschedules_from_later_reading() {
    let mut t = BroadcastTimer::new(0);
    assert!(t.is_due(7000));
    // The clock is read again after the broadcast was found due.
    t.reschedule(7001);
    assert_eq!(t.next_send, 7001 + BROADCAST_INTERVAL_MS);
    assert!(!t.is_due(12000));
    assert!(t.is_due(12001));
}

#[test]
fn broadcast_is_answered() {
    assert_eq!(on_receive(&BROADCAST_ADDRESS, false), ReceiveAction { add_peer: true, reply: true });
    assert_eq!(on_receive(&BROADCAST_ADDRESS, true), ReceiveAction { add_peer: false, reply: true });
}

#[test]
fn direct_message_is_ignored() {
    let dst = [12, 139, 149, 66, 112, 36];
    assert_eq!(on_receive(&dst, false), ReceiveAction { add_peer: false, reply: false });
    assert_eq!(on_receive(&[0xff, 0xff, 0xff, 0xff, 0xff, 0xfe], true), ReceiveAction { add_peer: false, reply: false });
}

#[test]
fn sensor_message_payload_and_peer() {
    let data = [1u8, 2, 3, 4, 5, 6, 7, 8];
    let m = on_sensor_message(false, &data, 5);
    assert!(m.add_peer);
    assert_eq!(m.payload, vec![1, 2, 3, 4, 5]);
    let m = on_sensor_message(true, &data, 0);
    assert!(!m.add_peer);
    assert!(m.payload.is_empty());
    let m = on_sensor_message(true, &data, 8);
    assert_eq!(m.payload, data.to_vec());
}
