use sensor_net::{get_info, topic_for, EspNowMacAddress, Notification};

#[test]
fn get_info_returns_greeting() {
    assert_eq!(get_info(), "Hello world this is from the common lib!!!");
}

#[test]
fn mac_addresses_compare_bytewise() {
    let a = EspNowMacAddress([12, 139, 149, 66, 112, 36]);
    let b = EspNowMacAddress([12, 139, 149, 66, 112, 36]);
    let c = EspNowMacAddress([12, 139, 149, 66, 112, 37]);
    let d = EspNowMacAddress([13, 139, 149, 66, 112, 36]);
    assert!(a == b);
    assert!(a != c);
    assert!(a != d);
}

#[test]
fn notification_keeps_source_and_data() {
    let n = Notification { src: EspNowMacAddress([1, 2, 3, 4, 5, 6]), data: 42u32 };
    let m = n.clone();
    assert!(m.src == EspNowMacAddress([1, 2, 3, 4, 5, 6]));
    assert_eq!(m.data, 42);
}

#[test]
fn topic_for_known_stations() {
    assert_eq!(
        topic_for(&EspNowMacAddress([12, 139, 149, 66, 103, 160])),
        "mushrooms/temperature-humidity-sensor"
    );
    assert_eq!(
        topic_for(&EspNowMacAddress([100, 183, 8, 194, 244, 32])),
        "mushrooms/epulse-temperature-humidity-sensor"
    );
    assert_eq!(
        topic_for(&EspNowMacAddress([100, 183, 8, 194, 244, 40])),
        "mushroom-container/epulse-temperature-humidity-sensor"
    );
}

#[test]
fn topic_for_unknown_station() {
    assert_eq!(topic_for(&EspNowMacAddress([100, 183, 8, 194, 244, 41])), "unknown");
    assert_eq!(topic_for(&EspNowMacAddress([0, 0, 0, 0, 0, 0])), "unknown");
}
