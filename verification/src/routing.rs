//! Which MQTT topic the Raspberry Pi gateway publishes a station's readings on.

use vstd::prelude::*;
use crate::common::EspNowMacAddress;

verus! {

/// Topic of readings whose station is not known.
pub open spec fn unknown_topic() -> Seq<char> {
    "unknown"@
}

/// The topic for readings from the station with address `mac`.
pub open spec fn topic_of(mac: Seq<u8>) -> Seq<char> {
    if mac == [12u8, 139, 149, 66, 103, 160]@ {
        "mushrooms/temperature-humidity-sensor"@
    } else if mac == [100u8, 183, 8, 194, 244, 32]@ {
        "mushrooms/epulse-temperature-humidity-sensor"@
    } else if mac == [100u8, 183, 8, 194, 244, 40]@ {
        "mushroom-container/epulse-temperature-humidity-sensor"@
    } else {
        unknown_topic()
    }
}

/// Each listed station has its own topic, given only to an address equal to
/// it in all six bytes; every other address goes to "unknown".
pub proof fn lemma_topic_routing(mac: Seq<u8>)
    ensures
        (topic_of(mac) == "mushrooms/temperature-humidity-sensor"@) == (mac == [12u8, 139, 149, 66, 103, 160]@),
        (topic_of(mac) == "mushrooms/epulse-temperature-humidity-sensor"@) == (mac
            == [100u8, 183, 8, 194, 244, 32]@),
        (topic_of(mac) == "mushroom-container/epulse-temperature-humidity-sensor"@) == (mac
            == [100u8, 183, 8, 194, 244, 40]@),
        (topic_of(mac) == "unknown"@) == (mac != [12u8, 139, 149, 66, 103, 160]@ && mac != [
            100u8,
            183,
            8,
            194,
            244,
            32,
        ]@ && mac != [100u8, 183, 8, 194, 244, 40]@),
{
    reveal_strlit("mushrooms/temperature-humidity-sensor");
    reveal_strlit("mushrooms/epulse-temperature-humidity-sensor");
    reveal_strlit("mushroom-container/epulse-temperature-humidity-sensor");
    reveal_strlit("unknown");
    let a = "mushrooms/temperature-humidity-sensor"@;
    let b = "mushrooms/epulse-temperature-humidity-sensor"@;
    let c = "mushroom-container/epulse-temperature-humidity-sensor"@;
    let u = "unknown"@;
    assert(a.len() != b.len());
    assert(a.len() != c.len());
    assert(a.len() != u.len());
    assert(b.len() != c.len());
    assert(b.len() != u.len());
    assert(c.len() != u.len());
}

/// The topic for readings from the station `src`.
pub fn topic_for(src: &EspNowMacAddress) -> (r: &'static str)
    ensures
        r@ == topic_of(src.bytes()),
        src.0@ == [12u8, 139, 149, 66, 103, 160]@ ==> r@ == "mushrooms/temperature-humidity-sensor"@,
        src.0@ == [100u8, 183, 8, 194, 244, 32]@ ==> r@ == "mushrooms/epulse-temperature-humidity-sensor"@,
        src.0@ == [100u8, 183, 8, 194, 244, 40]@ ==> r@ == "mushroom-container/epulse-temperature-humidity-sensor"@,
        src.0@ != [12u8, 139, 149, 66, 103, 160]@ && src.0@ != [100u8, 183, 8, 194, 244, 32]@
            && src.0@ != [100u8, 183, 8, 194, 244, 40]@ ==> r@ == "unknown"@,
{
    if *src == EspNowMacAddress([12, 139, 149, 66, 103, 160]) {
        "mushrooms/temperature-humidity-sensor"
    } else if *src == EspNowMacAddress([100, 183, 8, 194, 244, 32]) {
        "mushrooms/epulse-temperature-humidity-sensor"
    } else if *src == EspNowMacAddress([100, 183, 8, 194, 244, 40]) {
        "mushroom-container/epulse-temperature-humidity-sensor"
    } else {
        "unknown"
    }
}

} // verus!
