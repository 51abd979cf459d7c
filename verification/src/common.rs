//! Types shared by the sensor nodes, the ESP32 gateway and the Raspberry Pi.

use vstd::prelude::*;
use vstd::std_specs::cmp::PartialEqSpec;

verus! {

/// The greeting text of the shared library.
pub open spec fn info_text() -> Seq<char> {
    "Hello world this is from the common lib!!!"@
}

/// Returns a fixed greeting that identifies the shared library.
pub fn get_info() -> (r: &'static str)
    ensures
        r@ == info_text(),
{
    "Hello world this is from the common lib!!!"
}

/// The six-byte MAC address of an ESP-NOW station.
#[derive(Debug, Clone)]
pub struct EspNowMacAddress(pub [u8; 6]);

impl EspNowMacAddress {
    /// The address as a sequence of six bytes.
    pub open spec fn bytes(&self) -> Seq<u8> {
        self.0@
    }
}

impl PartialEq for EspNowMacAddress {
    /// Two addresses are equal when all six bytes agree.
    fn eq(&self, other: &Self) -> (r: bool)
        ensures
            r == (self.0@ == other.0@),
            r == (forall|j: int| 0 <= j < 6 ==> self.0[j] == other.0[j]),
    {
        let mut i: usize = 0;
        while i < 6
            invariant
                i <= 6,
                forall|j: int| 0 <= j < i ==> self.0@[j] == other.0@[j],
            decreases 6 - i,
        {
            if self.0[i] != other.0[i] {
                return false;
            }
            i = i + 1;
        }
        assert(self.0@ =~= other.0@);
        true
    }
}

impl vstd::std_specs::cmp::PartialEqSpecImpl for EspNowMacAddress {
    open spec fn obeys_eq_spec() -> bool {
        true
    }

    open spec fn eq_spec(&self, other: &EspNowMacAddress) -> bool {
        self.0@ == other.0@
    }
}

impl Eq for EspNowMacAddress {}

/// Two addresses are equal exactly when all six bytes agree; in particular
/// equality is an equivalence.
pub proof fn lemma_mac_eq(a: EspNowMacAddress, b: EspNowMacAddress, c: EspNowMacAddress)
    ensures
        a.eq_spec(&b) == (forall|j: int| 0 <= j < 6 ==> a.0[j] == b.0[j]),
        a.eq_spec(&b) == (a.0 == b.0),
        a.eq_spec(&a),
        a.eq_spec(&b) == b.eq_spec(&a),
        a.eq_spec(&b) && b.eq_spec(&c) ==> a.eq_spec(&c),
{
    if forall|j: int| 0 <= j < 6 ==> a.0[j] == b.0[j] {
        assert(a.0@ =~= b.0@);
        assert(a.0 =~= b.0);
    }
}

/// A payload received from a station, tagged with the station's address.
#[derive(Debug, Clone)]
pub struct Notification<T> {
    pub src: EspNowMacAddress,
    pub data: T,
}

} // verus!
