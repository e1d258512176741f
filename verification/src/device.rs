//! Device identifiers of the serial line protocol.

use vstd::prelude::*;

use crate::slave::{digit_char, hex_digit_str};

verus! {

/// The address of a device on a serial line.
#[derive(Debug, Clone, Copy, PartialEq, Eq, PartialOrd, Ord, Structural)]
pub struct DeviceId(pub u8);

impl DeviceId {
    /// The Modbus address for sending a broadcast message to all
    /// connected slave devices.
    pub fn broadcast() -> (d: Self)
        ensures
            d.0 == 0,
    {
        DeviceId(0)
    }

    /// The minimum slave address of a Modbus device.
    pub fn min_slave() -> (d: Self)
        ensures
            d.0 == 1,
    {
        DeviceId(1)
    }

    /// The maximum slave address of a Modbus device.
    pub fn max_slave() -> (d: Self)
        ensures
            d.0 == 247,
    {
        DeviceId(247)
    }

    /// Whether this is the broadcast address.
    pub fn is_broadcast(self) -> (b: bool)
        ensures
            b == (self.0 == 0),
    {
        self.0 == 0
    }

    /// Whether this addresses a single slave device.
    pub fn is_slave(self) -> (b: bool)
        ensures
            b == (1 <= self.0 && self.0 <= 247),
    {
        self.0 >= 1 && self.0 <= 247
    }

    /// Whether this is one of the reserved addresses above the slave range.
    pub fn is_reserved(self) -> (b: bool)
        ensures
            b == (self.0 > 247),
    {
        self.0 > 247
    }
}

/// The text of a device id: `0x` and two upper case hex digits.
pub open spec fn device_text(id: u8) -> Seq<char> {
    "0x"@ + seq![digit_char((id / 16) as nat), digit_char((id % 16) as nat)]
}

impl DeviceId {
    /// The text form `0x<two upper case hex digits>`.
    pub fn to_string(&self) -> (s: String)
        ensures
            s@ == device_text(self.0),
    {
        let mut s = String::from_str("0x");
        s.append(hex_digit_str(self.0 / 16));
        s.append(hex_digit_str(self.0 % 16));
        s
    }
}

impl vstd::std_specs::convert::FromSpecImpl<u8> for DeviceId {
    open spec fn obeys_from_spec() -> bool {
        true
    }

    open spec fn from_spec(v: u8) -> DeviceId {
        DeviceId(v)
    }
}

impl vstd::std_specs::convert::FromSpecImpl<DeviceId> for u8 {
    open spec fn obeys_from_spec() -> bool {
        true
    }

    open spec fn from_spec(v: DeviceId) -> u8 {
        v.0
    }
}

impl From<u8> for DeviceId {
    fn from(from: u8) -> Self {
        DeviceId(from)
    }
}

impl From<DeviceId> for u8 {
    fn from(from: DeviceId) -> Self {
        from.0
    }
}

} // verus!
