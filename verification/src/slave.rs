//! Modbus devices

use vstd::prelude::*;
use vstd::string::StringSliceAdditionalSpecFns;

verus! {

/// Slave identifier
pub type SlaveId = u8;

/// A single byte for addressing Modbus slave devices.
#[derive(Debug, Clone, Copy, PartialEq, Eq, PartialOrd, Ord, Structural)]
pub struct Slave(pub SlaveId);

/// Why a text could not be read as a slave id.
#[derive(Debug, Clone, Copy, PartialEq, Eq, Structural)]
pub enum ParseSlaveError {
    /// The digits are missing.
    Empty,
    /// A character is not a digit of the radix.
    InvalidDigit,
    /// The number is larger than 255.
    PosOverflow,
}

impl Slave {
    /// The special address for sending a broadcast message to all
    /// connected Modbus slave devices at once.
    pub fn broadcast() -> (s: Self)
        ensures
            s.0 == 0,
    {
        Slave(0)
    }

    /// The minimum address of a single Modbus slave device.
    pub fn min_device() -> (s: Self)
        ensures
            s.0 == 1,
    {
        Slave(1)
    }

    /// The maximum address of a single Modbus slave device.
    pub fn max_device() -> (s: Self)
        ensures
            s.0 == 247,
    {
        Slave(247)
    }

    /// The reserved address for sending a message to a directly
    /// connected Modbus TCP device, i.e. if not forwarded through
    /// a TCP/RTU gateway according to the unit identifier.
    pub fn tcp_device() -> (s: Self)
        ensures
            s.0 == 255,
    {
        Slave(255)
    }

    /// Check if the [`SlaveId`] is used for broadcasting
    pub fn is_broadcast(self) -> (b: bool)
        ensures
            b == (self.0 == 0),
    {
        self.0 == 0
    }

    /// Check if the [`SlaveId`] addresses a single device
    pub fn is_single_device(self) -> (b: bool)
        ensures
            b == (1 <= self.0 && self.0 <= 247),
    {
        self.0 >= 1 && self.0 <= 247
    }

    /// Check if the [`SlaveId`] is reserved
    pub fn is_reserved(self) -> (b: bool)
        ensures
            b == (self.0 > 247),
    {
        self.0 > 247
    }

    /// Reads a slave id from a decimal number, or from a hexadecimal
    /// number after the prefix `0x`.
    pub fn parse_str(s: &str) -> (r: Result<Slave, ParseSlaveError>)
        ensures
            r == (match parse_slave_id(s.spec_bytes()) {
                Ok(id) => Ok(Slave(id)),
                Err(e) => Err(e),
            }),
    {
        let bytes = s.as_bytes();
        assert(bytes@.skip(0) == bytes@);
        match parse_u8_radix(bytes, 0, 10) {
            Ok(id) => Ok(Slave(id)),
            Err(err) => {
                if bytes.len() >= 2 && bytes[0] == 0x30 && bytes[1] == 0x78 {
                    match parse_u8_radix(bytes, 2, 16) {
                        Ok(id) => Ok(Slave(id)),
                        Err(e) => Err(e),
                    }
                } else {
                    Err(err)
                }
            },
        }
    }

    /// The text form `<decimal> (0x<two upper case hex digits>)`.
    pub fn to_string(&self) -> (s: String)
        ensures
            s@ == slave_text(self.0),
    {
        let mut s = decimal_string(self.0);
        s.append(" (0x");
        s.append(hex_digit_str(self.0 / 16));
        s.append(hex_digit_str(self.0 % 16));
        s.append(")");
        proof {
            reveal_strlit(" (0x");
            reveal_strlit(")");
        }
        s
    }
}

impl vstd::std_specs::convert::FromSpecImpl<SlaveId> for Slave {
    open spec fn obeys_from_spec() -> bool {
        true
    }

    open spec fn from_spec(v: SlaveId) -> Slave {
        Slave(v)
    }
}

impl vstd::std_specs::convert::FromSpecImpl<Slave> for SlaveId {
    open spec fn obeys_from_spec() -> bool {
        true
    }

    open spec fn from_spec(v: Slave) -> SlaveId {
        v.0
    }
}

impl From<SlaveId> for Slave {
    fn from(from: SlaveId) -> Self {
        Slave(from)
    }
}

impl From<Slave> for SlaveId {
    fn from(from: Slave) -> Self {
        from.0
    }
}

impl std::str::FromStr for Slave {
    type Err = ParseSlaveError;

    fn from_str(s: &str) -> (r: Result<Self, Self::Err>)
        ensures
            r == (match parse_slave_id(s.spec_bytes()) {
                Ok(id) => Ok(Slave(id)),
                Err(e) => Err(e),
            }),
    {
        Slave::parse_str(s)
    }
}

/// Stateful management of the currently active device.
///
/// RTU devices are addressed by their assigned *slave id*.
///
/// TCP devices are either addressed directly (= implicitly) by using the
/// reserved *unit id* `Slave::tcp_device() = 0xFF` (default) or indirectly
/// through an TCP/RTU gateway by setting the *unit id* to the desired
/// *slave id*.
pub trait SlaveContext {
    /// Select a slave device for all subsequent outgoing requests.
    fn set_slave(&mut self, slave: Slave);
}

/// The value of an ASCII digit in the given radix (10 or 16).
pub open spec fn digit_value(b: u8, radix: nat) -> Option<nat> {
    if 0x30 <= b <= 0x39 && b - 0x30 < radix {
        Some((b - 0x30) as nat)
    } else if 0x61 <= b <= 0x7A && b - 0x61 + 10 < radix {
        Some((b - 0x61 + 10) as nat)
    } else if 0x41 <= b <= 0x5A && b - 0x41 + 10 < radix {
        Some((b - 0x41 + 10) as nat)
    } else {
        None
    }
}

/// Reads the digits `s` from left to right after the value `acc` has been read:
/// the first digit that is not one of the radix is an `InvalidDigit`,
/// the first prefix whose value exceeds 255 a `PosOverflow`.
pub open spec fn scan_digits(s: Seq<u8>, radix: nat, acc: nat) -> Result<u8, ParseSlaveError>
    decreases s.len(),
{
    if s.len() == 0 {
        Ok(acc as u8)
    } else {
        match digit_value(s[0], radix) {
            None => Err(ParseSlaveError::InvalidDigit),
            Some(d) => if acc * radix + d > 255 {
                Err(ParseSlaveError::PosOverflow)
            } else {
                scan_digits(s.drop_first(), radix, acc * radix + d)
            },
        }
    }
}

/// An unsigned 8 bit number in the given radix, with an optional leading `+`.
pub open spec fn parse_u8_text(s: Seq<u8>, radix: nat) -> Result<u8, ParseSlaveError> {
    if s.len() == 0 {
        Err(ParseSlaveError::Empty)
    } else if s.len() == 1 && (s[0] == 0x2B || s[0] == 0x2D) {
        Err(ParseSlaveError::InvalidDigit)
    } else if s[0] == 0x2B {
        scan_digits(s.drop_first(), radix, 0)
    } else {
        scan_digits(s, radix, 0)
    }
}

/// A slave id written in decimal, or else in hexadecimal behind `0x`.
pub open spec fn parse_slave_id(s: Seq<u8>) -> Result<u8, ParseSlaveError> {
    match parse_u8_text(s, 10) {
        Ok(id) => Ok(id),
        Err(e) => if s.len() >= 2 && s[0] == 0x30 && s[1] == 0x78 {
            parse_u8_text(s.skip(2), 16)
        } else {
            Err(e)
        },
    }
}

/// The character of a digit below 16 (upper case for 10 to 15).
pub open spec fn digit_char(d: nat) -> char {
    if d < 10 {
        ((d + 0x30) as u8) as char
    } else {
        ((d - 10 + 0x41) as u8) as char
    }
}

/// The decimal digits of `n`, without leading zeros.
pub open spec fn decimal_text(n: nat) -> Seq<char>
    decreases n,
{
    if n < 10 {
        seq![digit_char(n)]
    } else {
        decimal_text(n / 10).push(digit_char(n % 10))
    }
}

/// The text of a slave id: decimal, then two upper case hex digits in brackets.
pub open spec fn slave_text(id: u8) -> Seq<char> {
    decimal_text(id as nat) + seq![' ', '(', '0', 'x'] + seq![
        digit_char((id / 16) as nat),
        digit_char((id % 16) as nat),
    ] + seq![')']
}

fn parse_u8_radix(bytes: &[u8], start: usize, radix: u8) -> (r: Result<u8, ParseSlaveError>)
    requires
        start <= bytes@.len(),
        radix == 10 || radix == 16,
    ensures
        r == parse_u8_text(bytes@.skip(start as int), radix as nat),
{
    let ghost s = bytes@.skip(start as int);
    let len = bytes.len();
    if start == len {
        return Err(ParseSlaveError::Empty);
    }
    let first = bytes[start];
    if start + 1 == len && (first == 0x2B || first == 0x2D) {
        return Err(ParseSlaveError::InvalidDigit);
    }
    let mut i = if first == 0x2B { start + 1 } else { start };
    let ghost digits = bytes@.skip(i as int);
    assert(digits == (if s[0] == 0x2B { s.drop_first() } else { s }));
    let mut acc: u8 = 0;
    while i < len
        invariant
            start <= i <= len,
            len == bytes@.len(),
            radix == 10 || radix == 16,
            parse_u8_text(bytes@.skip(start as int), radix as nat) == scan_digits(
                digits,
                radix as nat,
                0,
            ),
            scan_digits(digits, radix as nat, 0) == scan_digits(
                bytes@.skip(i as int),
                radix as nat,
                acc as nat,
            ),
        decreases len - i,
    {
        let b = bytes[i];
        assert(bytes@.skip(i as int)[0] == b);
        let d: u8 = if 0x30 <= b && b <= 0x39 && b - 0x30 < radix {
            b - 0x30
        } else if 0x61 <= b && b <= 0x7A && b - 0x61 + 10 < radix {
            b - 0x61 + 10
        } else if 0x41 <= b && b <= 0x5A && b - 0x41 + 10 < radix {
            b - 0x41 + 10
        } else {
            return Err(ParseSlaveError::InvalidDigit);
        };
        let v: u32 = (acc as u32) * (radix as u32) + (d as u32);
        if v > 255 {
            return Err(ParseSlaveError::PosOverflow);
        }
        assert(bytes@.skip(i as int).drop_first() == bytes@.skip(i + 1));
        acc = v as u8;
        i = i + 1;
    }
    assert(bytes@.skip(len as int).len() == 0);
    Ok(acc)
}

fn decimal_string(n: u8) -> (s: String)
    ensures
        s@ == decimal_text(n as nat),
{
    let mut s = String::new();
    if n >= 100 {
        s.append(hex_digit_str(n / 100));
    }
    if n >= 10 {
        s.append(hex_digit_str((n / 10) % 10));
    }
    s.append(hex_digit_str(n % 10));
    proof {
        reveal_with_fuel(decimal_text, 3);
    }
    s
}

/// The decimal digits of a 16-bit number, as a string.
pub(crate) fn decimal_string_u16(n: u16) -> (s: String)
    ensures
        s@ == decimal_text(n as nat),
    decreases n,
{
    if n < 10 {
        let mut s = String::new();
        s.append(hex_digit_str(n as u8));
        s
    } else {
        let mut s = decimal_string_u16(n / 10);
        s.append(hex_digit_str((n % 10) as u8));
        s
    }
}

pub(crate) fn hex_digit_str(d: u8) -> (s: &'static str)
    requires
        d < 16,
    ensures
        s@ == seq![digit_char(d as nat)],
{
    proof {
        reveal_strlit("0");
        reveal_strlit("1");
        reveal_strlit("2");
        reveal_strlit("3");
        reveal_strlit("4");
        reveal_strlit("5");
        reveal_strlit("6");
        reveal_strlit("7");
        reveal_strlit("8");
        reveal_strlit("9");
        reveal_strlit("A");
        reveal_strlit("B");
        reveal_strlit("C");
        reveal_strlit("D");
        reveal_strlit("E");
        reveal_strlit("F");
    }
    match d {
        0 => "0",
        1 => "1",
        2 => "2",
        3 => "3",
        4 => "4",
        5 => "5",
        6 => "6",
        7 => "7",
        8 => "8",
        9 => "9",
        10 => "A",
        11 => "B",
        12 => "C",
        13 => "D",
        14 => "E",
        _ => "F",
    }
}

} // verus!
