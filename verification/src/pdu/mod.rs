//! A compact model of Modbus messages: function codes are plain bytes, the
//! data of each message is owned, and every message has a byte form.

pub mod encode;
pub mod client;

use vstd::prelude::*;

use crate::codec::{coil_word, packed_coils};
pub use crate::frame::{Address, Coil, Quantity, Word};

verus! {

/// A Modbus function code is represented by an unsigned 8 bit integer.
pub type FunctionCode = u8;

/// A request represents a message from the client (master) to the server (slave).
#[derive(Debug, Clone, PartialEq, Eq)]
pub enum Request {
    /// Read coils (`0x01`).
    ReadCoils(Address, Quantity),
    /// Read discrete inputs (`0x02`).
    ReadDiscreteInputs(Address, Quantity),
    /// Write a single coil (`0x05`).
    WriteSingleCoil(Address, Coil),
    /// Write multiple coils (`0x0F`).
    WriteMultipleCoils(Address, Vec<Coil>),
    /// Read input registers (`0x04`).
    ReadInputRegisters(Address, Quantity),
    /// Read holding registers (`0x03`).
    ReadHoldingRegisters(Address, Quantity),
    /// Write a single register (`0x06`).
    WriteSingleRegister(Address, Word),
    /// Write multiple registers (`0x10`).
    WriteMultipleRegisters(Address, Vec<Word>),
    /// Read and write multiple registers (`0x17`).
    ReadWriteMultipleRegisters(Address, Quantity, Address, Vec<Word>),
    /// Any other function, with its raw data.
    Custom(FunctionCode, Vec<u8>),
}

/// The data of a successful request.
#[derive(Debug, Clone, PartialEq, Eq)]
pub enum Response {
    /// The coils read (`0x01`).
    ReadCoils(Vec<Coil>),
    /// The discrete inputs read (`0x02`).
    ReadDiscreteInputs(Vec<Coil>),
    /// The address of the coil written (`0x05`).
    WriteSingleCoil(Address),
    /// The address and quantity of the coils written (`0x0F`).
    WriteMultipleCoils(Address, Quantity),
    /// The input registers read (`0x04`).
    ReadInputRegisters(Vec<Word>),
    /// The holding registers read (`0x03`).
    ReadHoldingRegisters(Vec<Word>),
    /// The address and value of the register written (`0x06`).
    WriteSingleRegister(Address, Word),
    /// The address and quantity of the registers written (`0x10`).
    WriteMultipleRegisters(Address, Quantity),
    /// The registers read (`0x17`).
    ReadWriteMultipleRegisters(Vec<Word>),
    /// Any other function, with its raw data.
    Custom(FunctionCode, Vec<u8>),
}

/// A server (slave) exception.
#[derive(Debug, Clone, Copy, PartialEq, Eq, Structural)]
pub enum Exception {
    /// `0x01`
    IllegalFunction,
    /// `0x02`
    IllegalDataAddress,
    /// `0x03`
    IllegalDataValue,
    /// `0x04`
    ServerDeviceFailure,
    /// `0x05`
    Acknowledge,
    /// `0x06`
    ServerDeviceBusy,
    /// `0x08`
    MemoryParityError,
    /// `0x0A`
    GatewayPathUnavailable,
    /// `0x0B`
    GatewayTargetDevice,
}

/// A server (slave) exception response.
#[derive(Debug, Clone, Copy, PartialEq, Eq, Structural)]
pub struct ExceptionResponse {
    /// The function code of the request.
    pub function: FunctionCode,
    /// The exception.
    pub exception: Exception,
}

/// Represents a message from the server (slave) to the client (master).
pub type ModbusResult = Result<Response, ExceptionResponse>;

/// A modbus protocol data unit.
#[derive(Debug, Clone, PartialEq, Eq)]
pub enum Pdu {
    /// A request.
    Request(Request),
    /// A response or an exception response.
    Result(ModbusResult),
}

/// The function code of a request.
pub open spec fn request_code(r: Request) -> u8 {
    match r {
        Request::ReadCoils(_, _) => 0x01,
        Request::ReadDiscreteInputs(_, _) => 0x02,
        Request::WriteSingleCoil(_, _) => 0x05,
        Request::WriteMultipleCoils(_, _) => 0x0F,
        Request::ReadInputRegisters(_, _) => 0x04,
        Request::ReadHoldingRegisters(_, _) => 0x03,
        Request::WriteSingleRegister(_, _) => 0x06,
        Request::WriteMultipleRegisters(_, _) => 0x10,
        Request::ReadWriteMultipleRegisters(_, _, _, _) => 0x17,
        Request::Custom(code, _) => code,
    }
}

/// The function code of a response.
pub open spec fn response_code(r: Response) -> u8 {
    match r {
        Response::ReadCoils(_) => 0x01,
        Response::ReadDiscreteInputs(_) => 0x02,
        Response::WriteSingleCoil(_) => 0x05,
        Response::WriteMultipleCoils(_, _) => 0x0F,
        Response::ReadInputRegisters(_) => 0x04,
        Response::ReadHoldingRegisters(_) => 0x03,
        Response::WriteSingleRegister(_, _) => 0x06,
        Response::WriteMultipleRegisters(_, _) => 0x10,
        Response::ReadWriteMultipleRegisters(_) => 0x17,
        Response::Custom(code, _) => code,
    }
}

/// The byte of an exception.
pub open spec fn exception_value(e: Exception) -> u8 {
    match e {
        Exception::IllegalFunction => 0x01,
        Exception::IllegalDataAddress => 0x02,
        Exception::IllegalDataValue => 0x03,
        Exception::ServerDeviceFailure => 0x04,
        Exception::Acknowledge => 0x05,
        Exception::ServerDeviceBusy => 0x06,
        Exception::MemoryParityError => 0x08,
        Exception::GatewayPathUnavailable => 0x0A,
        Exception::GatewayTargetDevice => 0x0B,
    }
}

/// The text that describes an exception.
pub open spec fn exception_text(e: Exception) -> Seq<char> {
    match e {
        Exception::IllegalFunction => "Illegal function"@,
        Exception::IllegalDataAddress => "Illegal data address"@,
        Exception::IllegalDataValue => "Illegal data value"@,
        Exception::ServerDeviceFailure => "Server device failure"@,
        Exception::Acknowledge => "Acknowledge"@,
        Exception::ServerDeviceBusy => "Server device busy"@,
        Exception::MemoryParityError => "Memory parity error"@,
        Exception::GatewayPathUnavailable => "Gateway path unavailable"@,
        Exception::GatewayTargetDevice => "Gateway target device failed to respond"@,
    }
}

/// The word of a coil state: `0xFF00` for on, `0x0000` for off.
pub fn bool_to_coil(state: bool) -> (w: u16)
    ensures
        w == coil_word(state),
{
    if state {
        0xFF00
    } else {
        0x0000
    }
}

/// The coils packed into bytes, eight per byte, the first coil in the
/// lowest bit of the first byte; unused bits of the last byte are zero.
pub fn pack_coils(coils: &[Coil]) -> (packed: Vec<u8>)
    ensures
        packed@ == packed_coils(coils@),
{
    let bitcount = coils.len();
    let packed_size = bitcount / 8 + if bitcount % 8 > 0 {
        1
    } else {
        0
    };
    let mut res: Vec<u8> = Vec::with_capacity(packed_size);
    let mut cur: u8 = 0;
    let mut i: usize = 0;
    while i < bitcount
        invariant
            i <= bitcount,
            bitcount == coils@.len(),
            res@ == Seq::new((i / 8) as nat, |j: int| crate::codec::packed_byte(coils@, j, 8)),
            cur == crate::codec::packed_byte(coils@, (i / 8) as int, (i % 8) as nat),
        decreases bitcount - i,
    {
        let v: u8 = if coils[i] {
            1
        } else {
            0
        };
        let k: u8 = (i % 8) as u8;
        assert(v == crate::codec::coil_bit(coils@, 8 * (i / 8) + (i % 8)));
        cur = cur | (v << k);
        assert(cur == crate::codec::packed_byte(coils@, (i / 8) as int, (i % 8 + 1) as nat));
        if i % 8 == 7 {
            res.push(cur);
            cur = 0;
            assert(res@ =~= Seq::new(
                ((i + 1) / 8) as nat,
                |j: int| crate::codec::packed_byte(coils@, j, 8),
            ));
        }
        i = i + 1;
    }
    if bitcount % 8 != 0 {
        assert(cur == crate::codec::packed_byte(coils@, (bitcount / 8) as int, 8)) by {
            crate::codec::lemma_packed_byte_beyond(
                coils@,
                (bitcount / 8) as int,
                (bitcount % 8) as nat,
                8,
            );
        }
        res.push(cur);
    }
    assert(res@ =~= packed_coils(coils@));
    res
}

/// The function code of a request.
pub fn req_to_fn_code(req: &Request) -> (code: u8)
    ensures
        code == request_code(*req),
{
    match req {
        Request::ReadCoils(_, _) => 0x01,
        Request::ReadDiscreteInputs(_, _) => 0x02,
        Request::WriteSingleCoil(_, _) => 0x05,
        Request::WriteMultipleCoils(_, _) => 0x0F,
        Request::ReadInputRegisters(_, _) => 0x04,
        Request::ReadHoldingRegisters(_, _) => 0x03,
        Request::WriteSingleRegister(_, _) => 0x06,
        Request::WriteMultipleRegisters(_, _) => 0x10,
        Request::ReadWriteMultipleRegisters(_, _, _, _) => 0x17,
        Request::Custom(code, _) => *code,
    }
}

/// The function code of a response.
pub fn res_to_fn_code(res: &Response) -> (code: u8)
    ensures
        code == response_code(*res),
{
    match res {
        Response::ReadCoils(_) => 0x01,
        Response::ReadDiscreteInputs(_) => 0x02,
        Response::WriteSingleCoil(_) => 0x05,
        Response::WriteMultipleCoils(_, _) => 0x0F,
        Response::ReadInputRegisters(_) => 0x04,
        Response::ReadHoldingRegisters(_) => 0x03,
        Response::WriteSingleRegister(_, _) => 0x06,
        Response::WriteMultipleRegisters(_, _) => 0x10,
        Response::ReadWriteMultipleRegisters(_) => 0x17,
        Response::Custom(code, _) => *code,
    }
}

impl Exception {
    /// The byte of the exception.
    pub fn value(&self) -> (v: u8)
        ensures
            v == exception_value(*self),
    {
        match self {
            Exception::IllegalFunction => 0x01,
            Exception::IllegalDataAddress => 0x02,
            Exception::IllegalDataValue => 0x03,
            Exception::ServerDeviceFailure => 0x04,
            Exception::Acknowledge => 0x05,
            Exception::ServerDeviceBusy => 0x06,
            Exception::MemoryParityError => 0x08,
            Exception::GatewayPathUnavailable => 0x0A,
            Exception::GatewayTargetDevice => 0x0B,
        }
    }

    /// A short text that describes the exception.
    pub fn description(&self) -> (s: &'static str)
        ensures
            s@ == exception_text(*self),
    {
        match self {
            Exception::IllegalFunction => "Illegal function",
            Exception::IllegalDataAddress => "Illegal data address",
            Exception::IllegalDataValue => "Illegal data value",
            Exception::ServerDeviceFailure => "Server device failure",
            Exception::Acknowledge => "Acknowledge",
            Exception::ServerDeviceBusy => "Server device busy",
            Exception::MemoryParityError => "Memory parity error",
            Exception::GatewayPathUnavailable => "Gateway path unavailable",
            Exception::GatewayTargetDevice => "Gateway target device failed to respond",
        }
    }

    /// The text form of the exception: its description.
    pub fn to_string(&self) -> (s: String)
        ensures
            s@ == exception_text(*self),
    {
        String::from_str(self.description())
    }
}

impl vstd::std_specs::convert::FromSpecImpl<Request> for Pdu {
    open spec fn obeys_from_spec() -> bool {
        true
    }

    open spec fn from_spec(v: Request) -> Pdu {
        Pdu::Request(v)
    }
}

impl From<Request> for Pdu {
    fn from(req: Request) -> Pdu {
        Pdu::Request(req)
    }
}

impl vstd::std_specs::convert::FromSpecImpl<Response> for Pdu {
    open spec fn obeys_from_spec() -> bool {
        true
    }

    open spec fn from_spec(v: Response) -> Pdu {
        Pdu::Result(Ok(v))
    }
}

impl From<Response> for Pdu {
    fn from(res: Response) -> Pdu {
        Pdu::Result(Ok(res))
    }
}

impl vstd::std_specs::convert::FromSpecImpl<ExceptionResponse> for Pdu {
    open spec fn obeys_from_spec() -> bool {
        true
    }

    open spec fn from_spec(v: ExceptionResponse) -> Pdu {
        Pdu::Result(Err(v))
    }
}

impl From<ExceptionResponse> for Pdu {
    fn from(ex: ExceptionResponse) -> Pdu {
        Pdu::Result(Err(ex))
    }
}

impl vstd::std_specs::convert::FromSpecImpl<ModbusResult> for Pdu {
    open spec fn obeys_from_spec() -> bool {
        true
    }

    open spec fn from_spec(v: ModbusResult) -> Pdu {
        Pdu::Result(v)
    }
}

impl From<ModbusResult> for Pdu {
    fn from(res: ModbusResult) -> Pdu {
        Pdu::Result(res)
    }
}

} // verus!
