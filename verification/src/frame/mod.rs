//! Modbus protocol data units (PDU): requests, responses and exceptions.

pub mod rtu;
pub mod tcp;
pub mod tls;

use vstd::prelude::*;
use vstd::string::StringSliceAdditionalSpecFns;

use bytes::Bytes;

use crate::buffers::{bytes_as_slice, bytes_view};
use crate::slave::{decimal_string_u16, decimal_text, SlaveId};

verus! {

/// MEI type code (`0x0E`) for Modbus "Read Device Identification" (function 0x2B).
pub const MEI_TYPE_READ_DEVICE_IDENTIFICATION: u8 = 0x0E;

/// A Modbus function code.
///
/// All function codes as defined by the protocol specification V1.1b3.
#[derive(Debug, Clone, Copy, PartialEq, Eq, Hash, Structural)]
pub enum FunctionCode {
    /// 01 (0x01) Read Coils.
    ReadCoils,
    /// 02 (0x02) Read Discrete Inputs
    ReadDiscreteInputs,
    /// 03 (0x03) Read Holding Registers
    ReadHoldingRegisters,
    /// 04 (0x04) Read Input Registers
    ReadInputRegisters,
    /// 05 (0x05) Write Single Coil
    WriteSingleCoil,
    /// 06 (0x06) Write Single Register
    WriteSingleRegister,
    /// 07 (0x07) Read Exception Status (Serial Line only)
    ReadExceptionStatus,
    /// 08 (0x08) Diagnostics (Serial Line only)
    Diagnostics,
    /// 11 (0x0B) Get Comm Event Counter (Serial Line only)
    GetCommEventCounter,
    /// 12 (0x0C) Get Comm Event Log (Serial Line only)
    GetCommEventLog,
    /// 15 (0x0F) Write Multiple Coils
    WriteMultipleCoils,
    /// 16 (0x10) Write Multiple Registers
    WriteMultipleRegisters,
    /// 17 (0x11) Report Slave ID (Serial Line only)
    ReportServerId,
    /// 20 (0x14) Read File Record
    ReadFileRecord,
    /// 21 (0x15) Write File Record
    WriteFileRecord,
    /// 22 (0x16) Mask Write Register
    MaskWriteRegister,
    /// 23 (0x17) Read/Write Multiple Registers
    ReadWriteMultipleRegisters,
    /// 24 (0x18) Read FIFO Queue
    ReadFifoQueue,
    /// 43 ( 0x2B) Encapsulated Interface Transport
    EncapsulatedInterfaceTransport,
    /// Custom Modbus Function Code.
    Custom(u8),
}

/// The function code that a byte denotes.
pub open spec fn function_code_of(value: u8) -> FunctionCode {
    match value {
        0x01 => FunctionCode::ReadCoils,
        0x02 => FunctionCode::ReadDiscreteInputs,
        0x03 => FunctionCode::ReadHoldingRegisters,
        0x04 => FunctionCode::ReadInputRegisters,
        0x05 => FunctionCode::WriteSingleCoil,
        0x06 => FunctionCode::WriteSingleRegister,
        0x07 => FunctionCode::ReadExceptionStatus,
        0x08 => FunctionCode::Diagnostics,
        0x0B => FunctionCode::GetCommEventCounter,
        0x0C => FunctionCode::GetCommEventLog,
        0x0F => FunctionCode::WriteMultipleCoils,
        0x10 => FunctionCode::WriteMultipleRegisters,
        0x11 => FunctionCode::ReportServerId,
        0x14 => FunctionCode::ReadFileRecord,
        0x15 => FunctionCode::WriteFileRecord,
        0x16 => FunctionCode::MaskWriteRegister,
        0x17 => FunctionCode::ReadWriteMultipleRegisters,
        0x18 => FunctionCode::ReadFifoQueue,
        0x2B => FunctionCode::EncapsulatedInterfaceTransport,
        code => FunctionCode::Custom(code),
    }
}

/// The byte of a function code.
pub open spec fn function_code_value(f: FunctionCode) -> u8 {
    match f {
        FunctionCode::ReadCoils => 0x01,
        FunctionCode::ReadDiscreteInputs => 0x02,
        FunctionCode::ReadHoldingRegisters => 0x03,
        FunctionCode::ReadInputRegisters => 0x04,
        FunctionCode::WriteSingleCoil => 0x05,
        FunctionCode::WriteSingleRegister => 0x06,
        FunctionCode::ReadExceptionStatus => 0x07,
        FunctionCode::Diagnostics => 0x08,
        FunctionCode::GetCommEventCounter => 0x0B,
        FunctionCode::GetCommEventLog => 0x0C,
        FunctionCode::WriteMultipleCoils => 0x0F,
        FunctionCode::WriteMultipleRegisters => 0x10,
        FunctionCode::ReportServerId => 0x11,
        FunctionCode::ReadFileRecord => 0x14,
        FunctionCode::WriteFileRecord => 0x15,
        FunctionCode::MaskWriteRegister => 0x16,
        FunctionCode::ReadWriteMultipleRegisters => 0x17,
        FunctionCode::ReadFifoQueue => 0x18,
        FunctionCode::EncapsulatedInterfaceTransport => 0x2B,
        FunctionCode::Custom(code) => code,
    }
}

/// Whether the byte is the code of one of the named functions.
pub open spec fn is_named_function_code(value: u8) -> bool {
    !(function_code_of(value) is Custom)
}

impl FunctionCode {
    /// Create a new [`FunctionCode`] with `value`.
    pub fn new(value: u8) -> (f: Self)
        ensures
            f == function_code_of(value),
    {
        match value {
            0x01 => Self::ReadCoils,
            0x02 => Self::ReadDiscreteInputs,
            0x03 => Self::ReadHoldingRegisters,
            0x04 => Self::ReadInputRegisters,
            0x05 => Self::WriteSingleCoil,
            0x06 => Self::WriteSingleRegister,
            0x07 => Self::ReadExceptionStatus,
            0x08 => Self::Diagnostics,
            0x0B => Self::GetCommEventCounter,
            0x0C => Self::GetCommEventLog,
            0x0F => Self::WriteMultipleCoils,
            0x10 => Self::WriteMultipleRegisters,
            0x11 => Self::ReportServerId,
            0x14 => Self::ReadFileRecord,
            0x15 => Self::WriteFileRecord,
            0x16 => Self::MaskWriteRegister,
            0x17 => Self::ReadWriteMultipleRegisters,
            0x18 => Self::ReadFifoQueue,
            0x2B => Self::EncapsulatedInterfaceTransport,
            code => Self::Custom(code),
        }
    }

    /// Gets the [`u8`] value of the current [`FunctionCode`].
    pub fn value(self) -> (v: u8)
        ensures
            v == function_code_value(self),
    {
        match self {
            Self::ReadCoils => 0x01,
            Self::ReadDiscreteInputs => 0x02,
            Self::ReadHoldingRegisters => 0x03,
            Self::ReadInputRegisters => 0x04,
            Self::WriteSingleCoil => 0x05,
            Self::WriteSingleRegister => 0x06,
            Self::ReadExceptionStatus => 0x07,
            Self::Diagnostics => 0x08,
            Self::GetCommEventCounter => 0x0B,
            Self::GetCommEventLog => 0x0C,
            Self::WriteMultipleCoils => 0x0F,
            Self::WriteMultipleRegisters => 0x10,
            Self::ReportServerId => 0x11,
            Self::ReadFileRecord => 0x14,
            Self::WriteFileRecord => 0x15,
            Self::MaskWriteRegister => 0x16,
            Self::ReadWriteMultipleRegisters => 0x17,
            Self::ReadFifoQueue => 0x18,
            Self::EncapsulatedInterfaceTransport => 0x2B,
            Self::Custom(code) => code,
        }
    }
}

/// Reading a byte as a function code and taking its value gives the byte back.
pub proof fn function_code_value_of_new(value: u8)
    ensures
        function_code_value(function_code_of(value)) == value,
{
}

/// The bytes of the named function codes are those of the Modbus
/// application protocol, and every other byte reads as a custom code.
pub proof fn function_code_bytes(value: u8)
    ensures
        function_code_value(FunctionCode::ReadCoils) == 0x01,
        function_code_value(FunctionCode::ReadDiscreteInputs) == 0x02,
        function_code_value(FunctionCode::ReadHoldingRegisters) == 0x03,
        function_code_value(FunctionCode::ReadInputRegisters) == 0x04,
        function_code_value(FunctionCode::WriteSingleCoil) == 0x05,
        function_code_value(FunctionCode::WriteSingleRegister) == 0x06,
        function_code_value(FunctionCode::ReadExceptionStatus) == 0x07,
        function_code_value(FunctionCode::Diagnostics) == 0x08,
        function_code_value(FunctionCode::GetCommEventCounter) == 0x0B,
        function_code_value(FunctionCode::GetCommEventLog) == 0x0C,
        function_code_value(FunctionCode::WriteMultipleCoils) == 0x0F,
        function_code_value(FunctionCode::WriteMultipleRegisters) == 0x10,
        function_code_value(FunctionCode::ReportServerId) == 0x11,
        function_code_value(FunctionCode::ReadFileRecord) == 0x14,
        function_code_value(FunctionCode::WriteFileRecord) == 0x15,
        function_code_value(FunctionCode::MaskWriteRegister) == 0x16,
        function_code_value(FunctionCode::ReadWriteMultipleRegisters) == 0x17,
        function_code_value(FunctionCode::ReadFifoQueue) == 0x18,
        function_code_value(FunctionCode::EncapsulatedInterfaceTransport) == 0x2B,
        function_code_value(FunctionCode::Custom(value)) == value,
        is_named_function_code(value) <==> (0x01 <= value <= 0x08 || value == 0x0B || value
            == 0x0C || 0x0F <= value <= 0x11 || 0x14 <= value <= 0x18 || value == 0x2B),
        !is_named_function_code(value) ==> function_code_of(value) == FunctionCode::Custom(value),
        is_named_function_code(value) ==> function_code_value(function_code_of(value)) == value,
{
}

/// Taking the value of a function code and reading it again gives the same
/// function code, unless it is a custom code that carries the byte of a
/// named function.
pub proof fn function_code_new_of_value(f: FunctionCode)
    requires
        f matches FunctionCode::Custom(c) ==> !is_named_function_code(c),
    ensures
        function_code_of(function_code_value(f)) == f,
{
}

/// A Modbus protocol address is represented by 16 bit from `0` to `65535`.
pub type Address = u16;

/// A Coil represents a single bit.
///
/// - `true` is equivalent to `ON`, `1` and `0xFF00`.
/// - `false` is equivalent to `OFF`, `0` and `0x0000`.
pub type Coil = bool;

/// Modbus uses 16 bit for its data items, transmitted big-endian.
pub type Word = u16;

/// Number of items to process.
pub type Quantity = u16;

/// Identifier of a single device ID object.
pub type ObjectId = u8;

/// Indicates whether more identification objects follow in the response.
pub type MoreFollows = bool;

/// Specifies the ID of the next object to be requested in case of partial data.
pub type NextObjectId = u8;

/// A vector of device identification objects ([`DeviceIdObject`]).
pub type DeviceIdObjects = Vec<DeviceIdObject>;

/// A request represents a message from the client (master) to the server (slave).
#[derive(Debug, Clone, PartialEq, Eq)]
pub enum Request {
    /// Read multiple coils: address of the first coil, number of coils.
    ReadCoils(Address, Quantity),
    /// Read multiple discrete inputs: address of the first input, number of inputs.
    ReadDiscreteInputs(Address, Quantity),
    /// Write a single coil: address of the coil, value.
    WriteSingleCoil(Address, Coil),
    /// Write multiple coils: address of the first coil, values.
    WriteMultipleCoils(Address, Vec<Coil>),
    /// Read multiple input registers: address of the first register, number of registers.
    ReadInputRegisters(Address, Quantity),
    /// Read multiple holding registers: address of the first register, number of registers.
    ReadHoldingRegisters(Address, Quantity),
    /// Write a single register: address of the register, value.
    WriteSingleRegister(Address, Word),
    /// Write multiple registers: address of the first register, values.
    WriteMultipleRegisters(Address, Vec<Word>),
    /// Report server ID (Serial Line only).
    ReportServerId,
    /// Set or clear individual bits of a holding register: address, AND mask, OR mask.
    MaskWriteRegister(Address, Word, Word),
    /// Read and write multiple registers: read address, read quantity,
    /// write address, values to write.
    ReadWriteMultipleRegisters(Address, Quantity, Address, Vec<Word>),
    /// Read device identification: read code, first or specific object id.
    ReadDeviceIdentification(ReadCode, ObjectId),
    /// A raw Modbus request: function code, the bytes after it.
    Custom(u8, Vec<u8>),
}

/// The mathematical form of a request: sequences in place of vectors.
pub enum RequestView {
    ReadCoils(Address, Quantity),
    ReadDiscreteInputs(Address, Quantity),
    WriteSingleCoil(Address, Coil),
    WriteMultipleCoils(Address, Seq<Coil>),
    ReadInputRegisters(Address, Quantity),
    ReadHoldingRegisters(Address, Quantity),
    WriteSingleRegister(Address, Word),
    WriteMultipleRegisters(Address, Seq<Word>),
    ReportServerId,
    MaskWriteRegister(Address, Word, Word),
    ReadWriteMultipleRegisters(Address, Quantity, Address, Seq<Word>),
    ReadDeviceIdentification(ReadCode, ObjectId),
    Custom(u8, Seq<u8>),
}

impl View for Request {
    type V = RequestView;

    open spec fn view(&self) -> RequestView {
        match *self {
            Request::ReadCoils(a, q) => RequestView::ReadCoils(a, q),
            Request::ReadDiscreteInputs(a, q) => RequestView::ReadDiscreteInputs(a, q),
            Request::WriteSingleCoil(a, c) => RequestView::WriteSingleCoil(a, c),
            Request::WriteMultipleCoils(a, c) => RequestView::WriteMultipleCoils(a, c@),
            Request::ReadInputRegisters(a, q) => RequestView::ReadInputRegisters(a, q),
            Request::ReadHoldingRegisters(a, q) => RequestView::ReadHoldingRegisters(a, q),
            Request::WriteSingleRegister(a, w) => RequestView::WriteSingleRegister(a, w),
            Request::WriteMultipleRegisters(a, w) => RequestView::WriteMultipleRegisters(a, w@),
            Request::ReportServerId => RequestView::ReportServerId,
            Request::MaskWriteRegister(a, m, o) => RequestView::MaskWriteRegister(a, m, o),
            Request::ReadWriteMultipleRegisters(a, q, w, d) => {
                RequestView::ReadWriteMultipleRegisters(a, q, w, d@)
            },
            Request::ReadDeviceIdentification(c, o) => RequestView::ReadDeviceIdentification(c, o),
            Request::Custom(f, d) => RequestView::Custom(f, d@),
        }
    }
}

/// The function code of a request.
pub open spec fn request_function_code(r: RequestView) -> FunctionCode {
    match r {
        RequestView::ReadCoils(_, _) => FunctionCode::ReadCoils,
        RequestView::ReadDiscreteInputs(_, _) => FunctionCode::ReadDiscreteInputs,
        RequestView::WriteSingleCoil(_, _) => FunctionCode::WriteSingleCoil,
        RequestView::WriteMultipleCoils(_, _) => FunctionCode::WriteMultipleCoils,
        RequestView::ReadInputRegisters(_, _) => FunctionCode::ReadInputRegisters,
        RequestView::ReadHoldingRegisters(_, _) => FunctionCode::ReadHoldingRegisters,
        RequestView::WriteSingleRegister(_, _) => FunctionCode::WriteSingleRegister,
        RequestView::WriteMultipleRegisters(_, _) => FunctionCode::WriteMultipleRegisters,
        RequestView::ReportServerId => FunctionCode::ReportServerId,
        RequestView::MaskWriteRegister(_, _, _) => FunctionCode::MaskWriteRegister,
        RequestView::ReadWriteMultipleRegisters(_, _, _, _) => {
            FunctionCode::ReadWriteMultipleRegisters
        },
        RequestView::ReadDeviceIdentification(_, _) => {
            FunctionCode::EncapsulatedInterfaceTransport
        },
        RequestView::Custom(code, _) => FunctionCode::Custom(code),
    }
}

impl Request {
    /// Converts the request into an owned instance.
    pub fn into_owned(self) -> (r: Request)
        ensures
            r@ == self@,
    {
        self
    }

    /// Get the [`FunctionCode`] of the [`Request`].
    pub fn function_code(&self) -> (f: FunctionCode)
        ensures
            f == request_function_code(self@),
    {
        match self {
            Request::ReadCoils(_, _) => FunctionCode::ReadCoils,
            Request::ReadDiscreteInputs(_, _) => FunctionCode::ReadDiscreteInputs,
            Request::WriteSingleCoil(_, _) => FunctionCode::WriteSingleCoil,
            Request::WriteMultipleCoils(_, _) => FunctionCode::WriteMultipleCoils,
            Request::ReadInputRegisters(_, _) => FunctionCode::ReadInputRegisters,
            Request::ReadHoldingRegisters(_, _) => FunctionCode::ReadHoldingRegisters,
            Request::WriteSingleRegister(_, _) => FunctionCode::WriteSingleRegister,
            Request::WriteMultipleRegisters(_, _) => FunctionCode::WriteMultipleRegisters,
            Request::ReportServerId => FunctionCode::ReportServerId,
            Request::MaskWriteRegister(_, _, _) => FunctionCode::MaskWriteRegister,
            Request::ReadWriteMultipleRegisters(_, _, _, _) => {
                FunctionCode::ReadWriteMultipleRegisters
            },
            Request::ReadDeviceIdentification(_, _) => {
                FunctionCode::EncapsulatedInterfaceTransport
            },
            Request::Custom(code, _) => FunctionCode::Custom(*code),
        }
    }
}

/// A Modbus request with slave included
#[derive(Debug, Clone, PartialEq, Eq)]
pub struct SlaveRequest {
    /// Slave Id from the request
    pub slave: SlaveId,
    /// A `Request` enum
    pub request: Request,
}

impl SlaveRequest {
    /// Converts the request into an owned instance.
    pub fn into_owned(self) -> (r: SlaveRequest)
        ensures
            r.slave == self.slave,
            r.request@ == self.request@,
    {
        let SlaveRequest { slave, request } = self;
        SlaveRequest { slave, request: request.into_owned() }
    }
}

/// The data of a successful request.
///
/// ReadCoils/ReadDiscreteInputs: The length of the result Vec is always a
/// multiple of 8. Only the values of the first bits/coils that have actually
/// been requested are defined.
#[derive(Debug, Clone, PartialEq, Eq)]
pub enum Response {
    /// Response to a `ReadCoils` request: the coil values read.
    ReadCoils(Vec<Coil>),
    /// Response to a `ReadDiscreteInputs` request: the input values read.
    ReadDiscreteInputs(Vec<Coil>),
    /// Response to a `WriteSingleCoil` request: address and value written.
    WriteSingleCoil(Address, Coil),
    /// Response to a `WriteMultipleCoils` request: start address and number written.
    WriteMultipleCoils(Address, Quantity),
    /// Response to a `ReadInputRegisters` request: the register values read.
    ReadInputRegisters(Vec<Word>),
    /// Response to a `ReadHoldingRegisters` request: the register values read.
    ReadHoldingRegisters(Vec<Word>),
    /// Response to a `WriteSingleRegister` request: address and value written.
    WriteSingleRegister(Address, Word),
    /// Response to a `WriteMultipleRegisters` request: start address and number written.
    WriteMultipleRegisters(Address, Quantity),
    /// Response to a `ReportServerId` request: server id, run indicator,
    /// additional data.
    ReportServerId(u8, bool, Vec<u8>),
    /// Response to a `MaskWriteRegister` request: address, AND mask, OR mask.
    MaskWriteRegister(Address, Word, Word),
    /// Response to a `ReadWriteMultipleRegisters` request: the register values read.
    ReadWriteMultipleRegisters(Vec<Word>),
    /// Response to a `ReadDeviceIdentification` request: read code,
    /// conformity level, whether more objects follow, next object id, objects.
    ReadDeviceIdentification(
        ReadCode,
        ConformityLevel,
        MoreFollows,
        NextObjectId,
        DeviceIdObjects,
    ),
    /// Response to a raw Modbus request: function code, the bytes after it.
    Custom(u8, Bytes),
}

/// The mathematical form of a response: sequences in place of vectors and
/// byte buffers; a device identification object is its id and its bytes.
pub enum ResponseView {
    ReadCoils(Seq<Coil>),
    ReadDiscreteInputs(Seq<Coil>),
    WriteSingleCoil(Address, Coil),
    WriteMultipleCoils(Address, Quantity),
    ReadInputRegisters(Seq<Word>),
    ReadHoldingRegisters(Seq<Word>),
    WriteSingleRegister(Address, Word),
    WriteMultipleRegisters(Address, Quantity),
    ReportServerId(u8, bool, Seq<u8>),
    MaskWriteRegister(Address, Word, Word),
    ReadWriteMultipleRegisters(Seq<Word>),
    ReadDeviceIdentification(ReadCode, ConformityLevel, MoreFollows, NextObjectId, Seq<(u8, Seq<u8>)>),
    Custom(u8, Seq<u8>),
}

/// The id and the bytes of each device identification object.
pub open spec fn objects_view(objects: Seq<DeviceIdObject>) -> Seq<(u8, Seq<u8>)> {
    objects.map_values(|o: DeviceIdObject| (o.id, bytes_view(o.value)))
}

impl View for Response {
    type V = ResponseView;

    open spec fn view(&self) -> ResponseView {
        match *self {
            Response::ReadCoils(c) => ResponseView::ReadCoils(c@),
            Response::ReadDiscreteInputs(c) => ResponseView::ReadDiscreteInputs(c@),
            Response::WriteSingleCoil(a, c) => ResponseView::WriteSingleCoil(a, c),
            Response::WriteMultipleCoils(a, q) => ResponseView::WriteMultipleCoils(a, q),
            Response::ReadInputRegisters(w) => ResponseView::ReadInputRegisters(w@),
            Response::ReadHoldingRegisters(w) => ResponseView::ReadHoldingRegisters(w@),
            Response::WriteSingleRegister(a, w) => ResponseView::WriteSingleRegister(a, w),
            Response::WriteMultipleRegisters(a, q) => ResponseView::WriteMultipleRegisters(a, q),
            Response::ReportServerId(i, r, d) => ResponseView::ReportServerId(i, r, d@),
            Response::MaskWriteRegister(a, m, o) => ResponseView::MaskWriteRegister(a, m, o),
            Response::ReadWriteMultipleRegisters(w) => ResponseView::ReadWriteMultipleRegisters(w@),
            Response::ReadDeviceIdentification(c, l, m, n, o) => {
                ResponseView::ReadDeviceIdentification(c, l, m, n, objects_view(o@))
            },
            Response::Custom(f, d) => ResponseView::Custom(f, bytes_view(d)),
        }
    }
}

/// The function code of a response.
pub open spec fn response_function_code(r: ResponseView) -> FunctionCode {
    match r {
        ResponseView::ReadCoils(_) => FunctionCode::ReadCoils,
        ResponseView::ReadDiscreteInputs(_) => FunctionCode::ReadDiscreteInputs,
        ResponseView::WriteSingleCoil(_, _) => FunctionCode::WriteSingleCoil,
        ResponseView::WriteMultipleCoils(_, _) => FunctionCode::WriteMultipleCoils,
        ResponseView::ReadInputRegisters(_) => FunctionCode::ReadInputRegisters,
        ResponseView::ReadHoldingRegisters(_) => FunctionCode::ReadHoldingRegisters,
        ResponseView::WriteSingleRegister(_, _) => FunctionCode::WriteSingleRegister,
        ResponseView::WriteMultipleRegisters(_, _) => FunctionCode::WriteMultipleRegisters,
        ResponseView::ReportServerId(_, _, _) => FunctionCode::ReportServerId,
        ResponseView::MaskWriteRegister(_, _, _) => FunctionCode::MaskWriteRegister,
        ResponseView::ReadWriteMultipleRegisters(_) => FunctionCode::ReadWriteMultipleRegisters,
        ResponseView::ReadDeviceIdentification(_, _, _, _, _) => {
            FunctionCode::EncapsulatedInterfaceTransport
        },
        ResponseView::Custom(code, _) => FunctionCode::Custom(code),
    }
}

impl Response {
    /// Get the [`FunctionCode`] of the [`Response`].
    pub fn function_code(&self) -> (f: FunctionCode)
        ensures
            f == response_function_code(self@),
    {
        match self {
            Response::ReadCoils(_) => FunctionCode::ReadCoils,
            Response::ReadDiscreteInputs(_) => FunctionCode::ReadDiscreteInputs,
            Response::WriteSingleCoil(_, _) => FunctionCode::WriteSingleCoil,
            Response::WriteMultipleCoils(_, _) => FunctionCode::WriteMultipleCoils,
            Response::ReadInputRegisters(_) => FunctionCode::ReadInputRegisters,
            Response::ReadHoldingRegisters(_) => FunctionCode::ReadHoldingRegisters,
            Response::WriteSingleRegister(_, _) => FunctionCode::WriteSingleRegister,
            Response::WriteMultipleRegisters(_, _) => FunctionCode::WriteMultipleRegisters,
            Response::ReportServerId(_, _, _) => FunctionCode::ReportServerId,
            Response::MaskWriteRegister(_, _, _) => FunctionCode::MaskWriteRegister,
            Response::ReadWriteMultipleRegisters(_) => FunctionCode::ReadWriteMultipleRegisters,
            Response::ReadDeviceIdentification(_, _, _, _, _) => {
                FunctionCode::EncapsulatedInterfaceTransport
            },
            Response::Custom(code, _) => FunctionCode::Custom(*code),
        }
    }
}

/// A server (slave) exception.
#[derive(Debug, Clone, Copy, PartialEq, Eq, Structural)]
pub enum ExceptionCode {
    /// 0x01
    IllegalFunction,
    /// 0x02
    IllegalDataAddress,
    /// 0x03
    IllegalDataValue,
    /// 0x04
    ServerDeviceFailure,
    /// 0x05
    Acknowledge,
    /// 0x06
    ServerDeviceBusy,
    /// 0x08
    MemoryParityError,
    /// 0x0A
    GatewayPathUnavailable,
    /// 0x0B
    GatewayTargetDevice,
    /// None of the above.
    Custom(u8),
}

/// The exception code that a byte denotes.
pub open spec fn exception_code_of(value: u8) -> ExceptionCode {
    match value {
        0x01 => ExceptionCode::IllegalFunction,
        0x02 => ExceptionCode::IllegalDataAddress,
        0x03 => ExceptionCode::IllegalDataValue,
        0x04 => ExceptionCode::ServerDeviceFailure,
        0x05 => ExceptionCode::Acknowledge,
        0x06 => ExceptionCode::ServerDeviceBusy,
        0x08 => ExceptionCode::MemoryParityError,
        0x0A => ExceptionCode::GatewayPathUnavailable,
        0x0B => ExceptionCode::GatewayTargetDevice,
        other => ExceptionCode::Custom(other),
    }
}

/// The byte of an exception code.
pub open spec fn exception_code_value(e: ExceptionCode) -> u8 {
    match e {
        ExceptionCode::IllegalFunction => 0x01,
        ExceptionCode::IllegalDataAddress => 0x02,
        ExceptionCode::IllegalDataValue => 0x03,
        ExceptionCode::ServerDeviceFailure => 0x04,
        ExceptionCode::Acknowledge => 0x05,
        ExceptionCode::ServerDeviceBusy => 0x06,
        ExceptionCode::MemoryParityError => 0x08,
        ExceptionCode::GatewayPathUnavailable => 0x0A,
        ExceptionCode::GatewayTargetDevice => 0x0B,
        ExceptionCode::Custom(code) => code,
    }
}

/// The text that describes an exception code.
pub open spec fn exception_description(e: ExceptionCode) -> Seq<char> {
    match e {
        ExceptionCode::IllegalFunction => "Illegal function"@,
        ExceptionCode::IllegalDataAddress => "Illegal data address"@,
        ExceptionCode::IllegalDataValue => "Illegal data value"@,
        ExceptionCode::ServerDeviceFailure => "Server device failure"@,
        ExceptionCode::Acknowledge => "Acknowledge"@,
        ExceptionCode::ServerDeviceBusy => "Server device busy"@,
        ExceptionCode::MemoryParityError => "Memory parity error"@,
        ExceptionCode::GatewayPathUnavailable => "Gateway path unavailable"@,
        ExceptionCode::GatewayTargetDevice => "Gateway target device failed to respond"@,
        ExceptionCode::Custom(_) => "Custom"@,
    }
}

impl vstd::std_specs::convert::FromSpecImpl<ExceptionCode> for u8 {
    open spec fn obeys_from_spec() -> bool {
        true
    }

    open spec fn from_spec(v: ExceptionCode) -> u8 {
        exception_code_value(v)
    }
}

impl From<ExceptionCode> for u8 {
    fn from(from: ExceptionCode) -> (v: u8) {
        from.value()
    }
}

impl ExceptionCode {
    /// Create a new [`ExceptionCode`] with `value`.
    pub fn new(value: u8) -> (e: Self)
        ensures
            e == exception_code_of(value),
    {
        match value {
            0x01 => ExceptionCode::IllegalFunction,
            0x02 => ExceptionCode::IllegalDataAddress,
            0x03 => ExceptionCode::IllegalDataValue,
            0x04 => ExceptionCode::ServerDeviceFailure,
            0x05 => ExceptionCode::Acknowledge,
            0x06 => ExceptionCode::ServerDeviceBusy,
            0x08 => ExceptionCode::MemoryParityError,
            0x0A => ExceptionCode::GatewayPathUnavailable,
            0x0B => ExceptionCode::GatewayTargetDevice,
            other => ExceptionCode::Custom(other),
        }
    }

    /// The byte of this exception code.
    pub fn value(self) -> (v: u8)
        ensures
            v == exception_code_value(self),
    {
        match self {
            ExceptionCode::IllegalFunction => 0x01,
            ExceptionCode::IllegalDataAddress => 0x02,
            ExceptionCode::IllegalDataValue => 0x03,
            ExceptionCode::ServerDeviceFailure => 0x04,
            ExceptionCode::Acknowledge => 0x05,
            ExceptionCode::ServerDeviceBusy => 0x06,
            ExceptionCode::MemoryParityError => 0x08,
            ExceptionCode::GatewayPathUnavailable => 0x0A,
            ExceptionCode::GatewayTargetDevice => 0x0B,
            ExceptionCode::Custom(code) => code,
        }
    }

    /// A short text that describes the exception.
    pub fn description(&self) -> (s: &'static str)
        ensures
            s@ == exception_description(*self),
    {
        match *self {
            ExceptionCode::IllegalFunction => "Illegal function",
            ExceptionCode::IllegalDataAddress => "Illegal data address",
            ExceptionCode::IllegalDataValue => "Illegal data value",
            ExceptionCode::ServerDeviceFailure => "Server device failure",
            ExceptionCode::Acknowledge => "Acknowledge",
            ExceptionCode::ServerDeviceBusy => "Server device busy",
            ExceptionCode::MemoryParityError => "Memory parity error",
            ExceptionCode::GatewayPathUnavailable => "Gateway path unavailable",
            ExceptionCode::GatewayTargetDevice => "Gateway target device failed to respond",
            ExceptionCode::Custom(_) => "Custom",
        }
    }
}

/// Reading a byte as an exception code and taking its value gives the byte back.
pub proof fn exception_code_value_of_new(value: u8)
    ensures
        exception_code_value(exception_code_of(value)) == value,
{
}

/// Taking the value of an exception code and reading it again gives the
/// same code, unless it is a custom code that carries the byte of a
/// named exception.
pub proof fn exception_code_new_of_value(e: ExceptionCode)
    requires
        e matches ExceptionCode::Custom(c) ==> exception_code_of(c) is Custom,
    ensures
        exception_code_of(exception_code_value(e)) == e,
{
}

/// The bytes of the named exception codes are those of the Modbus
/// application protocol, and every other byte reads as a custom code.
pub proof fn exception_code_bytes(value: u8)
    ensures
        exception_code_value(ExceptionCode::IllegalFunction) == 0x01,
        exception_code_value(ExceptionCode::IllegalDataAddress) == 0x02,
        exception_code_value(ExceptionCode::IllegalDataValue) == 0x03,
        exception_code_value(ExceptionCode::ServerDeviceFailure) == 0x04,
        exception_code_value(ExceptionCode::Acknowledge) == 0x05,
        exception_code_value(ExceptionCode::ServerDeviceBusy) == 0x06,
        exception_code_value(ExceptionCode::MemoryParityError) == 0x08,
        exception_code_value(ExceptionCode::GatewayPathUnavailable) == 0x0A,
        exception_code_value(ExceptionCode::GatewayTargetDevice) == 0x0B,
        exception_code_value(ExceptionCode::Custom(value)) == value,
        !(exception_code_of(value) is Custom) <==> (0x01 <= value <= 0x06 || value == 0x08
            || value == 0x0A || value == 0x0B),
        exception_code_of(value) is Custom ==> exception_code_of(value) == ExceptionCode::Custom(
            value,
        ),
        exception_code_value(exception_code_of(value)) == value,
{
}

/// The access type of a "Read Device Identification" request.
#[derive(Debug, Clone, Copy, PartialEq, Eq, Structural)]
pub enum ReadCode {
    /// Basic identification (stream access), `0x01`.
    Basic,
    /// Regular identification (stream access), `0x02`.
    Regular,
    /// Extended identification (stream access), `0x03`.
    Extended,
    /// Specific identification (individual access), `0x04`.
    Specific,
}

/// The read code that a byte denotes, if any.
pub open spec fn read_code_of(value: u8) -> Option<ReadCode> {
    match value {
        0x01 => Some(ReadCode::Basic),
        0x02 => Some(ReadCode::Regular),
        0x03 => Some(ReadCode::Extended),
        0x04 => Some(ReadCode::Specific),
        _ => None,
    }
}

/// The byte of a read code.
pub open spec fn read_code_value(c: ReadCode) -> u8 {
    match c {
        ReadCode::Basic => 0x01,
        ReadCode::Regular => 0x02,
        ReadCode::Extended => 0x03,
        ReadCode::Specific => 0x04,
    }
}

impl ReadCode {
    /// Converts a raw [`u8`] value to a [`ReadCode`], if it is one.
    pub fn try_from_value(value: u8) -> (r: Option<Self>)
        ensures
            r == read_code_of(value),
    {
        match value {
            0x01 => Some(ReadCode::Basic),
            0x02 => Some(ReadCode::Regular),
            0x03 => Some(ReadCode::Extended),
            0x04 => Some(ReadCode::Specific),
            _ => None,
        }
    }

    /// Returns the [`u8`] representation of the current [`ReadCode`] variant.
    pub fn value(self) -> (v: u8)
        ensures
            v == read_code_value(self),
    {
        match self {
            ReadCode::Basic => 0x01,
            ReadCode::Regular => 0x02,
            ReadCode::Extended => 0x03,
            ReadCode::Specific => 0x04,
        }
    }
}

/// The value of a read code reads back as the same read code, and a byte
/// that reads as a read code is that code's value.
pub proof fn read_code_round_trip(c: ReadCode, value: u8)
    ensures
        read_code_of(read_code_value(c)) == Some(c),
        read_code_of(value) matches Some(d) ==> read_code_value(d) == value,
{
}

/// The read codes are the bytes 1 to 4 in the order basic, regular,
/// extended, specific; no other byte is a read code.
pub proof fn read_code_bytes(value: u8)
    ensures
        read_code_value(ReadCode::Basic) == 0x01,
        read_code_value(ReadCode::Regular) == 0x02,
        read_code_value(ReadCode::Extended) == 0x03,
        read_code_value(ReadCode::Specific) == 0x04,
        read_code_of(value) is Some <==> 0x01 <= value <= 0x04,
        read_code_of(value) matches Some(c) ==> read_code_value(c) == value,
{
}

/// The conformity level of a device's identification support.
#[derive(Debug, Clone, Copy, PartialEq, Eq, Structural)]
pub enum ConformityLevel {
    /// Only basic identification objects via stream access (`0x01`).
    BasicIdentificationStreamOnly,
    /// Only regular identification objects via stream access (`0x02`).
    RegularIdentificationStreamOnly,
    /// Only extended identification objects via stream access (`0x03`).
    ExtendedIdentificationStreamOnly,
    /// Basic identification objects, with individual access supported (`0x81`).
    BasicIdentification,
    /// Regular identification objects, with individual access supported (`0x82`).
    RegularIdentification,
    /// Extended identification objects, with individual access supported (`0x83`).
    ExtendedIdentification,
}

/// The conformity level that a byte denotes, if any.
pub open spec fn conformity_level_of(value: u8) -> Option<ConformityLevel> {
    match value {
        0x01 => Some(ConformityLevel::BasicIdentificationStreamOnly),
        0x02 => Some(ConformityLevel::RegularIdentificationStreamOnly),
        0x03 => Some(ConformityLevel::ExtendedIdentificationStreamOnly),
        0x81 => Some(ConformityLevel::BasicIdentification),
        0x82 => Some(ConformityLevel::RegularIdentification),
        0x83 => Some(ConformityLevel::ExtendedIdentification),
        _ => None,
    }
}

/// The byte of a conformity level.
pub open spec fn conformity_level_value(c: ConformityLevel) -> u8 {
    match c {
        ConformityLevel::BasicIdentificationStreamOnly => 0x01,
        ConformityLevel::RegularIdentificationStreamOnly => 0x02,
        ConformityLevel::ExtendedIdentificationStreamOnly => 0x03,
        ConformityLevel::BasicIdentification => 0x81,
        ConformityLevel::RegularIdentification => 0x82,
        ConformityLevel::ExtendedIdentification => 0x83,
    }
}

impl ConformityLevel {
    /// Converts a raw [`u8`] to a [`ConformityLevel`], if it is one.
    pub fn try_from_value(value: u8) -> (r: Option<Self>)
        ensures
            r == conformity_level_of(value),
    {
        match value {
            0x01 => Some(ConformityLevel::BasicIdentificationStreamOnly),
            0x02 => Some(ConformityLevel::RegularIdentificationStreamOnly),
            0x03 => Some(ConformityLevel::ExtendedIdentificationStreamOnly),
            0x81 => Some(ConformityLevel::BasicIdentification),
            0x82 => Some(ConformityLevel::RegularIdentification),
            0x83 => Some(ConformityLevel::ExtendedIdentification),
            _ => None,
        }
    }

    /// Returns the [`u8`] representation of the current [`ConformityLevel`] variant.
    pub fn value(self) -> (v: u8)
        ensures
            v == conformity_level_value(self),
    {
        match self {
            ConformityLevel::BasicIdentificationStreamOnly => 0x01,
            ConformityLevel::RegularIdentificationStreamOnly => 0x02,
            ConformityLevel::ExtendedIdentificationStreamOnly => 0x03,
            ConformityLevel::BasicIdentification => 0x81,
            ConformityLevel::RegularIdentification => 0x82,
            ConformityLevel::ExtendedIdentification => 0x83,
        }
    }
}

/// The value of a conformity level reads back as the same level, and a byte
/// that reads as a level is that level's value.
pub proof fn conformity_level_round_trip(c: ConformityLevel, value: u8)
    ensures
        conformity_level_of(conformity_level_value(c)) == Some(c),
        conformity_level_of(value) matches Some(d) ==> conformity_level_value(d) == value,
{
}

/// The conformity levels are the bytes 1 to 3 for stream access only and
/// 0x81 to 0x83 with individual access, in the order basic, regular,
/// extended; no other byte is a conformity level.
pub proof fn conformity_level_bytes(value: u8)
    ensures
        conformity_level_value(ConformityLevel::BasicIdentificationStreamOnly) == 0x01,
        conformity_level_value(ConformityLevel::RegularIdentificationStreamOnly) == 0x02,
        conformity_level_value(ConformityLevel::ExtendedIdentificationStreamOnly) == 0x03,
        conformity_level_value(ConformityLevel::BasicIdentification) == 0x81,
        conformity_level_value(ConformityLevel::RegularIdentification) == 0x82,
        conformity_level_value(ConformityLevel::ExtendedIdentification) == 0x83,
        conformity_level_of(value) is Some <==> (0x01 <= value <= 0x03 || 0x81 <= value
            <= 0x83),
        conformity_level_of(value) matches Some(c) ==> conformity_level_value(c) == value,
{
}

/// A single Modbus device identification object: an id and raw bytes,
/// often a UTF-8 text such as the vendor name.
#[derive(Debug, Clone, PartialEq, Eq)]
pub struct DeviceIdObject {
    /// Object identifier (0x00 to 0xFF).
    pub id: u8,
    /// Raw byte value associated with this object.
    pub value: Bytes,
}

impl DeviceIdObject {
    /// The value as a UTF-8 text, if it is valid UTF-8.
    pub fn value_as_str(&self) -> (s: Option<&str>)
        ensures
            s is Some <==> vstd::utf8::valid_utf8(bytes_view(self.value)),
            s matches Some(t) ==> t.spec_bytes() == bytes_view(self.value),
    {
        utf8_str(bytes_as_slice(&self.value))
    }
}

/// `std::str::from_utf8(..).ok()`: the bytes as a text when they are
/// valid UTF-8, else nothing.
#[verifier::external_body]
fn utf8_str(bytes: &[u8]) -> (s: Option<&str>)
    ensures
        s is Some <==> vstd::utf8::valid_utf8(bytes@),
        s matches Some(t) ==> t.spec_bytes() == bytes@,
{
    std::str::from_utf8(bytes).ok()
}

/// A server (slave) exception response.
#[derive(Debug, Clone, Copy, PartialEq, Eq, Structural)]
pub struct ExceptionResponse {
    /// The function of the request.
    pub function: FunctionCode,
    /// The exception.
    pub exception: ExceptionCode,
}

impl FunctionCode {
    /// The text form of the code: its value in decimal.
    pub fn to_string(&self) -> (s: String)
        ensures
            s@ == decimal_text(function_code_value(*self) as nat),
    {
        decimal_string_u16(self.value() as u16)
    }
}

impl ExceptionCode {
    /// The text form of the exception: its description.
    pub fn to_string(&self) -> (s: String)
        ensures
            s@ == exception_description(*self),
    {
        String::from_str(self.description())
    }
}

/// The text form of an exception response: the function code in decimal
/// and the description of the exception.
pub open spec fn exception_response_text(e: ExceptionResponse) -> Seq<char> {
    "Modbus function "@ + decimal_text(function_code_value(e.function) as nat) + ": "@
        + exception_description(e.exception)
}

impl ExceptionResponse {
    /// A short text that describes the exception.
    pub fn description(&self) -> (s: &'static str)
        ensures
            s@ == exception_description(self.exception),
    {
        self.exception.description()
    }

    /// The text form of the exception response.
    pub fn to_string(&self) -> (s: String)
        ensures
            s@ == exception_response_text(*self),
    {
        let mut s = String::new();
        s.append("Modbus function ");
        let code = self.function.to_string();
        s.append(code.as_str());
        s.append(": ");
        s.append(self.exception.description());
        s
    }
}

/// Represents a message from the client (slave) to the server (master).
#[derive(Debug, Clone)]
pub struct RequestPdu(pub Request);

impl vstd::std_specs::convert::FromSpecImpl<Request> for RequestPdu {
    open spec fn obeys_from_spec() -> bool {
        true
    }

    open spec fn from_spec(v: Request) -> RequestPdu {
        RequestPdu(v)
    }
}

impl From<Request> for RequestPdu {
    fn from(from: Request) -> Self {
        RequestPdu(from)
    }
}

impl vstd::std_specs::convert::FromSpecImpl<RequestPdu> for Request {
    open spec fn obeys_from_spec() -> bool {
        true
    }

    open spec fn from_spec(v: RequestPdu) -> Request {
        v.0
    }
}

impl From<RequestPdu> for Request {
    fn from(from: RequestPdu) -> Self {
        from.0
    }
}

/// Represents a message from the server (slave) to the client (master).
#[derive(Debug, Clone, PartialEq, Eq)]
pub struct ResponsePdu(pub Result<Response, ExceptionResponse>);

impl vstd::std_specs::convert::FromSpecImpl<Response> for ResponsePdu {
    open spec fn obeys_from_spec() -> bool {
        true
    }

    open spec fn from_spec(v: Response) -> ResponsePdu {
        ResponsePdu(Ok(v))
    }
}

impl From<Response> for ResponsePdu {
    fn from(from: Response) -> Self {
        ResponsePdu(Ok(from))
    }
}

impl vstd::std_specs::convert::FromSpecImpl<ExceptionResponse> for ResponsePdu {
    open spec fn obeys_from_spec() -> bool {
        true
    }

    open spec fn from_spec(v: ExceptionResponse) -> ResponsePdu {
        ResponsePdu(Err(v))
    }
}

impl From<ExceptionResponse> for ResponsePdu {
    fn from(from: ExceptionResponse) -> Self {
        ResponsePdu(Err(from))
    }
}

impl vstd::std_specs::convert::FromSpecImpl<ResponsePdu> for Result<Response, ExceptionResponse> {
    open spec fn obeys_from_spec() -> bool {
        true
    }

    open spec fn from_spec(v: ResponsePdu) -> Result<Response, ExceptionResponse> {
        v.0
    }
}

impl From<ResponsePdu> for Result<Response, ExceptionResponse> {
    fn from(from: ResponsePdu) -> Self {
        from.0
    }
}

/// What a server sends back for one request, if anything.
#[derive(Debug, Clone, PartialEq, Eq)]
pub struct OptionalResponsePdu(pub Option<ResponsePdu>);

/// The PDU that a server's result for a request turns into: nothing for
/// `Ok(None)`, the response for `Ok(Some(..))`, the exception for `Err(..)`.
pub open spec fn optional_response_pdu_of(
    r: Result<Option<Response>, ExceptionResponse>,
) -> OptionalResponsePdu {
    match r {
        Ok(None) => OptionalResponsePdu(None),
        Ok(Some(response)) => OptionalResponsePdu(Some(ResponsePdu(Ok(response)))),
        Err(exception) => OptionalResponsePdu(Some(ResponsePdu(Err(exception)))),
    }
}

impl vstd::std_specs::convert::FromSpecImpl<Result<Option<Response>, ExceptionResponse>> for
    OptionalResponsePdu {
    open spec fn obeys_from_spec() -> bool {
        true
    }

    open spec fn from_spec(v: Result<Option<Response>, ExceptionResponse>) -> OptionalResponsePdu {
        optional_response_pdu_of(v)
    }
}

impl From<Result<Option<Response>, ExceptionResponse>> for OptionalResponsePdu {
    fn from(from: Result<Option<Response>, ExceptionResponse>) -> Self {
        match from {
            Ok(None) => OptionalResponsePdu(None),
            Ok(Some(response)) => OptionalResponsePdu(Some(ResponsePdu(Ok(response)))),
            Err(exception) => OptionalResponsePdu(Some(ResponsePdu(Err(exception)))),
        }
    }
}

} // verus!
