//! The byte form of messages, and the TCP frames that carry them.

use vstd::prelude::*;

use bytes::{Bytes, BytesMut};

use super::{
    bool_to_coil, exception_value, pack_coils, req_to_fn_code, request_code, res_to_fn_code,
    response_code, ExceptionResponse, Pdu, Request, Response,
};
use crate::buffers::{
    bytes_as_slice, bytes_mut_new, bytes_mut_view, bytes_view, freeze, has_room, max_buffer_len,
    put_slice, put_u16, put_u8,
};
use crate::codec::{be16, coil_word, packed_coils, packed_len, put_words, words_bytes};
use crate::frame::tcp;

verus! {

/// The bytes after the function code of a request. Counts are cut to
/// their low 16 or 8 bits.
pub open spec fn request_data(r: Request) -> Seq<u8> {
    match r {
        Request::ReadCoils(address, quantity) => be16(address) + be16(quantity),
        Request::ReadDiscreteInputs(address, quantity) => be16(address) + be16(quantity),
        Request::ReadInputRegisters(address, quantity) => be16(address) + be16(quantity),
        Request::ReadHoldingRegisters(address, quantity) => be16(address) + be16(quantity),
        Request::WriteSingleCoil(address, state) => be16(address) + be16(coil_word(state)),
        Request::WriteMultipleCoils(address, coils) => be16(address) + be16(
            coils@.len() as u16,
        ) + seq![packed_len(coils@.len()) as u8] + packed_coils(coils@),
        Request::WriteSingleRegister(address, word) => be16(address) + be16(word),
        Request::WriteMultipleRegisters(address, words) => be16(address) + be16(
            words@.len() as u16,
        ) + words_bytes(words@),
        Request::ReadWriteMultipleRegisters(read_address, quantity, write_address, words) => be16(
            read_address,
        ) + be16(quantity) + be16(write_address) + words_bytes(words@),
        Request::Custom(_, data) => data@,
    }
}

/// The bytes of a request: its function code, then its data.
pub open spec fn request_bytes(r: Request) -> Seq<u8> {
    seq![request_code(r)] + request_data(r)
}

/// The bytes after the function code of a response. Byte counts are cut
/// to their low 8 bits.
pub open spec fn response_data(r: Response) -> Seq<u8> {
    match r {
        Response::ReadCoils(coils) => seq![packed_len(coils@.len()) as u8] + packed_coils(coils@),
        Response::ReadDiscreteInputs(coils) => seq![packed_len(coils@.len()) as u8]
            + packed_coils(coils@),
        Response::ReadInputRegisters(words) => seq![(2 * words@.len()) as u8] + words_bytes(
            words@,
        ),
        Response::ReadHoldingRegisters(words) => seq![(2 * words@.len()) as u8] + words_bytes(
            words@,
        ),
        Response::ReadWriteMultipleRegisters(words) => seq![(2 * words@.len()) as u8]
            + words_bytes(words@),
        Response::WriteSingleCoil(address) => be16(address),
        Response::WriteMultipleCoils(address, quantity) => be16(address) + be16(quantity),
        Response::WriteMultipleRegisters(address, quantity) => be16(address) + be16(quantity),
        Response::WriteSingleRegister(address, word) => be16(address) + be16(word),
        Response::Custom(_, data) => data@,
    }
}

/// The bytes of a response: its function code, then its data.
pub open spec fn response_bytes(r: Response) -> Seq<u8> {
    seq![response_code(r)] + response_data(r)
}

/// The bytes of an exception response: the function code plus `0x80`
/// (wrapping around past `0xFF`), then the exception.
pub open spec fn exception_response_bytes(e: ExceptionResponse) -> Seq<u8> {
    let code = if e.function < 0x80 {
        e.function + 0x80
    } else {
        e.function - 0x80
    };
    seq![code as u8, exception_value(e.exception)]
}

/// The bytes of a message.
pub open spec fn pdu_bytes(p: Pdu) -> Seq<u8> {
    match p {
        Pdu::Request(r) => request_bytes(r),
        Pdu::Result(Ok(r)) => response_bytes(r),
        Pdu::Result(Err(e)) => exception_response_bytes(e),
    }
}

impl Request {
    /// The bytes of the request.
    pub fn into_bytes(self) -> (b: Bytes)
        requires
            request_bytes(self).len() <= max_buffer_len(),
        ensures
            bytes_view(b) == request_bytes(self),
    {
        let ghost whole = request_bytes(self);
        let mut data = bytes_mut_new();
        put_u8(&mut data, req_to_fn_code(&self));
        match self {
            Request::ReadCoils(address, quantity)
            | Request::ReadDiscreteInputs(address, quantity)
            | Request::ReadInputRegisters(address, quantity)
            | Request::ReadHoldingRegisters(address, quantity) => {
                put_u16(&mut data, address);
                put_u16(&mut data, quantity);
            },
            Request::WriteSingleCoil(address, state) => {
                put_u16(&mut data, address);
                put_u16(&mut data, bool_to_coil(state));
            },
            Request::WriteMultipleCoils(address, coils) => {
                put_u16(&mut data, address);
                let len = coils.len();
                put_u16(&mut data, #[verifier::truncate] (len as u16));
                let packed_coils = pack_coils(coils.as_slice());
                put_u8(&mut data, #[verifier::truncate] (packed_coils.len() as u8));
                put_slice(&mut data, packed_coils.as_slice());
            },
            Request::WriteSingleRegister(address, word) => {
                put_u16(&mut data, address);
                put_u16(&mut data, word);
            },
            Request::WriteMultipleRegisters(address, words) => {
                put_u16(&mut data, address);
                let len = words.len();
                put_u16(&mut data, #[verifier::truncate] (len as u16));
                put_words(&mut data, words.as_slice());
            },
            Request::ReadWriteMultipleRegisters(read_address, quantity, write_address, words) => {
                put_u16(&mut data, read_address);
                put_u16(&mut data, quantity);
                put_u16(&mut data, write_address);
                put_words(&mut data, words.as_slice());
            },
            Request::Custom(_, custom_data) => {
                put_slice(&mut data, custom_data.as_slice());
            },
        }
        assert(bytes_mut_view(data) =~= whole);
        freeze(data)
    }
}

impl Response {
    /// The bytes of the response.
    pub fn into_bytes(self) -> (b: Bytes)
        requires
            response_bytes(self).len() <= max_buffer_len(),
        ensures
            bytes_view(b) == response_bytes(self),
    {
        let ghost whole = response_bytes(self);
        let mut data = bytes_mut_new();
        put_u8(&mut data, res_to_fn_code(&self));
        match self {
            Response::ReadCoils(coils) | Response::ReadDiscreteInputs(coils) => {
                let packed_coils = pack_coils(coils.as_slice());
                put_u8(&mut data, #[verifier::truncate] (packed_coils.len() as u8));
                put_slice(&mut data, packed_coils.as_slice());
            },
            Response::ReadInputRegisters(registers)
            | Response::ReadHoldingRegisters(registers)
            | Response::ReadWriteMultipleRegisters(registers) => {
                assert(words_bytes(registers@).len() == 2 * registers@.len());
                put_u8(&mut data, #[verifier::truncate] ((registers.len() * 2) as u8));
                put_words(&mut data, registers.as_slice());
            },
            Response::WriteSingleCoil(address) => {
                put_u16(&mut data, address);
            },
            Response::WriteMultipleCoils(address, quantity)
            | Response::WriteMultipleRegisters(address, quantity) => {
                put_u16(&mut data, address);
                put_u16(&mut data, quantity);
            },
            Response::WriteSingleRegister(address, word) => {
                put_u16(&mut data, address);
                put_u16(&mut data, word);
            },
            Response::Custom(_, custom_data) => {
                put_slice(&mut data, custom_data.as_slice());
            },
        }
        assert(bytes_mut_view(data) =~= whole);
        freeze(data)
    }
}

impl ExceptionResponse {
    /// The bytes of the exception response.
    pub fn into_bytes(self) -> (b: Bytes)
        ensures
            bytes_view(b) == exception_response_bytes(self),
    {
        let mut data = bytes_mut_new();
        put_u8(&mut data, self.function.wrapping_add(0x80));
        put_u8(&mut data, self.exception.value());
        assert(bytes_mut_view(data) =~= exception_response_bytes(self));
        freeze(data)
    }
}

impl Pdu {
    /// The bytes of the message.
    pub fn into_bytes(self) -> (b: Bytes)
        requires
            pdu_bytes(self).len() <= max_buffer_len(),
        ensures
            bytes_view(b) == pdu_bytes(self),
    {
        match self {
            Pdu::Request(req) => req.into_bytes(),
            Pdu::Result(res) => match res {
                Ok(res) => res.into_bytes(),
                Err(ex) => ex.into_bytes(),
            },
        }
    }
}

/// The protocol identifier of a TCP frame.
pub const TCP_PROTOCOL_ID: u16 = 0x0;

/// An application data unit: a message with the header of its transport.
#[derive(Debug, Clone, PartialEq, Eq)]
pub enum Adu {
    /// A TCP frame.
    Tcp(tcp::Header, Pdu),
}

/// The bytes of a TCP frame: transaction id, protocol id, the length of
/// what follows (cut to 16 bits), unit id, and the message.
pub open spec fn tcp_adu_bytes(header: tcp::Header, pdu: Seq<u8>) -> Seq<u8> {
    be16(header.transaction_id) + be16(TCP_PROTOCOL_ID) + be16((pdu.len() + 1) as u16) + seq![
        header.unit_id,
    ] + pdu
}

/// The bytes of a frame.
pub open spec fn adu_bytes(adu: Adu) -> Seq<u8> {
    match adu {
        Adu::Tcp(header, pdu) => tcp_adu_bytes(header, pdu_bytes(pdu)),
    }
}

/// Writes frames into a byte buffer.
#[derive(Debug, Clone, Copy, PartialEq, Eq, Structural)]
pub struct Encoder;

impl Encoder {
    /// Appends the bytes of the frame to `buf`; this never fails.
    pub fn encode(&mut self, adu: Adu, buf: &mut BytesMut) -> (r: Result<(), std::io::Error>)
        requires
            has_room(*old(buf), adu_bytes(adu).len()),
        ensures
            r is Ok,
            bytes_mut_view(*final(buf)) == bytes_mut_view(*old(buf)) + adu_bytes(adu),
    {
        match adu {
            Adu::Tcp(header, pdu) => {
                let ghost before = bytes_mut_view(*buf);
                let pdu: Bytes = pdu.into_bytes();
                let pdu_data = bytes_as_slice(&pdu);
                assert(adu_bytes(adu).len() >= pdu_data@.len());
                put_u16(buf, header.transaction_id);
                put_u16(buf, TCP_PROTOCOL_ID);
                put_u16(buf, #[verifier::truncate] ((pdu_data.len() + 1) as u16));
                put_u8(buf, header.unit_id);
                put_slice(buf, pdu_data);
                assert(bytes_mut_view(*buf) =~= before + tcp_adu_bytes(header, bytes_view(pdu)));
            },
        }
        Ok(())
    }
}

} // verus!
