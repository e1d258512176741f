//! Modbus TCP framing: the MBAP header (transaction id, protocol id,
//! length, unit id) and the PDU.

use vstd::prelude::*;

use bytes::{Bytes, BytesMut};

use super::{
    be16, decode_response_result, encodable_exception, request_bytes, request_pdu_bytes,
    request_pdu_len, response_pdu_bytes, response_result_bytes, response_result_view, u16_at,
    CodecError, MAX_PDU_SIZE,
};
use crate::buffers::{
    bytes_as_slice, bytes_mut_as_slice, bytes_mut_view, bytes_view, freeze, has_room, put_slice,
    put_u16, put_u8, read_u16_be, split_to,
};
use crate::frame::tcp::{Header, RequestAdu, ResponseAdu};
use crate::frame::ResponsePdu;

verus! {

/// The length of the MBAP header.
pub const HEADER_LEN: usize = 7;

/// The protocol identifier of Modbus.
pub const PROTOCOL_ID: u16 = 0x0000;

/// The frame that starts the buffer and the bytes left after it: `None`
/// while incomplete; an error for a length of zero (nothing taken) or for
/// another protocol (the header taken); else the header and the PDU.
pub open spec fn tcp_frame(b: Seq<u8>) -> (Result<Option<(Header, Seq<u8>)>, CodecError>, Seq<u8>) {
    if b.len() < HEADER_LEN {
        (Ok(None), b)
    } else if u16_at(b, 4) == 0 {
        (Err(CodecError::InvalidDataLength(0)), b)
    } else if b.len() < HEADER_LEN + u16_at(b, 4) - 1 {
        (Ok(None), b)
    } else if u16_at(b, 2) != PROTOCOL_ID {
        (Err(CodecError::InvalidProtocolId(u16_at(b, 2))), b.subrange(7, b.len() as int))
    } else {
        (
            Ok(
                Some(
                    (
                        Header { transaction_id: u16_at(b, 0), unit_id: b[6] },
                        b.subrange(7, 6 + u16_at(b, 4)),
                    ),
                ),
            ),
            b.subrange(6 + u16_at(b, 4), b.len() as int),
        )
    }
}

/// The bytes of a TCP frame after what the buffer holds: the header with
/// protocol id zero and the length of the PDU plus the unit id, then the PDU.
pub open spec fn tcp_framed(before: Seq<u8>, hdr: Header, pdu: Seq<u8>) -> Seq<u8> {
    before + be16(hdr.transaction_id) + be16(PROTOCOL_ID) + be16((pdu.len() + 1) as u16) + seq![
        hdr.unit_id,
    ] + pdu
}

/// Splits MBAP frames off a buffer.
#[derive(Debug, Default, PartialEq)]
pub struct AduDecoder;

impl AduDecoder {
    /// Takes the frame that starts the buffer.
    pub fn decode(&mut self, buf: &mut BytesMut) -> (r: Result<Option<(Header, Bytes)>, CodecError>)
        ensures
            ({
                let (frame, rest) = tcp_frame(bytes_mut_view(*old(buf)));
                &&& bytes_mut_view(*final(buf)) == rest
                &&& match frame {
                    Err(e) => r == Err::<Option<(Header, Bytes)>, CodecError>(e),
                    Ok(None) => r is Ok && r->Ok_0 is None,
                    Ok(Some((hdr, pdu))) => r matches Ok(Some((h, data))) && h == hdr
                        && bytes_view(data) == pdu,
                }
            }),
    {
        let b = bytes_mut_as_slice(buf);
        if b.len() < HEADER_LEN {
            return Ok(None);
        }
        let len = read_u16_be(b, 4) as usize;
        if len == 0 {
            return Err(CodecError::InvalidDataLength(0));
        }
        let pdu_len = len - 1;
        if b.len() < HEADER_LEN + pdu_len {
            return Ok(None);
        }
        let header_data = split_to(buf, HEADER_LEN);
        let h = bytes_mut_as_slice(&header_data);
        let protocol_id = read_u16_be(h, 2);
        if protocol_id != PROTOCOL_ID {
            return Err(CodecError::InvalidProtocolId(protocol_id));
        }
        let transaction_id = read_u16_be(h, 0);
        let unit_id = h[6];
        let header = Header { transaction_id, unit_id };
        let pdu_data = freeze(split_to(buf, pdu_len));
        assert(bytes_view(pdu_data) =~= bytes_mut_view(*old(buf)).subrange(7, 7 + pdu_len));
        assert(bytes_mut_view(*buf) =~= bytes_mut_view(*old(buf)).subrange(
            7 + pdu_len,
            bytes_mut_view(*old(buf)).len() as int,
        ));
        Ok(Some((header, pdu_data)))
    }
}

/// Appends the header and the PDU.
fn put_frame(buf: &mut BytesMut, hdr: Header, pdu_data: &Bytes)
    requires
        bytes_view(*pdu_data).len() <= MAX_PDU_SIZE + 1,
        has_room(*old(buf), 270),
    ensures
        bytes_mut_view(*final(buf)) == tcp_framed(
            bytes_mut_view(*old(buf)),
            hdr,
            bytes_view(*pdu_data),
        ),
{
    let pdu = bytes_as_slice(pdu_data);
    put_u16(buf, hdr.transaction_id);
    put_u16(buf, PROTOCOL_ID);
    put_u16(buf, (pdu.len() + 1) as u16);
    put_u8(buf, hdr.unit_id);
    put_slice(buf, pdu);
    assert(bytes_mut_view(*buf) =~= tcp_framed(
        bytes_mut_view(*old(buf)),
        hdr,
        bytes_view(*pdu_data),
    ));
}

/// Reads response frames and writes request frames.
#[derive(Debug, Default, PartialEq)]
pub struct ClientCodec {
    /// The frame decoder.
    pub decoder: AduDecoder,
}

/// Reads request frames and writes response frames.
#[derive(Debug, Default, PartialEq)]
pub struct ServerCodec {
    /// The frame decoder.
    pub decoder: AduDecoder,
}

impl ClientCodec {
    /// A client codec.
    pub fn new() -> (c: Self)
        ensures
            c == (ClientCodec { decoder: AduDecoder }),
    {
        ClientCodec { decoder: AduDecoder }
    }

    /// Takes the next response frame from the buffer and decodes its PDU.
    pub fn decode(&mut self, buf: &mut BytesMut) -> (r: Result<Option<ResponseAdu>, CodecError>)
        ensures
            ({
                let (frame, rest) = tcp_frame(bytes_mut_view(*old(buf)));
                &&& bytes_mut_view(*final(buf)) == rest
                &&& match frame {
                    Err(e) => r == Err::<Option<ResponseAdu>, CodecError>(e),
                    Ok(None) => r is Ok && r->Ok_0 is None,
                    Ok(Some((hdr, pdu))) => match decode_response_result(pdu) {
                        Err(e) => r == Err::<Option<ResponseAdu>, CodecError>(e),
                        Ok(result) => r matches Ok(Some(adu)) && adu.hdr == hdr
                            && response_result_view(adu.pdu.0) == result,
                    },
                }
            }),
    {
        match self.decoder.decode(buf)? {
            None => Ok(None),
            Some((hdr, pdu_data)) => {
                let pdu = ResponsePdu::try_from_bytes(pdu_data)?;
                Ok(Some(ResponseAdu { hdr, pdu }))
            },
        }
    }

    /// Appends the request frame to the buffer, or refuses a request that
    /// asks to disconnect or whose PDU is too large.
    pub fn encode(&mut self, adu: RequestAdu, buf: &mut BytesMut) -> (r: Result<(), CodecError>)
        requires
            has_room(*old(buf), 270),
        ensures
            adu.disconnect ==> r == Err::<(), CodecError>(CodecError::Disconnecting)
                && bytes_mut_view(*final(buf)) == bytes_mut_view(*old(buf)),
            !adu.disconnect && request_pdu_len(adu.pdu.0@) > MAX_PDU_SIZE ==> r == Err::<
                (),
                CodecError,
            >(CodecError::RequestPduSizeExceeded) && bytes_mut_view(*final(buf))
                == bytes_mut_view(*old(buf)),
            !adu.disconnect && request_pdu_len(adu.pdu.0@) <= MAX_PDU_SIZE ==> r is Ok
                && bytes_mut_view(*final(buf)) == tcp_framed(
                bytes_mut_view(*old(buf)),
                adu.hdr,
                request_bytes(adu.pdu.0@),
            ),
    {
        if adu.disconnect {
            return Err(CodecError::Disconnecting);
        }
        let RequestAdu { hdr, pdu, .. } = adu;
        let pdu_data = request_pdu_bytes(&pdu.0)?;
        proof {
            super::laws::encoded_request_len(pdu.0@);
        }
        put_frame(buf, hdr, &pdu_data);
        Ok(())
    }
}

impl ServerCodec {
    /// A server codec.
    pub fn new() -> (c: Self)
        ensures
            c == (ServerCodec { decoder: AduDecoder }),
    {
        ServerCodec { decoder: AduDecoder }
    }

    /// Takes the next request frame from the buffer: the header and the PDU
    /// bytes, which [`crate::frame::RequestPdu::try_from_bytes`] decodes.
    pub fn decode_frame(&mut self, buf: &mut BytesMut) -> (r: Result<
        Option<(Header, Bytes)>,
        CodecError,
    >)
        ensures
            ({
                let (frame, rest) = tcp_frame(bytes_mut_view(*old(buf)));
                &&& bytes_mut_view(*final(buf)) == rest
                &&& match frame {
                    Err(e) => r == Err::<Option<(Header, Bytes)>, CodecError>(e),
                    Ok(None) => r is Ok && r->Ok_0 is None,
                    Ok(Some((hdr, pdu))) => r matches Ok(Some((h, data))) && h == hdr
                        && bytes_view(data) == pdu,
                }
            }),
    {
        self.decoder.decode(buf)
    }

    /// Appends the response frame to the buffer, or refuses a response whose
    /// PDU is too large.
    pub fn encode(&mut self, adu: ResponseAdu, buf: &mut BytesMut) -> (r: Result<(), CodecError>)
        requires
            adu.pdu.0 matches Err(e) ==> encodable_exception(e),
            has_room(*old(buf), 270),
        ensures
            r is Ok <==> (adu.pdu.0 matches Ok(response) ==> super::response_pdu_len(response@)
                <= MAX_PDU_SIZE),
            r matches Err(e) ==> e == CodecError::ResponsePduSizeExceeded && bytes_mut_view(
                *final(buf),
            ) == bytes_mut_view(*old(buf)),
            r is Ok ==> bytes_mut_view(*final(buf)) == tcp_framed(
                bytes_mut_view(*old(buf)),
                adu.hdr,
                response_result_bytes(adu.pdu.0),
            ),
    {
        let ResponseAdu { hdr, pdu } = adu;
        let pdu_data = response_pdu_bytes(&pdu)?;
        proof {
            super::laws::encoded_response_result_len(pdu.0);
        }
        put_frame(buf, hdr, &pdu_data);
        Ok(())
    }
}

} // verus!
