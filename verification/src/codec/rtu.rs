//! Modbus RTU framing: a slave id, the PDU and a CRC-16 checksum.

use vstd::prelude::*;

use bytes::{Bytes, BytesMut};

use super::{
    decode_response_result, request_bytes, request_pdu_bytes, request_pdu_len,
    response_pdu_bytes, response_result_bytes, response_result_view, u16_at, CodecError,
    encodable_exception, MAX_PDU_SIZE,
};
use crate::buffers::{
    advance, bytes_as_slice, bytes_mut_as_slice, bytes_mut_view, bytes_view, freeze, has_room,
    put_slice, put_u16, put_u8, read_u16_be, split_to,
};
use crate::frame::rtu::{Header, RequestAdu, ResponseAdu};
use crate::frame::{ExceptionResponse, RequestView, ResponsePdu, ResponseView};
use crate::dropped::{
    dropped_clear, dropped_len, dropped_new, dropped_push, small_vec_bytes, DroppedBytes,
};
use crate::slave::SlaveId;

verus! {

/// The maximum size of a Modbus RTU frame.
pub const MAX_FRAME_LEN: usize = 256;

/// How often a frame decoder drops a byte and tries again before it gives up.
pub const MAX_RETRIES: usize = 20;

// ---------------------------------------------------------------------------
// CRC-16 (Modbus)
// ---------------------------------------------------------------------------

/// One step of the CRC: shift right, and add the polynomial `0xA001` when
/// a one was shifted out.
pub open spec fn crc_shift(crc: u16) -> u16 {
    if crc & 1u16 != 0 {
        (crc >> 1u16) ^ 0xA001u16
    } else {
        crc >> 1u16
    }
}

/// `k` steps of the CRC.
pub open spec fn crc_steps(crc: u16, k: nat) -> u16
    decreases k,
{
    if k == 0 {
        crc
    } else {
        crc_steps(crc_shift(crc), (k - 1) as nat)
    }
}

/// The CRC register after the bytes, starting from `0xFFFF`.
pub open spec fn crc_register(data: Seq<u8>) -> u16
    decreases data.len(),
{
    if data.len() == 0 {
        0xFFFF
    } else {
        crc_steps(crc_register(data.drop_last()) ^ (data.last() as u16), 8)
    }
}

/// The CRC-16 of the bytes, as the big-endian number whose bytes are sent:
/// the register with its two bytes swapped.
pub open spec fn crc16(data: Seq<u8>) -> u16 {
    let c = crc_register(data);
    (c << 8u16) | (c >> 8u16)
}

/// The CRC-16 of the bytes.
pub fn calc_crc(data: &[u8]) -> (crc: u16)
    ensures
        crc == crc16(data@),
{
    let mut crc: u16 = 0xFFFF;
    let n = data.len();
    let mut i: usize = 0;
    while i < n
        invariant
            i <= n,
            n == data@.len(),
            crc == crc_register(data@.take(i as int)),
        decreases n - i,
    {
        let x = data[i];
        crc = crc ^ (x as u16);
        let ghost start = crc;
        let mut k: u8 = 0;
        while k < 8
            invariant
                k <= 8,
                crc_steps(start, 8) == crc_steps(crc, (8 - k) as nat),
            decreases 8 - k,
        {
            let crc_odd = (crc & 0x0001) != 0;
            crc = crc >> 1;
            if crc_odd {
                crc = crc ^ 0xA001;
            }
            k = k + 1;
        }
        assert(data@.take(i + 1).drop_last() =~= data@.take(i as int));
        i = i + 1;
    }
    assert(data@.take(n as int) =~= data@);
    (crc << 8) | (crc >> 8)
}

/// An error unless `expected_crc` is the CRC-16 of the bytes.
pub fn check_crc(adu_data: &[u8], expected_crc: u16) -> (r: Result<(), CodecError>)
    ensures
        r is Ok <==> expected_crc == crc16(adu_data@),
        r matches Err(e) ==> e == (CodecError::InvalidCrc {
            expected: expected_crc,
            actual: crc16(adu_data@),
        }),
{
    let actual_crc = calc_crc(adu_data);
    if expected_crc != actual_crc {
        return Err(CodecError::InvalidCrc { expected: expected_crc, actual: actual_crc });
    }
    Ok(())
}

// ---------------------------------------------------------------------------
// The length of a PDU from its first bytes
// ---------------------------------------------------------------------------

/// The length of the request PDU in an RTU frame that starts the buffer:
/// `None` while too few bytes are there to tell, an error for a function
/// code without a known length.
pub open spec fn request_pdu_len_of(b: Seq<u8>) -> Result<Option<nat>, CodecError> {
    if b.len() < 2 {
        Ok(None)
    } else {
        let fc = b[1];
        if 0x01 <= fc <= 0x06 {
            Ok(Some(5))
        } else if fc == 0x07 || fc == 0x0B || fc == 0x0C || fc == 0x11 {
            Ok(Some(1))
        } else if fc == 0x0F || fc == 0x10 {
            if b.len() > 6 {
                Ok(Some((6 + b[6]) as nat))
            } else {
                Ok(None)
            }
        } else if fc == 0x16 {
            Ok(Some(7))
        } else if fc == 0x18 {
            Ok(Some(3))
        } else if fc == 0x17 {
            if b.len() > 10 {
                Ok(Some((10 + b[10]) as nat))
            } else {
                Ok(None)
            }
        } else {
            Err(CodecError::InvalidFunctionCode(fc))
        }
    }
}

/// The length of the response PDU in an RTU frame that starts the buffer:
/// `None` while too few bytes are there to tell, an error for a function
/// code without a known length.
pub open spec fn response_pdu_len_of(b: Seq<u8>) -> Result<Option<nat>, CodecError> {
    if b.len() < 2 {
        Ok(None)
    } else {
        let fc = b[1];
        if (0x01 <= fc <= 0x04) || fc == 0x0C || fc == 0x17 {
            if b.len() > 2 {
                Ok(Some((2 + b[2]) as nat))
            } else {
                Ok(None)
            }
        } else if fc == 0x05 || fc == 0x06 || fc == 0x0B || fc == 0x0F || fc == 0x10 {
            Ok(Some(5))
        } else if fc == 0x07 {
            Ok(Some(2))
        } else if fc == 0x16 {
            Ok(Some(7))
        } else if fc == 0x18 {
            if b.len() > 3 {
                Ok(Some((3 + u16_at(b, 2)) as nat))
            } else {
                Ok(None)
            }
        } else if 0x81 <= fc <= 0xAB {
            Ok(Some(2))
        } else {
            Err(CodecError::InvalidFunctionCode(fc))
        }
    }
}

/// The length of the request PDU in the RTU frame that starts the buffer.
pub fn get_request_pdu_len(adu_buf: &[u8]) -> (r: Result<Option<usize>, CodecError>)
    ensures
        match r {
            Ok(Some(n)) => request_pdu_len_of(adu_buf@) == Ok::<Option<nat>, CodecError>(
                Some(n as nat),
            ),
            Ok(None) => request_pdu_len_of(adu_buf@) == Ok::<Option<nat>, CodecError>(None),
            Err(e) => request_pdu_len_of(adu_buf@) == Err::<Option<nat>, CodecError>(e),
        },
{
    if adu_buf.len() < 2 {
        return Ok(None);
    }
    let fn_code = adu_buf[1];
    let len: usize = if 0x01 <= fn_code && fn_code <= 0x06 {
        5
    } else if fn_code == 0x07 || fn_code == 0x0B || fn_code == 0x0C || fn_code == 0x11 {
        1
    } else if fn_code == 0x0F || fn_code == 0x10 {
        if adu_buf.len() > 6 {
            6 + adu_buf[6] as usize
        } else {
            return Ok(None);
        }
    } else if fn_code == 0x16 {
        7
    } else if fn_code == 0x18 {
        3
    } else if fn_code == 0x17 {
        if adu_buf.len() > 10 {
            10 + adu_buf[10] as usize
        } else {
            return Ok(None);
        }
    } else {
        return Err(CodecError::InvalidFunctionCode(fn_code));
    };
    Ok(Some(len))
}

/// The length of the response PDU in the RTU frame that starts the buffer.
pub fn get_response_pdu_len(adu_buf: &[u8]) -> (r: Result<Option<usize>, CodecError>)
    ensures
        match r {
            Ok(Some(n)) => response_pdu_len_of(adu_buf@) == Ok::<Option<nat>, CodecError>(
                Some(n as nat),
            ),
            Ok(None) => response_pdu_len_of(adu_buf@) == Ok::<Option<nat>, CodecError>(None),
            Err(e) => response_pdu_len_of(adu_buf@) == Err::<Option<nat>, CodecError>(e),
        },
        adu_buf@.len() >= 2 && 0x81 <= adu_buf@[1] <= 0xAB ==> r == Ok::<
            Option<usize>,
            CodecError,
        >(Some(2)),
{
    if adu_buf.len() < 2 {
        return Ok(None);
    }
    let fn_code = adu_buf[1];
    let len: usize = if (0x01 <= fn_code && fn_code <= 0x04) || fn_code == 0x0C || fn_code
        == 0x17 {
        if adu_buf.len() > 2 {
            2 + adu_buf[2] as usize
        } else {
            return Ok(None);
        }
    } else if fn_code == 0x05 || fn_code == 0x06 || fn_code == 0x0B || fn_code == 0x0F || fn_code
        == 0x10 {
        5
    } else if fn_code == 0x07 {
        2
    } else if fn_code == 0x16 {
        7
    } else if fn_code == 0x18 {
        if adu_buf.len() > 3 {
            3 + read_u16_be(adu_buf, 2) as usize
        } else {
            return Ok(None);
        }
    } else if 0x81 <= fn_code && fn_code <= 0xAB {
        2
    } else {
        return Err(CodecError::InvalidFunctionCode(fn_code));
    };
    Ok(Some(len))
}

// ---------------------------------------------------------------------------
// Frames
// ---------------------------------------------------------------------------

/// The frame with a PDU of `pdu_len` bytes that starts the buffer: `None`
/// while incomplete, an error if the checksum is wrong, else the slave id
/// and the PDU.
pub open spec fn frame_at(b: Seq<u8>, pdu_len: nat) -> Result<Option<(u8, Seq<u8>)>, CodecError> {
    let n = pdu_len as int;
    if b.len() < n + 3 {
        Ok(None)
    } else if u16_at(b, n + 1) != crc16(b.take(n + 1)) {
        Err(
            CodecError::InvalidCrc {
                expected: u16_at(b, n + 1),
                actual: crc16(b.take(n + 1)),
            },
        )
    } else {
        Ok(Some((b[0], b.subrange(1, n + 1))))
    }
}

/// Which PDU a frame decoder expects.
#[derive(Debug, Clone, Copy, PartialEq, Eq, Structural)]
pub enum PduKind {
    /// A server reads requests.
    Request,
    /// A client reads responses.
    Response,
}

/// The PDU length of the frame that starts the buffer.
pub open spec fn pdu_len_of(kind: PduKind, b: Seq<u8>) -> Result<Option<nat>, CodecError> {
    match kind {
        PduKind::Request => request_pdu_len_of(b),
        PduKind::Response => response_pdu_len_of(b),
    }
}

/// One attempt to read the frame that starts the buffer.
pub open spec fn attempt(kind: PduKind, b: Seq<u8>) -> Result<Option<(u8, Seq<u8>)>, CodecError> {
    match pdu_len_of(kind, b) {
        Err(e) => Err(e),
        Ok(None) => Ok(None),
        Ok(Some(n)) => frame_at(b, n),
    }
}

/// The number of bytes that a successful attempt takes from the buffer.
pub open spec fn attempt_len(kind: PduKind, b: Seq<u8>) -> nat {
    match pdu_len_of(kind, b) {
        Ok(Some(n)) => n + 3,
        _ => 0,
    }
}

/// The bytes a frame decoder keeps of what it dropped, after dropping `x`:
/// it forgets them all once it has kept [`MAX_FRAME_LEN`] of them.
pub open spec fn record_dropped(dropped: Seq<u8>, x: u8) -> Seq<u8> {
    if dropped.len() >= MAX_FRAME_LEN {
        seq![x]
    } else {
        dropped.push(x)
    }
}

/// The outcome of decoding a frame with `tries` attempts left, from the
/// buffer `b` and the dropped bytes kept so far: the frame (or none yet, or
/// the error), the buffer left and the dropped bytes kept. After a failed
/// attempt the first byte is dropped and the next attempt starts behind it.
pub open spec fn decode_attempts(kind: PduKind, b: Seq<u8>, dropped: Seq<u8>, tries: nat) -> (
    Result<Option<(u8, Seq<u8>)>, CodecError>,
    Seq<u8>,
    Seq<u8>,
)
    decreases tries,
{
    if tries == 0 {
        (Err(CodecError::TooManyRetries), b, dropped)
    } else {
        match attempt(kind, b) {
            Err(_) => decode_attempts(
                kind,
                b.drop_first(),
                record_dropped(dropped, b[0]),
                (tries - 1) as nat,
            ),
            Ok(None) => (Ok(None), b, dropped),
            Ok(Some(frame)) => (
                Ok(Some(frame)),
                b.subrange(attempt_len(kind, b) as int, b.len() as int),
                Seq::empty(),
            ),
        }
    }
}

/// The slave id and PDU of a decoded frame.
pub open spec fn frame_view(r: Result<Option<(SlaveId, Bytes)>, CodecError>) -> Result<
    Option<(u8, Seq<u8>)>,
    CodecError,
> {
    match r {
        Ok(Some((id, pdu))) => Ok(Some((id, bytes_view(pdu)))),
        Ok(None) => Ok(None),
        Err(e) => Err(e),
    }
}

/// An attempt fails only on a buffer of two bytes or more.
pub(crate) proof fn lemma_attempt_err_nonempty(kind: PduKind, b: Seq<u8>)
    requires
        attempt(kind, b) is Err,
    ensures
        b.len() >= 2,
{
}

/// Decodes RTU frames, keeping the bytes that it dropped to find one.
#[derive(Debug, Default, Eq, PartialEq)]
pub struct FrameDecoder {
    dropped_bytes: DroppedBytes,
}

impl FrameDecoder {
    /// The bytes dropped since the last frame, as far as they are kept.
    pub closed spec fn dropped(&self) -> Seq<u8> {
        small_vec_bytes(self.dropped_bytes)
    }

    /// A decoder that has dropped nothing.
    pub fn new() -> (d: Self)
        ensures
            d.dropped() == Seq::<u8>::empty(),
    {
        FrameDecoder { dropped_bytes: dropped_new() }
    }

    /// Takes the frame with a PDU of `pdu_len` bytes from the start of the
    /// buffer, if it is complete and its checksum is right; the buffer is
    /// left as it was otherwise.
    pub fn decode(&mut self, buf: &mut BytesMut, pdu_len: usize) -> (r: Result<
        Option<(SlaveId, Bytes)>,
        CodecError,
    >)
        requires
            pdu_len + 3 <= usize::MAX,
        ensures
            frame_view(r) == frame_at(bytes_mut_view(*old(buf)), pdu_len as nat),
            r matches Ok(Some(_)) ==> bytes_mut_view(*final(buf)) == bytes_mut_view(
                *old(buf),
            ).subrange(pdu_len + 3, bytes_mut_view(*old(buf)).len() as int)
                && final(self).dropped() == Seq::<u8>::empty(),
            !(r matches Ok(Some(_))) ==> bytes_mut_view(*final(buf)) == bytes_mut_view(*old(buf))
                && final(self).dropped() == old(self).dropped(),
    {
        let adu_len = 1 + pdu_len;
        let b = bytes_mut_as_slice(buf);
        if b.len() < adu_len + 2 {
            return Ok(None);
        }
        let expected = read_u16_be(b, adu_len);
        let adu_data: &[u8] = &b[0..adu_len];
        assert(adu_data@ == b@.take(adu_len as int));
        check_crc(adu_data, expected)?;
        dropped_clear(&mut self.dropped_bytes);
        let mut adu_buf = split_to(buf, adu_len);
        let _crc_buf = split_to(buf, 2);
        let head = split_to(&mut adu_buf, 1);
        let slave_id = bytes_mut_as_slice(&head)[0];
        let pdu_data = freeze(adu_buf);
        assert(bytes_view(pdu_data) =~= bytes_mut_view(*old(buf)).subrange(1, pdu_len + 1));
        assert(bytes_mut_view(*buf) =~= bytes_mut_view(*old(buf)).subrange(
            pdu_len + 3,
            bytes_mut_view(*old(buf)).len() as int,
        ));
        Ok(Some((slave_id, pdu_data)))
    }

    /// Drops the first byte of the buffer and keeps it.
    pub fn recover_on_error(&mut self, buf: &mut BytesMut)
        requires
            bytes_mut_view(*old(buf)).len() > 0,
        ensures
            bytes_mut_view(*final(buf)) == bytes_mut_view(*old(buf)).drop_first(),
            final(self).dropped() == record_dropped(old(self).dropped(), bytes_mut_view(
                *old(buf),
            )[0]),
    {
        let first = bytes_mut_as_slice(buf)[0];
        if dropped_len(&self.dropped_bytes) >= MAX_FRAME_LEN {
            dropped_clear(&mut self.dropped_bytes);
        }
        dropped_push(&mut self.dropped_bytes, first);
        advance(buf, 1);
        assert(self.dropped() =~= record_dropped(old(self).dropped(), first));
    }
}

/// Decodes the frame that starts the buffer, dropping the first byte after
/// each failed attempt, for up to [`MAX_RETRIES`] attempts.
pub fn decode_frame(frame_decoder: &mut FrameDecoder, kind: PduKind, buf: &mut BytesMut) -> (r:
    Result<Option<(SlaveId, Bytes)>, CodecError>)
    ensures
        (frame_view(r), bytes_mut_view(*final(buf)), final(frame_decoder).dropped())
            == decode_attempts(
            kind,
            bytes_mut_view(*old(buf)),
            old(frame_decoder).dropped(),
            MAX_RETRIES as nat,
        ),
{
    let mut tries: usize = 0;
    while tries < MAX_RETRIES
        invariant
            tries <= MAX_RETRIES,
            decode_attempts(
                kind,
                bytes_mut_view(*old(buf)),
                old(frame_decoder).dropped(),
                MAX_RETRIES as nat,
            ) == decode_attempts(
                kind,
                bytes_mut_view(*buf),
                frame_decoder.dropped(),
                (MAX_RETRIES - tries) as nat,
            ),
        decreases MAX_RETRIES - tries,
    {
        let b = bytes_mut_as_slice(buf);
        let pdu_len = match kind {
            PduKind::Request => get_request_pdu_len(b),
            PduKind::Response => get_response_pdu_len(b),
        };
        let result = match pdu_len {
            Err(e) => Err(e),
            Ok(None) => {
                return Ok(None);
            },
            Ok(Some(n)) => frame_decoder.decode(buf, n),
        };
        match result {
            Err(_) => {
                proof {
                    lemma_attempt_err_nonempty(kind, bytes_mut_view(*buf));
                }
                frame_decoder.recover_on_error(buf);
                tries = tries + 1;
            },
            Ok(frame) => {
                return Ok(frame);
            },
        }
    }
    Err(CodecError::TooManyRetries)
}

// ---------------------------------------------------------------------------
// Client and server codecs
// ---------------------------------------------------------------------------

/// Reads response frames and writes request frames.
#[derive(Debug, Default, Eq, PartialEq)]
pub struct ClientCodec {
    /// The frame decoder.
    pub decoder: FrameDecoder,
}

/// Reads request frames and writes response frames.
#[derive(Debug, Default, Eq, PartialEq)]
pub struct ServerCodec {
    /// The frame decoder.
    pub decoder: FrameDecoder,
}

/// The bytes of an RTU frame: the slave id, the PDU, and the CRC-16 of all
/// that the buffer holds before the CRC.
pub open spec fn framed(before: Seq<u8>, slave_id: u8, pdu: Seq<u8>) -> Seq<u8> {
    let body = before.push(slave_id) + pdu;
    body + seq![(crc16(body) / 256) as u8, (crc16(body) % 256) as u8]
}

/// Appends the slave id, the PDU and the CRC-16 of everything in the buffer.
fn put_frame(buf: &mut BytesMut, slave_id: u8, pdu_data: &Bytes)
    requires
        bytes_view(*pdu_data).len() <= MAX_PDU_SIZE + 1,
        has_room(*old(buf), 260),
    ensures
        bytes_mut_view(*final(buf)) == framed(
            bytes_mut_view(*old(buf)),
            slave_id,
            bytes_view(*pdu_data),
        ),
{
    put_u8(buf, slave_id);
    put_slice(buf, bytes_as_slice(pdu_data));
    let crc = calc_crc(bytes_mut_as_slice(buf));
    put_u16(buf, crc);
}

impl ClientCodec {
    /// Takes the next response frame from the buffer and decodes its PDU.
    pub fn decode(&mut self, buf: &mut BytesMut) -> (r: Result<Option<ResponseAdu>, CodecError>)
        ensures
            ({
                let (frame, rest, dropped) = decode_attempts(
                    PduKind::Response,
                    bytes_mut_view(*old(buf)),
                    old(self).decoder.dropped(),
                    MAX_RETRIES as nat,
                );
                &&& bytes_mut_view(*final(buf)) == rest
                &&& final(self).decoder.dropped() == dropped
                &&& match frame {
                    Err(e) => r == Err::<Option<ResponseAdu>, CodecError>(e),
                    Ok(None) => r is Ok && r->Ok_0 is None,
                    Ok(Some((slave_id, pdu))) => match decode_response_result(pdu) {
                        Err(e) => r == Err::<Option<ResponseAdu>, CodecError>(e),
                        Ok(result) => r matches Ok(Some(adu)) && adu.hdr.slave_id == slave_id
                            && response_result_view(adu.pdu.0) == result,
                    },
                }
            }),
    {
        let frame = decode_frame(&mut self.decoder, PduKind::Response, buf)?;
        match frame {
            None => Ok(None),
            Some((slave_id, pdu_data)) => {
                let pdu = ResponsePdu::try_from_bytes(pdu_data)?;
                Ok(Some(ResponseAdu { hdr: Header { slave_id }, pdu }))
            },
        }
    }

    /// Appends the request frame to the buffer, or refuses a request that
    /// asks to disconnect or whose PDU is too large.
    pub fn encode(&mut self, adu: RequestAdu, buf: &mut BytesMut) -> (r: Result<(), CodecError>)
        requires
            has_room(*old(buf), 260),
        ensures
            adu.disconnect ==> r == Err::<(), CodecError>(CodecError::Disconnecting)
                && bytes_mut_view(*final(buf)) == bytes_mut_view(*old(buf)),
            !adu.disconnect && request_pdu_len(adu.pdu.0@) > MAX_PDU_SIZE ==> r == Err::<
                (),
                CodecError,
            >(CodecError::RequestPduSizeExceeded) && bytes_mut_view(*final(buf))
                == bytes_mut_view(*old(buf)),
            !adu.disconnect && request_pdu_len(adu.pdu.0@) <= MAX_PDU_SIZE ==> r is Ok
                && bytes_mut_view(*final(buf)) == framed(
                bytes_mut_view(*old(buf)),
                adu.hdr.slave_id,
                request_bytes(adu.pdu.0@),
            ),
    {
        if adu.disconnect {
            return Err(CodecError::Disconnecting);
        }
        let RequestAdu { hdr, pdu, .. } = adu;
        let pdu_data = request_pdu_bytes(&pdu.0)?;
        proof {
            super::laws::encoded_request_len(pdu.0@);
        }
        put_frame(buf, hdr.slave_id, &pdu_data);
        Ok(())
    }
}

impl ServerCodec {
    /// Takes the next request frame from the buffer: the header and the PDU
    /// bytes, which [`crate::frame::RequestPdu::try_from_bytes`] decodes.
    pub fn decode_frame(&mut self, buf: &mut BytesMut) -> (r: Result<
        Option<(Header, Bytes)>,
        CodecError,
    >)
        ensures
            ({
                let (frame, rest, dropped) = decode_attempts(
                    PduKind::Request,
                    bytes_mut_view(*old(buf)),
                    old(self).decoder.dropped(),
                    MAX_RETRIES as nat,
                );
                &&& bytes_mut_view(*final(buf)) == rest
                &&& final(self).decoder.dropped() == dropped
                &&& match frame {
                    Err(e) => r == Err::<Option<(Header, Bytes)>, CodecError>(e),
                    Ok(None) => r is Ok && r->Ok_0 is None,
                    Ok(Some((slave_id, pdu))) => r matches Ok(Some((hdr, data)))
                        && hdr.slave_id == slave_id && bytes_view(data) == pdu,
                }
            }),
    {
        let frame = decode_frame(&mut self.decoder, PduKind::Request, buf)?;
        match frame {
            None => Ok(None),
            Some((slave_id, pdu_data)) => Ok(Some((Header { slave_id }, pdu_data))),
        }
    }

    /// Appends the response frame to the buffer, or refuses a response whose
    /// PDU is too large.
    pub fn encode(&mut self, adu: ResponseAdu, buf: &mut BytesMut) -> (r: Result<(), CodecError>)
        requires
            adu.pdu.0 matches Err(e) ==> encodable_exception(e),
            has_room(*old(buf), 260),
        ensures
            r is Ok <==> (adu.pdu.0 matches Ok(response) ==> super::response_pdu_len(response@)
                <= MAX_PDU_SIZE),
            r matches Err(e) ==> e == CodecError::ResponsePduSizeExceeded && bytes_mut_view(
                *final(buf),
            ) == bytes_mut_view(*old(buf)),
            r is Ok ==> bytes_mut_view(*final(buf)) == framed(
                bytes_mut_view(*old(buf)),
                adu.hdr.slave_id,
                response_result_bytes(adu.pdu.0),
            ),
    {
        let ResponseAdu { hdr, pdu } = adu;
        let pdu_data = response_pdu_bytes(&pdu)?;
        proof {
            super::laws::encoded_response_result_len(pdu.0);
        }
        put_frame(buf, hdr.slave_id, &pdu_data);
        Ok(())
    }
}

} // verus!
