//! Encoding and decoding of protocol data units (PDU).

pub mod rtu;
pub mod tcp;
pub mod laws;

use vstd::prelude::*;

use bytes::{Bytes, BytesMut};

use crate::buffers::{
    bytes_as_slice, bytes_mut_new, bytes_mut_view, bytes_slice, bytes_view,
    freeze, has_room, put_slice, put_u16, put_u8, read_u16_be,
};
use crate::frame::{
    conformity_level_of, conformity_level_value, function_code_of, function_code_value,
    read_code_of, read_code_value, request_function_code, response_function_code, Coil,
    ConformityLevel, DeviceIdObject, ExceptionCode, ExceptionResponse, FunctionCode, ReadCode,
    Request, RequestPdu, RequestView, Response, ResponsePdu, ResponseView,
    MEI_TYPE_READ_DEVICE_IDENTIFICATION, exception_code_of, exception_code_value, objects_view,
};

verus! {

/// Maximum request/response PDU size, as defined by the spec for both RTU and TCP.
pub const MAX_PDU_SIZE: usize = 253;

/// Why a frame or a PDU could not be encoded or decoded.
#[derive(Debug, Clone, Copy, PartialEq, Eq, Structural)]
pub enum CodecError {
    /// The data ended before the PDU was complete.
    UnexpectedEof,
    /// A request PDU is longer than [`MAX_PDU_SIZE`].
    RequestPduSizeExceeded,
    /// A response PDU is longer than [`MAX_PDU_SIZE`].
    ResponsePduSizeExceeded,
    /// A coil is neither `0xFF00` nor `0x0000`.
    InvalidCoilValue,
    /// Fewer bytes than the byte count announces.
    TooShort,
    /// The byte count does not fit the quantity of registers.
    InvalidQuantity,
    /// The byte count does not fit the quantity of registers to write.
    InvalidWriteQuantity,
    /// A request function code of `0x80` or above.
    InvalidFunctionCode(u8),
    /// An unknown read device id code.
    InvalidReadCode,
    /// An unknown conformity level.
    InvalidConformityLevel,
    /// A run indication status other than `0x00` and `0xFF`.
    InvalidRunIndication(u8),
    /// A device identification object reaches beyond the PDU.
    InvalidObjectLength,
    /// Bytes are left after the decoded PDU.
    UndecodedData,
    /// An exception response whose function code is below `0x80`.
    InvalidExceptionFunctionCode,
    /// The checksum of an RTU frame is wrong.
    InvalidCrc { expected: u16, actual: u16 },
    /// No RTU frame could be found after dropping the bytes of twenty failed attempts.
    TooManyRetries,
    /// A request that asks the transport to disconnect: not sent.
    Disconnecting,
    /// A TCP header announces a length of zero.
    InvalidDataLength(u16),
    /// A TCP header carries a protocol identifier other than zero.
    InvalidProtocolId(u16),
}

// ---------------------------------------------------------------------------
// Encoding: the bytes of a PDU
// ---------------------------------------------------------------------------

/// The two bytes of a word, high byte first.
pub open spec fn be16(w: u16) -> Seq<u8> {
    seq![(w / 256) as u8, (w % 256) as u8]
}

/// The bytes of a sequence of words, each high byte first.
pub open spec fn words_bytes(words: Seq<u16>) -> Seq<u8> {
    Seq::new(
        2 * words.len(),
        |i: int|
            if i % 2 == 0 {
                (words[i / 2] / 256) as u8
            } else {
                (words[i / 2] % 256) as u8
            },
    )
}

/// The word of a coil state: `0xFF00` for on, `0x0000` for off.
pub open spec fn coil_word(state: bool) -> u16 {
    if state {
        0xFF00
    } else {
        0x0000
    }
}

/// The bit of coil `i` as a byte: `1` if the coil exists and is on, else `0`.
pub open spec fn coil_bit(coils: Seq<bool>, i: int) -> u8 {
    if 0 <= i < coils.len() && coils[i] {
        1
    } else {
        0
    }
}

/// Byte `j` of the packed coils with only its lowest `k` bits set from the
/// coils `8 * j` to `8 * j + k - 1`: coil `8 * j + m` is bit `m`.
pub open spec fn packed_byte(coils: Seq<bool>, j: int, k: nat) -> u8
    decreases k,
{
    if k == 0 {
        0
    } else {
        packed_byte(coils, j, (k - 1) as nat) | (coil_bit(coils, 8 * j + k - 1) << ((k - 1) as u8))
    }
}

/// The number of bytes that `n` packed coils take: `n / 8` rounded up.
pub open spec fn packed_len(n: nat) -> nat {
    if n % 8 == 0 {
        n / 8
    } else {
        n / 8 + 1
    }
}

/// The coils packed into bytes, eight per byte, the first coil in the
/// lowest bit of the first byte; unused bits of the last byte are zero.
pub open spec fn packed_coils(coils: Seq<bool>) -> Seq<u8> {
    Seq::new(packed_len(coils.len()), |j: int| packed_byte(coils, j, 8))
}

/// Coil `i` of packed bytes: bit `i % 8` of byte `i / 8`.
pub open spec fn coil_at(bytes: Seq<u8>, i: int) -> bool {
    (bytes[i / 8] >> ((i % 8) as u8)) & 1u8 > 0
}

/// The first `count` coils of packed bytes.
pub open spec fn unpacked_coils(bytes: Seq<u8>, count: nat) -> Seq<bool> {
    Seq::new(count, |i: int| coil_at(bytes, i))
}

/// The bytes after the function code of a request.
pub open spec fn request_data_bytes(r: RequestView) -> Seq<u8> {
    match r {
        RequestView::ReadCoils(a, q) => be16(a) + be16(q),
        RequestView::ReadDiscreteInputs(a, q) => be16(a) + be16(q),
        RequestView::ReadInputRegisters(a, q) => be16(a) + be16(q),
        RequestView::ReadHoldingRegisters(a, q) => be16(a) + be16(q),
        RequestView::WriteSingleCoil(a, s) => be16(a) + be16(coil_word(s)),
        RequestView::WriteMultipleCoils(a, coils) => be16(a) + be16(coils.len() as u16) + seq![
            packed_len(coils.len()) as u8,
        ] + packed_coils(coils),
        RequestView::WriteSingleRegister(a, w) => be16(a) + be16(w),
        RequestView::WriteMultipleRegisters(a, words) => be16(a) + be16(words.len() as u16)
            + seq![(2 * words.len()) as u8] + words_bytes(words),
        RequestView::ReportServerId => Seq::empty(),
        RequestView::MaskWriteRegister(a, and_mask, or_mask) => be16(a) + be16(and_mask) + be16(
            or_mask,
        ),
        RequestView::ReadWriteMultipleRegisters(ra, q, wa, words) => be16(ra) + be16(q) + be16(
            wa,
        ) + be16(words.len() as u16) + seq![(2 * words.len()) as u8] + words_bytes(words),
        RequestView::ReadDeviceIdentification(code, object_id) => seq![
            MEI_TYPE_READ_DEVICE_IDENTIFICATION,
            read_code_value(code),
            object_id,
        ],
        RequestView::Custom(_, data) => data,
    }
}

/// The bytes of a request PDU: its function code, then its data.
pub open spec fn request_bytes(r: RequestView) -> Seq<u8> {
    seq![function_code_value(request_function_code(r))] + request_data_bytes(r)
}

/// The size of a request PDU.
pub open spec fn request_pdu_len(r: RequestView) -> int {
    match r {
        RequestView::ReadCoils(_, _) => 5,
        RequestView::ReadDiscreteInputs(_, _) => 5,
        RequestView::ReadInputRegisters(_, _) => 5,
        RequestView::ReadHoldingRegisters(_, _) => 5,
        RequestView::WriteSingleRegister(_, _) => 5,
        RequestView::WriteSingleCoil(_, _) => 5,
        RequestView::WriteMultipleCoils(_, coils) => 6 + packed_len(coils.len()) as int,
        RequestView::WriteMultipleRegisters(_, words) => 6 + 2 * words.len() as int,
        RequestView::ReportServerId => 1,
        RequestView::MaskWriteRegister(_, _, _) => 7,
        RequestView::ReadWriteMultipleRegisters(_, _, _, words) => 10 + 2 * words.len() as int,
        RequestView::ReadDeviceIdentification(_, _) => 4,
        RequestView::Custom(_, data) => 1 + data.len() as int,
    }
}

/// The bytes of the device identification objects: each id, length, value.
pub open spec fn objects_bytes(objects: Seq<(u8, Seq<u8>)>) -> Seq<u8>
    decreases objects.len(),
{
    if objects.len() == 0 {
        Seq::empty()
    } else {
        objects_bytes(objects.drop_last()) + seq![
            objects.last().0,
            objects.last().1.len() as u8,
        ] + objects.last().1
    }
}

/// The number of bytes that device identification objects take.
pub open spec fn objects_len(objects: Seq<(u8, Seq<u8>)>) -> int
    decreases objects.len(),
{
    if objects.len() == 0 {
        0
    } else {
        objects_len(objects.drop_last()) + 2 + objects.last().1.len()
    }
}

/// The bytes after the function code of a response.
pub open spec fn response_data_bytes(r: ResponseView) -> Seq<u8> {
    match r {
        ResponseView::ReadCoils(coils) => seq![packed_len(coils.len()) as u8] + packed_coils(
            coils,
        ),
        ResponseView::ReadDiscreteInputs(coils) => seq![packed_len(coils.len()) as u8]
            + packed_coils(coils),
        ResponseView::ReadInputRegisters(words) => seq![(2 * words.len()) as u8] + words_bytes(
            words,
        ),
        ResponseView::ReadHoldingRegisters(words) => seq![(2 * words.len()) as u8] + words_bytes(
            words,
        ),
        ResponseView::ReadWriteMultipleRegisters(words) => seq![(2 * words.len()) as u8]
            + words_bytes(words),
        ResponseView::WriteSingleCoil(a, s) => be16(a) + be16(coil_word(s)),
        ResponseView::WriteMultipleCoils(a, q) => be16(a) + be16(q),
        ResponseView::WriteMultipleRegisters(a, q) => be16(a) + be16(q),
        ResponseView::ReportServerId(id, run, data) => seq![
            (2 + data.len()) as u8,
            id,
            if run {
                0xFFu8
            } else {
                0x00u8
            },
        ] + data,
        ResponseView::WriteSingleRegister(a, w) => be16(a) + be16(w),
        ResponseView::MaskWriteRegister(a, and_mask, or_mask) => be16(a) + be16(and_mask) + be16(
            or_mask,
        ),
        ResponseView::ReadDeviceIdentification(code, level, more, next, objects) => seq![
            MEI_TYPE_READ_DEVICE_IDENTIFICATION,
            read_code_value(code),
            conformity_level_value(level),
            if more {
                0xFFu8
            } else {
                0x00u8
            },
            next,
            objects.len() as u8,
        ] + objects_bytes(objects),
        ResponseView::Custom(_, data) => data,
    }
}

/// The bytes of a response PDU: its function code, then its data.
pub open spec fn response_bytes(r: ResponseView) -> Seq<u8> {
    seq![function_code_value(response_function_code(r))] + response_data_bytes(r)
}

/// The size of a response PDU.
pub open spec fn response_pdu_len(r: ResponseView) -> int {
    match r {
        ResponseView::ReadCoils(coils) => 2 + packed_len(coils.len()) as int,
        ResponseView::ReadDiscreteInputs(coils) => 2 + packed_len(coils.len()) as int,
        ResponseView::WriteSingleCoil(_, _) => 5,
        ResponseView::WriteMultipleCoils(_, _) => 5,
        ResponseView::WriteMultipleRegisters(_, _) => 5,
        ResponseView::WriteSingleRegister(_, _) => 5,
        ResponseView::ReadInputRegisters(words) => 2 + 2 * words.len() as int,
        ResponseView::ReadHoldingRegisters(words) => 2 + 2 * words.len() as int,
        ResponseView::ReadWriteMultipleRegisters(words) => 2 + 2 * words.len() as int,
        ResponseView::ReportServerId(_, _, data) => 3 + data.len() as int,
        ResponseView::MaskWriteRegister(_, _, _) => 7,
        ResponseView::ReadDeviceIdentification(_, _, _, _, objects) => 7 + objects_len(objects),
        ResponseView::Custom(_, data) => 1 + data.len() as int,
    }
}

/// The bytes of an exception response PDU: the function code with the
/// highest bit set, then the exception code.
pub open spec fn exception_bytes(e: ExceptionResponse) -> Seq<u8> {
    seq![(function_code_value(e.function) + 0x80) as u8, exception_code_value(e.exception)]
}

/// Whether an exception response can be encoded: its function code is below `0x80`.
pub open spec fn encodable_exception(e: ExceptionResponse) -> bool {
    function_code_value(e.function) < 0x80
}

/// The bytes of a response or exception PDU.
pub open spec fn response_result_bytes(r: Result<Response, ExceptionResponse>) -> Seq<u8> {
    match r {
        Ok(response) => response_bytes(response@),
        Err(e) => exception_bytes(e),
    }
}

/// A length as a 16-bit count: the encoders only count what fits.
fn u16_len(len: usize) -> (n: u16)
    requires
        len <= u16::MAX,
    ensures
        n == len,
{
    len as u16
}

/// A length as an 8-bit count: the encoders only count what fits.
fn u8_len(len: usize) -> (n: u8)
    requires
        len <= u8::MAX,
    ensures
        n == len,
{
    len as u8
}

/// The word of a coil state.
pub fn bool_to_coil(state: bool) -> (w: u16)
    ensures
        w == coil_word(state),
{
    if state {
        0xFF00
    } else {
        0x0000
    }
}

/// The number of bytes that the packed coils take.
pub fn packed_coils_size(coils: &[Coil]) -> (n: usize)
    ensures
        n == packed_len(coils@.len()),
{
    let n = coils.len();
    if n % 8 == 0 {
        n / 8
    } else {
        n / 8 + 1
    }
}

/// Appends the packed coils to `buf`; returns how many bytes were appended.
pub fn encode_packed_coils(buf: &mut BytesMut, coils: &[Coil]) -> (n: usize)
    requires
        has_room(*old(buf), packed_len(coils@.len())),
    ensures
        n == packed_len(coils@.len()),
        bytes_mut_view(*final(buf)) == bytes_mut_view(*old(buf)) + packed_coils(coils@),
{
    let ghost start = bytes_mut_view(*buf);
    let len = coils.len();
    let mut cur: u8 = 0;
    let mut i: usize = 0;
    while i < len
        invariant
            i <= len,
            len == coils@.len(),
            has_room(*old(buf), packed_len(coils@.len())),
            start == bytes_mut_view(*old(buf)),
            bytes_mut_view(*buf) == start + Seq::new(
                (i / 8) as nat,
                |j: int| packed_byte(coils@, j, 8),
            ),
            cur == packed_byte(coils@, (i / 8) as int, (i % 8) as nat),
        decreases len - i,
    {
        let v: u8 = if coils[i] {
            1
        } else {
            0
        };
        let k: u8 = (i % 8) as u8;
        assert(v == coil_bit(coils@, 8 * (i / 8) + (i % 8)));
        cur = cur | (v << k);
        assert(cur == packed_byte(coils@, (i / 8) as int, (i % 8 + 1) as nat));
        if i % 8 == 7 {
            proof {
                assert(i / 8 < packed_len(coils@.len()));
            }
            put_u8(buf, cur);
            cur = 0;
            assert(bytes_mut_view(*buf) == start + Seq::new(
                ((i + 1) / 8) as nat,
                |j: int| packed_byte(coils@, j, 8),
            ));
        }
        i = i + 1;
    }
    if len % 8 != 0 {
        assert(cur == packed_byte(coils@, (len / 8) as int, 8)) by {
            lemma_packed_byte_beyond(coils@, (len / 8) as int, (len % 8) as nat, 8);
        }
        put_u8(buf, cur);
    }
    assert(bytes_mut_view(*buf) == bytes_mut_view(*old(buf)) + packed_coils(coils@));
    packed_coils_size(coils)
}

/// Bits beyond the last coil are zero: adding them leaves the byte unchanged.
pub(crate) proof fn lemma_packed_byte_beyond(coils: Seq<bool>, j: int, k: nat, m: nat)
    requires
        8 * j + k >= coils.len(),
        k <= m <= 8,
        j >= 0,
    ensures
        packed_byte(coils, j, m) == packed_byte(coils, j, k),
    decreases m,
{
    if m > k {
        lemma_packed_byte_beyond(coils, j, k, (m - 1) as nat);
        let p = packed_byte(coils, j, (m - 1) as nat);
        let s = ((m - 1) as u8);
        assert(coil_bit(coils, 8 * j + m - 1) == 0);
        assert(p | (0u8 << s) == p) by (bit_vector);
    }
}

/// Appends the words to `buf`, each high byte first.
pub(crate) fn put_words(buf: &mut BytesMut, words: &[u16])
    requires
        has_room(*old(buf), 2 * words@.len()),
    ensures
        bytes_mut_view(*final(buf)) == bytes_mut_view(*old(buf)) + words_bytes(words@),
{
    let ghost start = bytes_mut_view(*buf);
    let len = words.len();
    let mut i: usize = 0;
    while i < len
        invariant
            i <= len,
            len == words@.len(),
            start == bytes_mut_view(*old(buf)),
            has_room(*old(buf), 2 * words@.len()),
            bytes_mut_view(*buf) == start + words_bytes(words@.take(i as int)),
        decreases len - i,
    {
        put_u16(buf, words[i]);
        assert(words_bytes(words@.take(i + 1)) =~= words_bytes(words@.take(i as int)) + be16(
            words@[i as int],
        ));
        i = i + 1;
    }
    assert(words@.take(len as int) =~= words@);
}

/// Appends the request PDU to `buf`.
pub fn encode_request_pdu(buf: &mut BytesMut, request: &Request)
    requires
        request_pdu_len(request@) <= MAX_PDU_SIZE,
        has_room(*old(buf), MAX_PDU_SIZE as nat),
    ensures
        bytes_mut_view(*final(buf)) == bytes_mut_view(*old(buf)) + request_bytes(request@),
{
    let ghost start = bytes_mut_view(*buf);
    put_u8(buf, request.function_code().value());
    match request {
        Request::ReadCoils(address, quantity)
        | Request::ReadDiscreteInputs(address, quantity)
        | Request::ReadInputRegisters(address, quantity)
        | Request::ReadHoldingRegisters(address, quantity) => {
            put_u16(buf, *address);
            put_u16(buf, *quantity);
        },
        Request::WriteSingleCoil(address, state) => {
            put_u16(buf, *address);
            put_u16(buf, bool_to_coil(*state));
        },
        Request::WriteMultipleCoils(address, coils) => {
            put_u16(buf, *address);
            put_u16(buf, u16_len(coils.len()));
            put_u8(buf, u8_len(packed_coils_size(coils.as_slice())));
            encode_packed_coils(buf, coils.as_slice());
        },
        Request::WriteSingleRegister(address, word) => {
            put_u16(buf, *address);
            put_u16(buf, *word);
        },
        Request::WriteMultipleRegisters(address, words) => {
            put_u16(buf, *address);
            let len = words.len();
            put_u16(buf, u16_len(len));
            put_u8(buf, u8_len(len * 2));
            put_words(buf, words.as_slice());
        },
        Request::ReportServerId => {},
        Request::MaskWriteRegister(address, and_mask, or_mask) => {
            put_u16(buf, *address);
            put_u16(buf, *and_mask);
            put_u16(buf, *or_mask);
        },
        Request::ReadWriteMultipleRegisters(read_address, quantity, write_address, words) => {
            put_u16(buf, *read_address);
            put_u16(buf, *quantity);
            put_u16(buf, *write_address);
            let len = words.len();
            put_u16(buf, u16_len(len));
            put_u8(buf, u8_len(len * 2));
            put_words(buf, words.as_slice());
        },
        Request::ReadDeviceIdentification(read_code, object_id) => {
            put_u8(buf, MEI_TYPE_READ_DEVICE_IDENTIFICATION);
            put_u8(buf, read_code.value());
            put_u8(buf, *object_id);
        },
        Request::Custom(_, custom_data) => {
            put_slice(buf, custom_data.as_slice());
        },
    }
    assert(bytes_mut_view(*buf) =~= start + request_bytes(request@));
}

/// The size of a request PDU, or an error if it exceeds [`MAX_PDU_SIZE`].
pub fn request_pdu_size(request: &Request) -> (r: Result<usize, CodecError>)
    ensures
        request_pdu_len(request@) <= MAX_PDU_SIZE ==> r == Ok::<usize, CodecError>(
            request_pdu_len(request@) as usize,
        ),
        request_pdu_len(request@) > MAX_PDU_SIZE ==> r == Err::<usize, CodecError>(
            CodecError::RequestPduSizeExceeded,
        ),
{
    let size: usize = match request {
        Request::ReadCoils(_, _)
        | Request::ReadDiscreteInputs(_, _)
        | Request::ReadInputRegisters(_, _)
        | Request::ReadHoldingRegisters(_, _)
        | Request::WriteSingleRegister(_, _)
        | Request::WriteSingleCoil(_, _) => 5,
        Request::WriteMultipleCoils(_, coils) => {
            let n = packed_coils_size(coils.as_slice());
            if n > MAX_PDU_SIZE {
                return Err(CodecError::RequestPduSizeExceeded);
            }
            6 + n
        },
        Request::WriteMultipleRegisters(_, data) => {
            if data.len() > MAX_PDU_SIZE {
                return Err(CodecError::RequestPduSizeExceeded);
            }
            6 + data.len() * 2
        },
        Request::ReportServerId => 1,
        Request::MaskWriteRegister(_, _, _) => 7,
        Request::ReadWriteMultipleRegisters(_, _, _, data) => {
            if data.len() > MAX_PDU_SIZE {
                return Err(CodecError::RequestPduSizeExceeded);
            }
            10 + data.len() * 2
        },
        Request::ReadDeviceIdentification(_, _) => 4,
        Request::Custom(_, data) => {
            if data.len() > MAX_PDU_SIZE {
                return Err(CodecError::RequestPduSizeExceeded);
            }
            1 + data.len()
        },
    };
    if size > MAX_PDU_SIZE {
        return Err(CodecError::RequestPduSizeExceeded);
    }
    Ok(size)
}

/// The bytes of a request PDU, or an error if it exceeds [`MAX_PDU_SIZE`].
pub fn request_pdu_bytes(request: &Request) -> (r: Result<Bytes, CodecError>)
    ensures
        request_pdu_len(request@) <= MAX_PDU_SIZE <==> r is Ok,
        r matches Ok(b) ==> bytes_view(b) == request_bytes(request@),
        r matches Err(e) ==> e == CodecError::RequestPduSizeExceeded,
{
    request_pdu_size(request)?;
    let mut buf = bytes_mut_new();
    encode_request_pdu(&mut buf, request);
    Ok(freeze(buf))
}

/// Each device identification object takes its two header bytes and its
/// value; so the objects take at least two bytes each.
proof fn lemma_objects_len(objects: Seq<(u8, Seq<u8>)>)
    ensures
        objects_len(objects) >= 2 * objects.len(),
        forall|i: int|
            0 <= i < objects.len() ==> 2 + (#[trigger] objects[i]).1.len() <= objects_len(objects),
    decreases objects.len(),
{
    if objects.len() > 0 {
        lemma_objects_len(objects.drop_last());
        assert forall|i: int| 0 <= i < objects.len() implies 2 + (#[trigger] objects[i]).1.len()
            <= objects_len(objects) by {
            if i < objects.len() - 1 {
                assert(objects.drop_last()[i] == objects[i]);
            }
        }
    }
}

/// Appends the byte count and the packed coils.
fn encode_coils_payload(buf: &mut BytesMut, coils: &Vec<Coil>)
    requires
        2 + packed_len(coils@.len()) <= MAX_PDU_SIZE,
        has_room(*old(buf), 255),
    ensures
        bytes_mut_view(*final(buf)) == bytes_mut_view(*old(buf)) + seq![
            packed_len(coils@.len()) as u8,
        ] + packed_coils(coils@),
{
    put_u8(buf, u8_len(packed_coils_size(coils.as_slice())));
    encode_packed_coils(buf, coils.as_slice());
}

/// Appends the byte count and the words.
fn encode_words_payload(buf: &mut BytesMut, words: &Vec<u16>)
    requires
        2 + 2 * words@.len() <= MAX_PDU_SIZE,
        has_room(*old(buf), 255),
    ensures
        bytes_mut_view(*final(buf)) == bytes_mut_view(*old(buf)) + seq![
            (2 * words@.len()) as u8,
        ] + words_bytes(words@),
{
    put_u8(buf, u8_len(words.len() * 2));
    put_words(buf, words.as_slice());
}

/// Appends the byte count, server id, run indication and additional data.
fn encode_report_server_id(buf: &mut BytesMut, server_id: u8, run: bool, data: &Vec<u8>)
    requires
        3 + data@.len() <= MAX_PDU_SIZE,
        has_room(*old(buf), 255),
    ensures
        bytes_mut_view(*final(buf)) == bytes_mut_view(*old(buf)) + seq![
            (2 + data@.len()) as u8,
            server_id,
            if run {
                0xFFu8
            } else {
                0x00u8
            },
        ] + data@,
{
    put_u8(buf, 2 + u8_len(data.len()));
    put_u8(buf, server_id);
    put_u8(
        buf,
        if run {
            0xFF
        } else {
            0x00
        },
    );
    assert(bytes_mut_view(*buf).len() == bytes_mut_view(*old(buf)).len() + 3);
    let slice = data.as_slice();
    assert(slice@.len() <= 250);
    put_slice(buf, slice);
}

/// Appends the response PDU to `buf`.
#[verifier::rlimit(30)]
pub fn encode_response_pdu(buf: &mut BytesMut, response: &Response)
    requires
        response_pdu_len(response@) <= MAX_PDU_SIZE,
        has_room(*old(buf), 256),
    ensures
        bytes_mut_view(*final(buf)) == bytes_mut_view(*old(buf)) + response_bytes(response@),
{
    let ghost start = bytes_mut_view(*buf);
    put_u8(buf, response.function_code().value());
    let ghost head = bytes_mut_view(*buf);
    assert(head == start + seq![function_code_value(response_function_code(response@))]);
    match response {
        Response::ReadCoils(coils) | Response::ReadDiscreteInputs(coils) => {
            encode_coils_payload(buf, coils);
        },
        Response::ReadInputRegisters(registers)
        | Response::ReadHoldingRegisters(registers)
        | Response::ReadWriteMultipleRegisters(registers) => {
            encode_words_payload(buf, registers);
        },
        Response::WriteSingleCoil(address, state) => {
            put_u16(buf, *address);
            put_u16(buf, bool_to_coil(*state));
        },
        Response::WriteMultipleCoils(address, quantity)
        | Response::WriteMultipleRegisters(address, quantity) => {
            put_u16(buf, *address);
            put_u16(buf, *quantity);
        },
        Response::ReportServerId(server_id, run_indication, additional_data) => {
            encode_report_server_id(buf, *server_id, *run_indication, additional_data);
        },
        Response::WriteSingleRegister(address, word) => {
            put_u16(buf, *address);
            put_u16(buf, *word);
        },
        Response::MaskWriteRegister(address, and_mask, or_mask) => {
            put_u16(buf, *address);
            put_u16(buf, *and_mask);
            put_u16(buf, *or_mask);
        },
        Response::ReadDeviceIdentification(
            read_code,
            conformity_level,
            more_follows,
            next_object_id,
            device_id_objects,
        ) => {
            put_u8(buf, MEI_TYPE_READ_DEVICE_IDENTIFICATION);
            put_u8(buf, read_code.value());
            put_u8(buf, conformity_level.value());
            put_u8(
                buf,
                if *more_follows {
                    0xff
                } else {
                    0x00
                },
            );
            put_u8(buf, *next_object_id);
            encode_device_id_objects(buf, device_id_objects);
        },
        Response::Custom(_, custom_data) => {
            put_slice(buf, bytes_as_slice(custom_data));
        },
    }
    assert(bytes_mut_view(*buf) =~= head + response_data_bytes(response@));
}

/// Appends the count of device identification objects, then each object's
/// id, length and value.
fn encode_device_id_objects(buf: &mut BytesMut, device_id_objects: &Vec<DeviceIdObject>)
    requires
        7 + objects_len(objects_view(device_id_objects@)) <= MAX_PDU_SIZE,
        has_room(*old(buf), 247),
    ensures
        bytes_mut_view(*final(buf)) == bytes_mut_view(*old(buf)) + seq![
            device_id_objects@.len() as u8,
        ] + objects_bytes(objects_view(device_id_objects@)),
{
    let ghost objects = objects_view(device_id_objects@);
    proof {
        lemma_objects_len(objects);
    }
    let count = device_id_objects.len();
    put_u8(buf, count as u8);
    let ghost head = bytes_mut_view(*buf);
    let mut i: usize = 0;
    while i < count
        invariant
            i <= count,
            count == device_id_objects@.len(),
            objects == objects_view(device_id_objects@),
            7 + objects_len(objects) <= MAX_PDU_SIZE,
            forall|k: int|
                0 <= k < objects.len() ==> 2 + (#[trigger] objects[k]).1.len() <= objects_len(
                    objects,
                ),
            bytes_mut_view(*buf) == head + objects_bytes(objects.take(i as int)),
            head == bytes_mut_view(*old(buf)).push(count as u8),
            i < count ==> objects_len(objects.take(i as int)) + 2 + objects[i as int].1.len()
                <= objects_len(objects),
            objects_bytes(objects.take(i as int)).len() == objects_len(objects.take(i as int)),
            has_room(*old(buf), 247),
        decreases count - i,
    {
        let dio = &device_id_objects[i];
        let value = bytes_as_slice(&dio.value);
        assert(objects[i as int] == (dio.id, value@));
        put_u8(buf, dio.id);
        put_u8(buf, value.len() as u8);
        put_slice(buf, value);
        assert(objects.take(i + 1).drop_last() =~= objects.take(i as int));
        assert(objects.take(i + 1).last() == objects[i as int]);
        proof {
            if i + 1 < count {
                lemma_objects_len_prefix(objects, i as int + 2);
                assert(objects.take(i + 2).drop_last() =~= objects.take(i + 1));
                assert(objects.take(i + 2).last() == objects[i + 1]);
            }
        }
        i = i + 1;
    }
    assert(objects.take(count as int) =~= objects);
}

/// Appends the exception response PDU to `buf`.
pub fn encode_exception_response_pdu(buf: &mut BytesMut, response: ExceptionResponse)
    requires
        encodable_exception(response),
        has_room(*old(buf), 2),
    ensures
        bytes_mut_view(*final(buf)) == bytes_mut_view(*old(buf)) + exception_bytes(response),
{
    put_u8(buf, response.function.value() + 0x80);
    put_u8(buf, response.exception.into());
    assert(bytes_mut_view(*buf) =~= bytes_mut_view(*old(buf)) + exception_bytes(response));
}

/// Appends the response or exception PDU to `buf`.
pub fn encode_response_result_pdu(buf: &mut BytesMut, res: &Result<Response, ExceptionResponse>)
    requires
        *res matches Ok(response) ==> response_pdu_len(response@) <= MAX_PDU_SIZE,
        *res matches Err(e) ==> encodable_exception(e),
        has_room(*old(buf), 256),
    ensures
        bytes_mut_view(*final(buf)) == bytes_mut_view(*old(buf)) + response_result_bytes(*res),
{
    match res {
        Ok(response) => encode_response_pdu(buf, response),
        Err(response) => encode_exception_response_pdu(buf, *response),
    }
}

/// The size of a response PDU, or an error if it exceeds [`MAX_PDU_SIZE`].
pub fn response_pdu_size(response: &Response) -> (r: Result<usize, CodecError>)
    ensures
        response_pdu_len(response@) <= MAX_PDU_SIZE ==> r == Ok::<usize, CodecError>(
            response_pdu_len(response@) as usize,
        ),
        response_pdu_len(response@) > MAX_PDU_SIZE ==> r == Err::<usize, CodecError>(
            CodecError::ResponsePduSizeExceeded,
        ),
{
    let size: usize = match response {
        Response::ReadCoils(coils) | Response::ReadDiscreteInputs(coils) => {
            let n = packed_coils_size(coils.as_slice());
            if n > MAX_PDU_SIZE {
                return Err(CodecError::ResponsePduSizeExceeded);
            }
            2 + n
        },
        Response::WriteSingleCoil(_, _)
        | Response::WriteMultipleCoils(_, _)
        | Response::WriteMultipleRegisters(_, _)
        | Response::WriteSingleRegister(_, _) => 5,
        Response::ReadInputRegisters(data)
        | Response::ReadHoldingRegisters(data)
        | Response::ReadWriteMultipleRegisters(data) => {
            if data.len() > MAX_PDU_SIZE {
                return Err(CodecError::ResponsePduSizeExceeded);
            }
            2 + data.len() * 2
        },
        Response::ReportServerId(_, _, data) => {
            if data.len() > MAX_PDU_SIZE {
                return Err(CodecError::ResponsePduSizeExceeded);
            }
            3 + data.len()
        },
        Response::MaskWriteRegister(_, _, _) => 7,
        Response::ReadDeviceIdentification(_, _, _, _, device_id_objects) => {
            let ghost objects = objects_view(device_id_objects@);
            let count = device_id_objects.len();
            let mut total: usize = 7;
            let mut i: usize = 0;
            while i < count
                invariant
                    i <= count,
                    count == device_id_objects@.len(),
                    objects == objects_view(device_id_objects@),
                    total == 7 + objects_len(objects.take(i as int)),
                    total <= MAX_PDU_SIZE,
                    response_pdu_len(response@) == 7 + objects_len(objects),
                decreases count - i,
            {
                let n = bytes_as_slice(&device_id_objects[i].value).len();
                assert(objects.take(i + 1).drop_last() =~= objects.take(i as int));
                assert(objects.take(i + 1).last().1.len() == n);
                if n > MAX_PDU_SIZE || total + 2 + n > MAX_PDU_SIZE {
                    proof {
                        lemma_objects_len_prefix(objects, i as int + 1);
                    }
                    return Err(CodecError::ResponsePduSizeExceeded);
                }
                total = total + 2 + n;
                i = i + 1;
            }
            assert(objects.take(count as int) =~= objects);
            total
        },
        Response::Custom(_, data) => {
            let n = bytes_as_slice(data).len();
            if n > MAX_PDU_SIZE {
                return Err(CodecError::ResponsePduSizeExceeded);
            }
            1 + n
        },
    };
    if size > MAX_PDU_SIZE {
        return Err(CodecError::ResponsePduSizeExceeded);
    }
    Ok(size)
}

/// The objects take at least as many bytes as any first part of them.
proof fn lemma_objects_len_prefix(objects: Seq<(u8, Seq<u8>)>, n: int)
    requires
        0 <= n <= objects.len(),
    ensures
        objects_len(objects.take(n)) <= objects_len(objects),
    decreases objects.len(),
{
    if n < objects.len() {
        assert(objects.drop_last().take(n) =~= objects.take(n));
        lemma_objects_len_prefix(objects.drop_last(), n);
    } else {
        assert(objects.take(n) =~= objects);
    }
}

/// The size of a response or exception PDU, or an error if a response
/// exceeds [`MAX_PDU_SIZE`].
pub fn response_result_pdu_size(res: &Result<Response, ExceptionResponse>) -> (r: Result<
    usize,
    CodecError,
>)
    ensures
        *res matches Ok(response) ==> r == (if response_pdu_len(response@) <= MAX_PDU_SIZE {
            Ok::<usize, CodecError>(response_pdu_len(response@) as usize)
        } else {
            Err::<usize, CodecError>(CodecError::ResponsePduSizeExceeded)
        }),
        res is Err ==> r == Ok::<usize, CodecError>(2),
{
    match res {
        Ok(response) => response_pdu_size(response),
        Err(_) => Ok(2),
    }
}

/// The bytes of a response or exception PDU, or an error if a response
/// exceeds [`MAX_PDU_SIZE`].
pub fn response_pdu_bytes(pdu: &ResponsePdu) -> (r: Result<Bytes, CodecError>)
    requires
        pdu.0 matches Err(e) ==> encodable_exception(e),
    ensures
        r is Ok <==> (pdu.0 matches Ok(response) ==> response_pdu_len(response@) <= MAX_PDU_SIZE),
        r matches Ok(b) ==> bytes_view(b) == response_result_bytes(pdu.0),
        r matches Err(e) ==> e == CodecError::ResponsePduSizeExceeded,
{
    response_result_pdu_size(&pdu.0)?;
    let mut buf = bytes_mut_new();
    encode_response_result_pdu(&mut buf, &pdu.0);
    Ok(freeze(buf))
}

/// The first `count` coils of the packed `bytes`; there must be enough bytes.
pub fn decode_packed_coils(bytes: &[u8], count: u16) -> (coils: Vec<Coil>)
    requires
        count <= 8 * bytes@.len(),
    ensures
        coils@ == unpacked_coils(bytes@, count as nat),
{
    let mut res: Vec<Coil> = Vec::new();
    let n = count as usize;
    let mut i: usize = 0;
    while i < n
        invariant
            i <= n,
            n == count,
            n <= 8 * bytes@.len(),
            res@ == unpacked_coils(bytes@, i as nat),
        decreases n - i,
    {
        let k: u8 = (i % 8) as u8;
        res.push((bytes[i / 8] >> k) & 0b1u8 > 0);
        assert(res@ == unpacked_coils(bytes@, (i + 1) as nat));
        i = i + 1;
    }
    res
}

// ---------------------------------------------------------------------------
// Decoding: the PDU that bytes denote
// ---------------------------------------------------------------------------

/// The big-endian word at `i`.
pub open spec fn u16_at(b: Seq<u8>, i: int) -> u16 {
    (b[i] * 256 + b[i + 1]) as u16
}

/// The `n` big-endian words from `start` on.
pub open spec fn words_at(b: Seq<u8>, start: int, n: nat) -> Seq<u16> {
    Seq::new(n, |i: int| u16_at(b, start + 2 * i))
}

/// The state of a coil word: `0xFF00` is on, `0x0000` off, all else invalid.
pub open spec fn coil_state(w: u16) -> Result<bool, CodecError> {
    if w == 0xFF00 {
        Ok(true)
    } else if w == 0x0000 {
        Ok(false)
    } else {
        Err(CodecError::InvalidCoilValue)
    }
}

/// The PDU `v` once all `n` bytes are read; bytes left over are an error.
pub open spec fn complete<T>(b: Seq<u8>, n: int, v: T) -> Result<T, CodecError> {
    if b.len() > n {
        Err(CodecError::UndecodedData)
    } else {
        Ok(v)
    }
}

/// The request that a PDU of a read function or of Write Single Register
/// denotes, given its two words.
pub open spec fn two_word_request(fc: u8, w1: u16, w2: u16) -> RequestView {
    if fc == 0x01 {
        RequestView::ReadCoils(w1, w2)
    } else if fc == 0x02 {
        RequestView::ReadDiscreteInputs(w1, w2)
    } else if fc == 0x03 {
        RequestView::ReadHoldingRegisters(w1, w2)
    } else if fc == 0x04 {
        RequestView::ReadInputRegisters(w1, w2)
    } else {
        RequestView::WriteSingleRegister(w1, w2)
    }
}

/// The request that the bytes of a PDU denote, or why they denote none.
pub open spec fn decode_request(b: Seq<u8>) -> Result<RequestView, CodecError> {
    let n = b.len();
    if n == 0 {
        Err(CodecError::UnexpectedEof)
    } else {
        let fc = b[0];
        if fc == 0x01 || fc == 0x02 || fc == 0x03 || fc == 0x04 || fc == 0x06 {
            if n < 5 {
                Err(CodecError::UnexpectedEof)
            } else {
                complete(b, 5, two_word_request(fc, u16_at(b, 1), u16_at(b, 3)))
            }
        } else if fc == 0x05 {
            if n < 5 {
                Err(CodecError::UnexpectedEof)
            } else {
                match coil_state(u16_at(b, 3)) {
                    Err(e) => Err(e),
                    Ok(state) => complete(b, 5, RequestView::WriteSingleCoil(u16_at(b, 1), state)),
                }
            }
        } else if fc == 0x0F {
            if n > MAX_PDU_SIZE {
                Err(CodecError::RequestPduSizeExceeded)
            } else if n < 6 {
                Err(CodecError::UnexpectedEof)
            } else if n < 6 + b[5] {
                Err(CodecError::TooShort)
            } else if u16_at(b, 3) > 8 * b[5] {
                Err(CodecError::InvalidQuantity)
            } else {
                complete(
                    b,
                    6 + b[5],
                    RequestView::WriteMultipleCoils(
                        u16_at(b, 1),
                        unpacked_coils(b.subrange(6, 6 + b[5]), u16_at(b, 3) as nat),
                    ),
                )
            }
        } else if fc == 0x10 {
            if n > MAX_PDU_SIZE {
                Err(CodecError::RequestPduSizeExceeded)
            } else if n < 6 {
                Err(CodecError::UnexpectedEof)
            } else if b[5] != (2 * u16_at(b, 3)) % 0x10000 {
                Err(CodecError::InvalidQuantity)
            } else if n < 6 + 2 * u16_at(b, 3) {
                Err(CodecError::UnexpectedEof)
            } else {
                complete(
                    b,
                    6 + 2 * u16_at(b, 3),
                    RequestView::WriteMultipleRegisters(
                        u16_at(b, 1),
                        words_at(b, 6, u16_at(b, 3) as nat),
                    ),
                )
            }
        } else if fc == 0x11 {
            complete(b, 1, RequestView::ReportServerId)
        } else if fc == 0x16 {
            if n < 7 {
                Err(CodecError::UnexpectedEof)
            } else {
                complete(
                    b,
                    7,
                    RequestView::MaskWriteRegister(u16_at(b, 1), u16_at(b, 3), u16_at(b, 5)),
                )
            }
        } else if fc == 0x17 {
            if n > MAX_PDU_SIZE {
                Err(CodecError::RequestPduSizeExceeded)
            } else if n < 10 {
                Err(CodecError::UnexpectedEof)
            } else if b[9] != (2 * u16_at(b, 7)) % 0x10000 {
                Err(CodecError::InvalidWriteQuantity)
            } else if n < 10 + 2 * u16_at(b, 7) {
                Err(CodecError::UnexpectedEof)
            } else {
                complete(
                    b,
                    10 + 2 * u16_at(b, 7),
                    RequestView::ReadWriteMultipleRegisters(
                        u16_at(b, 1),
                        u16_at(b, 3),
                        u16_at(b, 5),
                        words_at(b, 10, u16_at(b, 7) as nat),
                    ),
                )
            }
        } else if fc == 0x2B && n < 2 {
            Err(CodecError::UnexpectedEof)
        } else if fc == 0x2B && b[1] == MEI_TYPE_READ_DEVICE_IDENTIFICATION {
            if n > MAX_PDU_SIZE {
                Err(CodecError::RequestPduSizeExceeded)
            } else if n < 3 {
                Err(CodecError::UnexpectedEof)
            } else {
                match read_code_of(b[2]) {
                    None => Err(CodecError::InvalidReadCode),
                    Some(code) => if n < 4 {
                        Err(CodecError::UnexpectedEof)
                    } else {
                        complete(b, 4, RequestView::ReadDeviceIdentification(code, b[3]))
                    },
                }
            }
        } else if fc < 0x80 {
            Ok(RequestView::Custom(fc, b.subrange(1, n as int)))
        } else {
            Err(CodecError::InvalidFunctionCode(fc))
        }
    }
}

/// A copy of the bytes from `start` up to `end`.
fn copy_bytes(b: &[u8], start: usize, end: usize) -> (v: Vec<u8>)
    requires
        start <= end <= b@.len(),
    ensures
        v@ == b@.subrange(start as int, end as int),
{
    let mut v: Vec<u8> = Vec::new();
    let mut i = start;
    while i < end
        invariant
            start <= i <= end,
            end <= b@.len(),
            v@ == b@.subrange(start as int, i as int),
        decreases end - i,
    {
        v.push(b[i]);
        assert(v@ =~= b@.subrange(start as int, i + 1));
        i = i + 1;
    }
    v
}

/// The `count` big-endian words from `start` on.
fn read_words(b: &[u8], start: usize, count: u16) -> (words: Vec<u16>)
    requires
        start + 2 * count <= b@.len(),
    ensures
        words@ == words_at(b@, start as int, count as nat),
{
    let mut words: Vec<u16> = Vec::new();
    let len = b.len();
    let mut i: u16 = 0;
    while i < count
        invariant
            i <= count,
            len == b@.len(),
            start + 2 * count <= b@.len(),
            words@ == words_at(b@, start as int, i as nat),
        decreases count - i,
    {
        assert(start + 2 * (i as int) + 2 <= b@.len());
        let pos: usize = start + 2 * (i as usize);
        let w = read_u16_be(b, pos);
        words.push(w);
        assert(words@ =~= words_at(b@, start as int, (i + 1) as nat));
        i = i + 1;
    }
    words
}

/// The state of a coil word.
pub fn coil_to_bool(coil: u16) -> (r: Result<bool, CodecError>)
    ensures
        r == coil_state(coil),
{
    if coil == 0xFF00 {
        Ok(true)
    } else if coil == 0x0000 {
        Ok(false)
    } else {
        Err(CodecError::InvalidCoilValue)
    }
}

/// An error unless the PDU has no more than [`MAX_PDU_SIZE`] bytes.
pub fn check_request_pdu_size(pdu_size: usize) -> (r: Result<(), CodecError>)
    ensures
        r is Ok <==> pdu_size <= MAX_PDU_SIZE,
        r matches Err(e) ==> e == CodecError::RequestPduSizeExceeded,
{
    if pdu_size > MAX_PDU_SIZE {
        return Err(CodecError::RequestPduSizeExceeded);
    }
    Ok(())
}

/// An error unless the PDU has no more than [`MAX_PDU_SIZE`] bytes.
pub fn check_response_pdu_size(pdu_size: usize) -> (r: Result<(), CodecError>)
    ensures
        r is Ok <==> pdu_size <= MAX_PDU_SIZE,
        r matches Err(e) ==> e == CodecError::ResponsePduSizeExceeded,
{
    if pdu_size > MAX_PDU_SIZE {
        return Err(CodecError::ResponsePduSizeExceeded);
    }
    Ok(())
}

/// The request PDU that `b` holds.
fn decode_request_pdu_slice(b: &[u8]) -> (r: Result<Request, CodecError>)
    ensures
        match r {
            Ok(req) => decode_request(b@) == Ok::<RequestView, CodecError>(req@),
            Err(e) => decode_request(b@) == Err::<RequestView, CodecError>(e),
        },
{
    let n = b.len();
    if n == 0 {
        return Err(CodecError::UnexpectedEof);
    }
    let fc = b[0];
    if fc == 0x01 || fc == 0x02 || fc == 0x03 || fc == 0x04 || fc == 0x06 {
        if n < 5 {
            return Err(CodecError::UnexpectedEof);
        }
        let w1 = read_u16_be(b, 1);
        let w2 = read_u16_be(b, 3);
        if n > 5 {
            return Err(CodecError::UndecodedData);
        }
        let req = if fc == 0x01 {
            Request::ReadCoils(w1, w2)
        } else if fc == 0x02 {
            Request::ReadDiscreteInputs(w1, w2)
        } else if fc == 0x03 {
            Request::ReadHoldingRegisters(w1, w2)
        } else if fc == 0x04 {
            Request::ReadInputRegisters(w1, w2)
        } else {
            Request::WriteSingleRegister(w1, w2)
        };
        Ok(req)
    } else if fc == 0x05 {
        if n < 5 {
            return Err(CodecError::UnexpectedEof);
        }
        let address = read_u16_be(b, 1);
        let state = coil_to_bool(read_u16_be(b, 3))?;
        if n > 5 {
            return Err(CodecError::UndecodedData);
        }
        Ok(Request::WriteSingleCoil(address, state))
    } else if fc == 0x0F {
        check_request_pdu_size(n)?;
        if n < 6 {
            return Err(CodecError::UnexpectedEof);
        }
        let address = read_u16_be(b, 1);
        let quantity = read_u16_be(b, 3);
        let byte_count = b[5] as usize;
        if n < 6 + byte_count {
            return Err(CodecError::TooShort);
        }
        if quantity as usize > 8 * byte_count {
            return Err(CodecError::InvalidQuantity);
        }
        let packed: &[u8] = &b[6..6 + byte_count];
        let coils = decode_packed_coils(packed, quantity);
        if n > 6 + byte_count {
            return Err(CodecError::UndecodedData);
        }
        Ok(Request::WriteMultipleCoils(address, coils))
    } else if fc == 0x10 {
        check_request_pdu_size(n)?;
        if n < 6 {
            return Err(CodecError::UnexpectedEof);
        }
        let address = read_u16_be(b, 1);
        let quantity = read_u16_be(b, 3);
        let byte_count = b[5];
        if byte_count as u16 != quantity.wrapping_mul(2) {
            return Err(CodecError::InvalidQuantity);
        }
        if n < 6 + 2 * (quantity as usize) {
            return Err(CodecError::UnexpectedEof);
        }
        let data = read_words(b, 6, quantity);
        if n > 6 + 2 * (quantity as usize) {
            return Err(CodecError::UndecodedData);
        }
        Ok(Request::WriteMultipleRegisters(address, data))
    } else if fc == 0x11 {
        if n > 1 {
            return Err(CodecError::UndecodedData);
        }
        Ok(Request::ReportServerId)
    } else if fc == 0x16 {
        if n < 7 {
            return Err(CodecError::UnexpectedEof);
        }
        let address = read_u16_be(b, 1);
        let and_mask = read_u16_be(b, 3);
        let or_mask = read_u16_be(b, 5);
        if n > 7 {
            return Err(CodecError::UndecodedData);
        }
        Ok(Request::MaskWriteRegister(address, and_mask, or_mask))
    } else if fc == 0x17 {
        check_request_pdu_size(n)?;
        if n < 10 {
            return Err(CodecError::UnexpectedEof);
        }
        let read_address = read_u16_be(b, 1);
        let read_quantity = read_u16_be(b, 3);
        let write_address = read_u16_be(b, 5);
        let write_quantity = read_u16_be(b, 7);
        let write_count = b[9];
        if write_count as u16 != write_quantity.wrapping_mul(2) {
            return Err(CodecError::InvalidWriteQuantity);
        }
        if n < 10 + 2 * (write_quantity as usize) {
            return Err(CodecError::UnexpectedEof);
        }
        let data = read_words(b, 10, write_quantity);
        if n > 10 + 2 * (write_quantity as usize) {
            return Err(CodecError::UndecodedData);
        }
        Ok(Request::ReadWriteMultipleRegisters(read_address, read_quantity, write_address, data))
    } else if fc == 0x2B && n < 2 {
        Err(CodecError::UnexpectedEof)
    } else if fc == 0x2B && b[1] == MEI_TYPE_READ_DEVICE_IDENTIFICATION {
        check_request_pdu_size(n)?;
        if n < 3 {
            return Err(CodecError::UnexpectedEof);
        }
        let read_code = match ReadCode::try_from_value(b[2]) {
            Some(code) => code,
            None => {
                return Err(CodecError::InvalidReadCode);
            },
        };
        if n < 4 {
            return Err(CodecError::UnexpectedEof);
        }
        let object_id = b[3];
        if n > 4 {
            return Err(CodecError::UndecodedData);
        }
        Ok(Request::ReadDeviceIdentification(read_code, object_id))
    } else if fc < 0x80 {
        Ok(Request::Custom(fc, copy_bytes(b, 1, n)))
    } else {
        Err(CodecError::InvalidFunctionCode(fc))
    }
}

/// The request PDU that the bytes hold, or why they hold none. A Write
/// Multiple Coils request whose quantity exceeds the coils its bytes hold is
/// an invalid quantity.
pub fn decode_request_pdu_bytes(bytes: &Bytes) -> (r: Result<Request, CodecError>)
    ensures
        match r {
            Ok(req) => decode_request(bytes_view(*bytes)) == Ok::<RequestView, CodecError>(req@),
            Err(e) => decode_request(bytes_view(*bytes)) == Err::<RequestView, CodecError>(e),
        },
{
    decode_request_pdu_slice(bytes_as_slice(bytes))
}

impl Request {
    /// The request that a PDU holds.
    pub fn try_from_bytes(pdu_bytes: Bytes) -> (r: Result<Request, CodecError>)
        ensures
            match r {
                Ok(req) => decode_request(bytes_view(pdu_bytes)) == Ok::<RequestView, CodecError>(
                    req@,
                ),
                Err(e) => decode_request(bytes_view(pdu_bytes)) == Err::<RequestView, CodecError>(
                    e,
                ),
            },
    {
        decode_request_pdu_bytes(&pdu_bytes)
    }
}

impl RequestPdu {
    /// The request PDU that the bytes hold.
    pub fn try_from_bytes(bytes: Bytes) -> (r: Result<RequestPdu, CodecError>)
        ensures
            match r {
                Ok(pdu) => decode_request(bytes_view(bytes)) == Ok::<RequestView, CodecError>(
                    pdu.0@,
                ),
                Err(e) => decode_request(bytes_view(bytes)) == Err::<RequestView, CodecError>(e),
            },
    {
        let request = decode_request_pdu_bytes(&bytes)?;
        Ok(RequestPdu(request))
    }
}

/// The `count` device identification objects from `pos` on and the position
/// after them, or why they cannot be read.
pub open spec fn decode_objects(b: Seq<u8>, pos: int, count: nat) -> Result<
    (Seq<(u8, Seq<u8>)>, int),
    CodecError,
>
    decreases count,
{
    if count == 0 {
        Ok((Seq::empty(), pos))
    } else {
        match decode_objects(b, pos, (count - 1) as nat) {
            Err(e) => Err(e),
            Ok((objects, p)) => if p + 2 > b.len() {
                Err(CodecError::UnexpectedEof)
            } else if p + 2 + b[p + 1] > b.len() {
                Err(CodecError::InvalidObjectLength)
            } else {
                Ok((objects.push((b[p], b.subrange(p + 2, p + 2 + b[p + 1]))), p + 2 + b[p + 1]))
            },
        }
    }
}

/// The response that a PDU of Read Holding or Input Registers or of
/// Read/Write Multiple Registers denotes, given its words.
pub open spec fn words_response(fc: u8, words: Seq<u16>) -> ResponseView {
    if fc == 0x03 {
        ResponseView::ReadHoldingRegisters(words)
    } else if fc == 0x04 {
        ResponseView::ReadInputRegisters(words)
    } else {
        ResponseView::ReadWriteMultipleRegisters(words)
    }
}

/// The response to a device identification request that the bytes of a PDU
/// denote, after the MEI type; or why they denote none.
pub open spec fn decode_device_identification(b: Seq<u8>) -> Result<ResponseView, CodecError> {
    let n = b.len();
    if n > MAX_PDU_SIZE {
        Err(CodecError::ResponsePduSizeExceeded)
    } else if n < 3 {
        Err(CodecError::UnexpectedEof)
    } else {
        match read_code_of(b[2]) {
            None => Err(CodecError::InvalidReadCode),
            Some(code) => if n < 4 {
                Err(CodecError::UnexpectedEof)
            } else {
                match conformity_level_of(b[3]) {
                    None => Err(CodecError::InvalidConformityLevel),
                    Some(level) => if n < 7 {
                        Err(CodecError::UnexpectedEof)
                    } else {
                        match decode_objects(b, 7, b[6] as nat) {
                            Err(e) => Err(e),
                            Ok((objects, end)) => complete(
                                b,
                                end,
                                ResponseView::ReadDeviceIdentification(
                                    code,
                                    level,
                                    b[4] == 0xFF,
                                    b[5],
                                    objects,
                                ),
                            ),
                        }
                    },
                }
            },
        }
    }
}

/// The response that the bytes of a PDU denote, or why they denote none.
pub open spec fn decode_response(b: Seq<u8>) -> Result<ResponseView, CodecError> {
    let n = b.len();
    if n == 0 {
        Err(CodecError::UnexpectedEof)
    } else {
        let fc = b[0];
        if fc == 0x01 || fc == 0x02 {
            if n > MAX_PDU_SIZE {
                Err(CodecError::ResponsePduSizeExceeded)
            } else if n < 2 {
                Err(CodecError::UnexpectedEof)
            } else if n < 2 + b[1] {
                Err(CodecError::TooShort)
            } else {
                let coils = unpacked_coils(b.subrange(2, 2 + b[1]), (8 * b[1]) as nat);
                complete(
                    b,
                    2 + b[1],
                    if fc == 0x01 {
                        ResponseView::ReadCoils(coils)
                    } else {
                        ResponseView::ReadDiscreteInputs(coils)
                    },
                )
            }
        } else if fc == 0x05 {
            if n < 5 {
                Err(CodecError::UnexpectedEof)
            } else {
                match coil_state(u16_at(b, 3)) {
                    Err(e) => Err(e),
                    Ok(state) => complete(b, 5, ResponseView::WriteSingleCoil(u16_at(b, 1), state)),
                }
            }
        } else if fc == 0x0F || fc == 0x06 || fc == 0x10 {
            if n < 5 {
                Err(CodecError::UnexpectedEof)
            } else {
                complete(
                    b,
                    5,
                    if fc == 0x0F {
                        ResponseView::WriteMultipleCoils(u16_at(b, 1), u16_at(b, 3))
                    } else if fc == 0x06 {
                        ResponseView::WriteSingleRegister(u16_at(b, 1), u16_at(b, 3))
                    } else {
                        ResponseView::WriteMultipleRegisters(u16_at(b, 1), u16_at(b, 3))
                    },
                )
            }
        } else if fc == 0x03 || fc == 0x04 || fc == 0x17 {
            if n > MAX_PDU_SIZE {
                Err(CodecError::ResponsePduSizeExceeded)
            } else if n < 2 {
                Err(CodecError::UnexpectedEof)
            } else if b[1] % 2 != 0 {
                Err(CodecError::InvalidQuantity)
            } else if n < 2 + b[1] {
                Err(CodecError::UnexpectedEof)
            } else {
                complete(b, 2 + b[1], words_response(fc, words_at(b, 2, (b[1] / 2) as nat)))
            }
        } else if fc == 0x11 {
            if n > MAX_PDU_SIZE {
                Err(CodecError::ResponsePduSizeExceeded)
            } else if n < 2 {
                Err(CodecError::UnexpectedEof)
            } else if b[1] < 2 {
                Err(CodecError::TooShort)
            } else if n < 4 {
                Err(CodecError::UnexpectedEof)
            } else if b[3] != 0x00 && b[3] != 0xFF {
                Err(CodecError::InvalidRunIndication(b[3]))
            } else if n < 2 + b[1] {
                Err(CodecError::UnexpectedEof)
            } else {
                complete(
                    b,
                    2 + b[1],
                    ResponseView::ReportServerId(b[2], b[3] == 0xFF, b.subrange(4, 2 + b[1])),
                )
            }
        } else if fc == 0x16 {
            if n < 7 {
                Err(CodecError::UnexpectedEof)
            } else {
                complete(
                    b,
                    7,
                    ResponseView::MaskWriteRegister(u16_at(b, 1), u16_at(b, 3), u16_at(b, 5)),
                )
            }
        } else if fc == 0x2B && n < 2 {
            Err(CodecError::UnexpectedEof)
        } else if fc == 0x2B && b[1] == MEI_TYPE_READ_DEVICE_IDENTIFICATION {
            decode_device_identification(b)
        } else {
            Ok(ResponseView::Custom(fc, b.subrange(1, n as int)))
        }
    }
}

/// The device identification objects from `pos` on.
fn read_device_id_objects(bytes: &Bytes, b: &[u8], count: u8) -> (r: Result<
    (Vec<DeviceIdObject>, usize),
    CodecError,
>)
    requires
        b@ == bytes_view(*bytes),
        7 <= b@.len() <= MAX_PDU_SIZE,
    ensures
        match r {
            Ok((objects, end)) => decode_objects(b@, 7, count as nat) == Ok::<
                (Seq<(u8, Seq<u8>)>, int),
                CodecError,
            >((objects_view(objects@), end as int)),
            Err(e) => decode_objects(b@, 7, count as nat) == Err::<
                (Seq<(u8, Seq<u8>)>, int),
                CodecError,
            >(e),
        },
{
    let n = b.len();
    let mut objects: Vec<DeviceIdObject> = Vec::new();
    let mut pos: usize = 7;
    let mut i: u8 = 0;
    assert(objects_view(objects@) =~= Seq::<(u8, Seq<u8>)>::empty());
    while i < count
        invariant
            i <= count,
            n == b@.len(),
            b@ == bytes_view(*bytes),
            7 <= pos <= n <= MAX_PDU_SIZE,
            decode_objects(b@, 7, i as nat) == Ok::<(Seq<(u8, Seq<u8>)>, int), CodecError>(
                (objects_view(objects@), pos as int),
            ),
            forall|k: nat|
                i <= k <= count && decode_objects(b@, 7, i as nat) is Err ==> (
                #[trigger] decode_objects(b@, 7, k)) == decode_objects(b@, 7, i as nat),
        decreases count - i,
    {
        if pos + 2 > n {
            proof {
                lemma_decode_objects_err_stays(b@, i as nat + 1, count as nat);
            }
            return Err(CodecError::UnexpectedEof);
        }
        let id = b[pos];
        let len = b[pos + 1] as usize;
        if pos + 2 + len > n {
            proof {
                lemma_decode_objects_err_stays(b@, i as nat + 1, count as nat);
            }
            return Err(CodecError::InvalidObjectLength);
        }
        let value = bytes_slice(bytes, pos + 2, pos + 2 + len);
        let ghost old_objects = objects@;
        objects.push(DeviceIdObject { id, value });
        assert(objects_view(objects@) =~= objects_view(old_objects).push(
            (id, b@.subrange(pos + 2, pos + 2 + len)),
        ));
        pos = pos + 2 + len;
        i = i + 1;
    }
    Ok((objects, pos))
}

/// Once reading objects fails, reading more of them fails the same way.
proof fn lemma_decode_objects_err_stays(b: Seq<u8>, i: nat, k: nat)
    requires
        i <= k,
        decode_objects(b, 7, i) is Err,
    ensures
        decode_objects(b, 7, k) == decode_objects(b, 7, i),
    decreases k - i,
{
    if i < k {
        lemma_decode_objects_err_stays(b, i, (k - 1) as nat);
    }
}

/// The response PDU that `bytes` (whose bytes are `b`) holds.
#[verifier::rlimit(40)]
fn decode_response_pdu_slice(bytes: &Bytes, b: &[u8]) -> (r: Result<Response, CodecError>)
    requires
        b@ == bytes_view(*bytes),
    ensures
        match r {
            Ok(rsp) => decode_response(b@) == Ok::<ResponseView, CodecError>(rsp@),
            Err(e) => decode_response(b@) == Err::<ResponseView, CodecError>(e),
        },
{
    let n = b.len();
    if n == 0 {
        return Err(CodecError::UnexpectedEof);
    }
    let fc = b[0];
    if fc == 0x01 || fc == 0x02 {
        check_response_pdu_size(n)?;
        if n < 2 {
            return Err(CodecError::UnexpectedEof);
        }
        let byte_count = b[1] as usize;
        if n < 2 + byte_count {
            return Err(CodecError::TooShort);
        }
        let packed: &[u8] = &b[2..2 + byte_count];
        let coils = decode_packed_coils(packed, (byte_count * 8) as u16);
        if n > 2 + byte_count {
            return Err(CodecError::UndecodedData);
        }
        if fc == 0x01 {
            Ok(Response::ReadCoils(coils))
        } else {
            Ok(Response::ReadDiscreteInputs(coils))
        }
    } else if fc == 0x05 {
        if n < 5 {
            return Err(CodecError::UnexpectedEof);
        }
        let address = read_u16_be(b, 1);
        let state = coil_to_bool(read_u16_be(b, 3))?;
        if n > 5 {
            return Err(CodecError::UndecodedData);
        }
        Ok(Response::WriteSingleCoil(address, state))
    } else if fc == 0x0F || fc == 0x06 || fc == 0x10 {
        if n < 5 {
            return Err(CodecError::UnexpectedEof);
        }
        let w1 = read_u16_be(b, 1);
        let w2 = read_u16_be(b, 3);
        if n > 5 {
            return Err(CodecError::UndecodedData);
        }
        if fc == 0x0F {
            Ok(Response::WriteMultipleCoils(w1, w2))
        } else if fc == 0x06 {
            Ok(Response::WriteSingleRegister(w1, w2))
        } else {
            Ok(Response::WriteMultipleRegisters(w1, w2))
        }
    } else if fc == 0x03 || fc == 0x04 || fc == 0x17 {
        check_response_pdu_size(n)?;
        if n < 2 {
            return Err(CodecError::UnexpectedEof);
        }
        let byte_count = b[1];
        if byte_count % 2 != 0 {
            return Err(CodecError::InvalidQuantity);
        }
        let quantity = (byte_count / 2) as u16;
        if n < 2 + byte_count as usize {
            return Err(CodecError::UnexpectedEof);
        }
        let data = read_words(b, 2, quantity);
        if n > 2 + byte_count as usize {
            return Err(CodecError::UndecodedData);
        }
        if fc == 0x03 {
            Ok(Response::ReadHoldingRegisters(data))
        } else if fc == 0x04 {
            Ok(Response::ReadInputRegisters(data))
        } else {
            Ok(Response::ReadWriteMultipleRegisters(data))
        }
    } else if fc == 0x11 {
        check_response_pdu_size(n)?;
        if n < 2 {
            return Err(CodecError::UnexpectedEof);
        }
        let byte_count = b[1];
        if byte_count < 2 {
            return Err(CodecError::TooShort);
        }
        if n < 4 {
            return Err(CodecError::UnexpectedEof);
        }
        let server_id = b[2];
        let status = b[3];
        let run_indication_status = if status == 0x00 {
            false
        } else if status == 0xFF {
            true
        } else {
            return Err(CodecError::InvalidRunIndication(status));
        };
        let end = 2 + byte_count as usize;
        if n < end {
            return Err(CodecError::UnexpectedEof);
        }
        let data = copy_bytes(b, 4, end);
        if n > end {
            return Err(CodecError::UndecodedData);
        }
        Ok(Response::ReportServerId(server_id, run_indication_status, data))
    } else if fc == 0x16 {
        if n < 7 {
            return Err(CodecError::UnexpectedEof);
        }
        let address = read_u16_be(b, 1);
        let and_mask = read_u16_be(b, 3);
        let or_mask = read_u16_be(b, 5);
        if n > 7 {
            return Err(CodecError::UndecodedData);
        }
        Ok(Response::MaskWriteRegister(address, and_mask, or_mask))
    } else if fc == 0x2B && n < 2 {
        Err(CodecError::UnexpectedEof)
    } else if fc == 0x2B && b[1] == MEI_TYPE_READ_DEVICE_IDENTIFICATION {
        decode_device_identification_slice(bytes, b)
    } else {
        Ok(Response::Custom(fc, bytes_slice(bytes, 1, n)))
    }
}

/// The device identification response that `bytes` (whose bytes are `b`) holds.
fn decode_device_identification_slice(bytes: &Bytes, b: &[u8]) -> (r: Result<
    Response,
    CodecError,
>)
    requires
        b@ == bytes_view(*bytes),
    ensures
        match r {
            Ok(rsp) => decode_device_identification(b@) == Ok::<ResponseView, CodecError>(rsp@),
            Err(e) => decode_device_identification(b@) == Err::<ResponseView, CodecError>(e),
        },
{
    let n = b.len();
    check_response_pdu_size(n)?;
    if n < 3 {
        return Err(CodecError::UnexpectedEof);
    }
    let read_code = match ReadCode::try_from_value(b[2]) {
        Some(code) => code,
        None => {
            return Err(CodecError::InvalidReadCode);
        },
    };
    if n < 4 {
        return Err(CodecError::UnexpectedEof);
    }
    let conformity_level = match ConformityLevel::try_from_value(b[3]) {
        Some(level) => level,
        None => {
            return Err(CodecError::InvalidConformityLevel);
        },
    };
    if n < 7 {
        return Err(CodecError::UnexpectedEof);
    }
    let more_follows = b[4] == 0xff;
    let next_object_id = b[5];
    let count = b[6];
    let (objects, end) = read_device_id_objects(bytes, b, count)?;
    if n > end {
        return Err(CodecError::UndecodedData);
    }
    Ok(
        Response::ReadDeviceIdentification(
            read_code,
            conformity_level,
            more_follows,
            next_object_id,
            objects,
        ),
    )
}

impl Response {
    /// The response that a PDU holds.
    pub fn try_from_bytes(pdu_bytes: Bytes) -> (r: Result<Response, CodecError>)
        ensures
            match r {
                Ok(rsp) => decode_response(bytes_view(pdu_bytes)) == Ok::<
                    ResponseView,
                    CodecError,
                >(rsp@),
                Err(e) => decode_response(bytes_view(pdu_bytes)) == Err::<
                    ResponseView,
                    CodecError,
                >(e),
            },
    {
        let b = bytes_as_slice(&pdu_bytes);
        decode_response_pdu_slice(&pdu_bytes, b)
    }
}

/// The exception response that the bytes of a PDU denote, or why they denote none.
pub open spec fn decode_exception(b: Seq<u8>) -> Result<ExceptionResponse, CodecError> {
    if b.len() == 0 {
        Err(CodecError::UnexpectedEof)
    } else if b[0] < 0x80 {
        Err(CodecError::InvalidExceptionFunctionCode)
    } else if b.len() < 2 {
        Err(CodecError::UnexpectedEof)
    } else {
        Ok(
            ExceptionResponse {
                function: function_code_of((b[0] - 0x80) as u8),
                exception: exception_code_of(b[1]),
            },
        )
    }
}

/// The response or exception that the bytes of a PDU denote: an exception
/// if the function code has its highest bit set.
pub open spec fn decode_response_result(b: Seq<u8>) -> Result<
    Result<ResponseView, ExceptionResponse>,
    CodecError,
> {
    if b.len() == 0 {
        Err(CodecError::UnexpectedEof)
    } else if b[0] < 0x80 {
        match decode_response(b) {
            Ok(r) => Ok(Ok(r)),
            Err(e) => Err(e),
        }
    } else {
        match decode_exception(b) {
            Ok(e) => Ok(Err(e)),
            Err(e) => Err(e),
        }
    }
}

/// The view of a response PDU's content.
pub open spec fn response_result_view(r: Result<Response, ExceptionResponse>) -> Result<
    ResponseView,
    ExceptionResponse,
> {
    match r {
        Ok(response) => Ok(response@),
        Err(e) => Err(e),
    }
}

impl ExceptionResponse {
    /// The exception response that a PDU holds.
    pub fn try_from_bytes(bytes: Bytes) -> (r: Result<ExceptionResponse, CodecError>)
        ensures
            r == decode_exception(bytes_view(bytes)),
    {
        let b = bytes_as_slice(&bytes);
        if b.len() == 0 {
            return Err(CodecError::UnexpectedEof);
        }
        let fn_err_code = b[0];
        if fn_err_code < 0x80 {
            return Err(CodecError::InvalidExceptionFunctionCode);
        }
        let function = fn_err_code - 0x80;
        if b.len() < 2 {
            return Err(CodecError::UnexpectedEof);
        }
        let exception = ExceptionCode::new(b[1]);
        Ok(ExceptionResponse { function: FunctionCode::new(function), exception })
    }
}

impl ResponsePdu {
    /// The response or exception that a PDU holds.
    pub fn try_from_bytes(bytes: Bytes) -> (r: Result<ResponsePdu, CodecError>)
        ensures
            match r {
                Ok(pdu) => decode_response_result(bytes_view(bytes)) == Ok::<
                    Result<ResponseView, ExceptionResponse>,
                    CodecError,
                >(response_result_view(pdu.0)),
                Err(e) => decode_response_result(bytes_view(bytes)) == Err::<
                    Result<ResponseView, ExceptionResponse>,
                    CodecError,
                >(e),
            },
    {
        let b = bytes_as_slice(&bytes);
        if b.len() == 0 {
            return Err(CodecError::UnexpectedEof);
        }
        if b[0] < 0x80 {
            let response = Response::try_from_bytes(bytes)?;
            Ok(ResponsePdu(Ok(response)))
        } else {
            let exception = ExceptionResponse::try_from_bytes(bytes)?;
            Ok(ResponsePdu(Err(exception)))
        }
    }
}

} // verus!
