//! What holds of the encoders and decoders together.

use vstd::prelude::*;

use super::{
    decode_exception, decode_objects, decode_response, decode_response_result, encodable_exception,
    exception_bytes, objects_bytes, objects_len, response_bytes, response_data_bytes,
    response_pdu_len, response_result_bytes, response_result_view, CodecError, be16, coil_at, coil_bit, coil_state, coil_word, decode_request, packed_byte, packed_coils,
    packed_len, request_bytes, request_data_bytes, request_pdu_len,
    u16_at, unpacked_coils, words_at, words_bytes, MAX_PDU_SIZE,
};
use super::rtu::{
    attempt, crc16, crc_register, crc_shift, crc_steps, decode_attempts, framed, pdu_len_of, record_dropped, response_pdu_len_of, PduKind, MAX_FRAME_LEN,
    MAX_RETRIES,
};
use super::tcp::{tcp_frame, tcp_framed};
use crate::frame::tcp::Header;
use crate::frame::{
    conformity_level_of, conformity_level_value, exception_code_of, exception_code_value,
    is_named_function_code, response_function_code, ExceptionResponse, Response, ResponseView,
    ExceptionCode, FunctionCode, function_code_of, function_code_value, read_code_of, read_code_value, request_function_code,
    RequestView, MEI_TYPE_READ_DEVICE_IDENTIFICATION, ReadCode,
};

verus! {

/// Bit `m` of a byte built from eight bits `b0..b7` (each `0` or `1`) is `bm`.
proof fn lemma_bit_of_byte(b0: u8, b1: u8, b2: u8, b3: u8, b4: u8, b5: u8, b6: u8, b7: u8, m: u8)
    by (bit_vector)
    requires
        b0 <= 1 && b1 <= 1 && b2 <= 1 && b3 <= 1 && b4 <= 1 && b5 <= 1 && b6 <= 1 && b7 <= 1,
        m < 8,
    ensures
        ((((((((((0u8 | (b0 << 0u8)) | (b1 << 1u8)) | (b2 << 2u8)) | (b3 << 3u8)) | (b4
            << 4u8)) | (b5 << 5u8)) | (b6 << 6u8)) | (b7 << 7u8)) >> m) & 1u8 > 0) == ((if m
            == 0 {
            b0
        } else if m == 1 {
            b1
        } else if m == 2 {
            b2
        } else if m == 3 {
            b3
        } else if m == 4 {
            b4
        } else if m == 5 {
            b5
        } else if m == 6 {
            b6
        } else {
            b7
        }) == 1),
{
}

/// Bit `m` of packed byte `j` is coil `8 * j + m`.
proof fn lemma_packed_bit(coils: Seq<bool>, j: int, m: int)
    requires
        0 <= j,
        0 <= m < 8,
    ensures
        ((packed_byte(coils, j, 8) >> (m as u8)) & 1u8 > 0) == (coil_bit(coils, 8 * j + m) == 1),
{
    reveal_with_fuel(packed_byte, 9);
    lemma_bit_of_byte(
        coil_bit(coils, 8 * j),
        coil_bit(coils, 8 * j + 1),
        coil_bit(coils, 8 * j + 2),
        coil_bit(coils, 8 * j + 3),
        coil_bit(coils, 8 * j + 4),
        coil_bit(coils, 8 * j + 5),
        coil_bit(coils, 8 * j + 6),
        coil_bit(coils, 8 * j + 7),
        m as u8,
    );
}

/// Unpacking packed coils gives the coils back, and zeros after them up
/// to the end of the last byte.
pub proof fn lemma_unpack_packed(coils: Seq<bool>, count: nat)
    requires
        count <= 8 * packed_len(coils.len()),
    ensures
        forall|i: int|
            0 <= i < count ==> #[trigger] unpacked_coils(packed_coils(coils), count)[i] == (i
                < coils.len() && coils[i]),
{
    assert forall|i: int| 0 <= i < count implies #[trigger] unpacked_coils(
        packed_coils(coils),
        count,
    )[i] == (i < coils.len() && coils[i]) by {
        lemma_packed_bit(coils, i / 8, i % 8);
        assert(8 * (i / 8) + i % 8 == i);
    }
}

/// Packed coils, unpacked to their own number, are the coils.
pub proof fn packed_coils_round_trip(coils: Seq<bool>)
    ensures
        unpacked_coils(packed_coils(coils), coils.len()) == coils,
{
    lemma_unpack_packed(coils, coils.len());
    assert(unpacked_coils(packed_coils(coils), coils.len()) =~= coils);
}

/// The words, read back from their bytes, are the words.
proof fn lemma_words_round_trip(b: Seq<u8>, off: int, words: Seq<u16>)
    requires
        0 <= off,
        off + 2 * words.len() <= b.len(),
        b.subrange(off, off + 2 * words.len()) == words_bytes(words),
    ensures
        words_at(b, off, words.len()) == words,
{
    assert forall|i: int| 0 <= i < words.len() implies #[trigger] words_at(
        b,
        off,
        words.len(),
    )[i] == words[i] by {
        assert(b[off + 2 * i] == words_bytes(words)[2 * i]);
        assert(b[off + 2 * i + 1] == words_bytes(words)[2 * i + 1]);
        assert((2 * i) % 2 == 0 && (2 * i) / 2 == i);
        assert((2 * i + 1) % 2 == 1 && (2 * i + 1) / 2 == i);
    }
    assert(words_at(b, off, words.len()) =~= words);
}

/// Whether a request is one that its bytes denote again: it fits into a
/// PDU, and a custom request's function code is below `0x80`, belongs to no
/// request that the decoder knows, and does not look like a device
/// identification request.
pub open spec fn round_trips(r: RequestView) -> bool {
    &&& request_pdu_len(r) <= MAX_PDU_SIZE
    &&& r matches RequestView::Custom(fc, data) ==> {
        &&& fc < 0x80
        &&& !(fc == 0x01 || fc == 0x02 || fc == 0x03 || fc == 0x04 || fc == 0x05 || fc == 0x06
            || fc == 0x0F || fc == 0x10 || fc == 0x11 || fc == 0x16 || fc == 0x17)
        &&& fc == 0x2B ==> data.len() > 0 && data[0] != MEI_TYPE_READ_DEVICE_IDENTIFICATION
    }
}

/// The two bytes of a word read back as the word.
proof fn lemma_be16(b: Seq<u8>, i: int, w: u16)
    requires
        0 <= i,
        i + 2 <= b.len(),
        b[i] == be16(w)[0],
        b[i + 1] == be16(w)[1],
    ensures
        u16_at(b, i) == w,
{
}

/// Decoding the bytes of a request gives the request back, for every request
/// that fits into a PDU and is not a custom request that carries the code of
/// a known one.
#[verifier::rlimit(60)]
pub proof fn request_round_trip(r: RequestView)
    requires
        round_trips(r),
    ensures
        decode_request(request_bytes(r)) == Ok::<RequestView, super::CodecError>(r),
{
    let b = request_bytes(r);
    let d = request_data_bytes(r);
    assert(b == seq![function_code_value(request_function_code(r))] + d);
    assert(b.len() == 1 + d.len());
    assert forall|i: int| 0 <= i < d.len() implies b[1 + i] == #[trigger] d[i] by {}
    match r {
        RequestView::ReadCoils(a, q) => {
            lemma_be16(b, 1, a);
            lemma_be16(b, 3, q);
        },
        RequestView::ReadDiscreteInputs(a, q) => {
            lemma_be16(b, 1, a);
            lemma_be16(b, 3, q);
        },
        RequestView::ReadInputRegisters(a, q) => {
            lemma_be16(b, 1, a);
            lemma_be16(b, 3, q);
        },
        RequestView::ReadHoldingRegisters(a, q) => {
            lemma_be16(b, 1, a);
            lemma_be16(b, 3, q);
        },
        RequestView::WriteSingleRegister(a, w) => {
            lemma_be16(b, 1, a);
            lemma_be16(b, 3, w);
        },
        RequestView::WriteSingleCoil(a, s) => {
            lemma_be16(b, 1, a);
            lemma_be16(b, 3, coil_word(s));
        },
        RequestView::WriteMultipleCoils(a, coils) => {
            let n = packed_len(coils.len());
            assert(coils.len() <= 8 * n);
            lemma_be16(b, 1, a);
            lemma_be16(b, 3, coils.len() as u16);
            assert(b[5] == n);
            assert(b.subrange(6, 6 + n as int) =~= packed_coils(coils));
            packed_coils_round_trip(coils);
        },
        RequestView::WriteMultipleRegisters(a, words) => {
            lemma_be16(b, 1, a);
            lemma_be16(b, 3, words.len() as u16);
            assert(b[5] == 2 * words.len());
            assert(b.subrange(6, 6 + 2 * words.len() as int) =~= words_bytes(words));
            lemma_words_round_trip(b, 6, words);
        },
        RequestView::ReportServerId => {},
        RequestView::MaskWriteRegister(a, m, o) => {
            lemma_be16(b, 1, a);
            lemma_be16(b, 3, m);
            lemma_be16(b, 5, o);
        },
        RequestView::ReadWriteMultipleRegisters(ra, q, wa, words) => {
            lemma_be16(b, 1, ra);
            lemma_be16(b, 3, q);
            lemma_be16(b, 5, wa);
            lemma_be16(b, 7, words.len() as u16);
            assert(b[9] == 2 * words.len());
            assert(b.subrange(10, 10 + 2 * words.len() as int) =~= words_bytes(words));
            lemma_words_round_trip(b, 10, words);
        },
        RequestView::ReadDeviceIdentification(code, object_id) => {
            assert(read_code_of(read_code_value(code)) == Some(code));
        },
        RequestView::Custom(fc, data) => {
            assert(b.subrange(1, b.len() as int) =~= data);
        },
    }
}

/// The bytes of the first `k` objects begin the bytes of all of them.
proof fn lemma_objects_bytes_prefix(objects: Seq<(u8, Seq<u8>)>, k: int)
    requires
        0 <= k <= objects.len(),
    ensures
        objects_bytes(objects.take(k)).len() <= objects_bytes(objects).len(),
        objects_bytes(objects) .subrange(0, objects_bytes(objects.take(k)).len() as int)
            == objects_bytes(objects.take(k)),
    decreases objects.len(),
{
    if k == objects.len() {
        assert(objects.take(k) =~= objects);
        assert(objects_bytes(objects).subrange(0, objects_bytes(objects).len() as int)
            =~= objects_bytes(objects));
    } else {
        assert(objects.drop_last().take(k) =~= objects.take(k));
        lemma_objects_bytes_prefix(objects.drop_last(), k);
        let whole = objects_bytes(objects);
        let init = objects_bytes(objects.drop_last());
        let part = objects_bytes(objects.take(k));
        assert(whole.subrange(0, part.len() as int) =~= init.subrange(0, part.len() as int));
    }
}

/// The objects' bytes are as long as the objects take.
proof fn lemma_objects_bytes_len(objects: Seq<(u8, Seq<u8>)>)
    ensures
        objects_bytes(objects).len() == objects_len(objects),
    decreases objects.len(),
{
    if objects.len() > 0 {
        lemma_objects_bytes_len(objects.drop_last());
    }
}

/// Reading the objects back from their bytes gives the objects, when each
/// value is shorter than 256 bytes.
proof fn lemma_objects_round_trip(b: Seq<u8>, objects: Seq<(u8, Seq<u8>)>, k: int)
    requires
        0 <= k <= objects.len(),
        7 + objects_bytes(objects).len() <= b.len(),
        b.subrange(7, 7 + objects_bytes(objects).len() as int) == objects_bytes(objects),
        forall|i: int| 0 <= i < objects.len() ==> (#[trigger] objects[i]).1.len() < 256,
    ensures
        decode_objects(b, 7, k as nat) == Ok::<(Seq<(u8, Seq<u8>)>, int), CodecError>(
            (objects.take(k), 7 + objects_bytes(objects.take(k)).len() as int),
        ),
    decreases k,
{
    if k == 0 {
        assert(objects.take(0) =~= Seq::<(u8, Seq<u8>)>::empty());
    } else {
        lemma_objects_round_trip(b, objects, k - 1);
        lemma_objects_bytes_prefix(objects, k);
        let prev = objects_bytes(objects.take(k - 1));
        let cur = objects_bytes(objects.take(k));
        let p: int = 7 + prev.len() as int;
        let o = objects[k - 1];
        assert(objects.take(k).drop_last() =~= objects.take(k - 1));
        assert(objects.take(k).last() == o);
        assert(cur == prev + seq![o.0, o.1.len() as u8] + o.1);
        assert(b.subrange(7, 7 + cur.len() as int) =~= cur) by {
            assert(b.subrange(7, 7 + cur.len() as int) =~= b.subrange(
                7,
                7 + objects_bytes(objects).len() as int,
            ).subrange(0, cur.len() as int));
        }
        assert(b[p] == cur[prev.len() as int]);
        assert(b[p + 1] == cur[prev.len() as int + 1]);
        assert(b[p + 1] == o.1.len());
        assert(b.subrange(p + 2, p + 2 + o.1.len() as int) =~= o.1) by {
            assert forall|i: int| 0 <= i < o.1.len() implies b.subrange(
                p + 2,
                p + 2 + o.1.len() as int,
            )[i] == o.1[i] by {
                assert(b[p + 2 + i] == cur[prev.len() as int + 2 + i]);
            }
        }
        assert(objects.take(k - 1).push(o) =~= objects.take(k));
    }
}

/// Whether a response is one that its bytes denote again: its bytes fit into
/// a PDU, and a custom response's function code is below `0x80`, belongs to
/// no response that the decoder knows, and does not look like a device
/// identification response.
pub open spec fn response_round_trips(r: ResponseView) -> bool {
    &&& response_bytes(r).len() <= MAX_PDU_SIZE
    &&& response_pdu_len(r) <= MAX_PDU_SIZE
    &&& r matches ResponseView::Custom(fc, data) ==> {
        &&& fc < 0x80
        &&& !(fc == 0x01 || fc == 0x02 || fc == 0x03 || fc == 0x04 || fc == 0x05 || fc == 0x06
            || fc == 0x0F || fc == 0x10 || fc == 0x11 || fc == 0x16 || fc == 0x17)
        &&& fc == 0x2B ==> data.len() > 0 && data[0] != MEI_TYPE_READ_DEVICE_IDENTIFICATION
    }
}

/// What decoding gives back for a response: the response itself, except
/// that read coils and discrete inputs come back padded with `false` to a
/// multiple of eight.
pub open spec fn response_decoded_form(r: ResponseView) -> ResponseView {
    match r {
        ResponseView::ReadCoils(coils) => ResponseView::ReadCoils(
            unpacked_coils(packed_coils(coils), 8 * packed_len(coils.len())),
        ),
        ResponseView::ReadDiscreteInputs(coils) => ResponseView::ReadDiscreteInputs(
            unpacked_coils(packed_coils(coils), 8 * packed_len(coils.len())),
        ),
        _ => r,
    }
}

/// The coils that come back from packed coils are the coils, then `false`
/// up to a multiple of eight.
pub proof fn padded_coils(coils: Seq<bool>)
    ensures
        unpacked_coils(packed_coils(coils), 8 * packed_len(coils.len())).len() == 8 * packed_len(
            coils.len(),
        ),
        unpacked_coils(packed_coils(coils), 8 * packed_len(coils.len())).subrange(
            0,
            coils.len() as int,
        ) == coils,
        forall|i: int|
            coils.len() <= i < 8 * packed_len(coils.len()) ==> !#[trigger] unpacked_coils(
                packed_coils(coils),
                8 * packed_len(coils.len()),
            )[i],
{
    lemma_unpack_packed(coils, 8 * packed_len(coils.len()));
    assert(unpacked_coils(packed_coils(coils), 8 * packed_len(coils.len())).subrange(
        0,
        coils.len() as int,
    ) =~= coils);
}

/// Decoding the bytes of a response gives the response back (read coils and
/// discrete inputs padded to a multiple of eight), for every response whose
/// bytes fit into a PDU and that is not a custom response carrying the code
/// of a known one.
#[verifier::rlimit(100)]
pub proof fn response_round_trip(r: ResponseView)
    requires
        response_round_trips(r),
    ensures
        decode_response(response_bytes(r)) == Ok::<ResponseView, CodecError>(
            response_decoded_form(r),
        ),
{
    let b = response_bytes(r);
    let d = response_data_bytes(r);
    assert(b == seq![function_code_value(response_function_code(r))] + d);
    assert(b.len() == 1 + d.len());
    assert forall|i: int| 0 <= i < d.len() implies b[1 + i] == #[trigger] d[i] by {}
    match r {
        ResponseView::ReadCoils(coils) => {
            let n = packed_len(coils.len());
            assert(b[1] == n);
            assert(b.subrange(2, 2 + n as int) =~= packed_coils(coils));
        },
        ResponseView::ReadDiscreteInputs(coils) => {
            let n = packed_len(coils.len());
            assert(b[1] == n);
            assert(b.subrange(2, 2 + n as int) =~= packed_coils(coils));
        },
        ResponseView::ReadInputRegisters(words) => {
            assert(b[1] == 2 * words.len());
            assert(b.subrange(2, 2 + 2 * words.len() as int) =~= words_bytes(words));
            lemma_words_round_trip(b, 2, words);
        },
        ResponseView::ReadHoldingRegisters(words) => {
            assert(b[1] == 2 * words.len());
            assert(b.subrange(2, 2 + 2 * words.len() as int) =~= words_bytes(words));
            lemma_words_round_trip(b, 2, words);
        },
        ResponseView::ReadWriteMultipleRegisters(words) => {
            assert(b[1] == 2 * words.len());
            assert(b.subrange(2, 2 + 2 * words.len() as int) =~= words_bytes(words));
            lemma_words_round_trip(b, 2, words);
        },
        ResponseView::WriteSingleCoil(a, s) => {
            lemma_be16(b, 1, a);
            lemma_be16(b, 3, coil_word(s));
        },
        ResponseView::WriteMultipleCoils(a, q) => {
            lemma_be16(b, 1, a);
            lemma_be16(b, 3, q);
        },
        ResponseView::WriteMultipleRegisters(a, q) => {
            lemma_be16(b, 1, a);
            lemma_be16(b, 3, q);
        },
        ResponseView::WriteSingleRegister(a, w) => {
            lemma_be16(b, 1, a);
            lemma_be16(b, 3, w);
        },
        ResponseView::ReportServerId(id, run, data) => {
            assert(b[1] == 2 + data.len());
            assert(b.subrange(4, 2 + b[1]) =~= data);
        },
        ResponseView::MaskWriteRegister(a, m, o) => {
            lemma_be16(b, 1, a);
            lemma_be16(b, 3, m);
            lemma_be16(b, 5, o);
        },
        ResponseView::ReadDeviceIdentification(code, level, more, next, objects) => {
            super::lemma_objects_len(objects);
            lemma_objects_bytes_len(objects);
            assert(read_code_of(read_code_value(code)) == Some(code));
            assert(conformity_level_of(conformity_level_value(level)) == Some(level));
            assert(b[6] == objects.len());
            assert(b.subrange(7, 7 + objects_bytes(objects).len() as int) =~= objects_bytes(
                objects,
            ));
            lemma_objects_round_trip(b, objects, objects.len() as int);
            assert(objects.take(objects.len() as int) =~= objects);
        },
        ResponseView::Custom(fc, data) => {
            assert(b.subrange(1, b.len() as int) =~= data);
        },
    }
}

/// Decoding the bytes of an exception response gives it back, unless its
/// function or exception is a custom code that carries the code of a named one.
pub proof fn exception_round_trip(e: ExceptionResponse)
    requires
        encodable_exception(e),
        e.function matches FunctionCode::Custom(c) ==> !is_named_function_code(c),
        e.exception matches ExceptionCode::Custom(c) ==> exception_code_of(c) is Custom,
    ensures
        decode_exception(exception_bytes(e)) == Ok::<ExceptionResponse, CodecError>(e),
        decode_response_result(exception_bytes(e)) == Ok::<
            Result<ResponseView, ExceptionResponse>,
            CodecError,
        >(Err(e)),
{
}

/// The size that `request_pdu_size` reports is the number of bytes that
/// `encode_request_pdu` appends, and the first of them is the function code.
pub proof fn encoded_request_len(r: RequestView)
    ensures
        request_pdu_len(r) <= MAX_PDU_SIZE ==> request_bytes(r).len() == request_pdu_len(r),
        request_bytes(r)[0] == function_code_value(request_function_code(r)),
{
}

/// The size that `response_pdu_size` reports is the number of bytes that
/// `encode_response_pdu` writes, except for Report Server ID, whose bytes
/// are one more.
pub proof fn encoded_response_len(r: ResponseView)
    ensures
        response_pdu_len(r) <= MAX_PDU_SIZE ==> response_bytes(r).len() == response_pdu_len(r)
            + if r is ReportServerId {
            1int
        } else {
            0int
        },
{
    if let ResponseView::ReadDeviceIdentification(_, _, _, _, objects) = r {
        lemma_objects_bytes_len(objects);
    }
}

/// The bytes of a response that passes the size check, or of an exception,
/// are at most one more than [`MAX_PDU_SIZE`].
pub proof fn encoded_response_result_len(res: Result<Response, ExceptionResponse>)
    ensures
        (res matches Ok(response) ==> response_pdu_len(response@) <= MAX_PDU_SIZE)
            ==> response_result_bytes(res).len() <= MAX_PDU_SIZE + 1,
{
    if let Ok(response) = res {
        encoded_response_len(response@);
    }
}

/// An RTU frame whose PDU length the decoder can tell from its first bytes
/// decodes to its slave id and PDU, whatever follows it in the buffer, and
/// the decoder forgets the bytes it had dropped.
pub proof fn rtu_frame_round_trip(
    kind: PduKind,
    slave_id: u8,
    pdu: Seq<u8>,
    rest: Seq<u8>,
    dropped: Seq<u8>,
)
    requires
        pdu_len_of(kind, framed(Seq::empty(), slave_id, pdu) + rest) == Ok::<
            Option<nat>,
            CodecError,
        >(Some(pdu.len())),
    ensures
        decode_attempts(
            kind,
            framed(Seq::empty(), slave_id, pdu) + rest,
            dropped,
            MAX_RETRIES as nat,
        ) == (
            Ok::<Option<(u8, Seq<u8>)>, CodecError>(Some((slave_id, pdu))),
            rest,
            Seq::<u8>::empty(),
        ),
{
    let f = framed(Seq::empty(), slave_id, pdu);
    let b = f + rest;
    let n = pdu.len() as int;
    let body = Seq::<u8>::empty().push(slave_id) + pdu;
    assert(b.take(n + 1) =~= body);
    let c = crc16(body);
    assert(b[n + 1] == (c / 256) as u8);
    assert(b[n + 2] == (c % 256) as u8);
    assert(u16_at(b, n + 1) == c);
    assert(b.subrange(1, n + 1) =~= pdu);
    assert(b.subrange(n + 3, b.len() as int) =~= rest);
}

/// The bytes of the request PDUs that a Modbus RTU server knows by function
/// code tell their own length: every request but device identification and
/// custom requests.
pub open spec fn rtu_sized_request(r: RequestView) -> bool {
    !(r is ReadDeviceIdentification) && !(r is Custom)
}

/// A request frame written by an RTU client is read back by an RTU server
/// as the same slave id and request, for every request that fits into a
/// PDU and whose length the server can tell.
pub proof fn rtu_request_frame_round_trip(
    slave_id: u8,
    r: RequestView,
    rest: Seq<u8>,
    dropped: Seq<u8>,
)
    requires
        request_pdu_len(r) <= MAX_PDU_SIZE,
        rtu_sized_request(r),
    ensures
        decode_attempts(
            PduKind::Request,
            framed(Seq::empty(), slave_id, request_bytes(r)) + rest,
            dropped,
            MAX_RETRIES as nat,
        ) == (
            Ok::<Option<(u8, Seq<u8>)>, CodecError>(Some((slave_id, request_bytes(r)))),
            rest,
            Seq::<u8>::empty(),
        ),
        decode_request(request_bytes(r)) == Ok::<RequestView, CodecError>(r),
{
    let pdu = request_bytes(r);
    let b = framed(Seq::empty(), slave_id, pdu) + rest;
    let d = request_data_bytes(r);
    encoded_request_len(r);
    assert(pdu == seq![function_code_value(request_function_code(r))] + d);
    assert forall|i: int| 0 <= i < pdu.len() implies b[1 + i] == #[trigger] pdu[i] by {}
    assert forall|i: int| 0 <= i < d.len() implies pdu[1 + i] == #[trigger] d[i] by {}
    assert(pdu_len_of(PduKind::Request, b) == Ok::<Option<nat>, CodecError>(Some(pdu.len())));
    rtu_frame_round_trip(PduKind::Request, slave_id, pdu, rest, dropped);
    request_round_trip(r);
}

/// An RTU response whose function code byte has the exception bit set, for
/// every function code from 0x01 up to 0x2B, is an exception PDU of two
/// bytes: the function code and the exception code.
pub proof fn rtu_exception_pdu_len(b: Seq<u8>)
    requires
        b.len() >= 2,
        0x81 <= b[1] <= 0xAB,
    ensures
        response_pdu_len_of(b) == Ok::<Option<nat>, CodecError>(Some(2)),
        pdu_len_of(PduKind::Response, b) == Ok::<Option<nat>, CodecError>(Some(2)),
{
}

/// The RTU frame of an exception response to any function code from 0x01
/// up to 0x2B, Encapsulated Interface Transport included, is read back by
/// an RTU client as the same slave id and exception PDU, whatever follows
/// it in the buffer.
pub proof fn rtu_exception_frame_round_trip(
    slave_id: u8,
    e: ExceptionResponse,
    rest: Seq<u8>,
    dropped: Seq<u8>,
)
    requires
        0x01 <= function_code_value(e.function) <= 0x2B,
    ensures
        exception_bytes(e).len() == 2,
        exception_bytes(e)[0] == function_code_value(e.function) + 0x80,
        exception_bytes(e)[1] == exception_code_value(e.exception),
        decode_attempts(
            PduKind::Response,
            framed(Seq::empty(), slave_id, exception_bytes(e)) + rest,
            dropped,
            MAX_RETRIES as nat,
        ) == (
            Ok::<Option<(u8, Seq<u8>)>, CodecError>(Some((slave_id, exception_bytes(e)))),
            rest,
            Seq::<u8>::empty(),
        ),
{
    let pdu = exception_bytes(e);
    let b = framed(Seq::empty(), slave_id, pdu) + rest;
    assert(b[1] == pdu[0]);
    rtu_exception_pdu_len(b);
    rtu_frame_round_trip(PduKind::Response, slave_id, pdu, rest, dropped);
}

/// A Read Device Identification request is the function code 0x2B, the MEI
/// type 0x0E, the read device id code, then the object id, in this order;
/// and a server reads these four bytes as that request.
pub proof fn read_device_identification_request_layout(code: ReadCode, object_id: u8, c: u8)
    ensures
        request_bytes(RequestView::ReadDeviceIdentification(code, object_id)) == seq![
            0x2Bu8,
            0x0Eu8,
            read_code_value(code),
            object_id,
        ],
        read_code_of(c) matches Some(d) ==> decode_request(seq![0x2Bu8, 0x0Eu8, c, object_id])
            == Ok::<RequestView, CodecError>(RequestView::ReadDeviceIdentification(d, object_id)),
        read_code_of(c) is None ==> decode_request(seq![0x2Bu8, 0x0Eu8, c, object_id]) == Err::<
            RequestView,
            CodecError,
        >(CodecError::InvalidReadCode),
{
    assert(request_bytes(RequestView::ReadDeviceIdentification(code, object_id)) =~= seq![
        0x2Bu8,
        0x0Eu8,
        read_code_value(code),
        object_id,
    ]);
}

/// A TCP frame decodes to its header and PDU, whatever follows it in the buffer.
pub proof fn tcp_frame_round_trip(hdr: Header, pdu: Seq<u8>, rest: Seq<u8>)
    requires
        pdu.len() + 1 <= 0xFFFF,
    ensures
        tcp_frame(tcp_framed(Seq::empty(), hdr, pdu) + rest) == (
            Ok::<Option<(Header, Seq<u8>)>, CodecError>(Some((hdr, pdu))),
            rest,
        ),
{
    let b = tcp_framed(Seq::empty(), hdr, pdu) + rest;
    lemma_be16(b, 0, hdr.transaction_id);
    lemma_be16(b, 2, 0);
    lemma_be16(b, 4, (pdu.len() + 1) as u16);
    assert(b.subrange(7, 6 + u16_at(b, 4)) =~= pdu);
    assert(b.subrange(6 + u16_at(b, 4), b.len() as int) =~= rest);
}

/// The coils or discrete inputs of a decoded response are whole bytes of
/// them: their number is always a multiple of eight.
pub proof fn decoded_coils_are_whole_bytes(b: Seq<u8>)
    ensures
        decode_response(b) matches Ok(ResponseView::ReadCoils(coils)) ==> coils.len() % 8 == 0,
        decode_response(b) matches Ok(ResponseView::ReadDiscreteInputs(coils)) ==> coils.len() % 8
            == 0,
{
}

/// Decoding an RTU frame only ever drops bytes from the front of the
/// buffer: what is left is the end of the buffer. Without a frame it drops
/// at most one byte per attempt, so at most `tries` bytes before giving up;
/// and the record of dropped bytes never grows beyond the size of a frame.
pub proof fn decoding_drops_at_most_one_byte_per_try(
    kind: PduKind,
    b: Seq<u8>,
    dropped: Seq<u8>,
    tries: nat,
)
    requires
        dropped.len() <= MAX_FRAME_LEN,
    ensures
        ({
            let (frame, rest, kept) = decode_attempts(kind, b, dropped, tries);
            &&& rest.len() <= b.len()
            &&& rest =~= b.subrange(b.len() - rest.len(), b.len() as int)
            &&& !(frame matches Ok(Some(_))) ==> b.len() - rest.len() <= tries
            &&& kept.len() <= MAX_FRAME_LEN
        }),
    decreases tries,
{
    if tries > 0 {
        match attempt(kind, b) {
            Err(_) => {
                super::rtu::lemma_attempt_err_nonempty(kind, b);
                decoding_drops_at_most_one_byte_per_try(
                    kind,
                    b.drop_first(),
                    record_dropped(dropped, b[0]),
                    (tries - 1) as nat,
                );
            },
            Ok(None) => {},
            Ok(Some(_)) => {},
        }
    }
}

/// Eight steps of the CRC, written out.
spec fn crc_byte_steps(x: u16) -> u16 {
    crc_shift(
        crc_shift(crc_shift(crc_shift(crc_shift(crc_shift(crc_shift(crc_shift(x))))))),
    )
}

proof fn lemma_crc_steps_8(x: u16)
    ensures
        crc_steps(x, 8) == crc_byte_steps(x),
{
    reveal_with_fuel(crc_steps, 9);
}

/// A register followed by its own two bytes, low byte first, leaves zero.
proof fn lemma_crc_residue_steps(r: u16)
    ensures
        crc_byte_steps(crc_byte_steps(r ^ (r & 0xFFu16)) ^ (r >> 8u16)) == 0,
{
    let x0 = r ^ (r & 0xFFu16);
    let x1 = crc_shift(x0);
    let x2 = crc_shift(x1);
    let x3 = crc_shift(x2);
    let x4 = crc_shift(x3);
    let x5 = crc_shift(x4);
    let x6 = crc_shift(x5);
    let x7 = crc_shift(x6);
    let x8 = crc_shift(x7);
    let y0 = x8 ^ (r >> 8u16);
    let y1 = crc_shift(y0);
    let y2 = crc_shift(y1);
    let y3 = crc_shift(y2);
    let y4 = crc_shift(y3);
    let y5 = crc_shift(y4);
    let y6 = crc_shift(y5);
    let y7 = crc_shift(y6);
    let y8 = crc_shift(y7);
    assert(y8 == 0) by (bit_vector)
        requires
            x0 == r ^ (r & 0xFFu16),
            x1 == crc_shift(x0),
            x2 == crc_shift(x1),
            x3 == crc_shift(x2),
            x4 == crc_shift(x3),
            x5 == crc_shift(x4),
            x6 == crc_shift(x5),
            x7 == crc_shift(x6),
            x8 == crc_shift(x7),
            y0 == x8 ^ (r >> 8u16),
            y1 == crc_shift(y0),
            y2 == crc_shift(y1),
            y3 == crc_shift(y2),
            y4 == crc_shift(y3),
            y5 == crc_shift(y4),
            y6 == crc_shift(y5),
            y7 == crc_shift(y6),
            y8 == crc_shift(y7),
    ;
}

/// The CRC-16 of data followed by its CRC-16, written high byte first as
/// the encoder writes it, is zero: a correctly framed RTU message has zero
/// residue.
pub proof fn crc_zero_residue(data: Seq<u8>)
    ensures
        crc16(data + seq![(crc16(data) / 256) as u8, (crc16(data) % 256) as u8]) == 0,
{
    let r = crc_register(data);
    let c = crc16(data);
    let hi = (c / 256) as u8;
    let lo = (c % 256) as u8;
    assert(hi as u16 == r & 0xFFu16 && lo as u16 == r >> 8u16) by (bit_vector)
        requires
            c == (r << 8u16) | (r >> 8u16),
            hi == (c / 256) as u8,
            lo == (c % 256) as u8,
    ;
    let d1 = data.push(hi);
    let d2 = d1.push(lo);
    assert(d2 =~= data + seq![hi, lo]);
    assert(d2.drop_last() =~= d1);
    assert(d1.drop_last() =~= data);
    lemma_crc_steps_8(r ^ (hi as u16));
    let r1 = crc_register(d1);
    assert(r1 == crc_byte_steps(r ^ (r & 0xFFu16)));
    lemma_crc_steps_8(r1 ^ (lo as u16));
    lemma_crc_residue_steps(r);
    assert(crc_register(d2) == 0);
    let z = crc_register(d2);
    assert((z << 8u16) | (z >> 8u16) == 0) by (bit_vector)
        requires
            z == 0,
    ;
}

} // verus!
