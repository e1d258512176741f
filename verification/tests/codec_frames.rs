use bytes::{Bytes, BytesMut};

use tokio_modbus::codec::{request_pdu_bytes, rtu, tcp, CodecError};
use tokio_modbus::frame::{
    rtu as rtu_frame, tcp as tcp_frame, RequestPdu, ResponsePdu,
};
use tokio_modbus::{ExceptionCode, ExceptionResponse, FunctionCode, Request, Response};

#[test]
fn test_calc_crc() {
    let msg = [0x01, 0x03, 0x08, 0x2B, 0x00, 0x02];
    assert_eq!(rtu::calc_crc(&msg), 0xB663);

    let msg = [0x01, 0x03, 0x04, 0x00, 0x20, 0x00, 0x00];
    assert_eq!(rtu::calc_crc(&msg), 0xFBF9);
}

#[test]
fn test_get_request_pdu_len() {
    let mut buf = BytesMut::new();

    buf.extend_from_slice(&[0x66, 0, 0, 0, 0, 0, 0, 0, 0, 0, 0, 0]);
    assert!(rtu::get_request_pdu_len(&buf).is_err());

    buf[1] = 0x01;
    assert_eq!(rtu::get_request_pdu_len(&buf).unwrap(), Some(5));

    buf[1] = 0x02;
    assert_eq!(rtu::get_request_pdu_len(&buf).unwrap(), Some(5));

    buf[1] = 0x03;
    assert_eq!(rtu::get_request_pdu_len(&buf).unwrap(), Some(5));

    buf[1] = 0x04;
    assert_eq!(rtu::get_request_pdu_len(&buf).unwrap(), Some(5));

    buf[1] = 0x05;
    assert_eq!(rtu::get_request_pdu_len(&buf).unwrap(), Some(5));

    buf[1] = 0x06;
    assert_eq!(rtu::get_request_pdu_len(&buf).unwrap(), Some(5));

    buf[1] = 0x07;
    assert_eq!(rtu::get_request_pdu_len(&buf).unwrap(), Some(1));

    buf[1] = 0x0B;
    assert_eq!(rtu::get_request_pdu_len(&buf).unwrap(), Some(1));

    buf[1] = 0x0C;
    assert_eq!(rtu::get_request_pdu_len(&buf).unwrap(), Some(1));

    buf[1] = 0x0F;
    buf[6] = 99;
    assert_eq!(rtu::get_request_pdu_len(&buf).unwrap(), Some(105));

    buf[1] = 0x10;
    buf[6] = 99;
    assert_eq!(rtu::get_request_pdu_len(&buf).unwrap(), Some(105));

    buf[1] = 0x11;
    assert_eq!(rtu::get_request_pdu_len(&buf).unwrap(), Some(1));

    buf[1] = 0x16;
    assert_eq!(rtu::get_request_pdu_len(&buf).unwrap(), Some(7));

    buf[1] = 0x17;
    buf[10] = 99; // write byte count
    assert_eq!(rtu::get_request_pdu_len(&buf).unwrap(), Some(109));

    buf[1] = 0x18;
    assert_eq!(rtu::get_request_pdu_len(&buf).unwrap(), Some(3));
}

#[test]
fn test_get_response_pdu_len() {
    let mut buf = BytesMut::new();
    buf.extend_from_slice(&[0x66, 0x01, 99]);
    assert_eq!(rtu::get_response_pdu_len(&buf).unwrap(), Some(101));

    let mut buf = BytesMut::new();
    buf.extend_from_slice(&[0x66, 0x00, 99, 0x00]);
    assert!(rtu::get_response_pdu_len(&buf).is_err());

    buf[1] = 0x01;
    assert_eq!(rtu::get_response_pdu_len(&buf).unwrap(), Some(101));

    buf[1] = 0x02;
    assert_eq!(rtu::get_response_pdu_len(&buf).unwrap(), Some(101));

    buf[1] = 0x03;
    assert_eq!(rtu::get_response_pdu_len(&buf).unwrap(), Some(101));

    buf[1] = 0x04;
    assert_eq!(rtu::get_response_pdu_len(&buf).unwrap(), Some(101));

    buf[1] = 0x05;
    assert_eq!(rtu::get_response_pdu_len(&buf).unwrap(), Some(5));

    buf[1] = 0x06;
    assert_eq!(rtu::get_response_pdu_len(&buf).unwrap(), Some(5));

    buf[1] = 0x07;
    assert_eq!(rtu::get_response_pdu_len(&buf).unwrap(), Some(2));

    buf[1] = 0x0B;
    assert_eq!(rtu::get_response_pdu_len(&buf).unwrap(), Some(5));

    buf[1] = 0x0C;
    assert_eq!(rtu::get_response_pdu_len(&buf).unwrap(), Some(101));

    buf[1] = 0x0F;
    assert_eq!(rtu::get_response_pdu_len(&buf).unwrap(), Some(5));

    buf[1] = 0x10;
    assert_eq!(rtu::get_response_pdu_len(&buf).unwrap(), Some(5));

    buf[1] = 0x16;
    assert_eq!(rtu::get_response_pdu_len(&buf).unwrap(), Some(7));

    buf[1] = 0x17;
    assert_eq!(rtu::get_response_pdu_len(&buf).unwrap(), Some(101));

    buf[1] = 0x18;
    buf[2] = 0x01; // byte count Hi
    buf[3] = 0x00; // byte count Lo
    assert_eq!(rtu::get_response_pdu_len(&buf).unwrap(), Some(259));

    for i in 0x81..0xAB {
        buf[1] = i;
        assert_eq!(rtu::get_response_pdu_len(&buf).unwrap(), Some(2));
    }
}

#[test]
fn decode_partly_received_client_message() {
    let mut codec = rtu::ClientCodec::default();
    let mut buf = BytesMut::from(
        &[
            0x12, // slave address
            0x02, // function code
            0x03, // byte count
            0x00, // data
            0x00, // data
            0x00, // data
            0x00, // CRC first byte
                  // missing crc second byte
        ][..],
    );
    let res = codec.decode(&mut buf).unwrap();
    assert!(res.is_none());
    assert_eq!(buf.len(), 7);
}

#[test]
fn decode_empty_client_message() {
    let mut codec = rtu::ClientCodec::default();
    let mut buf = BytesMut::new();
    assert_eq!(0, buf.len());

    let res = codec.decode(&mut buf).unwrap();

    assert!(res.is_none());
    assert_eq!(0, buf.len());
}

#[test]
fn decode_single_byte_client_message() {
    let mut codec = rtu::ClientCodec::default();
    let mut buf = BytesMut::from(&[0x00][..]);
    assert_eq!(1, buf.len());

    let res = codec.decode(&mut buf).unwrap();

    assert!(res.is_none());
    assert_eq!(1, buf.len());
}

#[test]
fn decode_empty_server_message() {
    let mut codec = rtu::ServerCodec::default();
    let mut buf = BytesMut::new();
    assert_eq!(0, buf.len());

    let res = codec.decode_frame(&mut buf).unwrap();

    assert!(res.is_none());
    assert_eq!(0, buf.len());
}

#[test]
fn decode_single_byte_server_message() {
    let mut codec = rtu::ServerCodec::default();
    let mut buf = BytesMut::from(&[0x00][..]);
    assert_eq!(1, buf.len());

    let res = codec.decode_frame(&mut buf).unwrap();

    assert!(res.is_none());
    assert_eq!(1, buf.len());
}

#[test]
fn decode_partly_received_server_message_0x16() {
    let mut codec = rtu::ServerCodec::default();
    let mut buf = BytesMut::from(
        &[
            0x12, // slave address
            0x16, // function code
        ][..],
    );
    assert_eq!(buf.len(), 2);

    let res = codec.decode_frame(&mut buf).unwrap();

    assert!(res.is_none());
    assert_eq!(buf.len(), 2);
}

#[test]
fn decode_partly_received_server_message_0x0f() {
    let mut codec = rtu::ServerCodec::default();
    let mut buf = BytesMut::from(
        &[
            0x12, // slave address
            0x0F, // function code
        ][..],
    );
    assert_eq!(buf.len(), 2);

    let res = codec.decode_frame(&mut buf).unwrap();

    assert!(res.is_none());
    assert_eq!(buf.len(), 2);
}

#[test]
fn decode_partly_received_server_message_0x10() {
    let mut codec = rtu::ServerCodec::default();
    let mut buf = BytesMut::from(
        &[
            0x12, // slave address
            0x10, // function code
        ][..],
    );
    assert_eq!(buf.len(), 2);

    let res = codec.decode_frame(&mut buf).unwrap();

    assert!(res.is_none());
    assert_eq!(buf.len(), 2);
}

#[test]
fn decode_rtu_message() {
    let mut codec = rtu::ClientCodec::default();
    let mut buf = BytesMut::from(
        &[
            0x01, // slave address
            0x03, // function code
            0x04, // byte count
            0x89, //
            0x02, //
            0x42, //
            0xC7, //
            0x00, // crc
            0x9D, // crc
            0x00,
        ][..],
    );
    let rtu_frame::ResponseAdu { hdr, pdu } = codec.decode(&mut buf).unwrap().unwrap();
    assert_eq!(buf.len(), 1);
    assert_eq!(hdr.slave_id, 0x01);
    if let Ok(Response::ReadHoldingRegisters(data)) = pdu.into() {
        assert_eq!(data.len(), 2);
        assert_eq!(data, vec![0x8902, 0x42C7]);
    } else {
        panic!("unexpected response")
    }
}

#[test]
fn decode_rtu_response_drop_invalid_bytes() {
    let mut codec = rtu::ClientCodec::default();
    let mut buf = BytesMut::from(
        &[
            0x42, // dropped byte
            0x43, // dropped byte
            0x01, // slave address
            0x03, // function code
            0x04, // byte count
            0x89, //
            0x02, //
            0x42, //
            0xC7, //
            0x00, // crc
            0x9D, // crc
            0x00,
        ][..],
    );
    let rtu_frame::ResponseAdu { hdr, pdu } = codec.decode(&mut buf).unwrap().unwrap();
    assert_eq!(buf.len(), 1);
    assert_eq!(hdr.slave_id, 0x01);
    if let Ok(Response::ReadHoldingRegisters(data)) = pdu.into() {
        assert_eq!(data.len(), 2);
        assert_eq!(data, vec![0x8902, 0x42C7]);
    } else {
        panic!("unexpected response")
    }
}

#[test]
fn rtu_decode_exception_message() {
    let mut codec = rtu::ClientCodec::default();
    let mut buf = BytesMut::from(
        &[
            0x66, //
            0x82, // exception = 0x80 + 0x02
            0x03, //
            0xB1, // crc
            0x7E, // crc
        ][..],
    );

    let rtu_frame::ResponseAdu { pdu, .. } = codec.decode(&mut buf).unwrap().unwrap();
    if let ResponsePdu(Err(err)) = pdu {
        assert_eq!(err.to_string(), "Modbus function 2: Illegal data value");
        assert_eq!(buf.len(), 0);
    } else {
        panic!("unexpected response")
    }
}

#[test]
fn rtu_encode_read_request() {
    let mut codec = rtu::ClientCodec::default();
    let mut buf = BytesMut::new();
    let req = Request::ReadHoldingRegisters(0x082b, 2);
    let pdu = req.into();
    let slave_id = 0x01;
    let hdr = rtu_frame::Header { slave_id };
    let adu = rtu_frame::RequestAdu {
        hdr,
        pdu,
        disconnect: false,
    };
    codec.encode(adu, &mut buf).unwrap();

    assert_eq!(
        buf,
        Bytes::from_static(&[0x01, 0x03, 0x08, 0x2B, 0x00, 0x02, 0xB6, 0x63])
    );
}

#[test]
fn rtu_encode_with_limited_buf_capacity() {
    let mut codec = rtu::ClientCodec::default();
    let req = Request::ReadHoldingRegisters(0x082b, 2);
    let pdu = req.into();
    let slave_id = 0x01;
    let hdr = rtu_frame::Header { slave_id };
    let adu = rtu_frame::RequestAdu {
        hdr,
        pdu,
        disconnect: false,
    };
    let mut buf = BytesMut::with_capacity(40);
    buf.extend_from_slice(&[0; 33]);
    assert!(codec.encode(adu, &mut buf).is_ok());
}

const TRANSACTION_ID: u16 = 0x1001;
const TRANSACTION_ID_HI: u8 = 0x10;
const TRANSACTION_ID_LO: u8 = 0x01;

const PROTOCOL_ID_HI: u8 = (tcp::PROTOCOL_ID >> 8) as u8;
const PROTOCOL_ID_LO: u8 = (tcp::PROTOCOL_ID & 0xFF) as u8;

const UNIT_ID: u8 = 0xFE;

#[test]
fn tcp_decode_header_fragment() {
    let mut codec = tcp::ClientCodec::default();
    let mut buf = BytesMut::from(&[0x00, 0x11, 0x00, 0x00, 0x00, 0x00][..]);
    let res = codec.decode(&mut buf).unwrap();
    assert!(res.is_none());
    assert_eq!(buf.len(), 6);
}

#[test]
fn decode_partly_received_message() {
    let mut codec = tcp::ClientCodec::default();
    let mut buf = BytesMut::from(
        &[
            TRANSACTION_ID_HI,
            TRANSACTION_ID_LO,
            PROTOCOL_ID_HI,
            PROTOCOL_ID_LO,
            0x00, // length high HI
            0x03, // length low LO
            UNIT_ID,
            0x02, // function code
        ][..],
    );
    let res = codec.decode(&mut buf).unwrap();
    assert!(res.is_none());
    assert_eq!(buf.len(), 8);
}

#[test]
fn tcp_decode_exception_message() {
    let mut codec = tcp::ClientCodec::default();
    let mut buf = BytesMut::from(
        &[
            TRANSACTION_ID_HI,
            TRANSACTION_ID_LO,
            PROTOCOL_ID_HI,
            PROTOCOL_ID_LO,
            0x00, // length high HI
            0x03, // length low LO
            UNIT_ID,
            0x82, // exception = 0x80 + 0x02
            0x03, //
            0x00, //
        ][..],
    );

    let tcp_frame::ResponseAdu { hdr, pdu } = codec.decode(&mut buf).unwrap().unwrap();
    assert_eq!(hdr.transaction_id, TRANSACTION_ID);
    assert_eq!(hdr.unit_id, UNIT_ID);
    if let ResponsePdu(Err(err)) = pdu {
        assert_eq!(err.to_string(), "Modbus function 2: Illegal data value");
        assert_eq!(buf.len(), 1);
    } else {
        panic!("unexpected response")
    }
}

#[test]
fn decode_with_invalid_protocol_id() {
    let mut codec = tcp::ClientCodec::default();
    let mut buf = BytesMut::from(
        &[
            TRANSACTION_ID_HI,
            TRANSACTION_ID_LO,
            0x33, // protocol id HI
            0x12, // protocol id LO
            0x00, // length HI
            0x03, // length LO
            UNIT_ID,
        ][..],
    );
    buf.extend_from_slice(&[0x00, 0x02, 0x66, 0x82, 0x03, 0x00]);
    let err = codec.decode(&mut buf).err().unwrap();
    assert_eq!(err, CodecError::InvalidProtocolId(0x3312));
}

#[test]
fn tcp_encode_read_request() {
    let mut codec = tcp::ClientCodec::default();
    let mut buf = BytesMut::new();
    let req = Request::ReadInputRegisters(0x23, 5);
    let pdu = req.clone().into();
    let hdr = tcp_frame::Header {
        transaction_id: TRANSACTION_ID,
        unit_id: UNIT_ID,
    };
    let adu = tcp_frame::RequestAdu {
        hdr,
        pdu,
        disconnect: false,
    };
    codec.encode(adu, &mut buf).unwrap();
    // header
    assert_eq!(buf[0], TRANSACTION_ID_HI);
    assert_eq!(buf[1], TRANSACTION_ID_LO);
    assert_eq!(buf[2], PROTOCOL_ID_HI);
    assert_eq!(buf[3], PROTOCOL_ID_LO);
    assert_eq!(buf[4], 0x0);
    assert_eq!(buf[5], 0x6);
    assert_eq!(buf[6], UNIT_ID);

    drop(buf.split_to(7));
    let pdu: Bytes = request_pdu_bytes(&req).unwrap();
    assert_eq!(buf, pdu);
}

#[test]
fn tcp_encode_with_limited_buf_capacity() {
    let mut codec = tcp::ClientCodec::default();
    let pdu = Request::ReadInputRegisters(0x23, 5).into();
    let hdr = tcp_frame::Header {
        transaction_id: TRANSACTION_ID,
        unit_id: UNIT_ID,
    };
    let adu = tcp_frame::RequestAdu {
        hdr,
        pdu,
        disconnect: false,
    };
    let mut buf = BytesMut::with_capacity(40);
    buf.extend_from_slice(&[0; 29]);
    assert!(codec.encode(adu, &mut buf).is_ok());
}

// Further cases of the framing contracts.

#[test]
fn rtu_frame_round_trip() {
    let mut client = rtu::ClientCodec::default();
    let mut server = rtu::ServerCodec::default();
    let mut buf = BytesMut::new();
    let adu = rtu_frame::RequestAdu {
        hdr: rtu_frame::Header { slave_id: 0x11 },
        pdu: RequestPdu(Request::WriteMultipleCoils(0x10, vec![true, false, true])),
        disconnect: false,
    };
    client.encode(adu, &mut buf).unwrap();
    let (hdr, pdu) = server.decode_frame(&mut buf).unwrap().unwrap();
    assert_eq!(hdr.slave_id, 0x11);
    assert_eq!(
        Request::try_from_bytes(pdu).unwrap(),
        Request::WriteMultipleCoils(0x10, vec![true, false, true])
    );
    assert!(buf.is_empty());

    let rsp = rtu_frame::ResponseAdu {
        hdr,
        pdu: ResponsePdu(Err(ExceptionResponse {
            function: FunctionCode::WriteMultipleCoils,
            exception: ExceptionCode::IllegalDataAddress,
        })),
    };
    server.encode(rsp, &mut buf).unwrap();
    let back = client.decode(&mut buf).unwrap().unwrap();
    assert_eq!(back.hdr.slave_id, 0x11);
    assert_eq!(
        back.pdu,
        ResponsePdu(Err(ExceptionResponse {
            function: FunctionCode::WriteMultipleCoils,
            exception: ExceptionCode::IllegalDataAddress,
        }))
    );
}

#[test]
fn rtu_crc_mismatch_is_reported() {
    let mut codec = rtu::ClientCodec::default();
    let mut buf = BytesMut::from(&[0x01, 0x03, 0x02, 0x12, 0x34, 0x00, 0x00][..]);
    // The frame fails its CRC; its first byte is dropped and the rest is
    // too short for the frame it now starts.
    let res = codec.decode(&mut buf);
    assert!(matches!(res, Ok(None)));
    assert_eq!(&buf[..], &[0x03, 0x02, 0x12, 0x34, 0x00, 0x00]);
}

#[test]
fn rtu_disconnect_request_is_not_sent() {
    let mut codec = rtu::ClientCodec::default();
    let mut buf = BytesMut::new();
    let adu = rtu_frame::RequestAdu {
        hdr: rtu_frame::Header { slave_id: 1 },
        pdu: RequestPdu(Request::ReadCoils(0, 1)),
        disconnect: true,
    };
    assert_eq!(codec.encode(adu, &mut buf), Err(CodecError::Disconnecting));
    assert!(buf.is_empty());
}

#[test]
fn rtu_check_crc() {
    let msg = [0x01, 0x03, 0x08, 0x2B, 0x00, 0x02];
    assert!(rtu::check_crc(&msg, 0xB663).is_ok());
    assert_eq!(
        rtu::check_crc(&msg, 0x1234),
        Err(CodecError::InvalidCrc { expected: 0x1234, actual: 0xB663 })
    );
}

#[test]
fn tcp_frame_round_trip() {
    let mut client = tcp::ClientCodec::default();
    let mut server = tcp::ServerCodec::default();
    let mut buf = BytesMut::new();
    let adu = tcp_frame::RequestAdu {
        hdr: tcp_frame::Header { transaction_id: 0xBEEF, unit_id: 7 },
        pdu: RequestPdu(Request::MaskWriteRegister(1, 2, 3)),
        disconnect: false,
    };
    client.encode(adu, &mut buf).unwrap();
    let (hdr, pdu) = server.decode_frame(&mut buf).unwrap().unwrap();
    assert_eq!(hdr, tcp_frame::Header { transaction_id: 0xBEEF, unit_id: 7 });
    assert_eq!(Request::try_from_bytes(pdu).unwrap(), Request::MaskWriteRegister(1, 2, 3));

    let rsp = tcp_frame::ResponseAdu {
        hdr,
        pdu: ResponsePdu(Ok(Response::MaskWriteRegister(1, 2, 3))),
    };
    server.encode(rsp, &mut buf).unwrap();
    let back = client.decode(&mut buf).unwrap().unwrap();
    assert_eq!(back.hdr, hdr);
    assert_eq!(back.pdu, ResponsePdu(Ok(Response::MaskWriteRegister(1, 2, 3))));
}

#[test]
fn tcp_zero_length_is_invalid() {
    let mut codec = tcp::ClientCodec::default();
    let mut buf = BytesMut::from(&[0x00, 0x01, 0x00, 0x00, 0x00, 0x00, 0x01][..]);
    assert_eq!(codec.decode(&mut buf).err(), Some(CodecError::InvalidDataLength(0)));
}

#[test]
fn frame_decoder_keeps_and_forgets_dropped_bytes() {
    let mut decoder = rtu::FrameDecoder::new();
    let mut buf = BytesMut::from(&[0x42, 0x43][..]);
    decoder.recover_on_error(&mut buf);
    assert_eq!(&buf[..], &[0x43]);
    assert_ne!(decoder, rtu::FrameDecoder::new());

    // After a full frame's worth of dropped bytes, the record starts over.
    let mut other = rtu::FrameDecoder::new();
    let mut many = BytesMut::from(&[0x11; 257][..]);
    for _ in 0..257 {
        other.recover_on_error(&mut many);
    }
    let mut single = rtu::FrameDecoder::new();
    let mut one = BytesMut::from(&[0x11][..]);
    single.recover_on_error(&mut one);
    assert_eq!(other, single);

    // A decoded frame clears the record.
    let mut frame = BytesMut::from(&[0x01, 0x03, 0x08, 0x2B, 0x00, 0x02, 0xB6, 0x63][..]);
    let (slave_id, pdu) = decoder.decode(&mut frame, 5).unwrap().unwrap();
    assert_eq!(slave_id, 0x01);
    assert_eq!(&pdu[..], &[0x03, 0x08, 0x2B, 0x00, 0x02]);
    assert!(frame.is_empty());
    assert_eq!(decoder, rtu::FrameDecoder::new());
}

#[test]
fn rtu_decoding_gives_up_after_twenty_dropped_bytes() {
    let mut codec = rtu::ClientCodec::default();
    let mut buf = BytesMut::from(&[0x00; 30][..]);
    assert_eq!(codec.decode(&mut buf).err(), Some(CodecError::TooManyRetries));
    assert_eq!(buf.len(), 10);
}
