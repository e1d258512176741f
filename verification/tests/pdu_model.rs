use bytes::{Bytes, BytesMut};

use tokio_modbus::frame::tcp::Header;
use tokio_modbus::pdu::client::{
    read_coils_response, read_discrete_inputs_response, read_holding_registers_response,
    read_input_registers_response, read_write_multiple_registers_response,
    write_multiple_coils_response, write_multiple_registers_response,
    write_single_coil_response, write_single_register_response, ResponseMismatch,
};
use tokio_modbus::pdu::encode::{Adu, Encoder};
use tokio_modbus::pdu::{
    bool_to_coil, pack_coils, req_to_fn_code, res_to_fn_code, Exception, ExceptionResponse, Pdu,
    Request, Response,
};

#[test]
fn common_convert_bool_to_coil() {
    assert_eq!(bool_to_coil(true), 0xFF00);
    assert_eq!(bool_to_coil(false), 0x0000);
}

#[test]
fn common_convert_booleans_to_bytes() {
    assert_eq!(pack_coils(&[]), &[] as &[u8]);
    assert_eq!(pack_coils(&[true]), &[0b_1]);
    assert_eq!(pack_coils(&[false]), &[0b_0]);
    assert_eq!(pack_coils(&[true, false]), &[0b_01]);
    assert_eq!(pack_coils(&[false, true]), &[0b_10]);
    assert_eq!(pack_coils(&[true, true]), &[0b_11]);
    assert_eq!(pack_coils(&[true; 8]), &[0b_1111_1111]);
    assert_eq!(pack_coils(&[true; 9]), &[255, 1]);
    assert_eq!(pack_coils(&[false; 8]), &[0]);
    assert_eq!(pack_coils(&[false; 9]), &[0, 0]);
}

#[test]
fn common_function_code_from_request() {
    assert_eq!(req_to_fn_code(&Request::ReadCoils(0, 0)), 1);
    assert_eq!(req_to_fn_code(&Request::ReadDiscreteInputs(0, 0)), 2);
    assert_eq!(req_to_fn_code(&Request::WriteSingleCoil(0, true)), 5);
    assert_eq!(req_to_fn_code(&Request::WriteMultipleCoils(0, vec![])), 0x0F);
    assert_eq!(req_to_fn_code(&Request::ReadInputRegisters(0, 0)), 0x04);
    assert_eq!(req_to_fn_code(&Request::ReadHoldingRegisters(0, 0)), 0x03);
    assert_eq!(req_to_fn_code(&Request::WriteSingleRegister(0, 0)), 0x06);
    assert_eq!(req_to_fn_code(&Request::WriteMultipleRegisters(0, vec![])), 0x10);
    assert_eq!(req_to_fn_code(&Request::ReadWriteMultipleRegisters(0, 0, 0, vec![])), 0x17);
    assert_eq!(req_to_fn_code(&Request::Custom(88, vec![])), 88);
}

#[test]
fn common_function_code_from_response() {
    assert_eq!(res_to_fn_code(&Response::ReadCoils(vec![])), 1);
    assert_eq!(res_to_fn_code(&Response::ReadDiscreteInputs(vec![])), 2);
    assert_eq!(res_to_fn_code(&Response::WriteSingleCoil(0x0)), 5);
    assert_eq!(res_to_fn_code(&Response::WriteMultipleCoils(0x0, 0x0)), 0x0F);
    assert_eq!(res_to_fn_code(&Response::ReadInputRegisters(vec![])), 0x04);
    assert_eq!(res_to_fn_code(&Response::ReadHoldingRegisters(vec![])), 0x03);
    assert_eq!(res_to_fn_code(&Response::WriteSingleRegister(0, 0)), 0x06);
    assert_eq!(res_to_fn_code(&Response::WriteMultipleRegisters(0, 0)), 0x10);
    assert_eq!(res_to_fn_code(&Response::ReadWriteMultipleRegisters(vec![])), 0x17);
    assert_eq!(res_to_fn_code(&Response::Custom(99, vec![])), 99);
}

#[test]
fn common_exception_response_into_bytes() {
    let bytes: Bytes = ExceptionResponse {
        function: 0x03,
        exception: Exception::IllegalDataAddress,
    }
    .into_bytes();
    assert_eq!(bytes[0], 0x83);
    assert_eq!(bytes[1], 0x02);
}

#[test]
fn common_pdu_into_bytes() {
    let req_pdu: Bytes = Pdu::Request(Request::ReadCoils(0x01, 5)).into_bytes();
    let res_pdu: Bytes = Pdu::Result(Ok(Response::ReadCoils(vec![]))).into_bytes();
    let ex_pdu: Bytes = Pdu::Result(Err(ExceptionResponse {
        function: 0x03,
        exception: Exception::ServerDeviceFailure,
    }))
    .into_bytes();

    assert_eq!(req_pdu[0], 0x01);
    assert_eq!(req_pdu[1], 0x00);
    assert_eq!(req_pdu[2], 0x01);
    assert_eq!(req_pdu[3], 0x00);
    assert_eq!(req_pdu[4], 0x05);

    assert_eq!(res_pdu[0], 0x01);
    assert_eq!(res_pdu[1], 0x00);

    assert_eq!(ex_pdu[0], 0x83);
    assert_eq!(ex_pdu[1], 0x04);
}

#[test]
fn common_read_coils() {
    let bytes: Bytes = Request::ReadCoils(0x12, 4).into_bytes();
    assert_eq!(bytes[0], 1);
    assert_eq!(bytes[1], 0x00);
    assert_eq!(bytes[2], 0x12);
    assert_eq!(bytes[3], 0x00);
    assert_eq!(bytes[4], 0x04);

    let bytes: Bytes = Response::ReadCoils(vec![true, false, false, true, false]).into_bytes();
    assert_eq!(bytes[0], 1);
    assert_eq!(bytes[1], 1);
    assert_eq!(bytes[2], 0b_0000_1001);
}

#[test]
fn common_read_discrete_inputs() {
    let bytes: Bytes = Request::ReadDiscreteInputs(0x03, 19).into_bytes();
    assert_eq!(bytes[0], 2);
    assert_eq!(bytes[1], 0x00);
    assert_eq!(bytes[2], 0x03);
    assert_eq!(bytes[3], 0x00);
    assert_eq!(bytes[4], 19);

    let bytes: Bytes = Response::ReadDiscreteInputs(vec![true, false, true, true]).into_bytes();
    assert_eq!(bytes[0], 2);
    assert_eq!(bytes[1], 1);
    assert_eq!(bytes[2], 0b_0000_1101);
}

#[test]
fn common_write_single_coil() {
    let bytes: Bytes = Request::WriteSingleCoil(0x1234, true).into_bytes();
    assert_eq!(bytes[0], 5);
    assert_eq!(bytes[1], 0x12);
    assert_eq!(bytes[2], 0x34);
    assert_eq!(bytes[3], 0xFF);
    assert_eq!(bytes[4], 0x00);

    let bytes: Bytes = Response::WriteSingleCoil(0x33).into_bytes();
    assert_eq!(bytes[0], 5);
    assert_eq!(bytes[1], 0x00);
    assert_eq!(bytes[2], 0x33);
}

#[test]
fn common_write_multiple_coils() {
    let states = vec![true, false, true, true];
    let bytes: Bytes = Request::WriteMultipleCoils(0x3311, states).into_bytes();
    assert_eq!(bytes[0], 0x0F);
    assert_eq!(bytes[1], 0x33);
    assert_eq!(bytes[2], 0x11);
    assert_eq!(bytes[3], 0x00);
    assert_eq!(bytes[4], 0x04);
    assert_eq!(bytes[5], 0x01);
    assert_eq!(bytes[6], 0b_0000_1101);

    let bytes: Bytes = Response::WriteMultipleCoils(0x3311, 5).into_bytes();
    assert_eq!(bytes[0], 0x0F);
    assert_eq!(bytes[1], 0x33);
    assert_eq!(bytes[2], 0x11);
    assert_eq!(bytes[3], 0x00);
    assert_eq!(bytes[4], 0x05);
}

#[test]
fn common_read_input_registers() {
    let bytes: Bytes = Request::ReadInputRegisters(0x09, 77).into_bytes();
    assert_eq!(bytes[0], 4);
    assert_eq!(bytes[1], 0x00);
    assert_eq!(bytes[2], 0x09);
    assert_eq!(bytes[3], 0x00);
    assert_eq!(bytes[4], 0x4D);

    let bytes: Bytes = Response::ReadInputRegisters(vec![0xAA00, 0xCCBB, 0xEEDD]).into_bytes();
    assert_eq!(bytes[0], 4);
    assert_eq!(bytes[1], 0x06);
    assert_eq!(bytes[2], 0xAA);
    assert_eq!(bytes[3], 0x00);
    assert_eq!(bytes[4], 0xCC);
    assert_eq!(bytes[5], 0xBB);
    assert_eq!(bytes[6], 0xEE);
    assert_eq!(bytes[7], 0xDD);
}

#[test]
fn common_read_holding_registers() {
    let bytes: Bytes = Request::ReadHoldingRegisters(0x09, 77).into_bytes();
    assert_eq!(bytes[0], 3);
    assert_eq!(bytes[1], 0x00);
    assert_eq!(bytes[2], 0x09);
    assert_eq!(bytes[3], 0x00);
    assert_eq!(bytes[4], 0x4D);

    let bytes: Bytes = Response::ReadHoldingRegisters(vec![0xAA00, 0x1111]).into_bytes();
    assert_eq!(bytes[0], 3);
    assert_eq!(bytes[1], 0x04);
    assert_eq!(bytes[2], 0xAA);
    assert_eq!(bytes[3], 0x00);
    assert_eq!(bytes[4], 0x11);
    assert_eq!(bytes[5], 0x11);
}

#[test]
fn common_write_single_register() {
    let bytes: Bytes = Request::WriteSingleRegister(0x07, 0xABCD).into_bytes();
    assert_eq!(bytes[0], 6);
    assert_eq!(bytes[1], 0x00);
    assert_eq!(bytes[2], 0x07);
    assert_eq!(bytes[3], 0xAB);
    assert_eq!(bytes[4], 0xCD);

    let bytes: Bytes = Response::WriteSingleRegister(0x07, 0xABCD).into_bytes();
    assert_eq!(bytes[0], 6);
    assert_eq!(bytes[1], 0x00);
    assert_eq!(bytes[2], 0x07);
    assert_eq!(bytes[3], 0xAB);
    assert_eq!(bytes[4], 0xCD);
}

#[test]
fn common_write_multiple_registers() {
    let bytes: Bytes = Request::WriteMultipleRegisters(0x06, vec![0xABCD, 0xEF12]).into_bytes();
    assert_eq!(bytes[0], 0x10);
    assert_eq!(bytes[1], 0x00);
    assert_eq!(bytes[2], 0x06);
    assert_eq!(bytes[3], 0x00);
    assert_eq!(bytes[4], 0x02);
    assert_eq!(bytes[5], 0xAB);
    assert_eq!(bytes[6], 0xCD);
    assert_eq!(bytes[7], 0xEF);
    assert_eq!(bytes[8], 0x12);

    let bytes: Bytes = Response::WriteMultipleRegisters(0x06, 2).into_bytes();
    assert_eq!(bytes[0], 0x10);
    assert_eq!(bytes[1], 0x00);
    assert_eq!(bytes[2], 0x06);
    assert_eq!(bytes[3], 0x00);
    assert_eq!(bytes[4], 0x02);
}

#[test]
fn common_read_write_multiple_registers() {
    let data = vec![0xABCD, 0xEF12];
    let bytes: Bytes = Request::ReadWriteMultipleRegisters(0x05, 51, 0x03, data).into_bytes();
    assert_eq!(bytes[0], 0x17);
    assert_eq!(bytes[1], 0x00);
    assert_eq!(bytes[2], 0x05);
    assert_eq!(bytes[3], 0x00);
    assert_eq!(bytes[4], 0x33);
    assert_eq!(bytes[5], 0x00);
    assert_eq!(bytes[6], 0x03);
    assert_eq!(bytes[7], 0xAB);
    assert_eq!(bytes[8], 0xCD);
    assert_eq!(bytes[9], 0xEF);
    assert_eq!(bytes[10], 0x12);

    let bytes: Bytes = Response::ReadWriteMultipleRegisters(vec![0x1234]).into_bytes();
    assert_eq!(bytes[0], 0x17);
    assert_eq!(bytes[1], 0x02);
    assert_eq!(bytes[2], 0x12);
    assert_eq!(bytes[3], 0x34);
}

#[test]
fn common_custom() {
    let bytes: Bytes = Request::Custom(0x55, vec![0xCC, 0x88, 0xAA, 0xFF]).into_bytes();
    assert_eq!(bytes[0], 0x55);
    assert_eq!(bytes[1], 0xCC);
    assert_eq!(bytes[2], 0x88);
    assert_eq!(bytes[3], 0xAA);
    assert_eq!(bytes[4], 0xFF);

    let bytes: Bytes = Response::Custom(0x55, vec![0xCC, 0x88, 0xAA, 0xFF]).into_bytes();
    assert_eq!(bytes[0], 0x55);
    assert_eq!(bytes[1], 0xCC);
    assert_eq!(bytes[2], 0x88);
    assert_eq!(bytes[3], 0xAA);
    assert_eq!(bytes[4], 0xFF);
}

// Further cases of the model's contracts.

#[test]
fn exception_values_and_texts() {
    assert_eq!(Exception::MemoryParityError.value(), 0x08);
    assert_eq!(Exception::GatewayTargetDevice.value(), 0x0B);
    assert_eq!(Exception::Acknowledge.description(), "Acknowledge");
    assert_eq!(
        Exception::GatewayPathUnavailable.to_string(),
        "Gateway path unavailable"
    );
}

#[test]
fn exception_function_code_wraps() {
    let bytes = ExceptionResponse { function: 0x81, exception: Exception::IllegalFunction }.into_bytes();
    assert_eq!(&bytes[..], &[0x01, 0x01]);
}

#[test]
fn pdu_conversions() {
    assert_eq!(Pdu::from(Request::ReadCoils(1, 2)), Pdu::Request(Request::ReadCoils(1, 2)));
    assert_eq!(
        Pdu::from(Response::WriteSingleCoil(3)),
        Pdu::Result(Ok(Response::WriteSingleCoil(3)))
    );
    let ex = ExceptionResponse { function: 1, exception: Exception::IllegalFunction };
    assert_eq!(Pdu::from(ex), Pdu::Result(Err(ex)));
}

#[test]
fn counts_are_cut_to_their_low_bits() {
    // 0x1_0001 coils in 0x2001 bytes: the quantity field holds 0x0001, the
    // byte count 0x01.
    let coils = vec![false; 0x1_0001];
    let bytes = Request::WriteMultipleCoils(0, coils).into_bytes();
    assert_eq!(&bytes[..6], &[0x0F, 0x00, 0x00, 0x00, 0x01, 0x01]);
    assert_eq!(bytes.len(), 6 + 0x2001);
}

#[test]
fn tcp_encoder_writes_frame() {
    let mut encoder = Encoder;
    let mut buf = BytesMut::new();
    let adu = Adu::Tcp(
        Header { transaction_id: 0x1234, unit_id: 0x11 },
        Pdu::Request(Request::ReadHoldingRegisters(0x0001, 2)),
    );
    encoder.encode(adu, &mut buf).unwrap();
    assert_eq!(
        &buf[..],
        &[0x12, 0x34, 0x00, 0x00, 0x00, 0x06, 0x11, 0x03, 0x00, 0x01, 0x00, 0x02]
    );
}

#[test]
fn client_response_checks() {
    assert_eq!(read_coils_response(Response::ReadCoils(vec![true])), Ok(vec![true]));
    assert_eq!(
        read_coils_response(Response::ReadDiscreteInputs(vec![true])),
        Err(ResponseMismatch::Unexpected)
    );
    assert_eq!(
        read_discrete_inputs_response(Response::ReadDiscreteInputs(vec![false])),
        Ok(vec![false])
    );
    assert_eq!(write_single_coil_response(5, Response::WriteSingleCoil(5)), Ok(()));
    assert_eq!(
        write_single_coil_response(5, Response::WriteSingleCoil(6)),
        Err(ResponseMismatch::Invalid)
    );
    assert_eq!(write_multiple_coils_response(1, 3, Response::WriteMultipleCoils(1, 3)), Ok(()));
    assert_eq!(
        write_multiple_coils_response(1, 3, Response::WriteMultipleCoils(1, 4)),
        Err(ResponseMismatch::Invalid)
    );
    assert_eq!(
        read_input_registers_response(2, Response::ReadInputRegisters(vec![1, 2])),
        Ok(vec![1, 2])
    );
    assert_eq!(
        read_input_registers_response(3, Response::ReadInputRegisters(vec![1, 2])),
        Err(ResponseMismatch::Invalid)
    );
    assert_eq!(
        read_holding_registers_response(1, Response::ReadInputRegisters(vec![1])),
        Err(ResponseMismatch::Unexpected)
    );
    assert_eq!(
        write_single_register_response(1, 2, Response::WriteSingleRegister(1, 3)),
        Err(ResponseMismatch::Invalid)
    );
    assert_eq!(
        write_multiple_registers_response(1, 2, Response::WriteMultipleRegisters(1, 2)),
        Ok(())
    );
    assert_eq!(
        read_write_multiple_registers_response(1, Response::ReadWriteMultipleRegisters(vec![9])),
        Ok(vec![9])
    );
    assert_eq!(ResponseMismatch::Unexpected.message(), "unexpected response");
    assert_eq!(ResponseMismatch::Invalid.message(), "invalid response");
}
