use bytes::Bytes;

use tokio_modbus::error::{Error, ProtocolError};
use tokio_modbus::frame::{
    rtu, tcp, tls, ConformityLevel, DeviceIdObject, ReadCode, RequestPdu, ResponsePdu,
};
use tokio_modbus::{
    ExceptionCode, ExceptionResponse, FunctionCode, Request, Response, Slave, SlaveRequest,
};

#[test]
fn new_function_code() {
    assert_eq!(FunctionCode::ReadCoils, FunctionCode::new(0x01));
    assert_eq!(FunctionCode::ReadDiscreteInputs, FunctionCode::new(0x02));

    assert_eq!(FunctionCode::WriteSingleCoil, FunctionCode::new(0x05));
    assert_eq!(FunctionCode::WriteSingleRegister, FunctionCode::new(0x06));

    assert_eq!(FunctionCode::ReadHoldingRegisters, FunctionCode::new(0x03));
    assert_eq!(FunctionCode::ReadInputRegisters, FunctionCode::new(0x04));

    assert_eq!(FunctionCode::WriteMultipleCoils, FunctionCode::new(0x0F));
    assert_eq!(FunctionCode::WriteMultipleRegisters, FunctionCode::new(0x10));

    assert_eq!(FunctionCode::MaskWriteRegister, FunctionCode::new(0x016));

    assert_eq!(FunctionCode::ReadWriteMultipleRegisters, FunctionCode::new(0x017));

    assert_eq!(FunctionCode::Custom(70), FunctionCode::new(70));
}

#[test]
fn function_code_values() {
    assert_eq!(FunctionCode::ReadCoils.value(), 0x01);
    assert_eq!(FunctionCode::ReadDiscreteInputs.value(), 0x02);

    assert_eq!(FunctionCode::WriteSingleCoil.value(), 0x05);
    assert_eq!(FunctionCode::WriteSingleRegister.value(), 0x06);

    assert_eq!(FunctionCode::ReadHoldingRegisters.value(), 0x03);
    assert_eq!(FunctionCode::ReadInputRegisters.value(), 0x04);

    assert_eq!(FunctionCode::WriteMultipleCoils.value(), 0x0F);
    assert_eq!(FunctionCode::WriteMultipleRegisters.value(), 0x10);

    assert_eq!(FunctionCode::MaskWriteRegister.value(), 0x016);

    assert_eq!(FunctionCode::ReadWriteMultipleRegisters.value(), 0x017);

    assert_eq!(FunctionCode::Custom(70).value(), 70);
}

#[test]
fn mod_function_code_from_request() {

    assert_eq!(Request::ReadCoils(0, 0).function_code(), FunctionCode::ReadCoils);
    assert_eq!(Request::ReadDiscreteInputs(0, 0).function_code(), FunctionCode::ReadDiscreteInputs);

    assert_eq!(Request::WriteSingleCoil(0, true).function_code(), FunctionCode::WriteSingleCoil);
    assert_eq!(Request::WriteMultipleCoils(0, vec![]).function_code(), FunctionCode::WriteMultipleCoils);

    assert_eq!(Request::ReadInputRegisters(0, 0).function_code(), FunctionCode::ReadInputRegisters);
    assert_eq!(Request::ReadHoldingRegisters(0, 0).function_code(), FunctionCode::ReadHoldingRegisters);

    assert_eq!(Request::WriteSingleRegister(0, 0).function_code(), FunctionCode::WriteSingleRegister);
    assert_eq!(
        Request::WriteMultipleRegisters(0, vec![]).function_code(),
        FunctionCode::WriteMultipleRegisters
    );

    assert_eq!(Request::MaskWriteRegister(0, 0, 0).function_code(), FunctionCode::MaskWriteRegister);

    assert_eq!(
        Request::ReadWriteMultipleRegisters(0, 0, 0, vec![]).function_code(),
        FunctionCode::ReadWriteMultipleRegisters
    );

    assert_eq!(Request::Custom(88, vec![]).function_code().value(), 88);
}

#[test]
fn mod_function_code_from_response() {

    assert_eq!(Response::ReadCoils(vec![]).function_code(), FunctionCode::ReadCoils);
    assert_eq!(Response::ReadDiscreteInputs(vec![]).function_code(), FunctionCode::ReadDiscreteInputs);

    assert_eq!(Response::WriteSingleCoil(0x0, false).function_code(), FunctionCode::WriteSingleCoil);
    assert_eq!(Response::WriteMultipleCoils(0x0, 0x0).function_code(), FunctionCode::WriteMultipleCoils);

    assert_eq!(Response::ReadInputRegisters(vec![]).function_code(), FunctionCode::ReadInputRegisters);
    assert_eq!(Response::ReadHoldingRegisters(vec![]).function_code(), FunctionCode::ReadHoldingRegisters);

    assert_eq!(Response::WriteSingleRegister(0, 0).function_code(), FunctionCode::WriteSingleRegister);
    assert_eq!(
        Response::WriteMultipleRegisters(0, 0).function_code(),
        FunctionCode::WriteMultipleRegisters
    );

    assert_eq!(Response::MaskWriteRegister(0, 0, 0).function_code(), FunctionCode::MaskWriteRegister);

    assert_eq!(
        Response::ReadWriteMultipleRegisters(vec![]).function_code(),
        FunctionCode::ReadWriteMultipleRegisters
    );

    assert_eq!(Response::Custom(99, Bytes::from_static(&[])).function_code().value(), 99);
}

#[test]
fn rtu_validate_same_headers() {
    // Given
    let req_hdr = rtu::Header { slave_id: 0 };
    let rsp_hdr = rtu::Header { slave_id: 0 };

    // When
    let result = rtu::verify_response_header(&req_hdr, &rsp_hdr);

    // Then
    assert!(result.is_ok());
}

#[test]
fn rtu_invalid_validate_not_same_slave_id() {
    // Given
    let req_hdr = rtu::Header { slave_id: 0 };
    let rsp_hdr = rtu::Header { slave_id: 5 };

    // When
    let result = rtu::verify_response_header(&req_hdr, &rsp_hdr);

    // Then
    assert!(result.is_err());
}

#[test]
fn tcp_validate_same_headers() {
    // Given
    let req_hdr = tcp::Header {
        unit_id: 0,
        transaction_id: 42,
    };
    let rsp_hdr = tcp::Header {
        unit_id: 0,
        transaction_id: 42,
    };

    // When
    let result = tcp::verify_response_header(&req_hdr, &rsp_hdr);

    // Then
    assert!(result.is_ok());
}

#[test]
fn invalid_validate_not_same_unit_id() {
    // Given
    let req_hdr = tcp::Header {
        unit_id: 0,
        transaction_id: 42,
    };
    let rsp_hdr = tcp::Header {
        unit_id: 5,
        transaction_id: 42,
    };

    // When
    let result = tcp::verify_response_header(&req_hdr, &rsp_hdr);

    // Then
    assert!(result.is_err());
}

#[test]
fn invalid_validate_not_same_transaction_id() {
    // Given
    let req_hdr = tcp::Header {
        unit_id: 0,
        transaction_id: 42,
    };
    let rsp_hdr = tcp::Header {
        unit_id: 0,
        transaction_id: 86,
    };

    // When
    let result = tcp::verify_response_header(&req_hdr, &rsp_hdr);

    // Then
    assert!(result.is_err());
}

// Further cases of the frames' contracts.

#[test]
fn tcp_mismatch_messages_show_both_headers() {
    let req_hdr = tcp::Header { transaction_id: 42, unit_id: 0 };
    let rsp_hdr = tcp::Header { transaction_id: 86, unit_id: 0 };
    assert_eq!(
        tcp::verify_response_header(&req_hdr, &rsp_hdr).unwrap_err(),
        "mismatched transaction ID: request = Header { transaction_id: 42, unit_id: 0 }, \
         response = Header { transaction_id: 86, unit_id: 0 }"
    );
    let rsp_hdr = tcp::Header { transaction_id: 42, unit_id: 255 };
    assert_eq!(
        tcp::verify_response_header(&req_hdr, &rsp_hdr).unwrap_err(),
        "mismatched unit ID: request = Header { transaction_id: 42, unit_id: 0 }, \
         response = Header { transaction_id: 42, unit_id: 255 }"
    );
    assert_eq!(
        format!("{:?}", req_hdr),
        "Header { transaction_id: 42, unit_id: 0 }"
    );
}

#[test]
fn tls_mismatch_message_shows_both_headers() {
    let req_hdr = tcp::Header { transaction_id: 1, unit_id: 2 };
    let rsp_hdr = tcp::Header { transaction_id: 1, unit_id: 3 };
    assert!(tls::verify_response_header(req_hdr, req_hdr).is_ok());
    assert_eq!(
        tls::verify_response_header(req_hdr, rsp_hdr).unwrap_err(),
        "Invalid response header: expected/request = Header { transaction_id: 1, unit_id: 2 }, \
         actual/response = Header { transaction_id: 1, unit_id: 3 }"
    );
}

#[test]
fn tls_response_into_response() {
    let hdr = tcp::Header { transaction_id: 7, unit_id: 1 };
    let adu = tls::ResponseAdu {
        hdr,
        pdu: ResponsePdu(Ok(Response::WriteSingleRegister(1, 2))),
    };
    assert_eq!(adu.clone().into_response(hdr).unwrap(), Response::WriteSingleRegister(1, 2));
    let other = tcp::Header { transaction_id: 8, unit_id: 1 };
    assert!(matches!(
        adu.into_response(other),
        Err(tls::TlsResponseError::HeaderMismatch(_))
    ));
    let exception = ExceptionResponse {
        function: FunctionCode::WriteSingleRegister,
        exception: ExceptionCode::ServerDeviceBusy,
    };
    let adu = tls::ResponseAdu { hdr, pdu: ResponsePdu(Err(exception)) };
    assert!(matches!(
        adu.into_response(hdr),
        Err(tls::TlsResponseError::Exception(e)) if e == exception
    ));
}

#[test]
fn rtu_try_into_response() {
    let req_adu = rtu::RequestAdu {
        hdr: rtu::Header { slave_id: 3 },
        pdu: RequestPdu(Request::ReadHoldingRegisters(0, 2)),
        disconnect: false,
    };
    let ctx = req_adu.context();
    assert_eq!(ctx.function_code(), FunctionCode::ReadHoldingRegisters);

    let rsp = rtu::ResponseAdu {
        hdr: rtu::Header { slave_id: 3 },
        pdu: ResponsePdu(Ok(Response::ReadHoldingRegisters(vec![1, 2]))),
    };
    assert_eq!(
        rsp.try_into_response(ctx).unwrap(),
        Ok(Response::ReadHoldingRegisters(vec![1, 2]))
    );

    let rsp = rtu::ResponseAdu {
        hdr: rtu::Header { slave_id: 4 },
        pdu: ResponsePdu(Ok(Response::ReadHoldingRegisters(vec![1, 2]))),
    };
    assert!(matches!(
        rsp.try_into_response(ctx),
        Err(Error::Protocol(ProtocolError::HeaderMismatch { .. }))
    ));

    let rsp = rtu::ResponseAdu {
        hdr: rtu::Header { slave_id: 3 },
        pdu: ResponsePdu(Ok(Response::ReadInputRegisters(vec![1, 2]))),
    };
    assert!(matches!(
        rsp.try_into_response(ctx),
        Err(Error::Protocol(ProtocolError::FunctionCodeMismatch {
            request: FunctionCode::ReadHoldingRegisters,
            ..
        }))
    ));

    let rsp = rtu::ResponseAdu {
        hdr: rtu::Header { slave_id: 3 },
        pdu: ResponsePdu(Err(ExceptionResponse {
            function: FunctionCode::ReadHoldingRegisters,
            exception: ExceptionCode::IllegalDataAddress,
        })),
    };
    assert_eq!(
        rsp.try_into_response(ctx).unwrap(),
        Err(ExceptionCode::IllegalDataAddress)
    );
}

#[test]
fn tcp_try_into_response() {
    let req_hdr = tcp::Header { transaction_id: 5, unit_id: 1 };
    let rsp = tcp::ResponseAdu {
        hdr: req_hdr,
        pdu: ResponsePdu(Ok(Response::WriteMultipleCoils(0, 3))),
    };
    assert_eq!(
        rsp.try_into_response(req_hdr, FunctionCode::WriteMultipleCoils).unwrap(),
        Ok(Response::WriteMultipleCoils(0, 3))
    );
    let rsp = tcp::ResponseAdu {
        hdr: tcp::Header { transaction_id: 6, unit_id: 1 },
        pdu: ResponsePdu(Ok(Response::WriteMultipleCoils(0, 3))),
    };
    assert!(matches!(
        rsp.try_into_response(req_hdr, FunctionCode::WriteMultipleCoils),
        Err(Error::Protocol(ProtocolError::HeaderMismatch { .. }))
    ));
}

#[test]
fn adu_conversions() {
    let adu = tcp::RequestAdu {
        hdr: tcp::Header { transaction_id: 1, unit_id: 9 },
        pdu: RequestPdu(Request::ReadCoils(1, 2)),
        disconnect: false,
    };
    let req: SlaveRequest = adu.clone().into();
    assert_eq!(req.slave, 9);
    assert_eq!(req.request, Request::ReadCoils(1, 2));
    let req: Request = adu.into();
    assert_eq!(req, Request::ReadCoils(1, 2));
}

#[test]
fn exception_texts() {
    let e = ExceptionResponse {
        function: FunctionCode::ReadDiscreteInputs,
        exception: ExceptionCode::IllegalDataValue,
    };
    assert_eq!(e.to_string(), "Modbus function 2: Illegal data value");
    assert_eq!(ExceptionCode::GatewayTargetDevice.to_string(), "Gateway target device failed to respond");
    assert_eq!(FunctionCode::Custom(200).to_string(), "200");
    assert_eq!(ExceptionCode::new(0x0B), ExceptionCode::GatewayTargetDevice);
    assert_eq!(u8::from(ExceptionCode::Custom(0x42)), 0x42);
}

#[test]
fn read_code_and_conformity_level_values() {
    assert_eq!(ReadCode::try_from_value(0x04).unwrap(), ReadCode::Specific);
    assert!(ReadCode::try_from_value(0x05).is_none());
    assert_eq!(ReadCode::Regular.value(), 0x02);
    assert_eq!(
        ConformityLevel::try_from_value(0x83).unwrap(),
        ConformityLevel::ExtendedIdentification
    );
    assert!(ConformityLevel::try_from_value(0x04).is_none());
    assert_eq!(ConformityLevel::RegularIdentificationStreamOnly.value(), 0x02);
}

#[test]
fn device_id_object_value_as_str() {
    let object = DeviceIdObject { id: 1, value: Bytes::from("ProductCode") };
    assert_eq!(object.value_as_str(), Some("ProductCode"));
    let object = DeviceIdObject { id: 1, value: Bytes::from_static(&[0xFF, 0xFE]) };
    assert_eq!(object.value_as_str(), None);
}

#[test]
fn owned_requests() {
    let req = Request::WriteMultipleRegisters(1, vec![2, 3]);
    assert_eq!(req.clone().into_owned(), req);
    let slave_req = SlaveRequest { slave: Slave(1).0, request: req.clone() };
    assert_eq!(slave_req.into_owned().request, req);
}

#[test]
fn exception_response_description() {
    let e = ExceptionResponse {
        function: FunctionCode::ReadCoils,
        exception: ExceptionCode::MemoryParityError,
    };
    assert_eq!(e.description(), "Memory parity error");
}
