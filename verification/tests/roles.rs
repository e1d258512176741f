use std::io;
use std::sync::Arc;

use tokio_modbus::client::{
    read_coils_result, read_discrete_inputs_result, read_holding_registers_result,
    read_input_registers_result, read_write_multiple_registers_result, write_result,
};
use tokio_modbus::error::Error;
use tokio_modbus::frame::{rtu, tcp, ResponsePdu};
use tokio_modbus::server::{
    accepts_request, response_pdu, rtu_response_adu, tcp_response_adu, Service, Terminated,
};
use tokio_modbus::service::{
    expects_response, request_adu, RtuClient, TcpClient, TransactionIdGenerator,
};
use tokio_modbus::{
    ExceptionCode, ExceptionResponse, FunctionCode, Request, Response, Slave, SlaveContext,
};

#[test]
fn read_some_coils() {
    // The protocol will always return entire bytes with, i.e.
    // a multiple of 8 coils.
    let response_coils = [true, false, false, true, false, true, false, true];
    for num_coils in 1..8 {
        let result = Ok(Ok(Some(Response::ReadCoils(response_coils.to_vec()))));
        let coils = read_coils_result(num_coils, result).unwrap().unwrap();
        assert_eq!(&response_coils[0..num_coils as usize], &coils[..]);
    }
}

#[test]
fn read_some_discrete_inputs() {
    // The protocol will always return entire bytes with, i.e.
    // a multiple of 8 coils.
    let response_inputs = [true, false, false, true, false, true, false, true];
    for num_inputs in 1..8 {
        let result = Ok(Ok(Some(Response::ReadDiscreteInputs(response_inputs.to_vec()))));
        let inputs = read_discrete_inputs_result(num_inputs, result).unwrap().unwrap();
        assert_eq!(&response_inputs[0..num_inputs as usize], &inputs[..]);
    }
}

#[test]
fn handle_broadcast_no_response() {
    let client = RtuClient::new(Slave::broadcast());
    let adu = client.next_request_adu(Request::ReadCoils(0x00, 5));
    // Broadcast requests are not answered.
    assert!(!expects_response(&adu.hdr));
    let client = RtuClient::new(Slave(1));
    let adu = client.next_request_adu(Request::ReadCoils(0x00, 5));
    assert!(expects_response(&adu.hdr));
}

// Further cases of the clients' and servers' contracts.

#[test]
fn transaction_ids_count_up_and_wrap() {
    let mut generator = TransactionIdGenerator::new();
    assert_eq!(generator.next(), 0);
    assert_eq!(generator.next(), 1);
    for _ in 2..0xFFFF {
        generator.next();
    }
    assert_eq!(generator.next(), 0xFFFF);
    assert_eq!(generator.next(), 0);
}

#[test]
fn tcp_client_headers() {
    let mut client = TcpClient::new(Slave(7));
    assert_eq!(client.unit_id(), 7);
    let adu = client.next_request_adu(Request::ReadCoils(1, 2));
    assert_eq!(adu.hdr, tcp::Header { transaction_id: 0, unit_id: 7 });
    assert_eq!(adu.pdu.0, Request::ReadCoils(1, 2));
    assert!(!adu.disconnect);
    client.set_slave(Slave(9));
    let adu = client.next_request_adu(Request::ReadCoils(1, 2));
    assert_eq!(adu.hdr, tcp::Header { transaction_id: 1, unit_id: 9 });
    let hdr = client.next_request_hdr(3);
    assert_eq!(hdr, tcp::Header { transaction_id: 2, unit_id: 3 });
    client.set_unit(Slave(4));
    assert_eq!(client.unit_id(), 4);
}

#[test]
fn rtu_client_headers() {
    let mut client = RtuClient::new(Slave(3));
    assert_eq!(client.slave_id(), 3);
    client.set_server(Slave(5));
    assert_eq!(client.next_request_adu(Request::ReadCoils(0, 1)).hdr.slave_id, 5);
    let adu = request_adu(Slave(8), Request::WriteSingleCoil(1, true));
    assert_eq!(adu.hdr.slave_id, 8);
    assert_eq!(adu.pdu.0, Request::WriteSingleCoil(1, true));
}

fn registers_answer(hdr: rtu::Header) -> Option<rtu::ResponseAdu> {
    let mut registers = vec![0; 3];
    registers[0] = 0x42;
    rtu_response_adu(
        hdr,
        FunctionCode::ReadInputRegisters,
        Ok(Some(Response::ReadInputRegisters(registers))),
    )
}

#[test]
fn responds_to_matching_slave_id() {
    let hdr = rtu::Header { slave_id: 1 };
    assert!(accepts_request(Some(1), &hdr));
    let adu = registers_answer(hdr).unwrap();
    assert_eq!(adu.hdr.slave_id, 1);
    assert_eq!(
        adu.pdu,
        ResponsePdu(Ok(Response::ReadInputRegisters(vec![0x42, 0x0, 0x0])))
    );
}

#[test]
fn ignores_mismatched_slave_id() {
    // Server configured for slave 1, request to slave 2: no response.
    let hdr = rtu::Header { slave_id: 2 };
    assert!(!accepts_request(Some(1), &hdr));
}

#[test]
fn without_slave_id_responds_to_all() {
    let hdr = rtu::Header { slave_id: 42 };
    assert!(accepts_request(None, &hdr));
    assert_eq!(registers_answer(hdr).unwrap().hdr.slave_id, 42);
}

#[derive(Clone)]
struct DummyService {
    response: Response,
}

impl Service for DummyService {
    type Request = Request;
    type Response = Response;
    type Exception = ExceptionCode;
    type Future = std::future::Ready<Result<Self::Response, Self::Exception>>;

    fn call(&self, _: Self::Request) -> Self::Future {
        std::future::ready(Ok(self.response.clone()))
    }
}

fn block_on<F: std::future::Future>(future: F) -> F::Output {
    tokio::runtime::Builder::new_current_thread()
        .build()
        .unwrap()
        .block_on(future)
}

#[test]
fn service_wrapper() {
    let service = DummyService {
        response: Response::ReadInputRegisters(vec![0x33]),
    };

    let pdu = Request::ReadInputRegisters(0, 1);
    let rsp_adu = block_on(service.call(pdu)).unwrap();

    assert_eq!(rsp_adu, service.response);
}

#[test]
fn delegate_service_through_deref_for_server() {
    let service = Arc::new(DummyService {
        response: Response::ReadInputRegisters(vec![0x33]),
    });
    // A service behind a smart pointer serves as the service itself.
    let rsp = block_on(Service::call(&service, Request::ReadInputRegisters(0, 1))).unwrap();
    assert_eq!(rsp, Response::ReadInputRegisters(vec![0x33]));
}

#[test]
fn server_answers() {
    let fc = FunctionCode::ReadInputRegisters;
    assert_eq!(response_pdu(fc, Ok(None)), None);
    assert_eq!(
        response_pdu(fc, Ok(Some(Response::ReadInputRegisters(vec![0x42])))),
        Some(ResponsePdu(Ok(Response::ReadInputRegisters(vec![0x42]))))
    );
    assert_eq!(
        response_pdu(fc, Err(ExceptionCode::IllegalFunction)),
        Some(ResponsePdu(Err(ExceptionResponse {
            function: fc,
            exception: ExceptionCode::IllegalFunction,
        })))
    );
    let hdr = rtu::Header { slave_id: 1 };
    let adu = rtu_response_adu(hdr, fc, Err(ExceptionCode::IllegalDataValue)).unwrap();
    assert_eq!(adu.hdr, hdr);
    assert!(rtu_response_adu(hdr, fc, Ok(None)).is_none());
    let hdr = tcp::Header { transaction_id: 3, unit_id: 1 };
    let adu = tcp_response_adu(hdr, fc, Ok(Some(Response::ReadInputRegisters(vec![1])))).unwrap();
    assert_eq!(adu.hdr, hdr);
    assert_eq!(adu.pdu, ResponsePdu(Ok(Response::ReadInputRegisters(vec![1]))));
    assert_ne!(Terminated::Finished, Terminated::Aborted);
}

#[test]
fn reader_results() {
    let r = read_holding_registers_result(Ok(Ok(Some(Response::ReadHoldingRegisters(vec![1, 2])))));
    assert_eq!(r.unwrap(), Ok(vec![1, 2]));
    let r = read_input_registers_result(Ok(Err(ExceptionCode::ServerDeviceBusy)));
    assert_eq!(r.unwrap(), Err(ExceptionCode::ServerDeviceBusy));
    let r = read_write_multiple_registers_result(Err(Error::Transport(io::Error::new(
        io::ErrorKind::BrokenPipe,
        "gone",
    ))));
    assert!(matches!(r, Err(Error::Transport(e)) if e.kind() == io::ErrorKind::BrokenPipe));
    // More coils asked than the response holds: all of them are handed out.
    let r = read_coils_result(12, Ok(Ok(Some(Response::ReadCoils(vec![true; 8])))));
    assert_eq!(r.unwrap(), Ok(vec![true; 8]));
    // A broadcast read is not answered: no values.
    let r = read_input_registers_result(Ok(Ok(None)));
    assert_eq!(r.unwrap(), Ok(vec![]));
}

#[test]
fn writer_results() {
    let r = write_result(
        FunctionCode::WriteSingleCoil,
        Ok(Ok(Some(Response::WriteSingleCoil(1, true)))),
    );
    assert_eq!(r.unwrap(), Ok(()));
    // A broadcast write is not answered, and succeeds.
    let r = write_result(FunctionCode::WriteSingleCoil, Ok(Ok(None)));
    assert_eq!(r.unwrap(), Ok(()));
    let r = write_result(FunctionCode::WriteSingleCoil, Ok(Err(ExceptionCode::Acknowledge)));
    assert_eq!(r.unwrap(), Err(ExceptionCode::Acknowledge));
}
