//! The deciding part of the RTU and TCP servers: which requests are
//! handled, and what is sent back for the result of a service. Receiving
//! and sending frames, and running the service, is left to the transport.

use vstd::prelude::*;

use crate::frame::rtu::result_function_code;
use crate::frame::tcp::tcp_header_mismatch;
use crate::frame::{
    optional_response_pdu_of, response_function_code, rtu, tcp, ExceptionCode, ExceptionResponse,
    FunctionCode, OptionalResponsePdu, Response, ResponsePdu,
};
use crate::slave::SlaveId;

verus! {

/// Cause for termination
#[derive(Debug, Clone, Copy, PartialEq, Eq, Structural)]
pub enum Terminated {
    /// The server has finished processing.
    Finished,
    /// Processing has been aborted.
    Aborted,
}

/// A Modbus server service.
pub trait Service {
    /// Requests handled by the service: [`crate::Request`] or
    /// [`crate::SlaveRequest`].
    type Request;

    /// Responses sent by the service: [`Response`], or `Option<Response>`
    /// to leave some requests unanswered.
    type Response: Into<Option<Response>>;

    /// Exceptional responses sent by the service.
    type Exception: Into<ExceptionCode>;

    /// The future response value.
    type Future: std::future::Future<Output = Result<Self::Response, Self::Exception>> + Send;

    /// Process the request and return the response asynchronously.
    fn call(&self, req: Self::Request) -> Self::Future;
}

/// A service behind a smart pointer serves as the service itself.
impl<D> Service for D where D: std::ops::Deref + ?Sized, D::Target: Service {
    type Request = <D::Target as Service>::Request;

    type Response = <D::Target as Service>::Response;

    type Exception = <D::Target as Service>::Exception;

    type Future = <D::Target as Service>::Future;

    fn call(&self, req: Self::Request) -> Self::Future {
        self.deref().call(req)
    }
}

/// Whether a server answers a request to `request_slave_id`: a server
/// without a slave id answers every request, one with a slave id only the
/// requests addressed to it.
pub open spec fn handles(slave_id: Option<SlaveId>, request_slave_id: SlaveId) -> bool {
    match slave_id {
        None => true,
        Some(id) => id == request_slave_id,
    }
}

/// A server with a slave id answers the requests to that id and to no
/// other, above it or below it; a server without one answers every request.
pub proof fn server_answers_only_its_slave_id(id: SlaveId, request_slave_id: SlaveId)
    ensures
        handles(Some(id), request_slave_id) <==> request_slave_id == id,
        request_slave_id != id ==> !handles(Some(id), request_slave_id),
        handles(None, request_slave_id),
{
}

/// Whether an RTU server configured with `slave_id` handles a request with
/// this header; the others are silently ignored, as the RTU specification
/// asks of devices on a shared bus.
pub fn accepts_request(slave_id: Option<SlaveId>, hdr: &rtu::Header) -> (b: bool)
    ensures
        b == handles(slave_id, hdr.slave_id),
        slave_id matches Some(id) ==> (b <==> hdr.slave_id == id),
        slave_id is None ==> b,
{
    match slave_id {
        Some(id) => hdr.slave_id == id,
        None => true,
    }
}

/// What is sent back for the outcome of a service: nothing for `Ok(None)`,
/// the response for `Ok(Some(..))`, and for an exception an exception
/// response for the function of the request.
pub open spec fn answer_of(
    function: FunctionCode,
    outcome: Result<Option<Response>, ExceptionCode>,
) -> Option<ResponsePdu> {
    optional_response_pdu_of(
        match outcome {
            Ok(r) => Ok(r),
            Err(exception) => Err(ExceptionResponse { function, exception }),
        },
    ).0
}

/// The PDU to send back for the outcome of a service, if any.
pub fn response_pdu(function: FunctionCode, outcome: Result<Option<Response>, ExceptionCode>) -> (r:
    Option<ResponsePdu>)
    ensures
        r == answer_of(function, outcome),
{
    let result = match outcome {
        Ok(r) => Ok(r),
        Err(exception) => Err(ExceptionResponse { function, exception }),
    };
    let OptionalResponsePdu(pdu) = OptionalResponsePdu::from(result);
    pdu
}

/// The RTU frame to send back for the outcome of a service, if any: it
/// carries the header of the request.
pub fn rtu_response_adu(
    hdr: rtu::Header,
    function: FunctionCode,
    outcome: Result<Option<Response>, ExceptionCode>,
) -> (r: Option<rtu::ResponseAdu>)
    ensures
        match answer_of(function, outcome) {
            None => r is None,
            Some(pdu) => r == Some(rtu::ResponseAdu { hdr, pdu }),
        },
{
    match response_pdu(function, outcome) {
        Some(pdu) => Some(rtu::ResponseAdu { hdr, pdu }),
        None => None,
    }
}

/// The TCP frame to send back for the outcome of a service, if any: it
/// carries the header of the request.
pub fn tcp_response_adu(
    hdr: tcp::Header,
    function: FunctionCode,
    outcome: Result<Option<Response>, ExceptionCode>,
) -> (r: Option<tcp::ResponseAdu>)
    ensures
        match answer_of(function, outcome) {
            None => r is None,
            Some(pdu) => r == Some(tcp::ResponseAdu { hdr, pdu }),
        },
{
    match response_pdu(function, outcome) {
        Some(pdu) => Some(tcp::ResponseAdu { hdr, pdu }),
        None => None,
    }
}

/// What a server sends back for a request passes the client's checks of
/// that request: it carries the request's header, and its function code is
/// the request's, provided the service answers with a response of the
/// requested function. An exception always names the request's function.
pub proof fn answer_matches_request(
    function: FunctionCode,
    outcome: Result<Option<Response>, ExceptionCode>,
    tcp_hdr: tcp::Header,
)
    requires
        outcome matches Ok(Some(response)) ==> response_function_code(response@) == function,
    ensures
        answer_of(function, outcome) matches Some(pdu) ==> result_function_code(pdu.0)
            == function,
        outcome is Err ==> answer_of(function, outcome) == Some(
            ResponsePdu(
                Err::<Response, ExceptionResponse>(
                    ExceptionResponse { function, exception: outcome->Err_0 },
                ),
            ),
        ),
        outcome == Ok::<Option<Response>, ExceptionCode>(None) ==> answer_of(function, outcome)
            is None,
        tcp_header_mismatch(tcp_hdr, tcp_hdr) is None,
{
}

} // verus!
