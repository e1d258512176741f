//! Application data units (ADU) of Modbus RTU: a slave id and a PDU.

use vstd::prelude::*;

use super::{
    request_function_code, response_function_code, ExceptionCode, ExceptionResponse,
    FunctionCode, Request, RequestPdu, Response, ResponsePdu, SlaveRequest,
};
use crate::error::{Error, ProtocolError};
use crate::slave::SlaveId;

verus! {

/// The header of an RTU frame.
#[derive(Debug, Clone, Copy, PartialEq, Eq, Hash, Structural)]
pub struct Header {
    /// The addressed (request) or answering (response) slave.
    pub slave_id: SlaveId,
}

/// An RTU request frame.
#[derive(Debug, Clone)]
pub struct RequestAdu {
    /// The header.
    pub hdr: Header,
    /// The request.
    pub pdu: RequestPdu,
    /// Whether the client asks to close the connection instead of sending.
    pub disconnect: bool,
}

/// An RTU response frame.
#[derive(Debug, Clone)]
pub struct ResponseAdu {
    /// The header.
    pub hdr: Header,
    /// The response or exception.
    pub pdu: ResponsePdu,
}

/// What a client remembers of a request it sent, to check the response.
#[derive(Debug, Clone, Copy, PartialEq, Eq, Hash, Structural)]
pub struct RequestContext {
    /// The function code of the request.
    pub function_code: FunctionCode,
    /// The header of the request.
    pub header: Header,
}

impl RequestContext {
    /// The function code of the request.
    pub fn function_code(&self) -> (f: FunctionCode)
        ensures
            f == self.function_code,
    {
        self.function_code
    }
}

impl RequestAdu {
    /// The context to check the response against.
    pub fn context(&self) -> (c: RequestContext)
        ensures
            c.function_code == request_function_code(self.pdu.0@),
            c.header == self.hdr,
    {
        RequestContext { function_code: self.pdu.0.function_code(), header: self.hdr }
    }
}

/// The function code that a response or exception answers.
pub open spec fn result_function_code(r: Result<Response, ExceptionResponse>) -> FunctionCode {
    match r {
        Ok(response) => response_function_code(response@),
        Err(e) => e.function,
    }
}

/// The text of a slave id mismatch.
pub open spec fn slave_mismatch_text() -> Seq<char> {
    "mismatched slave ID"@
}

/// Checks that a response header answers a request header: the slave ids
/// must be equal.
pub fn verify_response_header(req_hdr: &Header, rsp_hdr: &Header) -> (r: Result<(), String>)
    ensures
        r is Ok <==> req_hdr.slave_id == rsp_hdr.slave_id,
        r matches Err(m) ==> m@ == slave_mismatch_text(),
{
    if req_hdr.slave_id != rsp_hdr.slave_id {
        return Err(String::from_str("mismatched slave ID"));
    }
    Ok(())
}

impl ResponseAdu {
    /// Matches the response with the request it answers.
    ///
    /// A response from another slave is a header mismatch, one for another
    /// function a function code mismatch; otherwise the response, or the
    /// exception code of an exception response.
    pub fn try_into_response(self, request_context: RequestContext) -> (r: Result<
        Result<Response, ExceptionCode>,
        Error,
    >)
        ensures
            request_context.header.slave_id != self.hdr.slave_id ==> (r matches Err(
                Error::Protocol(ProtocolError::HeaderMismatch { message, result }),
            ) && result == self.pdu.0 && message@ == slave_mismatch_text()),
            request_context.header.slave_id == self.hdr.slave_id
                && request_context.function_code != result_function_code(self.pdu.0) ==> r
                == Err::<Result<Response, ExceptionCode>, Error>(
                Error::Protocol(
                    ProtocolError::FunctionCodeMismatch {
                        request: request_context.function_code,
                        result: self.pdu.0,
                    },
                ),
            ),
            request_context.header.slave_id == self.hdr.slave_id
                && request_context.function_code == result_function_code(self.pdu.0) ==> r
                == Ok::<Result<Response, ExceptionCode>, Error>(
                match self.pdu.0 {
                    Ok(response) => Ok(response),
                    Err(e) => Err(e.exception),
                },
            ),
    {
        let RequestContext { function_code: req_function_code, header: req_hdr } =
            request_context;
        let ResponseAdu { hdr: rsp_hdr, pdu: rsp_pdu } = self;
        let ResponsePdu(result) = rsp_pdu;
        if let Err(message) = verify_response_header(&req_hdr, &rsp_hdr) {
            return Err(Error::Protocol(ProtocolError::HeaderMismatch { message, result }));
        }
        let rsp_function_code = match &result {
            Ok(response) => response.function_code(),
            Err(e) => e.function,
        };
        if req_function_code != rsp_function_code {
            return Err(
                Error::Protocol(
                    ProtocolError::FunctionCodeMismatch { request: req_function_code, result },
                ),
            );
        }
        match result {
            Ok(response) => Ok(Ok(response)),
            Err(e) => Ok(Err(e.exception)),
        }
    }
}

impl vstd::std_specs::convert::FromSpecImpl<RequestAdu> for Request {
    open spec fn obeys_from_spec() -> bool {
        true
    }

    open spec fn from_spec(v: RequestAdu) -> Request {
        v.pdu.0
    }
}

impl From<RequestAdu> for Request {
    fn from(from: RequestAdu) -> Self {
        from.pdu.0
    }
}

impl vstd::std_specs::convert::FromSpecImpl<RequestAdu> for SlaveRequest {
    open spec fn obeys_from_spec() -> bool {
        true
    }

    open spec fn from_spec(v: RequestAdu) -> SlaveRequest {
        SlaveRequest { slave: v.hdr.slave_id, request: v.pdu.0 }
    }
}

impl From<RequestAdu> for SlaveRequest {
    fn from(from: RequestAdu) -> Self {
        let RequestAdu { hdr, pdu, .. } = from;
        SlaveRequest { slave: hdr.slave_id, request: pdu.0 }
    }
}

} // verus!
