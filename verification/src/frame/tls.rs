//! Application data units (ADU) of Modbus over TLS, framed as in Modbus TCP.

use vstd::prelude::*;

use super::{
    request_function_code, response_function_code, ExceptionCode, ExceptionResponse,
    FunctionCode, Request, RequestPdu, Response, ResponsePdu, SlaveRequest,
};
pub use super::tcp::{Header, TransactionId, UnitId};
use super::tcp::{header_string, header_text};

verus! {

/// A request frame sent over TLS.
#[derive(Debug, Clone)]
pub struct RequestAdu {
    /// The header.
    pub hdr: Header,
    /// The request.
    pub pdu: RequestPdu,
    /// Whether the client asks to close the connection instead of sending.
    pub disconnect: bool,
}

/// A response frame received over TLS.
#[derive(Debug, Clone)]
pub struct ResponseAdu {
    /// The header.
    pub hdr: Header,
    /// The response or exception.
    pub pdu: ResponsePdu,
}

/// The text of a header mismatch over TLS: both headers, expected first.
pub open spec fn tls_mismatch_text(req_hdr: Header, rsp_hdr: Header) -> Seq<char> {
    "Invalid response header: expected/request = "@ + header_text(req_hdr)
        + ", actual/response = "@ + header_text(rsp_hdr)
}

/// Checks that the response header equals the request header.
pub fn verify_response_header(req_hdr: Header, rsp_hdr: Header) -> (r: Result<(), String>)
    ensures
        r is Ok <==> req_hdr == rsp_hdr,
        r matches Err(m) ==> m@ == tls_mismatch_text(req_hdr, rsp_hdr),
{
    if req_hdr.transaction_id != rsp_hdr.transaction_id || req_hdr.unit_id != rsp_hdr.unit_id {
        let mut s = String::new();
        s.append("Invalid response header: expected/request = ");
        let req = header_string(&req_hdr);
        s.append(req.as_str());
        s.append(", actual/response = ");
        let rsp = header_string(&rsp_hdr);
        s.append(rsp.as_str());
        return Err(s);
    }
    Ok(())
}

/// Why a response received over TLS is not handed out.
#[derive(Debug, Clone)]
pub enum TlsResponseError {
    /// The response header differs from the request header.
    HeaderMismatch(String),
    /// The server answered with an exception.
    Exception(ExceptionResponse),
}

impl ResponseAdu {
    /// The response to the request sent with `req_hdr`: an exception
    /// response is an error, and so is a response under another header.
    pub fn into_response(self, req_hdr: Header) -> (r: Result<Response, TlsResponseError>)
        ensures
            match self.pdu.0 {
                Ok(response) => if req_hdr == self.hdr {
                    r == Ok::<Response, TlsResponseError>(response)
                } else {
                    r matches Err(TlsResponseError::HeaderMismatch(m)) && m@ == tls_mismatch_text(
                        req_hdr,
                        self.hdr,
                    )
                },
                Err(e) => r == Err::<Response, TlsResponseError>(TlsResponseError::Exception(e)),
            },
    {
        match self.pdu.0 {
            Ok(res) => match verify_response_header(req_hdr, self.hdr) {
                Ok(()) => Ok(res),
                Err(message) => Err(TlsResponseError::HeaderMismatch(message)),
            },
            Err(err) => Err(TlsResponseError::Exception(err)),
        }
    }
}

impl vstd::std_specs::convert::FromSpecImpl<RequestAdu> for Request {
    open spec fn obeys_from_spec() -> bool {
        true
    }

    open spec fn from_spec(v: RequestAdu) -> Request {
        v.pdu.0
    }
}

impl From<RequestAdu> for Request {
    fn from(from: RequestAdu) -> Self {
        from.pdu.0
    }
}

impl vstd::std_specs::convert::FromSpecImpl<RequestAdu> for SlaveRequest {
    open spec fn obeys_from_spec() -> bool {
        true
    }

    open spec fn from_spec(v: RequestAdu) -> SlaveRequest {
        SlaveRequest { slave: v.hdr.unit_id, request: v.pdu.0 }
    }
}

impl From<RequestAdu> for SlaveRequest {
    fn from(from: RequestAdu) -> Self {
        SlaveRequest { slave: from.hdr.unit_id, request: from.pdu.0 }
    }
}

} // verus!
