//! Application data units (ADU) of Modbus TCP: an MBAP header and a PDU.

use vstd::prelude::*;

use super::{
    request_function_code, response_function_code, ExceptionCode, ExceptionResponse,
    FunctionCode, Request, RequestPdu, Response, ResponsePdu, SlaveRequest,
};
use super::rtu::result_function_code;
use crate::error::{Error, ProtocolError};
use crate::slave::{decimal_string_u16, decimal_text};

verus! {

/// Identifies a request and its response.
pub type TransactionId = u16;

/// The unit (slave) behind a TCP gateway.
pub type UnitId = u8;

/// The header of a TCP frame.
#[derive(Debug, Clone, Copy, PartialEq, Eq, Structural)]
pub struct Header {
    /// The transaction.
    pub transaction_id: TransactionId,
    /// The addressed unit.
    pub unit_id: UnitId,
}

/// A TCP request frame.
#[derive(Debug, Clone)]
pub struct RequestAdu {
    /// The header.
    pub hdr: Header,
    /// The request.
    pub pdu: RequestPdu,
    /// Whether the client asks to close the connection instead of sending.
    pub disconnect: bool,
}

/// A TCP response frame.
#[derive(Debug, Clone)]
pub struct ResponseAdu {
    /// The header.
    pub hdr: Header,
    /// The response or exception.
    pub pdu: ResponsePdu,
}

/// The text of a transaction id mismatch.
pub open spec fn transaction_mismatch_text() -> Seq<char> {
    "mismatched transaction ID"@
}

/// The text of a unit id mismatch.
pub open spec fn unit_mismatch_text() -> Seq<char> {
    "mismatched unit ID"@
}

/// The text of a header as the `Debug` form writes it.
pub open spec fn header_text(h: Header) -> Seq<char> {
    "Header { transaction_id: "@ + decimal_text(h.transaction_id as nat) + ", unit_id: "@
        + decimal_text(h.unit_id as nat) + " }"@
}

/// The text of a header as the `Debug` form writes it.
pub fn header_string(h: &Header) -> (s: String)
    ensures
        s@ == header_text(*h),
{
    let mut s = String::new();
    s.append("Header { transaction_id: ");
    let tid = decimal_string_u16(h.transaction_id);
    s.append(tid.as_str());
    s.append(", unit_id: ");
    let uid = decimal_string_u16(h.unit_id as u16);
    s.append(uid.as_str());
    s.append(" }");
    s
}

/// A mismatch report: what differs, then both headers.
pub open spec fn mismatch_report(what: Seq<char>, req_hdr: Header, rsp_hdr: Header) -> Seq<char> {
    what + ": request = "@ + header_text(req_hdr) + ", response = "@ + header_text(rsp_hdr)
}

fn mismatch_string(what: &str, req_hdr: &Header, rsp_hdr: &Header) -> (s: String)
    ensures
        s@ == mismatch_report(what@, *req_hdr, *rsp_hdr),
{
    let mut s = String::from_str(what);
    s.append(": request = ");
    let req = header_string(req_hdr);
    s.append(req.as_str());
    s.append(", response = ");
    let rsp = header_string(rsp_hdr);
    s.append(rsp.as_str());
    s
}

/// The mismatch that `verify_response_header` reports, if any.
pub open spec fn tcp_header_mismatch(req_hdr: Header, rsp_hdr: Header) -> Option<Seq<char>> {
    if req_hdr.transaction_id != rsp_hdr.transaction_id {
        Some(mismatch_report(transaction_mismatch_text(), req_hdr, rsp_hdr))
    } else if req_hdr.unit_id != rsp_hdr.unit_id {
        Some(mismatch_report(unit_mismatch_text(), req_hdr, rsp_hdr))
    } else {
        None
    }
}

/// A response header answers a request header exactly when it is the same
/// header: a response to an earlier or a later transaction, or from another
/// unit, is a mismatch, and a transaction id that differs is reported as
/// such whatever the unit ids.
pub proof fn header_match_is_equality(req_hdr: Header, rsp_hdr: Header)
    ensures
        tcp_header_mismatch(req_hdr, rsp_hdr) is None <==> req_hdr == rsp_hdr,
        tcp_header_mismatch(req_hdr, rsp_hdr) is None <==> (req_hdr.transaction_id
            == rsp_hdr.transaction_id && req_hdr.unit_id == rsp_hdr.unit_id),
        req_hdr.transaction_id != rsp_hdr.transaction_id ==> tcp_header_mismatch(req_hdr, rsp_hdr)
            == Some(mismatch_report("mismatched transaction ID"@, req_hdr, rsp_hdr)),
        req_hdr.transaction_id == rsp_hdr.transaction_id && req_hdr.unit_id != rsp_hdr.unit_id
            ==> tcp_header_mismatch(req_hdr, rsp_hdr) == Some(
            mismatch_report("mismatched unit ID"@, req_hdr, rsp_hdr),
        ),
{
    reveal_strlit("mismatched transaction ID");
    reveal_strlit("mismatched unit ID");
}

/// Checks that a response header answers a request header: the
/// transaction ids and the unit ids must be equal. The error names what
/// differs and shows both headers.
pub fn verify_response_header(req_hdr: &Header, rsp_hdr: &Header) -> (r: Result<(), String>)
    ensures
        r is Ok <==> tcp_header_mismatch(*req_hdr, *rsp_hdr) is None,
        r is Ok <==> (req_hdr.transaction_id == rsp_hdr.transaction_id && req_hdr.unit_id
            == rsp_hdr.unit_id),
        r matches Err(m) ==> Some(m@) == tcp_header_mismatch(*req_hdr, *rsp_hdr),
{
    if req_hdr.transaction_id != rsp_hdr.transaction_id {
        return Err(mismatch_string("mismatched transaction ID", req_hdr, rsp_hdr));
    }
    if req_hdr.unit_id != rsp_hdr.unit_id {
        return Err(mismatch_string("mismatched unit ID", req_hdr, rsp_hdr));
    }
    Ok(())
}

impl ResponseAdu {
    /// Matches the response with the request it answers: a header mismatch,
    /// a function code mismatch, or else the response, or the exception code
    /// of an exception response.
    pub fn try_into_response(self, req_hdr: Header, req_function_code: FunctionCode) -> (r: Result<
        Result<Response, ExceptionCode>,
        Error,
    >)
        ensures
            tcp_header_mismatch(req_hdr, self.hdr) matches Some(text) ==> (r matches Err(
                Error::Protocol(ProtocolError::HeaderMismatch { message, result }),
            ) && result == self.pdu.0 && message@ == text),
            tcp_header_mismatch(req_hdr, self.hdr) is None && req_function_code
                != result_function_code(self.pdu.0) ==> r == Err::<
                Result<Response, ExceptionCode>,
                Error,
            >(
                Error::Protocol(
                    ProtocolError::FunctionCodeMismatch {
                        request: req_function_code,
                        result: self.pdu.0,
                    },
                ),
            ),
            tcp_header_mismatch(req_hdr, self.hdr) is None && req_function_code
                == result_function_code(self.pdu.0) ==> r == Ok::<
                Result<Response, ExceptionCode>,
                Error,
            >(
                match self.pdu.0 {
                    Ok(response) => Ok(response),
                    Err(e) => Err(e.exception),
                },
            ),
    {
        let ResponseAdu { hdr: rsp_hdr, pdu: rsp_pdu } = self;
        let ResponsePdu(result) = rsp_pdu;
        if let Err(message) = verify_response_header(&req_hdr, &rsp_hdr) {
            return Err(Error::Protocol(ProtocolError::HeaderMismatch { message, result }));
        }
        let rsp_function_code = match &result {
            Ok(response) => response.function_code(),
            Err(e) => e.function,
        };
        if req_function_code != rsp_function_code {
            return Err(
                Error::Protocol(
                    ProtocolError::FunctionCodeMismatch { request: req_function_code, result },
                ),
            );
        }
        match result {
            Ok(response) => Ok(Ok(response)),
            Err(e) => Ok(Err(e.exception)),
        }
    }
}

impl vstd::std_specs::convert::FromSpecImpl<RequestAdu> for Request {
    open spec fn obeys_from_spec() -> bool {
        true
    }

    open spec fn from_spec(v: RequestAdu) -> Request {
        v.pdu.0
    }
}

impl From<RequestAdu> for Request {
    fn from(from: RequestAdu) -> Self {
        from.pdu.0
    }
}

impl vstd::std_specs::convert::FromSpecImpl<RequestAdu> for SlaveRequest {
    open spec fn obeys_from_spec() -> bool {
        true
    }

    open spec fn from_spec(v: RequestAdu) -> SlaveRequest {
        SlaveRequest { slave: v.hdr.unit_id, request: v.pdu.0 }
    }
}

impl From<RequestAdu> for SlaveRequest {
    fn from(from: RequestAdu) -> Self {
        SlaveRequest { slave: from.hdr.unit_id, request: from.pdu.0 }
    }
}

} // verus!
