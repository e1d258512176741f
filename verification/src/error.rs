//! Error types.

use vstd::prelude::*;

use crate::frame::{ExceptionResponse, FunctionCode, Response};

verus! {

/// `std::io::Error`, the error of a failed transport operation.
#[verifier::external_type_specification]
#[verifier::external_body]
pub struct ExIoError(std::io::Error);

/// Protocol or transport errors.
///
/// Devices that don't implement the _Modbus_ protocol correctly
/// or network issues can cause these errors.
#[derive(Debug)]
pub enum Error {
    /// The response does not belong to the request.
    Protocol(ProtocolError),
    /// Reading or writing the transport failed.
    Transport(std::io::Error),
}

/// _Modbus_ protocol error.
#[derive(Debug)]
pub enum ProtocolError {
    /// The received response header doesn't match the request.
    ///
    /// The result received from the server is included for further analysis and handling.
    HeaderMismatch { message: String, result: Result<Response, ExceptionResponse> },
    /// The received response function code doesn't match the request.
    ///
    /// The result received from the server is included for further analysis and handling.
    FunctionCodeMismatch { request: FunctionCode, result: Result<Response, ExceptionResponse> },
}

impl vstd::std_specs::convert::FromSpecImpl<ProtocolError> for Error {
    open spec fn obeys_from_spec() -> bool {
        true
    }

    open spec fn from_spec(v: ProtocolError) -> Error {
        Error::Protocol(v)
    }
}

impl From<ProtocolError> for Error {
    fn from(from: ProtocolError) -> Self {
        Error::Protocol(from)
    }
}

} // verus!
