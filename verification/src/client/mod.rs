//! Modbus clients: what a reader or writer hands out for the result of a
//! call. Making the call is left to the transport.

pub mod sync;

use vstd::prelude::*;

use crate::error::Error;
use crate::frame::{
    response_function_code, Address, Coil, ExceptionCode, FunctionCode, Quantity, Response, Word,
};

verus! {

/// The result of a call: a transport or protocol error, an exception
/// reported by the server, or the value.
pub type CallResult<T> = Result<Result<T, ExceptionCode>, Error>;

/// The result of a call as the transport hands it over: the response is
/// `None` for a broadcast request, which no server answers.
pub type Answer = CallResult<Option<Response>>;

/// The first `cnt` values, or all of them if there are fewer.
pub open spec fn truncated<T>(values: Seq<T>, cnt: Quantity) -> Seq<T> {
    if cnt <= values.len() {
        values.take(cnt as int)
    } else {
        values
    }
}

/// Whether a call's answer can be handed out as the answer to `expected`:
/// a client's call answers each request with the response of its function.
pub open spec fn answers(result: Answer, expected: spec_fn(Response) -> bool) -> bool {
    result matches Ok(Ok(Some(response))) ==> expected(response)
}

/// The error or exception of a call's answer, carried over unchanged.
pub open spec fn passes_failure<T>(result: Answer, r: CallResult<T>) -> bool {
    &&& result matches Err(e) ==> r == Err::<Result<T, ExceptionCode>, Error>(e)
    &&& result matches Ok(Err(e)) ==> r == Ok::<Result<T, ExceptionCode>, Error>(Err(e))
}

/// What a read hands out when no server answers (a broadcast): no values.
pub open spec fn unanswered_read<T>(result: Answer, r: CallResult<Vec<T>>) -> bool {
    result == Ok::<Result<Option<Response>, ExceptionCode>, Error>(Ok(None)) ==> (r matches Ok(
        Ok(v),
    ) && v@.len() == 0)
}

/// What "read coils" of `cnt` coils hands out: the response holds whole
/// bytes of coils, of which the first `cnt` are kept.
pub fn read_coils_result(cnt: Quantity, result: Answer) -> (r: CallResult<Vec<Coil>>)
    requires
        answers(result, |response: Response| response is ReadCoils),
    ensures
        passes_failure(result, r),
        unanswered_read(result, r),
        result matches Ok(Ok(Some(Response::ReadCoils(coils)))) ==> (r matches Ok(Ok(v)) && v@
            == truncated(coils@, cnt)),
{
    match result {
        Ok(Ok(Some(Response::ReadCoils(mut coils)))) => {
            coils.truncate(cnt as usize);
            Ok(Ok(coils))
        },
        Ok(Ok(Some(_))) => {
            assert(false);
            Ok(Ok(Vec::new()))
        },
        Ok(Ok(None)) => Ok(Ok(Vec::new())),
        Ok(Err(e)) => Ok(Err(e)),
        Err(e) => Err(e),
    }
}

/// What "read discrete inputs" of `cnt` inputs hands out: the response
/// holds whole bytes of inputs, of which the first `cnt` are kept.
pub fn read_discrete_inputs_result(cnt: Quantity, result: Answer) -> (r: CallResult<Vec<Coil>>)
    requires
        answers(result, |response: Response| response is ReadDiscreteInputs),
    ensures
        passes_failure(result, r),
        unanswered_read(result, r),
        result matches Ok(Ok(Some(Response::ReadDiscreteInputs(coils)))) ==> (r matches Ok(
            Ok(v),
        ) && v@ == truncated(coils@, cnt)),
{
    match result {
        Ok(Ok(Some(Response::ReadDiscreteInputs(mut coils)))) => {
            coils.truncate(cnt as usize);
            Ok(Ok(coils))
        },
        Ok(Ok(Some(_))) => {
            assert(false);
            Ok(Ok(Vec::new()))
        },
        Ok(Ok(None)) => Ok(Ok(Vec::new())),
        Ok(Err(e)) => Ok(Err(e)),
        Err(e) => Err(e),
    }
}

/// What "read input registers" hands out: the registers of the response.
pub fn read_input_registers_result(result: Answer) -> (r: CallResult<Vec<Word>>)
    requires
        answers(result, |response: Response| response is ReadInputRegisters),
    ensures
        passes_failure(result, r),
        unanswered_read(result, r),
        result matches Ok(Ok(Some(Response::ReadInputRegisters(words)))) ==> r == Ok::<
            Result<Vec<Word>, ExceptionCode>,
            Error,
        >(Ok(words)),
{
    match result {
        Ok(Ok(Some(Response::ReadInputRegisters(words)))) => Ok(Ok(words)),
        Ok(Ok(Some(_))) => {
            assert(false);
            Ok(Ok(Vec::new()))
        },
        Ok(Ok(None)) => Ok(Ok(Vec::new())),
        Ok(Err(e)) => Ok(Err(e)),
        Err(e) => Err(e),
    }
}

/// What "read holding registers" hands out: the registers of the response.
pub fn read_holding_registers_result(result: Answer) -> (r: CallResult<Vec<Word>>)
    requires
        answers(result, |response: Response| response is ReadHoldingRegisters),
    ensures
        passes_failure(result, r),
        unanswered_read(result, r),
        result matches Ok(Ok(Some(Response::ReadHoldingRegisters(words)))) ==> r == Ok::<
            Result<Vec<Word>, ExceptionCode>,
            Error,
        >(Ok(words)),
{
    match result {
        Ok(Ok(Some(Response::ReadHoldingRegisters(words)))) => Ok(Ok(words)),
        Ok(Ok(Some(_))) => {
            assert(false);
            Ok(Ok(Vec::new()))
        },
        Ok(Ok(None)) => Ok(Ok(Vec::new())),
        Ok(Err(e)) => Ok(Err(e)),
        Err(e) => Err(e),
    }
}

/// What "read/write multiple registers" hands out: the registers read.
pub fn read_write_multiple_registers_result(result: Answer) -> (r: CallResult<Vec<Word>>)
    requires
        answers(result, |response: Response| response is ReadWriteMultipleRegisters),
    ensures
        passes_failure(result, r),
        unanswered_read(result, r),
        result matches Ok(Ok(Some(Response::ReadWriteMultipleRegisters(words)))) ==> r == Ok::<
            Result<Vec<Word>, ExceptionCode>,
            Error,
        >(Ok(words)),
{
    match result {
        Ok(Ok(Some(Response::ReadWriteMultipleRegisters(words)))) => Ok(Ok(words)),
        Ok(Ok(Some(_))) => {
            assert(false);
            Ok(Ok(Vec::new()))
        },
        Ok(Ok(None)) => Ok(Ok(Vec::new())),
        Ok(Err(e)) => Ok(Err(e)),
        Err(e) => Err(e),
    }
}

/// What a write with the function `function` hands out: nothing but the
/// success, whether the response (of that function) came or, for a
/// broadcast, none did.
pub fn write_result(function: FunctionCode, result: Answer) -> (r: CallResult<()>)
    requires
        result matches Ok(Ok(Some(response))) ==> response_function_code(response@) == function,
    ensures
        passes_failure(result, r),
        result matches Ok(Ok(_)) ==> r == Ok::<Result<(), ExceptionCode>, Error>(Ok(())),
{
    match result {
        Ok(Ok(_)) => Ok(Ok(())),
        Ok(Err(e)) => Ok(Err(e)),
        Err(e) => Err(e),
    }
}

} // verus!
