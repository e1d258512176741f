//! How a client checks that a response answers its request: a response of
//! another function is unexpected, one that echoes other values is invalid.

use vstd::prelude::*;

use super::{Address, Coil, Quantity, Response, Word};

verus! {

/// Why a response does not answer the request it was sent for.
#[derive(Debug, Clone, Copy, PartialEq, Eq, Structural)]
pub enum ResponseMismatch {
    /// The response is one of another function.
    Unexpected,
    /// The response echoes other values than the request sent.
    Invalid,
}

/// The text of a mismatch.
pub open spec fn mismatch_text(m: ResponseMismatch) -> Seq<char> {
    match m {
        ResponseMismatch::Unexpected => "unexpected response"@,
        ResponseMismatch::Invalid => "invalid response"@,
    }
}

impl ResponseMismatch {
    /// The text of the mismatch.
    pub fn message(&self) -> (s: &'static str)
        ensures
            s@ == mismatch_text(*self),
    {
        match self {
            ResponseMismatch::Unexpected => "unexpected response",
            ResponseMismatch::Invalid => "invalid response",
        }
    }
}

/// The coils of a response to "read coils".
pub fn read_coils_response(res: Response) -> (r: Result<Vec<Coil>, ResponseMismatch>)
    ensures
        match res {
            Response::ReadCoils(coils) => r == Ok::<Vec<Coil>, ResponseMismatch>(coils),
            _ => r == Err::<Vec<Coil>, ResponseMismatch>(ResponseMismatch::Unexpected),
        },
{
    if let Response::ReadCoils(coils) = res {
        Ok(coils)
    } else {
        Err(ResponseMismatch::Unexpected)
    }
}

/// The inputs of a response to "read discrete inputs".
pub fn read_discrete_inputs_response(res: Response) -> (r: Result<Vec<Coil>, ResponseMismatch>)
    ensures
        match res {
            Response::ReadDiscreteInputs(coils) => r == Ok::<Vec<Coil>, ResponseMismatch>(coils),
            _ => r == Err::<Vec<Coil>, ResponseMismatch>(ResponseMismatch::Unexpected),
        },
{
    if let Response::ReadDiscreteInputs(coils) = res {
        Ok(coils)
    } else {
        Err(ResponseMismatch::Unexpected)
    }
}

/// Checks a response to "write single coil" at `addr`: it must echo the
/// address.
pub fn write_single_coil_response(addr: Address, res: Response) -> (r: Result<(), ResponseMismatch>)
    ensures
        match res {
            Response::WriteSingleCoil(res_addr) => if res_addr == addr {
                r is Ok
            } else {
                r == Err::<(), ResponseMismatch>(ResponseMismatch::Invalid)
            },
            _ => r == Err::<(), ResponseMismatch>(ResponseMismatch::Unexpected),
        },
{
    if let Response::WriteSingleCoil(res_addr) = res {
        if res_addr != addr {
            return Err(ResponseMismatch::Invalid);
        }
        Ok(())
    } else {
        Err(ResponseMismatch::Unexpected)
    }
}

/// Checks a response to "write multiple coils" of `cnt` coils at `addr`:
/// it must echo both.
pub fn write_multiple_coils_response(addr: Address, cnt: usize, res: Response) -> (r: Result<
    (),
    ResponseMismatch,
>)
    ensures
        match res {
            Response::WriteMultipleCoils(res_addr, res_cnt) => if res_addr == addr && res_cnt
                == cnt {
                r is Ok
            } else {
                r == Err::<(), ResponseMismatch>(ResponseMismatch::Invalid)
            },
            _ => r == Err::<(), ResponseMismatch>(ResponseMismatch::Unexpected),
        },
{
    if let Response::WriteMultipleCoils(res_addr, res_cnt) = res {
        if res_addr != addr || res_cnt as usize != cnt {
            return Err(ResponseMismatch::Invalid);
        }
        Ok(())
    } else {
        Err(ResponseMismatch::Unexpected)
    }
}

/// The registers of a response to "read input registers" of `cnt`
/// registers: there must be as many.
pub fn read_input_registers_response(cnt: Quantity, res: Response) -> (r: Result<
    Vec<Word>,
    ResponseMismatch,
>)
    ensures
        match res {
            Response::ReadInputRegisters(words) => if words@.len() == cnt {
                r == Ok::<Vec<Word>, ResponseMismatch>(words)
            } else {
                r == Err::<Vec<Word>, ResponseMismatch>(ResponseMismatch::Invalid)
            },
            _ => r == Err::<Vec<Word>, ResponseMismatch>(ResponseMismatch::Unexpected),
        },
{
    if let Response::ReadInputRegisters(res) = res {
        if res.len() != cnt as usize {
            return Err(ResponseMismatch::Invalid);
        }
        Ok(res)
    } else {
        Err(ResponseMismatch::Unexpected)
    }
}

/// The registers of a response to "read holding registers" of `cnt`
/// registers: there must be as many.
pub fn read_holding_registers_response(cnt: Quantity, res: Response) -> (r: Result<
    Vec<Word>,
    ResponseMismatch,
>)
    ensures
        match res {
            Response::ReadHoldingRegisters(words) => if words@.len() == cnt {
                r == Ok::<Vec<Word>, ResponseMismatch>(words)
            } else {
                r == Err::<Vec<Word>, ResponseMismatch>(ResponseMismatch::Invalid)
            },
            _ => r == Err::<Vec<Word>, ResponseMismatch>(ResponseMismatch::Unexpected),
        },
{
    if let Response::ReadHoldingRegisters(res) = res {
        if res.len() != cnt as usize {
            return Err(ResponseMismatch::Invalid);
        }
        Ok(res)
    } else {
        Err(ResponseMismatch::Unexpected)
    }
}

/// Checks a response to "write single register" of `data` at `addr`: it
/// must echo both.
pub fn write_single_register_response(addr: Address, data: Word, res: Response) -> (r: Result<
    (),
    ResponseMismatch,
>)
    ensures
        match res {
            Response::WriteSingleRegister(res_addr, res_word) => if res_addr == addr && res_word
                == data {
                r is Ok
            } else {
                r == Err::<(), ResponseMismatch>(ResponseMismatch::Invalid)
            },
            _ => r == Err::<(), ResponseMismatch>(ResponseMismatch::Unexpected),
        },
{
    if let Response::WriteSingleRegister(res_addr, res_word) = res {
        if res_addr != addr || res_word != data {
            return Err(ResponseMismatch::Invalid);
        }
        Ok(())
    } else {
        Err(ResponseMismatch::Unexpected)
    }
}

/// Checks a response to "write multiple registers" of `cnt` registers at
/// `addr`: it must echo both.
pub fn write_multiple_registers_response(addr: Address, cnt: usize, res: Response) -> (r: Result<
    (),
    ResponseMismatch,
>)
    ensures
        match res {
            Response::WriteMultipleRegisters(res_addr, res_cnt) => if res_addr == addr && res_cnt
                == cnt {
                r is Ok
            } else {
                r == Err::<(), ResponseMismatch>(ResponseMismatch::Invalid)
            },
            _ => r == Err::<(), ResponseMismatch>(ResponseMismatch::Unexpected),
        },
{
    if let Response::WriteMultipleRegisters(res_addr, res_cnt) = res {
        if res_addr != addr || res_cnt as usize != cnt {
            return Err(ResponseMismatch::Invalid);
        }
        Ok(())
    } else {
        Err(ResponseMismatch::Unexpected)
    }
}

/// The registers of a response to "read/write multiple registers" that
/// reads `read_cnt` registers: there must be as many.
pub fn read_write_multiple_registers_response(read_cnt: Quantity, res: Response) -> (r: Result<
    Vec<Word>,
    ResponseMismatch,
>)
    ensures
        match res {
            Response::ReadWriteMultipleRegisters(words) => if words@.len() == read_cnt {
                r == Ok::<Vec<Word>, ResponseMismatch>(words)
            } else {
                r == Err::<Vec<Word>, ResponseMismatch>(ResponseMismatch::Invalid)
            },
            _ => r == Err::<Vec<Word>, ResponseMismatch>(ResponseMismatch::Unexpected),
        },
{
    if let Response::ReadWriteMultipleRegisters(res) = res {
        if res.len() != read_cnt as usize {
            return Err(ResponseMismatch::Invalid);
        }
        Ok(res)
    } else {
        Err(ResponseMismatch::Unexpected)
    }
}

} // verus!
