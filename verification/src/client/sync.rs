//! Transport independent synchronous client traits, for users to implement
//! on their blocking clients.

use vstd::prelude::*;

use super::{Answer, CallResult};
use crate::frame::{Address, Coil, Quantity, Request, Word};
use crate::slave::SlaveContext;

verus! {

/// A transport independent synchronous client trait.
pub trait Client: SlaveContext {
    /// Invokes a Modbus function; a broadcast request is answered by `None`.
    fn call(&mut self, req: Request) -> Answer;
}

/// A transport independent synchronous reader trait.
pub trait Reader: Client {
    /// Reads multiple coils (`0x01`).
    fn read_coils(&mut self, addr: Address, cnt: Quantity) -> CallResult<Vec<Coil>>;

    /// Reads multiple discrete inputs (`0x02`).
    fn read_discrete_inputs(&mut self, addr: Address, cnt: Quantity) -> CallResult<Vec<Coil>>;

    /// Reads multiple input registers (`0x04`).
    fn read_input_registers(&mut self, addr: Address, cnt: Quantity) -> CallResult<Vec<Word>>;

    /// Reads multiple holding registers (`0x03`).
    fn read_holding_registers(&mut self, addr: Address, cnt: Quantity) -> CallResult<Vec<Word>>;

    /// Reads and writes multiple holding registers (`0x17`); the write
    /// happens before the read.
    fn read_write_multiple_registers(
        &mut self,
        read_addr: Address,
        read_count: Quantity,
        write_addr: Address,
        write_data: &[Word],
    ) -> CallResult<Vec<Word>>;
}

/// A transport independent synchronous writer trait.
pub trait Writer: Client {
    /// Writes a single coil (`0x05`).
    fn write_single_coil(&mut self, addr: Address, coil: Coil) -> CallResult<()>;

    /// Writes multiple coils (`0x0F`).
    fn write_multiple_coils(&mut self, addr: Address, coils: &[Coil]) -> CallResult<()>;

    /// Writes a single holding register (`0x06`).
    fn write_single_register(&mut self, addr: Address, word: Word) -> CallResult<()>;

    /// Writes multiple holding registers (`0x10`).
    fn write_multiple_registers(&mut self, addr: Address, words: &[Word]) -> CallResult<()>;

    /// Sets or clears individual bits of a holding register (`0x16`).
    fn masked_write_register(&mut self, addr: Address, and_mask: Word, or_mask: Word) -> CallResult<()>;
}

} // verus!
