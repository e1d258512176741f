//! The deciding part of the RTU and TCP clients: which header a request is
//! sent with, and whether an answer is to be awaited. Sending and receiving
//! frames is left to the transport.

use vstd::prelude::*;

use crate::frame::rtu;
use crate::frame::tcp::{self, TransactionId, UnitId};
use crate::frame::{Request, RequestPdu};
use crate::slave::{Slave, SlaveContext, SlaveId};

verus! {

/// The transaction id of the first request of a TCP client.
pub const INITIAL_TRANSACTION_ID: TransactionId = 0;

/// The transaction id that comes `k` requests after `start`: ids count up
/// and wrap around after `0xFFFF`.
pub open spec fn nth_transaction_id(start: TransactionId, k: nat) -> TransactionId {
    ((start + k) % 0x1_0000) as TransactionId
}

/// Hands out the transaction ids of a TCP client.
#[derive(Debug)]
pub struct TransactionIdGenerator {
    next_transaction_id: TransactionId,
}

impl TransactionIdGenerator {
    /// The id that the next call of [`Self::next`] returns.
    pub closed spec fn upcoming(&self) -> TransactionId {
        self.next_transaction_id
    }

    /// A generator that starts at [`INITIAL_TRANSACTION_ID`].
    pub fn new() -> (g: Self)
        ensures
            g.upcoming() == INITIAL_TRANSACTION_ID,
    {
        Self { next_transaction_id: INITIAL_TRANSACTION_ID }
    }

    /// Returns the upcoming id and moves on to the one after it.
    pub fn next(&mut self) -> (id: TransactionId)
        ensures
            id == old(self).upcoming(),
            final(self).upcoming() == nth_transaction_id(id, 1),
    {
        let next_transaction_id = self.next_transaction_id;
        self.next_transaction_id = next_transaction_id.wrapping_add(1);
        next_transaction_id
    }
}

/// Moving on by one id and then by `k` ids is moving on by `k + 1` ids.
pub proof fn transaction_ids_advance(start: TransactionId, k: nat)
    ensures
        nth_transaction_id(nth_transaction_id(start, 1), k) == nth_transaction_id(start, k + 1),
{
    let a = (start + 1) % 0x1_0000;
    assert((a + k) % 0x1_0000 == (start + 1 + k) % 0x1_0000) by (nonlinear_arith)
        requires
            a == (start + 1) % 0x1_0000,
            start >= 0,
    ;
}

/// A TCP client hands out 65536 distinct transaction ids before any repeats.
pub proof fn transaction_ids_distinct(start: TransactionId, i: nat, j: nat)
    requires
        i < j < 0x1_0000,
    ensures
        nth_transaction_id(start, i) != nth_transaction_id(start, j),
{
    assert((start + i) % 0x1_0000 != (start + j) % 0x1_0000) by (nonlinear_arith)
        requires
            i < j < 0x1_0000,
            0 <= start < 0x1_0000,
    ;
}

/// What a TCP client keeps between requests: the transaction ids and the
/// unit it talks to.
#[derive(Debug)]
pub struct TcpClient {
    transaction_id_generator: TransactionIdGenerator,
    unit_id: UnitId,
}

impl TcpClient {
    /// The unit that requests are addressed to.
    pub closed spec fn unit(&self) -> UnitId {
        self.unit_id
    }

    /// The transaction id of the next request.
    pub closed spec fn upcoming_transaction_id(&self) -> TransactionId {
        self.transaction_id_generator.upcoming()
    }

    /// A client for the given slave, starting at [`INITIAL_TRANSACTION_ID`].
    pub fn new(slave: Slave) -> (c: Self)
        ensures
            c.unit() == slave.0,
            c.upcoming_transaction_id() == INITIAL_TRANSACTION_ID,
    {
        Self { transaction_id_generator: TransactionIdGenerator::new(), unit_id: slave.0 }
    }

    /// The unit that requests are addressed to.
    pub fn unit_id(&self) -> (u: UnitId)
        ensures
            u == self.unit(),
    {
        self.unit_id
    }

    /// The header of the next request to `unit_id`; the transaction id
    /// moves on by one.
    pub fn next_request_hdr(&mut self, unit_id: UnitId) -> (hdr: tcp::Header)
        ensures
            hdr.transaction_id == old(self).upcoming_transaction_id(),
            hdr.unit_id == unit_id,
            final(self).upcoming_transaction_id() == nth_transaction_id(hdr.transaction_id, 1),
            final(self).unit() == old(self).unit(),
    {
        let transaction_id = self.transaction_id_generator.next();
        tcp::Header { transaction_id, unit_id }
    }

    /// The frame of the next request, addressed to the client's unit.
    pub fn next_request_adu(&mut self, req: Request) -> (adu: tcp::RequestAdu)
        ensures
            adu.hdr.transaction_id == old(self).upcoming_transaction_id(),
            adu.hdr.unit_id == old(self).unit(),
            adu.pdu.0 == req,
            !adu.disconnect,
            final(self).upcoming_transaction_id() == nth_transaction_id(adu.hdr.transaction_id, 1),
            final(self).unit() == old(self).unit(),
    {
        let unit_id = self.unit_id;
        let hdr = self.next_request_hdr(unit_id);
        tcp::RequestAdu { hdr, pdu: RequestPdu(req), disconnect: false }
    }

    /// Addresses the following requests to another slave; the transaction
    /// ids go on.
    pub fn set_unit(&mut self, slave: Slave)
        ensures
            final(self).unit() == slave.0,
            final(self).upcoming_transaction_id() == old(self).upcoming_transaction_id(),
    {
        self.unit_id = slave.0;
    }
}

impl SlaveContext for TcpClient {
    fn set_slave(&mut self, slave: Slave)
        ensures
            final(self).unit() == slave.0,
            final(self).upcoming_transaction_id() == old(self).upcoming_transaction_id(),
    {
        self.unit_id = slave.0;
    }
}

/// The frame of a request to an RTU slave.
pub fn request_adu(server: Slave, request: Request) -> (adu: rtu::RequestAdu)
    ensures
        adu.hdr.slave_id == server.0,
        adu.pdu.0 == request,
        !adu.disconnect,
{
    rtu::RequestAdu { hdr: rtu::Header { slave_id: server.0 }, pdu: RequestPdu(request), disconnect: false }
}

/// What an RTU client keeps between requests: the slave it talks to.
#[derive(Debug)]
pub struct RtuClient {
    slave_id: SlaveId,
}

impl RtuClient {
    /// The slave that requests are addressed to.
    pub closed spec fn slave(&self) -> SlaveId {
        self.slave_id
    }

    /// A client for the given slave.
    pub fn new(slave: Slave) -> (c: Self)
        ensures
            c.slave() == slave.0,
    {
        Self { slave_id: slave.0 }
    }

    /// The slave that requests are addressed to.
    pub fn slave_id(&self) -> (s: SlaveId)
        ensures
            s == self.slave(),
    {
        self.slave_id
    }

    /// The frame of the next request, addressed to the client's slave.
    pub fn next_request_adu(&self, req: Request) -> (adu: rtu::RequestAdu)
        ensures
            adu.hdr.slave_id == self.slave(),
            adu.pdu.0 == req,
            !adu.disconnect,
    {
        request_adu(Slave(self.slave_id), req)
    }

    /// Addresses the following requests to another slave.
    pub fn set_server(&mut self, slave: Slave)
        ensures
            final(self).slave() == slave.0,
    {
        self.slave_id = slave.0;
    }
}

impl SlaveContext for RtuClient {
    fn set_slave(&mut self, slave: Slave)
        ensures
            final(self).slave() == slave.0,
    {
        self.slave_id = slave.0;
    }
}

/// Whether a request sent with this header is answered: broadcast requests
/// (slave id 0) are not.
pub fn expects_response(hdr: &rtu::Header) -> (b: bool)
    ensures
        b == (hdr.slave_id != 0),
{
    !Slave(hdr.slave_id).is_broadcast()
}

} // verus!
