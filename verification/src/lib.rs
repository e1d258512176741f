//! Modbus protocol data units, frames and codecs for RTU and TCP,
//! with their contracts proved by Verus.
//!
//! To avoid confusion with the usual network terminology the _master_
//! is called _client_ and the _slave_ is called _server_.
#![allow(unused_imports)]

use vstd::prelude::*;

pub mod slave;
pub use self::slave::{Slave, SlaveContext, SlaveId};

pub mod device;

pub mod buffers;

pub mod dropped;

pub mod error;
pub use self::error::{Error, ProtocolError};

pub mod frame;
pub use self::frame::{
    Address, ExceptionCode, ExceptionResponse, FunctionCode, Quantity, Request, Response,
    SlaveRequest,
};

pub mod codec;

pub mod service;

pub mod server;

pub mod pdu;

pub mod client;
