//! Primitives for flow-based programming: port identities, the graph of blocks
//! and connections with its wiring rules, and ports over bounded channels.

pub mod channel;
pub mod flume_ports;
pub mod io;
pub mod model;

pub use io::{
    Error, PortDirection, PortEvent, PortState, RecvError, Result, SendError, TryRecvError,
    TrySendError,
};
