//! What ports share: directions, lifecycle states, events, errors, and the
//! port traits.

pub use crate::model::PortDirection;

mod error;
pub use error::{first_failure, spec_first_failure, Error, Result};

mod errors;
pub use errors::{RecvError, SendError, TryRecvError, TrySendError};

mod port_event;
pub use port_event::PortEvent;

mod port_state;
pub use port_state::{lemma_lifecycle_forward, PortState};

mod port;
pub use port::Port;

mod ports;
pub use ports::{InputPort, OutputPort};
