//! Ports over tokio's bounded `mpsc` channels.

mod backend;
pub use backend::{lemma_max_buffer, Polled, SendFailure, MAX_BUFFER};

mod inputs;
pub use inputs::{
    poll_step, poll_value, recv_step, spec_poll_step, spec_poll_value, spec_recv_step,
    InputPortState, Inputs, RecvStep,
};

mod outputs;
pub use outputs::{OutputPortState, Outputs};

mod single;
pub use single::{BoundedInputPort, BoundedOutputPort, Input, Output};

mod connection;
pub use connection::{
    bounded, buffer_for, buffer_size, forward_sent, forward_step, fresh_pair, single,
    spec_forward_step, Channel, Forward,
};
