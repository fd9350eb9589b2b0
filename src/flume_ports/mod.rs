//! Ports over flume's bounded channels.

mod backend;

mod ports;
pub use ports::{bounded, free_slots, spec_free_slots, Inputs, Outputs};
