//! The dataflow graph: port identities, typed ports, sets and maps keyed by
//! port, blocks, and the builder that checks the wiring and freezes it into a
//! system definition.

mod port_direction;
pub use port_direction::PortDirection;

mod port_id;
pub use port_id::{InputPortId, OutputPortId, PortId, PortIdKey};

mod port_id_set;
pub use port_id_set::{
    ascending, fresh_ports, is_greatest, is_least, lemma_ascending_no_duplicates, PortIdSet,
};

mod port_id_map;
pub use port_id_map::PortIdMap;

mod block_definition;
pub use block_definition::{bounds_of, key_bounds, BlockDefinition, BlockHandle, DeclaredPorts};

mod system_definition;
pub use system_definition::{
    all_empty, block_inputs, block_outputs, declared, nested_key_bounds, SystemDefinition,
};

mod ports;
pub use ports::{
    lemma_issued_grow, lemma_later_input_smaller, lemma_later_output_larger, Inputs, Outputs,
    PortIdAllocator,
};

mod system_builder;
pub use system_builder::{
    lemma_input_connects_once, lemma_output_connects_once, lemma_unregistered_ports_refused, SystemBuildError,
    SystemBuilder,
};
