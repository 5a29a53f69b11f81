//! Generalization of a state machine for a consensus engine: traits for the
//! header, the live block and the state of a blockchain, a reference machine
//! that keeps its state in memory, and the enrichment of event-log records
//! through a client handle.

pub mod amount;
pub mod block;
pub mod client;
pub mod header;
pub mod log_details;
pub mod machine;
