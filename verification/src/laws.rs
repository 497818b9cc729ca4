//! What holds of every run of the queue.
//!
//! The laws speak of the state machine of the `model` module. The operations
//! of `Queue` are the transitions of that machine, so the laws hold of every
//! queue, whatever its driver reports.

pub mod construction;
pub mod mutation;
pub mod retrieval;
pub mod selection;
pub mod state;
