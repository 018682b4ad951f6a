//! Dynamic pipeline orchestrator: builds a directed graph of media-processing
//! stages, completes statically known links up front and dynamically
//! discovered links at run time, and drives the graph through its execution
//! states in response to asynchronous bus events.
//!
//! The orchestrator itself works on plain values; the media engine that
//! actually moves data is an external collaborator, driven by the host
//! program from the decisions made here.

pub mod bus;
pub mod config;
pub mod errors;
pub mod graph;
pub mod laws;
pub mod lifecycle;
pub mod model;
pub mod pipeline;
