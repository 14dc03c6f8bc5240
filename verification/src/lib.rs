//! Execution orchestration for stored code nodes.
//!
//! A code node is a stored source definition (name, entry point, escaped
//! source text, expected output shape, language).  This crate holds the
//! verified core of the system that runs such nodes in isolated containers:
//! the per-language command builder, the pipeline that turns the stored,
//! escaped source string back into runnable text, the task payload handed to
//! the queue, and the state machine that drives one task through the
//! container lifecycle while keeping its result record consistent.

pub mod code_nodes;
pub mod code_result;
pub mod config;
pub mod enums;
pub mod text;
pub mod worker;
