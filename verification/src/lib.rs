//! Parity-style transaction tracing, as a sans-I/O core.
//!
//! Every operation of the `trace_*` namespace is split in two: the node
//! runs the EVM and reads its block store, and this crate decides
//! everything else (validation, reward synthesis, filtering, ordering and
//! pagination) on plain values, with each decision stated as a contract.

pub mod batch;
pub mod chain;
pub mod error;
pub mod filter;
pub mod laws;
pub mod parity;
pub mod payload;
pub mod primitives;
pub mod range;
pub mod raw;
pub mod replay;
pub mod reward;
pub mod trace;
