//! Extraction of verified contracts from a contract registry, chain by chain,
//! and their preparation for a downstream verification service.
//!
//! The crate holds the decisions of the pipeline: configuration rules, the
//! request paths, the shaping of a contract's data into a verification
//! request, the per-chain worker as a state machine, and the outcome of a
//! whole run. Network transport is left to the caller.

pub mod contract;
pub mod json;
pub mod orchestrator;
pub mod settings;
pub mod text;
pub mod worker;
