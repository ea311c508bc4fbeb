//! The Neuro runtime's logic: the ADT client's requests and readings, the
//! WebSocket request table, the engine's safety policy and diagnosis, the
//! MCP tool catalogue and the request plans of its tools, each with its
//! contract.
use vstd::prelude::*;

pub mod text;
pub mod json;
pub mod types;
pub mod errors;
pub mod policy;
pub mod diagnose;
pub mod review;
pub mod tools;
pub mod adt;
pub mod xml;
pub mod mcp;
pub mod cli;
pub mod ws;

verus! {
} // verus!
