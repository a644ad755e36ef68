//! Key update, capability exchange, mutual authentication and protocol tracing
//! for SPDM.

pub mod codec;
pub mod common;
pub mod error;
pub mod json;
pub mod laws;
pub mod message;
pub mod protocol;
pub mod requester;
pub mod responder;
pub mod session;
pub mod spdm_trace;
pub mod trace_harness;
pub mod trace_run;
