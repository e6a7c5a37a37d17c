//! The Metal backend: when it takes a piece of work, and what it hands over.

pub mod chain_trace;
pub mod counters;
pub mod decode_chain;
pub mod device;
pub mod gates;
pub mod mla_gates;
pub mod moe_gates;
pub mod prefill_atn;
pub mod prefill_chain;
pub mod prefill_gates;
pub mod state;
pub mod switches;
