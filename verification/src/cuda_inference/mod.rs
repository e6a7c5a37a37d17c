//! The CUDA backend: when it takes a piece of work, what it hands over, and how it
//! reports.
//!
//! Operands that no decision reads travel as one opaque request, which goes to the
//! device as it is.

pub mod attention;
pub mod caches;
pub mod carriers;
pub mod device;
pub mod expert_major;
pub mod gdn;
pub mod glm_moe;
pub mod mtp;
pub mod nemotron;
pub mod output;
pub mod prefill;
pub mod products;
pub mod qwen_moe;
pub mod routes;
pub mod switches;
pub mod vectors;
pub mod weights;
