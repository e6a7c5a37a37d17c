//! Backend families: which are compiled in, and which one a request goes to.

pub mod execution;
pub mod gpu;
pub mod moe_jit;
pub mod registry;
