//! The logic of an inference runtime that drives CPU, CUDA, Metal and MediaTek NPU
//! backends.
//!
//! The library holds what the runtime decides: which device path a request takes, what
//! the device is handed, how a workspace is planned, which compiled models stay resident,
//! how a request is validated and how a backend's reply is reported.
//!
//! A device is a function that is handed in, and contracts speak of what it is called
//! with and what it returns. Settings of the environment are arguments, and floats are
//! their IEEE-754 bit patterns.

pub mod arith;
pub mod backend;
pub mod backend_api;
pub mod cpu_phase;
pub mod cuda_inference;
pub mod device_prefill;
pub mod float_bits;
pub mod mediatek;
pub mod metal_inference;
pub mod packed_weights;
pub mod policy;
pub mod quant;
pub mod text;
