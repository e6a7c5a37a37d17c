//! The MediaTek NPU: prefill policy, request validation, the compiled-model
//! caches and what a run reports.

pub mod cache;
pub mod cached_run;
pub mod error;
pub mod policy;
pub mod requests;
pub mod run;
