//! Switches that the device's tuning decides.

use crate::backend_api::BackendKind;
use vstd::prelude::*;

verus! {

/// Whether projections stay on the device.
pub fn cu65_device_qkv_enabled<D: FnOnce() -> bool>(tuning: D) -> (enabled: bool)
    requires
        call_requires(tuning, ()),
    ensures
        call_ensures(tuning, (), enabled),
{
    tuning()
}

/// Whether a layer runs as a graph.
pub fn cu68_layer_graph_enabled<D: FnOnce() -> bool>(tuning: D) -> (enabled: bool)
    requires
        call_requires(tuning, ()),
    ensures
        call_ensures(tuning, (), enabled),
{
    tuning()
}

/// Whether a dense chain runs as a graph.
pub fn cu69_dense_chain_graph_enabled<D: FnOnce() -> bool>(tuning: D) -> (enabled: bool)
    requires
        call_requires(tuning, ()),
    ensures
        call_ensures(tuning, (), enabled),
{
    tuning()
}

/// Whether a segment of layers runs as a graph.
pub fn cu71_layer_segment_graph_enabled<D: FnOnce() -> bool>(tuning: D) -> (enabled: bool)
    requires
        call_requires(tuning, ()),
    ensures
        call_ensures(tuning, (), enabled),
{
    tuning()
}

/// Whether segments are traced.
pub fn cu71_layer_segment_graph_trace_enabled<D: FnOnce() -> bool>(tuning: D) -> (enabled: bool)
    requires
        call_requires(tuning, ()),
    ensures
        call_ensures(tuning, (), enabled),
{
    tuning()
}

/// Whether decoding runs in one persistent kernel.
pub fn persistent_decode_enabled<D: FnOnce() -> bool>(tuning: D) -> (enabled: bool)
    requires
        call_requires(tuning, ()),
    ensures
        call_ensures(tuning, (), enabled),
{
    tuning()
}

/// Whether decoding stays on the device.
pub fn cu63_device_decode_enabled<D: FnOnce() -> bool>(tuning: D) -> (enabled: bool)
    requires
        call_requires(tuning, ()),
    ensures
        call_ensures(tuning, (), enabled),
{
    tuning()
}

/// Whether whole layers of experts go to the device.
pub fn nemotron_q5_full_layer_enabled<D: FnOnce() -> bool>(tuning: D) -> (enabled: bool)
    requires
        call_requires(tuning, ()),
    ensures
        call_ensures(tuning, (), enabled),
{
    tuning()
}

/// Whether layers of experts are registered.
pub fn nemotron_q5_layer_cache_enabled<D: FnOnce() -> bool>(tuning: D) -> (enabled: bool)
    requires
        call_requires(tuning, ()),
    ensures
        call_ensures(tuning, (), enabled),
{
    tuning()
}

/// Whether a token's experts run together.
pub fn nemotron_q8_shared_q5_sparse_decode_enabled<D: FnOnce() -> bool>(tuning: D) -> (enabled: bool)
    requires
        call_requires(tuning, ()),
    ensures
        call_ensures(tuning, (), enabled),
{
    tuning()
}

/// Whether a prompt's experts run on the device.
pub fn qwen_moe_prefill_enabled<D: FnOnce() -> bool>(tuning: D) -> (enabled: bool)
    requires
        call_requires(tuning, ()),
    ensures
        call_ensures(tuning, (), enabled),
{
    tuning()
}

/// Whether experts add to the residual in place.
pub fn qwen35_device_moe_inplace_residual_enabled<D: FnOnce() -> bool>(tuning: D) -> (enabled: bool)
    requires
        call_requires(tuning, ()),
    ensures
        call_ensures(tuning, (), enabled),
{
    tuning()
}

/// Whether a prompt of this length runs its experts on the device.
pub fn qwen_moe_prefill_enabled_for_seq<D: FnOnce(usize) -> bool>(
    seq_len: usize,
    tuning: D,
) -> (enabled: bool)
    requires
        call_requires(tuning, (seq_len,)),
    ensures
        call_ensures(tuning, (seq_len,), enabled),
{
    tuning(seq_len)
}

/// Whether a prompt reads its experts straight from their file.
pub fn glm_moe_direct_file_prefill_enabled<D: FnOnce(bool) -> bool>(
    auto_enabled: bool,
    tuning: D,
) -> (enabled: bool)
    requires
        call_requires(tuning, (auto_enabled,)),
    ensures
        call_ensures(tuning, (auto_enabled,), enabled),
{
    tuning(auto_enabled)
}

/// What is asked about attention over a compressed cache.
#[derive(Debug, Clone, Copy, PartialEq, Eq, Structural)]
pub struct KvarnAttention {
    pub backend: BackendKind,
    pub device_output: bool,
    pub kv_len: usize,
    pub num_heads: usize,
    pub head_dim: usize,
}

/// Whether attention runs over a compressed cache on CUDA.
pub fn kvarn_attention_enabled<D: FnOnce(KvarnAttention) -> bool>(
    device_output: bool,
    kv_len: usize,
    num_heads: usize,
    head_dim: usize,
    policy: D,
) -> (enabled: bool)
    requires
        forall|asked: KvarnAttention| call_requires(policy, (asked,)),
    ensures
        call_ensures(
            policy,
            ((KvarnAttention {
                backend: BackendKind::Cuda,
                device_output,
                kv_len,
                num_heads,
                head_dim,
            }),),
            enabled,
        ),
{
    policy(KvarnAttention { backend: BackendKind::Cuda, device_output, kv_len, num_heads, head_dim })
}

/// Whether a token's sparse experts run as one batch: with both switches on, fewer
/// than 32 routes, and all of them in high precision.
pub fn qwen_moe_decode_sparse_batch_enabled(
    gate_up_enabled: bool,
    batch_enabled: bool,
    route_count: usize,
    all_high_precision: bool,
) -> (enabled: bool)
    ensures
        enabled == (gate_up_enabled && batch_enabled && route_count < 32 && all_high_precision),
{
    gate_up_enabled && batch_enabled && route_count < 32 && all_high_precision
}

} // verus!
