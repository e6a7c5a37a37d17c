//! Buffers that a decode keeps on the device, and the steps that run on them.

use crate::backend_api::{in_context, with_context};
use crate::cuda_inference::device::{answers, ask};
use vstd::prelude::*;

verus! {

/// A device buffer of `bytes` bytes for the output of attention.
pub fn acquire_decode_attn_out_carrier<
    D: FnOnce(usize) -> Result<u64, String>,
>(
    bytes: usize,
    device: D,
) -> (output: Result<u64, String>)
    requires
        call_requires(device, (bytes,)),
    ensures
        answers(device, bytes, "CUDA acquire_decode_attn_out_carrier failed: "@, output),
{
    ask(device, bytes, "CUDA acquire_decode_attn_out_carrier failed: ")
}

/// A device buffer of `bytes` bytes for keys.
pub fn acquire_decode_k_carrier<
    D: FnOnce(usize) -> Result<u64, String>,
>(
    bytes: usize,
    device: D,
) -> (output: Result<u64, String>)
    requires
        call_requires(device, (bytes,)),
    ensures
        answers(device, bytes, "CUDA acquire_decode_k_carrier failed: "@, output),
{
    ask(device, bytes, "CUDA acquire_decode_k_carrier failed: ")
}

/// A device buffer of `bytes` bytes for values.
pub fn acquire_decode_v_carrier<
    D: FnOnce(usize) -> Result<u64, String>,
>(
    bytes: usize,
    device: D,
) -> (output: Result<u64, String>)
    requires
        call_requires(device, (bytes,)),
    ensures
        answers(device, bytes, "CUDA acquire_decode_v_carrier failed: "@, output),
{
    ask(device, bytes, "CUDA acquire_decode_v_carrier failed: ")
}

/// A device buffer of `bytes` bytes for half-precision keys.
pub fn acquire_decode_k_f16_carrier<
    D: FnOnce(usize) -> Result<u64, String>,
>(
    bytes: usize,
    device: D,
) -> (output: Result<u64, String>)
    requires
        call_requires(device, (bytes,)),
    ensures
        answers(device, bytes, "CUDA acquire_decode_k_f16_carrier failed: "@, output),
{
    ask(device, bytes, "CUDA acquire_decode_k_f16_carrier failed: ")
}

/// A device buffer of `bytes` bytes for half-precision values.
pub fn acquire_decode_v_f16_carrier<
    D: FnOnce(usize) -> Result<u64, String>,
>(
    bytes: usize,
    device: D,
) -> (output: Result<u64, String>)
    requires
        call_requires(device, (bytes,)),
    ensures
        answers(device, bytes, "CUDA acquire_decode_v_f16_carrier failed: "@, output),
{
    ask(device, bytes, "CUDA acquire_decode_v_f16_carrier failed: ")
}

/// A device buffer of `bytes` bytes for the hidden state.
pub fn acquire_decode_hidden_carrier<
    D: FnOnce(usize) -> Result<u64, String>,
>(
    bytes: usize,
    device: D,
) -> (output: Result<u64, String>)
    requires
        call_requires(device, (bytes,)),
    ensures
        answers(device, bytes, "CUDA acquire decode hidden carrier failed: "@, output),
{
    ask(device, bytes, "CUDA acquire decode hidden carrier failed: ")
}

/// A device buffer of `bytes` bytes for the normed state.
pub fn acquire_decode_norm_buf_carrier<
    D: FnOnce(usize) -> Result<u64, String>,
>(
    bytes: usize,
    device: D,
) -> (output: Result<u64, String>)
    requires
        call_requires(device, (bytes,)),
    ensures
        answers(device, bytes, "CUDA acquire decode norm_buf carrier failed: "@, output),
{
    ask(device, bytes, "CUDA acquire decode norm_buf carrier failed: ")
}

/// Packs `len` floats at `src_dev` to half precision at `dst_dev`.
pub fn f32_to_f16_pack_device<
    D: FnOnce((u64, u64, usize)) -> Result<(), String>,
>(
    src_dev: u64,
    dst_dev: u64,
    len: usize,
    device: D,
) -> (output: Result<(), String>)
    requires
        call_requires(device, ((src_dev, dst_dev, len),)),
    ensures
        answers(device, (src_dev, dst_dev, len), "CUDA f32_to_f16_pack_device failed: "@, output),
{
    ask(device, (src_dev, dst_dev, len), "CUDA f32_to_f16_pack_device failed: ")
}

/// Copies a hidden state to its carrier.
pub fn upload_to_decode_hidden_carrier<
    Q,
    D: FnOnce(Q) -> Result<(), String>,
>(
    request: Q,
    device: D,
) -> (output: Result<(), String>)
    requires
        call_requires(device, (request,)),
    ensures
        answers(device, request, "CUDA upload to decode hidden carrier failed: "@, output),
{
    ask(device, request, "CUDA upload to decode hidden carrier failed: ")
}

/// Copies a hidden state back from its carrier.
pub fn download_from_decode_hidden_carrier<
    Q,
    D: FnOnce(Q) -> Result<(), String>,
>(
    request: Q,
    device: D,
) -> (output: Result<(), String>)
    requires
        call_requires(device, (request,)),
    ensures
        answers(device, request, "CUDA download from decode hidden carrier failed: "@, output),
{
    ask(device, request, "CUDA download from decode hidden carrier failed: ")
}

/// Waits for the decode stream.
pub fn sync_decode_stream<
    D: FnOnce() -> Result<(), String>,
>(
    device: D,
) -> (output: Result<(), String>)
    requires
        call_requires(device, ()),
    ensures
        exists|reply: Result<(), String>| #[trigger]
            call_ensures(device, (), reply) && in_context(reply, "CUDA sync decode stream failed: "@, output),
{
    let reply: Result<(), String> = device();
    with_context(reply, "CUDA sync decode stream failed: ")
}

/// Hands a step to the persistent decode kernel.
pub fn dispatch_persistent_decode<
    Q,
    D: FnOnce(Q) -> Result<(), String>,
>(
    request: Q,
    device: D,
) -> (output: Result<(), String>)
    requires
        call_requires(device, (request,)),
    ensures
        call_ensures(device, (request,), output),
{
    device(request)
}

/// Decodes a whole layer on the device.
pub fn decode_full_layer_device_resident<
    Q,
    D: FnOnce(Q) -> Result<(), String>,
>(
    request: Q,
    device: D,
) -> (output: Result<(), String>)
    requires
        call_requires(device, (request,)),
    ensures
        answers(device, request, "CUDA decode_full_layer_device_resident failed: "@, output),
{
    ask(device, request, "CUDA decode_full_layer_device_resident failed: ")
}

/// Projects and rotates queries, keys and values on the device.
pub fn decode_device_qkv_rope_kv<
    Q,
    D: FnOnce(Q) -> Result<u64, String>,
>(
    request: Q,
    device: D,
) -> (output: Result<u64, String>)
    requires
        call_requires(device, (request,)),
    ensures
        answers(device, request, "CUDA decode_device_qkv_rope_kv failed: "@, output),
{
    ask(device, request, "CUDA decode_device_qkv_rope_kv failed: ")
}

/// Projects and rotates queries, keys and values with a captured graph.
pub fn decode_device_qkv_rope_kv_graph<
    Q,
    D: FnOnce(Q) -> Result<u64, String>,
>(
    request: Q,
    device: D,
) -> (output: Result<u64, String>)
    requires
        call_requires(device, (request,)),
    ensures
        answers(device, request, "CUDA graph QKV failed: "@, output),
{
    ask(device, request, "CUDA graph QKV failed: ")
}

/// Starts attention on device buffers.
pub fn launch_attention_decode_device<
    D: FnOnce((usize, u64, u64, usize, usize, usize, usize)) -> Result<(), String>,
>(
    layer_idx: usize,
    q_dev: u64,
    output_dev: u64,
    num_heads: usize,
    num_kv_heads: usize,
    head_dim: usize,
    kv_len: usize,
    device: D,
) -> (output: Result<(), String>)
    requires
        call_requires(device, ((layer_idx, q_dev, output_dev, num_heads, num_kv_heads, head_dim, kv_len),)),
    ensures
        answers(device, (layer_idx, q_dev, output_dev, num_heads, num_kv_heads, head_dim, kv_len), "CUDA launch_attention_decode_device failed: "@, output),
{
    ask(device, (layer_idx, q_dev, output_dev, num_heads, num_kv_heads, head_dim, kv_len), "CUDA launch_attention_decode_device failed: ")
}

/// Starts attention on device buffers, with the length on the device too.
pub fn launch_attention_decode_device_len_device<
    D: FnOnce((usize, u64, u64, usize, usize, usize, usize)) -> Result<(), String>,
>(
    layer_idx: usize,
    q_dev: u64,
    output_dev: u64,
    num_heads: usize,
    num_kv_heads: usize,
    head_dim: usize,
    kv_len: usize,
    device: D,
) -> (output: Result<(), String>)
    requires
        call_requires(device, ((layer_idx, q_dev, output_dev, num_heads, num_kv_heads, head_dim, kv_len),)),
    ensures
        answers(device, (layer_idx, q_dev, output_dev, num_heads, num_kv_heads, head_dim, kv_len), "CUDA launch_attention_decode_device_len_device failed: "@, output),
{
    ask(device, (layer_idx, q_dev, output_dev, num_heads, num_kv_heads, head_dim, kv_len), "CUDA launch_attention_decode_device_len_device failed: ")
}

/// Fills a layer's key and value cache on the device.
pub fn populate_device_kv_cache_f16<
    'a,
    D: FnOnce((usize, &'a [u16], &'a [u16], usize, usize)) -> Result<(), String>,
>(
    layer_idx: usize,
    k_bits: &'a [u16],
    v_bits: &'a [u16],
    kv_dim: usize,
    num_tokens: usize,
    device: D,
) -> (output: Result<(), String>)
    requires
        call_requires(device, ((layer_idx, k_bits, v_bits, kv_dim, num_tokens),)),
    ensures
        answers(device, (layer_idx, k_bits, v_bits, kv_dim, num_tokens), "CUDA populate_device_kv_cache_f16 failed: "@, output),
{
    ask(device, (layer_idx, k_bits, v_bits, kv_dim, num_tokens), "CUDA populate_device_kv_cache_f16 failed: ")
}

/// Whether a layer's cache on the device has this width and length.
pub fn device_kv_cache_f16_matches<
    D: FnOnce((usize, usize, usize)) -> Result<bool, String>,
>(
    layer_idx: usize,
    kv_dim: usize,
    num_tokens: usize,
    device: D,
) -> (output: Result<bool, String>)
    requires
        call_requires(device, ((layer_idx, kv_dim, num_tokens),)),
    ensures
        answers(device, (layer_idx, kv_dim, num_tokens), "CUDA device KV cache query failed: "@, output),
{
    ask(device, (layer_idx, kv_dim, num_tokens), "CUDA device KV cache query failed: ")
}

/// Copies a layer's cache back from the device.
pub fn sync_device_kv_cache_f16_to_host<
    Q,
    D: FnOnce(Q) -> Result<bool, String>,
>(
    request: Q,
    device: D,
) -> (output: Result<bool, String>)
    requires
        call_requires(device, (request,)),
    ensures
        answers(device, request, "CUDA device KV cache materialization failed: "@, output),
{
    ask(device, request, "CUDA device KV cache materialization failed: ")
}

/// Attends over cached keys and values into a device buffer.
pub fn attention_decode_cached_to_device<
    Q,
    D: FnOnce(Q) -> Result<(), String>,
>(
    request: Q,
    device: D,
) -> (output: Result<(), String>)
    requires
        call_requires(device, (request,)),
    ensures
        answers(device, request, "CUDA attention_decode_cached_to_device failed: "@, output),
{
    ask(device, request, "CUDA attention_decode_cached_to_device failed: ")
}

/// Attends into a device buffer, with the length on the device.
pub fn attention_decode_cached_to_device_len_device<
    Q,
    D: FnOnce(Q) -> Result<(), String>,
>(
    request: Q,
    device: D,
) -> (output: Result<(), String>)
    requires
        call_requires(device, (request,)),
    ensures
        answers(device, request, "CUDA attention_decode_cached_to_device_len_device failed: "@, output),
{
    ask(device, request, "CUDA attention_decode_cached_to_device_len_device failed: ")
}

/// Attends into a device buffer with a captured graph.
pub fn attention_decode_cached_to_device_len_device_graph<
    Q,
    D: FnOnce(Q) -> Result<(), String>,
>(
    request: Q,
    device: D,
) -> (output: Result<(), String>)
    requires
        call_requires(device, (request,)),
    ensures
        answers(device, request, "CUDA attention_decode_cached_to_device_len_device_graph failed: "@, output),
{
    ask(device, request, "CUDA attention_decode_cached_to_device_len_device_graph failed: ")
}

/// Attends over a compressed cache.
pub fn attention_decode_kvarn<
    Q,
    T,
    D: FnOnce(Q) -> Result<T, String>,
>(
    request: Q,
    device: D,
) -> (output: Result<T, String>)
    requires
        call_requires(device, (request,)),
    ensures
        answers(device, request, "CUDA attention_decode_kvarn failed: "@, output),
{
    ask(device, request, "CUDA attention_decode_kvarn failed: ")
}

/// Attends over a compressed cache into a device buffer.
pub fn attention_decode_kvarn_to_device<
    Q,
    D: FnOnce(Q) -> Result<(), String>,
>(
    request: Q,
    device: D,
) -> (output: Result<(), String>)
    requires
        call_requires(device, (request,)),
    ensures
        answers(device, request, "CUDA attention_decode_kvarn_to_device failed: "@, output),
{
    ask(device, request, "CUDA attention_decode_kvarn_to_device failed: ")
}

/// Projects queries, keys and values from a device buffer.
pub fn dense_q4k_attention_qkv_with_device_input<
    Q,
    D: FnOnce(Q) -> Result<(), String>,
>(
    request: Q,
    device: D,
) -> (output: Result<(), String>)
    requires
        call_requires(device, (request,)),
    ensures
        answers(device, request, "CUDA dense_q4k_attention_qkv_with_device_input failed: "@, output),
{
    ask(device, request, "CUDA dense_q4k_attention_qkv_with_device_input failed: ")
}

} // verus!
