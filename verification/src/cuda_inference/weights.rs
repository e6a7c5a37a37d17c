//! Products with weights on the device.

use crate::cuda_inference::device::{answers, ask};
use vstd::prelude::*;

verus! {

/// Multiplies Q8_0 matrices with vectors, head by head.
pub fn q8_0_head_gemv_batch<
    Q,
    T,
    D: FnOnce(Q) -> Result<T, String>,
>(
    request: Q,
    device: D,
) -> (output: Result<T, String>)
    requires
        call_requires(device, (request,)),
    ensures
        call_ensures(device, (request,), output),
{
    device(request)
}

/// Attends over a prompt's latent cache.
pub fn glm_mla_prefill_attention_f16<
    Q,
    T,
    D: FnOnce(Q) -> Result<T, String>,
>(
    request: Q,
    device: D,
) -> (output: Result<T, String>)
    requires
        call_requires(device, (request,)),
    ensures
        call_ensures(device, (request,), output),
{
    device(request)
}

/// Multiplies a Q4_K matrix with a device buffer.
pub fn q4k_gemv_with_device_input<
    Q,
    D: FnOnce(Q) -> Result<(), String>,
>(
    request: Q,
    device: D,
) -> (output: Result<(), String>)
    requires
        call_requires(device, (request,)),
    ensures
        answers(device, request, "CUDA q4k_gemv_with_device_input failed: "@, output),
{
    ask(device, request, "CUDA q4k_gemv_with_device_input failed: ")
}

/// Multiplies a Q6_K matrix with a device buffer.
pub fn q6k_gemv_with_device_input<
    Q,
    D: FnOnce(Q) -> Result<(), String>,
>(
    request: Q,
    device: D,
) -> (output: Result<(), String>)
    requires
        call_requires(device, (request,)),
    ensures
        answers(device, request, "CUDA q6k_gemv_with_device_input failed: "@, output),
{
    ask(device, request, "CUDA q6k_gemv_with_device_input failed: ")
}

/// Copies weights to the device ahead of time; the answer counts them.
pub fn prewarm_q4k_weight_slices<
    'a,
    D: FnOnce(&'a [&'a [u8]]) -> Result<usize, String>,
>(
    weights: &'a [&'a [u8]],
    device: D,
) -> (output: Result<usize, String>)
    requires
        call_requires(device, (weights,)),
    ensures
        call_ensures(device, (weights,), output),
{
    device(weights)
}

/// Copies weights to the device ahead of time and pins them.
pub fn prewarm_q4k_weight_slices_pinned<
    'a,
    D: FnOnce(&'a [&'a [u8]]) -> Result<usize, String>,
>(
    weights: &'a [&'a [u8]],
    device: D,
) -> (output: Result<usize, String>)
    requires
        call_requires(device, (weights,)),
    ensures
        call_ensures(device, (weights,), output),
{
    device(weights)
}

/// Copies weights that stay quantized ahead of time.
pub fn prewarm_quant_resident_q4k_weights<
    'a,
    D: FnOnce(&'a [&'a [u8]]) -> Result<usize, String>,
>(
    weights: &'a [&'a [u8]],
    device: D,
) -> (output: Result<usize, String>)
    requires
        call_requires(device, (weights,)),
    ensures
        call_ensures(device, (weights,), output),
{
    device(weights)
}

/// Packs gate and up projections ahead of time.
pub fn prewarm_q4k_packed_gate_up_weights<
    'a,
    D: FnOnce(&'a [(&'a [u8], &'a [u8], usize, usize)]) -> Result<usize, String>,
>(
    weights: &'a [(&'a [u8], &'a [u8], usize, usize)],
    device: D,
) -> (output: Result<usize, String>)
    requires
        call_requires(device, (weights,)),
    ensures
        call_ensures(device, (weights,), output),
{
    device(weights)
}

/// Expands gate and up projections ahead of time.
pub fn prewarm_q4k_f32_gate_up_weights<
    'a,
    D: FnOnce(&'a [(&'a [u8], &'a [u8], usize, usize)]) -> Result<usize, String>,
>(
    weights: &'a [(&'a [u8], &'a [u8], usize, usize)],
    device: D,
) -> (output: Result<usize, String>)
    requires
        call_requires(device, (weights,)),
    ensures
        call_ensures(device, (weights,), output),
{
    device(weights)
}

/// Expands Q4_K weights to single precision ahead of time.
pub fn prewarm_q4k_f32_weights<
    'a,
    D: FnOnce(&'a [(&'a [u8], usize, usize)]) -> Result<usize, String>,
>(
    weights: &'a [(&'a [u8], usize, usize)],
    device: D,
) -> (output: Result<usize, String>)
    requires
        call_requires(device, (weights,)),
    ensures
        call_ensures(device, (weights,), output),
{
    device(weights)
}

/// Expands Q4_K weights to half precision ahead of time.
pub fn prewarm_q4k_f16_weights<
    'a,
    D: FnOnce(&'a [(&'a [u8], usize, usize)]) -> Result<usize, String>,
>(
    weights: &'a [(&'a [u8], usize, usize)],
    device: D,
) -> (output: Result<usize, String>)
    requires
        call_requires(device, (weights,)),
    ensures
        call_ensures(device, (weights,), output),
{
    device(weights)
}

/// Expands Q4_K weights to half precision for prompts ahead of time.
pub fn prewarm_q4k_prefill_f16_weights<
    'a,
    D: FnOnce(&'a [(&'a [u8], usize, usize)]) -> Result<usize, String>,
>(
    weights: &'a [(&'a [u8], usize, usize)],
    device: D,
) -> (output: Result<usize, String>)
    requires
        call_requires(device, (weights,)),
    ensures
        call_ensures(device, (weights,), output),
{
    device(weights)
}

/// Packs Q4_K weights ahead of time.
pub fn prewarm_q4k_packed_weights<
    'a,
    D: FnOnce(&'a [(&'a [u8], usize, usize)]) -> Result<usize, String>,
>(
    weights: &'a [(&'a [u8], usize, usize)],
    device: D,
) -> (output: Result<usize, String>)
    requires
        call_requires(device, (weights,)),
    ensures
        call_ensures(device, (weights,), output),
{
    device(weights)
}

/// Packs Q6_K weights ahead of time.
pub fn prewarm_q6k_packed_weights<
    'a,
    D: FnOnce(&'a [(&'a [u8], usize, usize)]) -> Result<usize, String>,
>(
    weights: &'a [(&'a [u8], usize, usize)],
    device: D,
) -> (output: Result<usize, String>)
    requires
        call_requires(device, (weights,)),
    ensures
        call_ensures(device, (weights,), output),
{
    device(weights)
}

/// Expands Q6_K weights to single precision ahead of time.
pub fn prewarm_q6k_f32_weights<
    'a,
    D: FnOnce(&'a [(&'a [u8], usize, usize)]) -> Result<usize, String>,
>(
    weights: &'a [(&'a [u8], usize, usize)],
    device: D,
) -> (output: Result<usize, String>)
    requires
        call_requires(device, (weights,)),
    ensures
        call_ensures(device, (weights,), output),
{
    device(weights)
}

/// Copies the base of per-layer embeddings to the device.
pub fn upload_gemma_ple_base<
    Q,
    D: FnOnce(Q) -> Result<(), String>,
>(
    request: Q,
    device: D,
) -> (output: Result<(), String>)
    requires
        call_requires(device, (request,)),
    ensures
        answers(device, request, "CUDA Gemma PLE base upload failed: "@, output),
{
    ask(device, request, "CUDA Gemma PLE base upload failed: ")
}

/// Multiplies a Q2_K matrix with a vector.
pub fn q2k_gemv<
    Q,
    T,
    D: FnOnce(Q) -> Result<T, String>,
>(
    request: Q,
    device: D,
) -> (output: Result<T, String>)
    requires
        call_requires(device, (request,)),
    ensures
        answers(device, request, "CUDA Q2_K GEMV failed: "@, output),
{
    ask(device, request, "CUDA Q2_K GEMV failed: ")
}

/// Multiplies a Q3_K matrix with a vector.
pub fn q3k_gemv<
    Q,
    T,
    D: FnOnce(Q) -> Result<T, String>,
>(
    request: Q,
    device: D,
) -> (output: Result<T, String>)
    requires
        call_requires(device, (request,)),
    ensures
        answers(device, request, "CUDA Q3_K GEMV failed: "@, output),
{
    ask(device, request, "CUDA Q3_K GEMV failed: ")
}

/// Multiplies a Q4_K matrix with a vector.
pub fn q4k_gemv<
    Q,
    T,
    D: FnOnce(Q) -> Result<T, String>,
>(
    request: Q,
    device: D,
) -> (output: Result<T, String>)
    requires
        call_requires(device, (request,)),
    ensures
        answers(device, request, "CUDA Q4_K GEMV failed: "@, output),
{
    ask(device, request, "CUDA Q4_K GEMV failed: ")
}

/// Multiplies a Q5_0 matrix with a vector.
pub fn q5_0_gemv<
    Q,
    T,
    D: FnOnce(Q) -> Result<T, String>,
>(
    request: Q,
    device: D,
) -> (output: Result<T, String>)
    requires
        call_requires(device, (request,)),
    ensures
        answers(device, request, "CUDA Q5_0 GEMV failed: "@, output),
{
    ask(device, request, "CUDA Q5_0 GEMV failed: ")
}

/// Multiplies a BF16 matrix with a vector.
pub fn bf16_gemv<
    Q,
    T,
    D: FnOnce(Q) -> Result<T, String>,
>(
    request: Q,
    device: D,
) -> (output: Result<T, String>)
    requires
        call_requires(device, (request,)),
    ensures
        answers(device, request, "CUDA BF16 GEMV failed: "@, output),
{
    ask(device, request, "CUDA BF16 GEMV failed: ")
}

/// Multiplies an F16 matrix with a vector.
pub fn f16_gemv<
    Q,
    T,
    D: FnOnce(Q) -> Result<T, String>,
>(
    request: Q,
    device: D,
) -> (output: Result<T, String>)
    requires
        call_requires(device, (request,)),
    ensures
        answers(device, request, "CUDA F16 GEMV failed: "@, output),
{
    ask(device, request, "CUDA F16 GEMV failed: ")
}

/// Multiplies a Q5_1 matrix with a vector.
pub fn q5_1_gemv<
    Q,
    T,
    D: FnOnce(Q) -> Result<T, String>,
>(
    request: Q,
    device: D,
) -> (output: Result<T, String>)
    requires
        call_requires(device, (request,)),
    ensures
        answers(device, request, "CUDA Q5_1 GEMV failed: "@, output),
{
    ask(device, request, "CUDA Q5_1 GEMV failed: ")
}

/// Multiplies a Q5_K matrix with a vector.
pub fn q5k_gemv<
    Q,
    T,
    D: FnOnce(Q) -> Result<T, String>,
>(
    request: Q,
    device: D,
) -> (output: Result<T, String>)
    requires
        call_requires(device, (request,)),
    ensures
        answers(device, request, "CUDA Q5_K GEMV failed: "@, output),
{
    ask(device, request, "CUDA Q5_K GEMV failed: ")
}

/// Multiplies a Q6_K matrix with a vector.
pub fn q6k_gemv<
    Q,
    T,
    D: FnOnce(Q) -> Result<T, String>,
>(
    request: Q,
    device: D,
) -> (output: Result<T, String>)
    requires
        call_requires(device, (request,)),
    ensures
        answers(device, request, "CUDA Q6_K GEMV failed: "@, output),
{
    ask(device, request, "CUDA Q6_K GEMV failed: ")
}

/// Multiplies a Q8_0 matrix with a vector.
pub fn q8_0_gemv<
    Q,
    T,
    D: FnOnce(Q) -> Result<T, String>,
>(
    request: Q,
    device: D,
) -> (output: Result<T, String>)
    requires
        call_requires(device, (request,)),
    ensures
        answers(device, request, "CUDA Q8_0 GEMV failed: "@, output),
{
    ask(device, request, "CUDA Q8_0 GEMV failed: ")
}

/// Multiplies an IQ4_XS matrix with a vector.
pub fn iq4_xs_gemv<
    Q,
    T,
    D: FnOnce(Q) -> Result<T, String>,
>(
    request: Q,
    device: D,
) -> (output: Result<T, String>)
    requires
        call_requires(device, (request,)),
    ensures
        answers(device, request, "CUDA IQ4_XS GEMV failed: "@, output),
{
    ask(device, request, "CUDA IQ4_XS GEMV failed: ")
}

/// Runs a feed-forward block.
pub fn dense_q4k_gelu_ffn<
    Q,
    T,
    D: FnOnce(Q) -> Result<T, String>,
>(
    request: Q,
    device: D,
) -> (output: Result<T, String>)
    requires
        call_requires(device, (request,)),
    ensures
        answers(device, request, "CUDA dense Q4_K GELU FFN failed: "@, output),
{
    ask(device, request, "CUDA dense Q4_K GELU FFN failed: ")
}

/// Runs a feed-forward block on several tokens.
pub fn dense_q4k_gelu_ffn_batch<
    Q,
    T,
    D: FnOnce(Q) -> Result<T, String>,
>(
    request: Q,
    device: D,
) -> (output: Result<T, String>)
    requires
        call_requires(device, (request,)),
    ensures
        answers(device, request, "CUDA dense Q4_K GELU FFN batch failed: "@, output),
{
    ask(device, request, "CUDA dense Q4_K GELU FFN batch failed: ")
}

/// Runs a SiLU feed-forward block on several tokens.
pub fn dense_q4k_silu_ffn_batch<
    Q,
    T,
    D: FnOnce(Q) -> Result<T, String>,
>(
    request: Q,
    device: D,
) -> (output: Result<T, String>)
    requires
        call_requires(device, (request,)),
    ensures
        answers(device, request, "CUDA dense Q4_K SiLU FFN batch failed: "@, output),
{
    ask(device, request, "CUDA dense Q4_K SiLU FFN batch failed: ")
}

/// Runs a feed-forward block with its norm and residual.
pub fn dense_q4k_gelu_ffn_norm_residual<
    Q,
    T,
    D: FnOnce(Q) -> Result<T, String>,
>(
    request: Q,
    device: D,
) -> (output: Result<T, String>)
    requires
        call_requires(device, (request,)),
    ensures
        answers(device, request, "CUDA dense Q4_K GELU FFN norm residual failed: "@, output),
{
    ask(device, request, "CUDA dense Q4_K GELU FFN norm residual failed: ")
}

/// Runs a layer behind its attention.
pub fn dense_q4k_attention_output_gelu_ffn_norm_residual<
    Q,
    D: FnOnce(Q) -> Result<(), String>,
>(
    request: Q,
    device: D,
) -> (output: Result<(), String>)
    requires
        call_requires(device, (request,)),
    ensures
        answers(device, request, "CUDA dense Q4_K attention+FFN failed: "@, output),
{
    ask(device, request, "CUDA dense Q4_K attention+FFN failed: ")
}

/// Runs a layer behind its attention on several tokens.
pub fn dense_q4k_attention_output_gelu_ffn_batch_norm_residual<
    Q,
    D: FnOnce(Q) -> Result<(), String>,
>(
    request: Q,
    device: D,
) -> (output: Result<(), String>)
    requires
        call_requires(device, (request,)),
    ensures
        answers(device, request, "CUDA dense Q4_K attention+FFN batch failed: "@, output),
{
    ask(device, request, "CUDA dense Q4_K attention+FFN batch failed: ")
}

/// Adds per-layer embeddings.
pub fn gemma4_ple_q4k_batch_norm_residual<
    Q,
    D: FnOnce(Q) -> Result<(), String>,
>(
    request: Q,
    device: D,
) -> (output: Result<(), String>)
    requires
        call_requires(device, (request,)),
    ensures
        answers(device, request, "CUDA Gemma4 PLE Q4_K batch failed: "@, output),
{
    ask(device, request, "CUDA Gemma4 PLE Q4_K batch failed: ")
}

/// Projects queries, keys and values.
pub fn dense_q4k_attention_qkv<
    Q,
    D: FnOnce(Q) -> Result<(), String>,
>(
    request: Q,
    device: D,
) -> (output: Result<(), String>)
    requires
        call_requires(device, (request,)),
    ensures
        answers(device, request, "CUDA dense Q4_K QKV failed: "@, output),
{
    ask(device, request, "CUDA dense Q4_K QKV failed: ")
}

/// Projects and rotates queries, keys and values of one token.
pub fn dense_q4k_attention_qkv_rope_hd128_decode<
    Q,
    D: FnOnce(Q) -> Result<(), String>,
>(
    request: Q,
    device: D,
) -> (output: Result<(), String>)
    requires
        call_requires(device, (request,)),
    ensures
        answers(device, request, "CUDA dense Q4_K QKV+RoPE hd128 failed: "@, output),
{
    ask(device, request, "CUDA dense Q4_K QKV+RoPE hd128 failed: ")
}

/// Projects and rotates queries, keys and values of a prompt.
pub fn dense_q4k_attention_qkv_rope_hd128_prefill<
    Q,
    D: FnOnce(Q) -> Result<(), String>,
>(
    request: Q,
    device: D,
) -> (output: Result<(), String>)
    requires
        call_requires(device, (request,)),
    ensures
        answers(device, request, "CUDA dense Q4_K QKV+RoPE hd128 prefill failed: "@, output),
{
    ask(device, request, "CUDA dense Q4_K QKV+RoPE hd128 prefill failed: ")
}

} // verus!
