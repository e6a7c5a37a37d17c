//! Nemotron's experts on the device.

use crate::backend_api::DeviceTensorId;
use crate::cuda_inference::device::{answers, ask};
use vstd::prelude::*;

verus! {

/// Registers a layer with Q5 up and Q8 down projections.
pub fn nemotron_q5_q8_register_layer<
    'a,
    D: FnOnce((&'a [u8], &'a [u8], usize, usize, usize)) -> Result<bool, String>,
>(
    up_all: &'a [u8],
    down_all: &'a [u8],
    n_expert: usize,
    n_ff: usize,
    n_embd: usize,
    device: D,
) -> (output: Result<bool, String>)
    requires
        call_requires(device, ((up_all, down_all, n_expert, n_ff, n_embd),)),
    ensures
        answers(device, (up_all, down_all, n_expert, n_ff, n_embd), "CUDA Nemotron Q5/Q8 layer registration failed: "@, output),
{
    ask(device, (up_all, down_all, n_expert, n_ff, n_embd), "CUDA Nemotron Q5/Q8 layer registration failed: ")
}

/// Registers a layer in Q5.
pub fn nemotron_q5_register_layer<
    'a,
    D: FnOnce((&'a [u8], &'a [u8], usize, usize, usize)) -> Result<bool, String>,
>(
    up_all: &'a [u8],
    down_all: &'a [u8],
    n_expert: usize,
    n_ff: usize,
    n_embd: usize,
    device: D,
) -> (output: Result<bool, String>)
    requires
        call_requires(device, ((up_all, down_all, n_expert, n_ff, n_embd),)),
    ensures
        answers(device, (up_all, down_all, n_expert, n_ff, n_embd), "CUDA Nemotron Q5 layer registration failed: "@, output),
{
    ask(device, (up_all, down_all, n_expert, n_ff, n_embd), "CUDA Nemotron Q5 layer registration failed: ")
}

/// Copies experts that a prompt will need ahead of time.
pub fn nemotron_prefill_sparse_copy_prefetch<
    'a,
    D: FnOnce((&'a [&'a [u8]], &'a [&'a [u8]], usize, usize, bool)) -> Result<bool, String>,
>(
    up_weights: &'a [&'a [u8]],
    down_weights: &'a [&'a [u8]],
    n_ff: usize,
    n_embd: usize,
    down_q8: bool,
    device: D,
) -> (output: Result<bool, String>)
    requires
        call_requires(device, ((up_weights, down_weights, n_ff, n_embd, down_q8),)),
    ensures
        answers(device, (up_weights, down_weights, n_ff, n_embd, down_q8), "CUDA Nemotron prefill sparse copy prefetch failed: "@, output),
{
    ask(device, (up_weights, down_weights, n_ff, n_embd, down_q8), "CUDA Nemotron prefill sparse copy prefetch failed: ")
}

/// Runs sparse experts in Q5.
pub fn nemotron_q5_sparse_relu_sqr_by_token<
    Q,
    T,
    D: FnOnce(Q) -> Result<T, String>,
>(
    request: Q,
    device: D,
) -> (output: Result<T, String>)
    requires
        call_requires(device, (request,)),
    ensures
        answers(device, request, "CUDA Nemotron Q5 sparse batch failed: "@, output),
{
    ask(device, request, "CUDA Nemotron Q5 sparse batch failed: ")
}

/// Runs sparse experts in Q5 and Q8.
pub fn nemotron_q5_q8_sparse_relu_sqr_by_token<
    Q,
    T,
    D: FnOnce(Q) -> Result<T, String>,
>(
    request: Q,
    device: D,
) -> (output: Result<T, String>)
    requires
        call_requires(device, (request,)),
    ensures
        answers(device, request, "CUDA Nemotron Q5/Q8 sparse batch failed: "@, output),
{
    ask(device, request, "CUDA Nemotron Q5/Q8 sparse batch failed: ")
}

/// Runs sparse experts of a registered layer in Q5 and Q8.
pub fn nemotron_q5_q8_sparse_relu_sqr_cached_layer_by_token<
    Q,
    T,
    D: FnOnce(Q) -> Result<T, String>,
>(
    request: Q,
    device: D,
) -> (output: Result<T, String>)
    requires
        call_requires(device, (request,)),
    ensures
        answers(device, request, "CUDA Nemotron Q5/Q8 cached-layer sparse batch failed: "@, output),
{
    ask(device, request, "CUDA Nemotron Q5/Q8 cached-layer sparse batch failed: ")
}

/// Runs a token's shared and sparse experts in Q5.
pub fn nemotron_q5_decode_moe_shared_sparse<
    Q,
    T,
    D: FnOnce(Q) -> Result<T, String>,
>(
    request: Q,
    device: D,
) -> (output: Result<T, String>)
    requires
        call_requires(device, (request,)),
    ensures
        answers(device, request, "CUDA Nemotron Q5 decode shared+sparse failed: "@, output),
{
    ask(device, request, "CUDA Nemotron Q5 decode shared+sparse failed: ")
}

/// Runs a prompt's shared expert in Q8.
pub fn nemotron_q8_shared_prefill<
    Q,
    T,
    D: FnOnce(Q) -> Result<T, String>,
>(
    request: Q,
    device: D,
) -> (output: Result<T, String>)
    requires
        call_requires(device, (request,)),
    ensures
        answers(device, request, "CUDA Nemotron Q8 shared prefill failed: "@, output),
{
    ask(device, request, "CUDA Nemotron Q8 shared prefill failed: ")
}

/// Runs a prompt's shared and sparse experts.
pub fn nemotron_q8_shared_q5_sparse_prefill_moe<
    Q,
    T,
    D: FnOnce(Q) -> Result<T, String>,
>(
    request: Q,
    device: D,
) -> (output: Result<T, String>)
    requires
        call_requires(device, (request,)),
    ensures
        answers(device, request, "CUDA Nemotron Q8 shared + Q5 sparse prefill MoE failed: "@, output),
{
    ask(device, request, "CUDA Nemotron Q8 shared + Q5 sparse prefill MoE failed: ")
}

/// Runs a prompt's experts on device tensors.
pub fn nemotron_q8_shared_q5_sparse_prefill_moe_device<
    Q,
    D: FnOnce(Q) -> Result<Option<DeviceTensorId>, String>,
>(
    request: Q,
    device: D,
) -> (output: Result<Option<DeviceTensorId>, String>)
    requires
        call_requires(device, (request,)),
    ensures
        answers(device, request, "CUDA Nemotron device Q8 shared + Q5 sparse prefill MoE failed: "@, output),
{
    ask(device, request, "CUDA Nemotron device Q8 shared + Q5 sparse prefill MoE failed: ")
}

/// Runs a prompt's experts on device tensors, with the residual described.
pub fn nemotron_q8_shared_q5_sparse_prefill_moe_device_with_residual_desc<
    Q,
    D: FnOnce(Q) -> Result<Option<DeviceTensorId>, String>,
>(
    request: Q,
    device: D,
) -> (output: Result<Option<DeviceTensorId>, String>)
    requires
        call_requires(device, (request,)),
    ensures
        answers(device, request, "CUDA Nemotron device Q8 shared + Q5 sparse prefill MoE failed: "@, output),
{
    ask(device, request, "CUDA Nemotron device Q8 shared + Q5 sparse prefill MoE failed: ")
}

/// Runs a prompt's experts of a registered layer.
pub fn nemotron_q8_shared_q5_sparse_prefill_moe_cached_layer<
    Q,
    T,
    D: FnOnce(Q) -> Result<T, String>,
>(
    request: Q,
    device: D,
) -> (output: Result<T, String>)
    requires
        call_requires(device, (request,)),
    ensures
        answers(device, request, "CUDA cached Nemotron Q8 shared + Q5 sparse prefill MoE failed: "@, output),
{
    ask(device, request, "CUDA cached Nemotron Q8 shared + Q5 sparse prefill MoE failed: ")
}

/// Runs a token's experts.
pub fn nemotron_q8_shared_q5_sparse_decode_moe<
    Q,
    T,
    D: FnOnce(Q) -> Result<T, String>,
>(
    request: Q,
    device: D,
) -> (output: Result<T, String>)
    requires
        call_requires(device, (request,)),
    ensures
        answers(device, request, "CUDA Nemotron Q8 shared + Q5 sparse decode MoE failed: "@, output),
{
    ask(device, request, "CUDA Nemotron Q8 shared + Q5 sparse decode MoE failed: ")
}

/// Runs a token's experts of a registered layer.
pub fn nemotron_q8_shared_q5_sparse_decode_moe_cached_layer<
    Q,
    T,
    D: FnOnce(Q) -> Result<T, String>,
>(
    request: Q,
    device: D,
) -> (output: Result<T, String>)
    requires
        call_requires(device, (request,)),
    ensures
        answers(device, request, "CUDA Nemotron cached Q8 shared + Q5 sparse decode MoE failed: "@, output),
{
    ask(device, request, "CUDA Nemotron cached Q8 shared + Q5 sparse decode MoE failed: ")
}

/// Runs sparse experts of a whole layer in Q5.
pub fn nemotron_q5_sparse_relu_sqr_full_layer_by_token<
    Q,
    T,
    D: FnOnce(Q) -> Result<T, String>,
>(
    request: Q,
    device: D,
) -> (output: Result<T, String>)
    requires
        call_requires(device, (request,)),
    ensures
        answers(device, request, "CUDA Nemotron full-layer Q5 sparse batch failed: "@, output),
{
    ask(device, request, "CUDA Nemotron full-layer Q5 sparse batch failed: ")
}

/// Runs sparse experts of a registered layer in Q5.
pub fn nemotron_q5_sparse_relu_sqr_cached_layer_by_token<
    Q,
    T,
    D: FnOnce(Q) -> Result<T, String>,
>(
    request: Q,
    device: D,
) -> (output: Result<T, String>)
    requires
        call_requires(device, (request,)),
    ensures
        answers(device, request, "CUDA Nemotron cached-layer Q5 sparse batch failed: "@, output),
{
    ask(device, request, "CUDA Nemotron cached-layer Q5 sparse batch failed: ")
}

/// Runs a prompt's experts on device tensors and leaves the output there.
pub fn nemotron_q8_shared_q5_sparse_prefill_moe_device_output<
    Q,
    D: FnOnce(Q) -> Result<Option<DeviceTensorId>, String>,
>(request: Q, device: D) -> (output: Result<Option<DeviceTensorId>, String>)
    requires
        call_requires(device, (request,)),
    ensures
        answers(
            device,
            request,
            "CUDA Nemotron device Q8 shared + Q5 sparse prefill MoE failed: "@,
            output,
        ),
{
    nemotron_q8_shared_q5_sparse_prefill_moe_device(request, device)
}

} // verus!
