//! What the device keeps between calls.

use crate::backend_api::DeviceTensorId;
use crate::backend_api::{in_context, with_context};
use crate::cuda_inference::device::{answers, ask};
use vstd::prelude::*;

verus! {

/// How much memory the device has.
pub fn cuda_memory_info<
    T,
    D: FnOnce() -> Result<T, String>,
>(
    device: D,
) -> (output: Result<T, String>)
    requires
        call_requires(device, ()),
    ensures
        call_ensures(device, (), output),
{
    device()
}

/// Drops the registered layers of experts.
pub fn clear_moe_layer_cache<
    D: FnOnce() -> Result<(), String>,
>(
    device: D,
) -> (output: Result<(), String>)
    requires
        call_requires(device, ()),
    ensures
        call_ensures(device, (), output),
{
    device()
}

/// Drops the resident Q4_K weights.
pub fn clear_q4k_cache<
    D: FnOnce() -> Result<(), String>,
>(
    device: D,
) -> (output: Result<(), String>)
    requires
        call_requires(device, ()),
    ensures
        call_ensures(device, (), output),
{
    device()
}

/// Drops the expanded weights.
pub fn clear_q4_f32_cache<
    D: FnOnce() -> Result<(), String>,
>(
    device: D,
) -> (output: Result<(), String>)
    requires
        call_requires(device, ()),
    ensures
        call_ensures(device, (), output),
{
    device()
}

/// Drops the keys and values of decoding.
pub fn clear_decode_attention_kv_cache<
    D: FnOnce() -> Result<(), String>,
>(
    device: D,
) -> (output: Result<(), String>)
    requires
        call_requires(device, ()),
    ensures
        call_ensures(device, (), output),
{
    device()
}

/// Unregisters host memory.
pub fn clear_host_registered_ranges<
    D: FnOnce() -> Result<(), String>,
>(
    device: D,
) -> (output: Result<(), String>)
    requires
        call_requires(device, ()),
    ensures
        call_ensures(device, (), output),
{
    device()
}

/// Drops the state of the sequence.
pub fn clear_sequence_state_cache<
    D: FnOnce() -> Result<(), String>,
>(
    device: D,
) -> (output: Result<(), String>)
    requires
        call_requires(device, ()),
    ensures
        call_ensures(device, (), output),
{
    device()
}

/// Gives back expanded Q4 weights once a prompt is done.
pub fn release_q4_f32_after_prefill<
    D: FnOnce() -> Result<(), String>,
>(
    device: D,
) -> (output: Result<(), String>)
    requires
        call_requires(device, ()),
    ensures
        call_ensures(device, (), output),
{
    device()
}

/// Gives back expanded Q8_0 weights once a prompt is done.
pub fn release_q8_0_prefill_f32_after_prefill<
    D: FnOnce() -> Result<(), String>,
>(
    device: D,
) -> (output: Result<(), String>)
    requires
        call_requires(device, ()),
    ensures
        call_ensures(device, (), output),
{
    device()
}

/// Copies a tensor to the device.
pub fn upload_device_tensor_f32<
    Q,
    D: FnOnce(Q) -> Result<DeviceTensorId, String>,
>(
    request: Q,
    device: D,
) -> (output: Result<DeviceTensorId, String>)
    requires
        call_requires(device, (request,)),
    ensures
        answers(device, request, "CUDA device tensor upload failed: "@, output),
{
    ask(device, request, "CUDA device tensor upload failed: ")
}

/// Copies a tensor back from the device.
pub fn download_device_tensor_f32<
    T,
    D: FnOnce(DeviceTensorId) -> Result<T, String>,
>(
    id: DeviceTensorId,
    device: D,
) -> (output: Result<T, String>)
    requires
        call_requires(device, (id,)),
    ensures
        answers(device, id, "CUDA device tensor download failed: "@, output),
{
    ask(device, id, "CUDA device tensor download failed: ")
}

/// Copies one row of a tensor back from the device.
pub fn download_device_tensor_f32_row<
    T,
    D: FnOnce((DeviceTensorId, usize)) -> Result<T, String>,
>(
    id: DeviceTensorId,
    row: usize,
    device: D,
) -> (output: Result<T, String>)
    requires
        call_requires(device, ((id, row),)),
    ensures
        answers(device, (id, row), "CUDA device tensor row download failed: "@, output),
{
    ask(device, (id, row), "CUDA device tensor row download failed: ")
}

/// Gives a tensor's memory back.
pub fn release_device_tensor<
    D: FnOnce(DeviceTensorId) -> Result<bool, String>,
>(
    id: DeviceTensorId,
    device: D,
) -> (output: Result<bool, String>)
    requires
        call_requires(device, (id,)),
    ensures
        answers(device, id, "CUDA device tensor release failed: "@, output),
{
    ask(device, id, "CUDA device tensor release failed: ")
}

/// Drops the cached slices of experts.
pub fn clear_moe_expert_slice_cache<
    D: FnOnce() -> Result<(), String>,
>(
    device: D,
) -> (output: Result<(), String>)
    requires
        call_requires(device, ()),
    ensures
        exists|reply: Result<(), String>| #[trigger]
            call_ensures(device, (), reply) && in_context(reply, "clearing CUDA MoE expert slice cache failed: "@, output),
{
    let reply: Result<(), String> = device();
    with_context(reply, "clearing CUDA MoE expert slice cache failed: ")
}

/// Forgets what an earlier engine left: first the registered layers of experts, then,
/// if that succeeded, the states of delta nets.
pub fn reset_state_for_engine_init<
    A: FnOnce() -> Result<(), String>,
    B: FnOnce() -> Result<(), String>,
>(clear_layers: A, reset_states: B) -> (output: Result<(), String>)
    requires
        call_requires(clear_layers, ()),
        call_requires(reset_states, ()),
    ensures
        exists|cleared: Result<(), String>| #[trigger]
            call_ensures(clear_layers, (), cleared) && match cleared {
                Err(_) => output == cleared,
                Ok(()) => call_ensures(reset_states, (), output),
            },
{
    clear_layers()?;
    reset_states()
}

} // verus!
