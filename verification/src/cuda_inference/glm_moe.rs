//! GLM's experts on the device.

use crate::cuda_inference::device::{answers, ask};
use crate::quant::GGMLType;
use vstd::prelude::*;

verus! {

/// Runs a token's sparse experts.
pub fn glm_moe_decode_sparse_experts_iq2xxs_iq3xxs<
    Q,
    T,
    D: FnOnce(Q) -> Result<T, String>,
>(
    request: Q,
    device: D,
) -> (output: Result<T, String>)
    requires
        call_requires(device, (request,)),
    ensures
        answers(device, request, "CUDA GLM sparse IQ2_XXS/IQ3_XXS MoE failed: "@, output),
{
    ask(device, request, "CUDA GLM sparse IQ2_XXS/IQ3_XXS MoE failed: ")
}

/// Runs a prompt's sparse experts.
pub fn glm_moe_prefill_sparse_experts_iq_by_token<
    Q,
    T,
    D: FnOnce(Q) -> Result<T, String>,
>(
    request: Q,
    device: D,
) -> (output: Result<T, String>)
    requires
        call_requires(device, (request,)),
    ensures
        answers(device, request, "CUDA GLM batched sparse IQ MoE failed: "@, output),
{
    ask(device, request, "CUDA GLM batched sparse IQ MoE failed: ")
}

/// Runs a prompt's sparse experts with a clamped activation.
pub fn moe_prefill_sparse_experts_iq2xxs_iq3xxs_clamped_swiglu<
    Q,
    T,
    D: FnOnce(Q) -> Result<T, String>,
>(
    request: Q,
    device: D,
) -> (output: Result<T, String>)
    requires
        call_requires(device, (request,)),
    ensures
        answers(device, request, "CUDA batched sparse clamped SwiGLU MoE failed: "@, output),
{
    ask(device, request, "CUDA batched sparse clamped SwiGLU MoE failed: ")
}

/// Runs a prompt's MXFP4 experts with a clamped activation.
pub fn mxfp4_sparse_experts_by_token_clamped_swiglu<
    Q,
    T,
    D: FnOnce(Q) -> Result<T, String>,
>(
    request: Q,
    device: D,
) -> (output: Result<T, String>)
    requires
        call_requires(device, (request,)),
    ensures
        answers(device, request, "CUDA batched sparse MXFP4 MoE failed: "@, output),
{
    ask(device, request, "CUDA batched sparse MXFP4 MoE failed: ")
}

/// Runs resident experts with a clamped activation.
pub fn sparse_experts_by_token_clamped_swiglu_resident<
    Q,
    T,
    D: FnOnce(Q) -> Result<T, String>,
>(
    request: Q,
    device: D,
) -> (output: Result<T, String>)
    requires
        call_requires(device, (request,)),
    ensures
        answers(device, request, "CUDA resident sparse clamped SwiGLU MoE failed: "@, output),
{
    ask(device, request, "CUDA resident sparse clamped SwiGLU MoE failed: ")
}

/// Runs a prompt's shared expert.
pub fn glm_moe_prefill_shared_expert_iq<
    Q,
    T,
    D: FnOnce(Q) -> Result<T, String>,
>(
    request: Q,
    device: D,
) -> (output: Result<T, String>)
    requires
        call_requires(device, (request,)),
    ensures
        answers(device, request, "CUDA GLM batched shared IQ expert failed: "@, output),
{
    ask(device, request, "CUDA GLM batched shared IQ expert failed: ")
}

/// Runs a token's shared expert, Q5_K with a Q6_K down projection.
pub fn glm_moe_decode_shared_expert_q5k_q6k<
    Q,
    T,
    D: FnOnce((Q, GGMLType, GGMLType)) -> Result<T, String>,
>(request: Q, device: D) -> (output: Result<T, String>)
    requires
        call_requires(device, ((request, GGMLType::Q5_K, GGMLType::Q6_K),)),
    ensures
        answers(
            device,
            (request, GGMLType::Q5_K, GGMLType::Q6_K),
            "CUDA GLM shared Q5_K/Q6_K expert failed: "@,
            output,
        ),
{
    ask(
        device,
        (request, GGMLType::Q5_K, GGMLType::Q6_K),
        "CUDA GLM shared Q5_K/Q6_K expert failed: ",
    )
}

/// A run of bytes of a file.
#[derive(Debug, Clone, Copy)]
pub struct FileBackedRegion<P> {
    pub path: P,
    pub file_offset: u64,
    pub len: usize,
}

/// Whether `spans` name the three regions of each layer of `sequence`, in their order:
/// each by its path, offset and length.
pub open spec fn spans_of<P>(
    sequence: Seq<[FileBackedRegion<P>; 3]>,
    spans: Seq<[(&P, u64, usize); 3]>,
) -> bool {
    &&& spans.len() == sequence.len()
    &&& forall|layer: int, index: int|
        #![trigger spans[layer]@[index]]
        0 <= layer < sequence.len() && 0 <= index < 3 ==> {
            let region = sequence[layer]@[index];
            spans[layer]@[index] == (&region.path, region.file_offset, region.len)
        }
}

/// Tells the device where the sparse experts of each layer lie, so that it can read
/// ahead.
pub fn glm_register_stream_region_sequence<
    'a,
    P,
    D: FnOnce(Vec<[(&'a P, u64, usize); 3]>),
>(sequence: &'a [[FileBackedRegion<P>; 3]], device: D)
    requires
        forall|spans: Vec<[(&'a P, u64, usize); 3]>|
            spans_of(sequence@, spans@) ==> #[trigger] call_requires(device, (spans,)),
    ensures
        exists|spans: Vec<[(&'a P, u64, usize); 3]>| #[trigger]
            call_ensures(device, (spans,), ()) && spans_of(sequence@, spans@),
{
    let mut spans: Vec<[(&'a P, u64, usize); 3]> = Vec::new();
    let mut layer: usize = 0;
    while layer < sequence.len()
        invariant
            layer <= sequence.len(),
            spans_of(sequence@.take(layer as int), spans@),
        decreases sequence.len() - layer,
    {
        let regions: &'a [FileBackedRegion<P>; 3] = &sequence[layer];
        let first: &'a FileBackedRegion<P> = &regions[0];
        let second: &'a FileBackedRegion<P> = &regions[1];
        let third: &'a FileBackedRegion<P> = &regions[2];
        spans.push(
            [
                (&first.path, first.file_offset, first.len),
                (&second.path, second.file_offset, second.len),
                (&third.path, third.file_offset, third.len),
            ],
        );
        layer = layer + 1;
    }
    assert(sequence@.take(layer as int) =~= sequence@);
    device(spans);
}

/// Each region of each layer is told in its own place, by its own path, offset and length.
pub proof fn law_regions_are_told_in_their_places<P>(
    sequence: Seq<[FileBackedRegion<P>; 3]>,
    spans: Seq<[(&P, u64, usize); 3]>,
    layer: int,
    index: int,
)
    requires
        spans_of(sequence, spans),
        0 <= layer < sequence.len(),
        0 <= index < 3,
    ensures
        spans.len() == sequence.len(),
        *spans[layer]@[index].0 == sequence[layer]@[index].path,
        spans[layer]@[index].1 == sequence[layer]@[index].file_offset,
        spans[layer]@[index].2 == sequence[layer]@[index].len,
{
}

} // verus!
