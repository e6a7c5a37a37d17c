//! Elementwise work and norms on the device.

use crate::cuda_inference::device::{answers, ask};
use vstd::prelude::*;

verus! {

/// Norms a vector into a carrier.
pub fn rms_norm_f32_to_carrier<
    Q,
    D: FnOnce(Q) -> Result<(), String>,
>(
    request: Q,
    device: D,
) -> (output: Result<(), String>)
    requires
        call_requires(device, (request,)),
    ensures
        answers(device, request, "CUDA rms_norm_f32_to_carrier failed: "@, output),
{
    ask(device, request, "CUDA rms_norm_f32_to_carrier failed: ")
}

/// Norms each row.
pub fn rms_norm_rows_f32<
    Q,
    D: FnOnce(Q) -> Result<(), String>,
>(
    request: Q,
    device: D,
) -> (output: Result<(), String>)
    requires
        call_requires(device, (request,)),
    ensures
        answers(device, request, "CUDA batched RMS norm failed: "@, output),
{
    ask(device, request, "CUDA batched RMS norm failed: ")
}

/// Activates a gate and multiplies it with `up`.
pub fn activation_mul_f32_inplace<
    Q,
    D: FnOnce(Q) -> Result<(), String>,
>(
    request: Q,
    device: D,
) -> (output: Result<(), String>)
    requires
        call_requires(device, (request,)),
    ensures
        answers(device, request, "CUDA activation multiply failed: "@, output),
{
    ask(device, request, "CUDA activation multiply failed: ")
}

/// Adds a residual.
pub fn add_f32_inplace<
    Q,
    D: FnOnce(Q) -> Result<(), String>,
>(
    request: Q,
    device: D,
) -> (output: Result<(), String>)
    requires
        call_requires(device, (request,)),
    ensures
        answers(device, request, "CUDA residual add failed: "@, output),
{
    ask(device, request, "CUDA residual add failed: ")
}

/// Adds one row to each.
pub fn add_rows_f32_inplace<
    Q,
    D: FnOnce(Q) -> Result<(), String>,
>(
    request: Q,
    device: D,
) -> (output: Result<(), String>)
    requires
        call_requires(device, (request,)),
    ensures
        answers(device, request, "CUDA broadcast add failed: "@, output),
{
    ask(device, request, "CUDA broadcast add failed: ")
}

/// Multiplies each row with one.
pub fn mul_rows_f32_inplace<
    Q,
    D: FnOnce(Q) -> Result<(), String>,
>(
    request: Q,
    device: D,
) -> (output: Result<(), String>)
    requires
        call_requires(device, (request,)),
    ensures
        answers(device, request, "CUDA broadcast multiply failed: "@, output),
{
    ask(device, request, "CUDA broadcast multiply failed: ")
}

/// Scales values.
pub fn scale_f32_inplace<
    Q,
    D: FnOnce(Q) -> Result<(), String>,
>(
    request: Q,
    device: D,
) -> (output: Result<(), String>)
    requires
        call_requires(device, (request,)),
    ensures
        answers(device, request, "CUDA scale failed: "@, output),
{
    ask(device, request, "CUDA scale failed: ")
}

/// Takes the sigmoid of values.
pub fn sigmoid_f32_inplace<
    Q,
    D: FnOnce(Q) -> Result<(), String>,
>(
    request: Q,
    device: D,
) -> (output: Result<(), String>)
    requires
        call_requires(device, (request,)),
    ensures
        answers(device, request, "CUDA sigmoid failed: "@, output),
{
    ask(device, request, "CUDA sigmoid failed: ")
}

/// Prepares the gates of a delta net.
pub fn gdn_prepare_delta_gate_beta_f32<
    Q,
    D: FnOnce(Q) -> Result<(), String>,
>(
    request: Q,
    device: D,
) -> (output: Result<(), String>)
    requires
        call_requires(device, (request,)),
    ensures
        answers(device, request, "CUDA GDN delta gate preparation failed: "@, output),
{
    ask(device, request, "CUDA GDN delta gate preparation failed: ")
}

/// Norms each row by its length.
pub fn l2_norm_rows_f32<
    Q,
    D: FnOnce(Q) -> Result<(), String>,
>(
    request: Q,
    device: D,
) -> (output: Result<(), String>)
    requires
        call_requires(device, (request,)),
    ensures
        answers(device, request, "CUDA L2 norm failed: "@, output),
{
    ask(device, request, "CUDA L2 norm failed: ")
}

/// Mixes two vectors.
pub fn axpby_f32_inplace<
    Q,
    D: FnOnce(Q) -> Result<(), String>,
>(
    request: Q,
    device: D,
) -> (output: Result<(), String>)
    requires
        call_requires(device, (request,)),
    ensures
        answers(device, request, "CUDA axpby failed: "@, output),
{
    ask(device, request, "CUDA axpby failed: ")
}

/// Multiplies values with the sigmoid of a gate.
pub fn sigmoid_mul_f32_inplace<
    Q,
    D: FnOnce(Q) -> Result<(), String>,
>(
    request: Q,
    device: D,
) -> (output: Result<(), String>)
    requires
        call_requires(device, (request,)),
    ensures
        answers(device, request, "CUDA sigmoid multiply failed: "@, output),
{
    ask(device, request, "CUDA sigmoid multiply failed: ")
}

/// Squares the positive part of values.
pub fn relu_sqr_f32_inplace<
    Q,
    D: FnOnce(Q) -> Result<(), String>,
>(
    request: Q,
    device: D,
) -> (output: Result<(), String>)
    requires
        call_requires(device, (request,)),
    ensures
        answers(device, request, "CUDA relu-squared failed: "@, output),
{
    ask(device, request, "CUDA relu-squared failed: ")
}

/// Transforms chunks of values.
pub fn hadamard_f32_inplace<
    Q,
    D: FnOnce(Q) -> Result<(), String>,
>(
    request: Q,
    device: D,
) -> (output: Result<(), String>)
    requires
        call_requires(device, (request,)),
    ensures
        answers(device, request, "CUDA Hadamard transform failed: "@, output),
{
    ask(device, request, "CUDA Hadamard transform failed: ")
}

/// Routes tokens to their top experts.
pub fn moe_route_topk_f32<
    Q,
    T,
    D: FnOnce(Q) -> Result<T, String>,
>(
    request: Q,
    device: D,
) -> (output: Result<T, String>)
    requires
        call_requires(device, (request,)),
    ensures
        answers(device, request, "CUDA MoE top-k routing failed: "@, output),
{
    ask(device, request, "CUDA MoE top-k routing failed: ")
}

/// Norms a device buffer into a carrier.
pub fn rms_norm_f32_dev_input_to_carrier<
    Q,
    D: FnOnce(Q) -> Result<(), String>,
>(
    request: Q,
    device: D,
) -> (output: Result<(), String>)
    requires
        call_requires(device, (request,)),
    ensures
        answers(device, request, "CUDA rms_norm_f32_dev_input_to_carrier failed: "@, output),
{
    ask(device, request, "CUDA rms_norm_f32_dev_input_to_carrier failed: ")
}

/// How positions rotate a head.
#[derive(Debug, Clone, Copy, PartialEq, Eq, Structural)]
pub enum CudaRopeMode {
    Adjacent,
    Neox,
    PartialAdjacent,
    PartialProportional,
    MropeText,
}

impl CudaRopeMode {
    pub open spec fn spec_code(self) -> u32 {
        match self {
            CudaRopeMode::Adjacent => 0,
            CudaRopeMode::Neox => 1,
            CudaRopeMode::PartialAdjacent => 2,
            CudaRopeMode::PartialProportional => 3,
            CudaRopeMode::MropeText => 4,
        }
    }

    /// The number by which the device knows the mode.
    pub fn code(self) -> (code: u32)
        ensures
            code == self.spec_code(),
    {
        match self {
            CudaRopeMode::Adjacent => 0,
            CudaRopeMode::Neox => 1,
            CudaRopeMode::PartialAdjacent => 2,
            CudaRopeMode::PartialProportional => 3,
            CudaRopeMode::MropeText => 4,
        }
    }
}

/// Rotates values by their positions; the device gets the mode by its number.
pub fn rope_f32_inplace<Q, D: FnOnce((Q, u32)) -> Result<(), String>>(
    request: Q,
    mode: CudaRopeMode,
    device: D,
) -> (output: Result<(), String>)
    requires
        call_requires(device, ((request, mode.spec_code()),)),
    ensures
        answers(device, (request, mode.spec_code()), "CUDA RoPE failed: "@, output),
{
    ask(device, (request, mode.code()), "CUDA RoPE failed: ")
}

/// Different modes have different numbers.
pub proof fn law_rope_codes_are_distinct(a: CudaRopeMode, b: CudaRopeMode)
    ensures
        a.spec_code() == b.spec_code() <==> a == b,
{
}

/// Modes are numbered from zero in the order in which they are named: the two over whole
/// heads, the two over a part of them, then that of texts.
pub proof fn law_rope_codes_count_up()
    ensures
        CudaRopeMode::Adjacent.spec_code() == 0,
        CudaRopeMode::Neox.spec_code() == CudaRopeMode::Adjacent.spec_code() + 1,
        CudaRopeMode::PartialAdjacent.spec_code() == CudaRopeMode::Neox.spec_code() + 1,
        CudaRopeMode::PartialProportional.spec_code() == CudaRopeMode::PartialAdjacent.spec_code() + 1,
        CudaRopeMode::MropeText.spec_code() == CudaRopeMode::PartialProportional.spec_code() + 1,
{
}

} // verus!
