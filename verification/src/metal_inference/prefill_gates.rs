//! When the device takes a step of a prompt, how it reads it, and what it is handed. Floats
//! are their bits, as are halves.

use crate::arith::is_product;
use crate::metal_inference::device::{
    fill_over, filled, fills, hand_over, offer, offer_where, offered, offered_where, ran, run_where,
    taken,
};
use crate::metal_inference::decode_chain::heads_fit;
use crate::metal_inference::gates::FfnWeights;
use crate::metal_inference::switches::metal_prefill_gdn_full_ffn_enabled;
use crate::policy::{env_is, env_truthy, set_to, switched_off, switched_on, unless_falsey};
use crate::quant::{
    is_q6k_of_q4k_or_q6k, tensorops_quant, tensorops_quant_from_ggml, GGMLType, TensoropsQuant,
};
use crate::text::{chars_of, parse_usize, parsed_usize};
use vstd::prelude::*;

verus! {

/// Who asks for a projection, for its trace.
#[derive(Debug, Clone, Copy)]
pub struct MetalPrefillProjTrace {
    pub role: &'static str,
    pub layer_idx: usize,
    pub timing_enabled: bool,
}

/// How two projections of one input run on the device.
#[derive(Debug, Clone, Copy, PartialEq, Eq, Structural)]
pub enum DualProjection {
    Quant { left: TensoropsQuant, right: TensoropsQuant },
    F32,
}

/// Two projections of a delta net that read one input.
#[derive(Debug, Clone, Copy, PartialEq, Eq)]
pub struct DualProjectionRequest<'a> {
    pub left_ggml: GGMLType,
    pub right_ggml: GGMLType,
    pub left_raw: &'a [u8],
    pub right_raw: &'a [u8],
    pub normed: &'a [u32],
    pub seq_len: usize,
    pub hidden_dim: usize,
    pub n_out: usize,
}

/// How the device runs two projections: quantized ones unless
/// `RNB_METAL_PREFILL_GDN_INPROJ=0`, plain ones where `RNB_METAL_PREFILL_GDN_F32_DUAL`
/// is truthy and the weights are long enough.
pub open spec fn dual_projection(
    inproj: Option<&str>,
    f32_dual: Option<&str>,
    request: DualProjectionRequest<'_>,
) -> Option<DualProjection> {
    let quantized = tensorops_quant(request.left_ggml) is Some && tensorops_quant(request.right_ggml) is Some;
    if request.normed@.len() != request.seq_len * request.hidden_dim {
        None
    } else if quantized && set_to(inproj, "0"@) {
        None
    } else if quantized {
        Some(
            DualProjection::Quant {
                left: tensorops_quant(request.left_ggml)->0,
                right: tensorops_quant(request.right_ggml)->0,
            },
        )
    } else if switched_on(f32_dual) && request.left_ggml == GGMLType::F32 && request.right_ggml == GGMLType::F32
        && request.left_raw@.len() >= request.n_out * request.hidden_dim * 4 && request.right_raw@.len()
        >= request.n_out * request.hidden_dim * 4 {
        Some(DualProjection::F32)
    } else {
        None
    }
}

fn reads_prefill_gdn_f32_dual_proj(
    inproj: Option<&str>,
    f32_dual: Option<&str>,
    request: &DualProjectionRequest<'_>,
) -> (runs: Option<DualProjection>)
    ensures
        runs == dual_projection(inproj, f32_dual, *request),
{
    if !is_product(request.normed.len(), request.seq_len, request.hidden_dim) {
        return None;
    }
    if let (Some(left), Some(right)) = (
        tensorops_quant_from_ggml(request.left_ggml),
        tensorops_quant_from_ggml(request.right_ggml),
    ) {
        if env_is(inproj, "0") {
            return None;
        }
        return Some(DualProjection::Quant { left, right });
    }
    if !env_truthy(f32_dual) {
        return None;
    }
    if request.left_ggml != GGMLType::F32 || request.right_ggml != GGMLType::F32 {
        return None;
    }
    let left_bytes: usize = request.left_raw.len();
    let elements = request.n_out.checked_mul(request.hidden_dim)?;
    let bytes = elements.checked_mul(4)?;
    if left_bytes < bytes || request.right_raw.len() < bytes {
        return None;
    }
    Some(DualProjection::F32)
}

/// Runs two projections of a delta net that read one input.
pub fn metal_prefill_gdn_f32_dual_proj_if_supported<
    'a,
    T,
    D: FnOnce(DualProjection, DualProjectionRequest<'a>) -> T,
>(
    inproj: Option<&str>,
    f32_dual: Option<&str>,
    request: DualProjectionRequest<'a>,
    device: D,
) -> (output: Option<T>)
    requires
        forall|reads: DualProjection| call_requires(device, (reads, request)),
    ensures
        taken(dual_projection(inproj, f32_dual, request), request, device, output),
{
    let reads: Option<DualProjection> = reads_prefill_gdn_f32_dual_proj(inproj, f32_dual, &request);
    hand_over(reads, request, device)
}

/// A projection of a prompt's activations.
#[derive(Debug, Clone, Copy, PartialEq, Eq)]
pub struct ProjectionRequest<'a> {
    pub weight_ggml: GGMLType,
    pub weight_raw: &'a [u8],
    pub normed: &'a [u32],
    pub seq_len: usize,
    pub hidden_dim: usize,
    pub n_out: usize,
}

/// How the device reads a delta net's projection, unless it is switched off.
pub open spec fn projection_reads(
    inproj: Option<&str>,
    weight_ggml: GGMLType,
    trace: Option<MetalPrefillProjTrace>,
) -> Option<(TensoropsQuant, Option<MetalPrefillProjTrace>)> {
    if set_to(inproj, "0"@) {
        None
    } else {
        match tensorops_quant(weight_ggml) {
            Some(quant) => Some((quant, trace)),
            None => None,
        }
    }
}

fn reads_prefill_gdn_proj_with_trace(
    inproj: Option<&str>,
    weight_ggml: GGMLType,
    trace: Option<MetalPrefillProjTrace>,
) -> (runs: Option<(TensoropsQuant, Option<MetalPrefillProjTrace>)>)
    ensures
        runs == projection_reads(inproj, weight_ggml, trace),
{
    if env_is(inproj, "0") {
        return None;
    }
    match tensorops_quant_from_ggml(weight_ggml) {
        Some(quant) => Some((quant, trace)),
        None => None,
    }
}

/// Runs a projection of a delta net, unless `RNB_METAL_PREFILL_GDN_INPROJ=0`.
pub fn metal_prefill_gdn_proj_into_if_supported<
    'a,
    D: FnOnce(
        (TensoropsQuant, Option<MetalPrefillProjTrace>),
        ProjectionRequest<'a>,
    ) -> Vec<u32>,
>(inproj: Option<&str>, request: ProjectionRequest<'a>, out: &mut Vec<u32>, device: D) -> (done:
    bool)
    requires
        fills(
            projection_reads(inproj, request.weight_ggml, None),
            request,
            device,
            *old(out),
        ),
    ensures
        filled(
            projection_reads(inproj, request.weight_ggml, None),
            request,
            device,
            *old(out),
            *final(out),
            done,
        ),
{
    metal_prefill_gdn_proj_into_if_supported_with_trace(inproj, request, None, out, device)
}

/// Runs a projection of a delta net with a trace, which goes to the device as it is.
pub fn metal_prefill_gdn_proj_into_if_supported_with_trace<
    'a,
    D: FnOnce(
        (TensoropsQuant, Option<MetalPrefillProjTrace>),
        ProjectionRequest<'a>,
    ) -> Vec<u32>,
>(
    inproj: Option<&str>,
    request: ProjectionRequest<'a>,
    trace: Option<MetalPrefillProjTrace>,
    out: &mut Vec<u32>,
    device: D,
) -> (done: bool)
    requires
        fills(
            projection_reads(inproj, request.weight_ggml, trace),
            request,
            device,
            *old(out),
        ),
    ensures
        filled(
            projection_reads(inproj, request.weight_ggml, trace),
            request,
            device,
            *old(out),
            *final(out),
            done,
        ),
{
    let reads: Option<(TensoropsQuant, Option<MetalPrefillProjTrace>)> =
        reads_prefill_gdn_proj_with_trace(inproj, request.weight_ggml, trace);
    fill_over(reads, request, out, device)
}

/// A convolution of a prompt.
#[derive(Debug, Clone, Copy, PartialEq, Eq)]
pub struct Conv1dRequest<'a> {
    pub input: &'a [u32],
    pub weight: &'a [u32],
    pub seq_len: usize,
    pub channels: usize,
    pub kernel_size: usize,
}

/// Convolves a prompt on the device, unless `RNB_METAL_PREFILL_CONV1D=0`.
pub fn metal_prefill_conv1d_silu_into_if_supported<'a, T, D: FnOnce(Conv1dRequest<'a>) -> T>(
    switch: Option<&str>,
    request: Conv1dRequest<'a>,
    device: D,
) -> (output: Option<T>)
    requires
        call_requires(device, (request,)),
    ensures
        ran(!set_to(switch, "0"@), request, device, output),
{
    let runs: bool = !env_is(switch, "0");
    run_where(runs, request, device)
}

/// Heads of the one size that the flash kernel has, in groups.
pub open spec fn flash_heads(num_heads: usize, num_kv_heads: usize, head_dim: usize) -> bool {
    &&& head_dim == 256
    &&& num_kv_heads != 0
    &&& num_heads % num_kv_heads == 0
}

fn has_flash_heads(num_heads: usize, num_kv_heads: usize, head_dim: usize) -> (yes: bool)
    ensures
        yes == flash_heads(num_heads, num_kv_heads, head_dim),
{
    head_dim == 256 && num_kv_heads != 0 && num_heads % num_kv_heads == 0
}

/// A prompt's attention over a half-precision cache.
#[derive(Debug, Clone, Copy, PartialEq, Eq)]
pub struct FlashRequest<'a> {
    pub q: &'a [u32],
    pub k_f16: &'a [u16],
    pub v_f16: &'a [u16],
    pub seq_len: usize,
    pub kv_len: usize,
    pub num_heads: usize,
    pub num_kv_heads: usize,
    pub head_dim: usize,
    pub scale: u32,
}

/// Runs a prompt's attention with the flash kernel: with
/// `RNB_METAL_PREFILL_FLASH_ATTN=1`, dense and without a soft cap.
pub fn metal_prefill_attention_flash_if_supported<
    'a,
    T,
    D: FnOnce(FlashRequest<'a>) -> Option<T>,
>(
    switch: Option<&str>,
    request: FlashRequest<'a>,
    has_sliding_window: bool,
    has_softcap: bool,
    device: D,
) -> (output: Option<T>)
    requires
        call_requires(device, (request,)),
    ensures
        offered_where(
            set_to(switch, "1"@) && !has_sliding_window && !has_softcap && flash_heads(
                request.num_heads,
                request.num_kv_heads,
                request.head_dim,
            ),
            request,
            device,
            output,
        ),
{
    let runs: bool = env_is(switch, "1") && !has_sliding_window && !has_softcap && has_flash_heads(
        request.num_heads,
        request.num_kv_heads,
        request.head_dim,
    );
    offer_where(runs, request, device)
}

/// A prompt's attention from its norms on.
#[derive(Debug, Clone, Copy, PartialEq, Eq)]
pub struct AttnChainRequest<'a> {
    pub q_in: &'a [u32],
    pub k_in: &'a [u32],
    pub v_in: &'a [u32],
    pub q_norm_w: &'a [u32],
    pub k_norm_w: &'a [u32],
    pub seq_len: usize,
    pub num_heads: usize,
    pub num_kv_heads: usize,
    pub head_dim: usize,
    pub n_rot: usize,
    pub theta: u32,
    pub eps: u32,
    pub pos_start: usize,
    pub scale: u32,
    pub layer_idx: usize,
    pub timing_enabled: bool,
}

/// Runs a prompt's attention from norm to output on the device, unless
/// `RNB_METAL_PREFILL_ATTN_CHAIN=0`: dense, without a soft cap, from the first token.
pub fn metal_prefill_attn_chain_if_supported<
    'a,
    T,
    D: FnOnce(AttnChainRequest<'a>) -> Option<T>,
>(
    switch: Option<&str>,
    request: AttnChainRequest<'a>,
    has_sliding_window: bool,
    has_softcap: bool,
    device: D,
) -> (output: Option<T>)
    requires
        call_requires(device, (request,)),
    ensures
        offered_where(
            !set_to(switch, "0"@) && !has_sliding_window && !has_softcap && request.pos_start == 0
                && flash_heads(request.num_heads, request.num_kv_heads, request.head_dim),
            request,
            device,
            output,
        ),
{
    let runs: bool = !env_is(switch, "0") && !has_sliding_window && !has_softcap
        && request.pos_start == 0 && has_flash_heads(
        request.num_heads,
        request.num_kv_heads,
        request.head_dim,
    );
    offer_where(runs, request, device)
}

/// What a gated norm works on.
#[derive(Debug, Clone, Copy, PartialEq, Eq)]
pub struct GatedNormRequest<'a> {
    pub output: &'a [u32],
    pub z: &'a [u32],
    pub norm: &'a [u32],
    pub rows: usize,
    pub cols: usize,
    pub norm_eps: u32,
}

/// Norms and gates a prompt on the device, unless `RNB_METAL_PREFILL_GATED_NORM=0`.
pub fn metal_prefill_gated_norm_silu_into_if_supported<
    'a,
    T,
    D: FnOnce(GatedNormRequest<'a>) -> T,
>(switch: Option<&str>, request: GatedNormRequest<'a>, device: D) -> (output: Option<T>)
    requires
        call_requires(device, (request,)),
    ensures
        ran(!set_to(switch, "0"@), request, device, output),
{
    let runs: bool = !env_is(switch, "0");
    run_where(runs, request, device)
}

/// A gated norm and the projection behind it.
#[derive(Debug, Clone, Copy, PartialEq, Eq)]
pub struct GatedProjectionRequest<'a> {
    pub output: &'a [u32],
    pub z: &'a [u32],
    pub norm: &'a [u32],
    pub weight_ggml: GGMLType,
    pub weight_raw: &'a [u8],
    pub seq_len: usize,
    pub head_v_dim: usize,
    pub n_out: usize,
    pub norm_eps: u32,
}

/// How the device reads this step, if it takes it.
pub open spec fn prefill_gated_norm_silu_project_reading(
    switch: Option<&str>,
    weight_ggml: GGMLType,
) -> Option<TensoropsQuant> {
    if set_to(switch, "0"@) {
        None
    } else {
        tensorops_quant(weight_ggml)
    }
}

fn reads_prefill_gated_norm_silu_project(
    switch: Option<&str>,
    weight_ggml: GGMLType,
) -> (quant: Option<TensoropsQuant>)
    ensures
        quant == prefill_gated_norm_silu_project_reading(switch, weight_ggml),
{
    if env_is(switch, "0") {
        return None;
    }
    tensorops_quant_from_ggml(weight_ggml)
}

/// Norms, gates and projects a prompt on the device, unless
/// `RNB_METAL_PREFILL_GATED_PROJ=0`.
pub fn metal_prefill_gated_norm_silu_project_into_if_supported<
    'a,
    T,
    D: FnOnce(TensoropsQuant, GatedProjectionRequest<'a>) -> T,
>(switch: Option<&str>, request: GatedProjectionRequest<'a>, device: D) -> (output: Option<T>)
    requires
        forall|reads: TensoropsQuant| call_requires(device, (reads, request)),
    ensures
        taken(
            prefill_gated_norm_silu_project_reading(switch, request.weight_ggml),
            request,
            device,
            output,
        ),
{
    let reads: Option<TensoropsQuant> = reads_prefill_gated_norm_silu_project(
        switch,
        request.weight_ggml,
    );
    hand_over(reads, request, device)
}

/// Floats that a chunk of the scan keeps in threadgroup memory: the corrections,
/// and two square tables.
pub open spec fn scan_floats(chunk: int, head_v_dim: int) -> int {
    2 * chunk * chunk + head_v_dim * chunk
}

/// The longest chunk of at most `limit` tokens whose floats fit in 31 KiB, or 1.
pub open spec fn longest_scan_chunk(head_v_dim: int, limit: nat) -> nat
    decreases limit,
{
    if limit <= 1 {
        1
    } else if scan_floats(limit as int, head_v_dim) <= 7936 {
        limit
    } else {
        longest_scan_chunk(head_v_dim, (limit - 1) as nat)
    }
}

/// The chunk length of the scan: `RNB_METAL_DELTA_SCAN_CHUNK` where it is a number
/// from 1 up, else the longest of up to 64 tokens that fits.
pub open spec fn scan_chunk(setting: Option<&str>, head_v_dim: usize) -> int {
    match setting {
        Some(text) => match parsed_usize(text@) {
            Some(chunk) if chunk >= 1 => chunk as int,
            _ => longest_scan_chunk(head_v_dim as int, 64) as int,
        },
        None => longest_scan_chunk(head_v_dim as int, 64) as int,
    }
}

/// Whether a chunk, with a kilobyte of fixed data, fits in 32 KiB.
pub open spec fn scan_fits(chunk: int, head_v_dim: int) -> bool {
    (scan_floats(chunk, head_v_dim) + 256) * 4 <= 32 * 1024
}

proof fn lemma_scan_floats_grow(a: int, b: int, head_v_dim: int)
    requires
        0 <= a <= b,
        0 <= head_v_dim,
    ensures
        0 <= scan_floats(a, head_v_dim) <= scan_floats(b, head_v_dim),
{
    assert(2 * a * a <= 2 * b * b && 0 <= 2 * a * a) by (nonlinear_arith)
        requires
            0 <= a <= b,
    ;
    assert(0 <= head_v_dim * a <= head_v_dim * b) by (nonlinear_arith)
        requires
            0 <= a <= b,
            0 <= head_v_dim,
    ;
}

/// Picks the chunk length of the scan.
pub fn pick_delta_scan_chunk_size(setting: Option<&str>, head_v_dim: usize) -> (chunk: usize)
    ensures
        chunk == scan_chunk(setting, head_v_dim),
        chunk >= 1,
{
    if let Some(text) = setting {
        let chars = chars_of(text);
        assert(chars@.subrange(0, chars@.len() as int) =~= text@);
        if let Some(chunk) = parse_usize(&chars, 0, chars.len()) {
            if chunk >= 1 {
                return chunk;
            }
        }
    }
    find_longest_scan_chunk(head_v_dim)
}

fn find_longest_scan_chunk(head_v_dim: usize) -> (chunk: usize)
    ensures
        chunk == longest_scan_chunk(head_v_dim as int, 64),
        1 <= chunk <= 64,
{
    let mut chunk: usize = 64;
    while chunk > 1
        invariant
            1 <= chunk <= 64,
            longest_scan_chunk(head_v_dim as int, 64) == longest_scan_chunk(
                head_v_dim as int,
                chunk as nat,
            ),
        decreases chunk,
    {
        let fits: bool = if head_v_dim > 7936 {
            proof {
                assert(head_v_dim * chunk >= head_v_dim) by (nonlinear_arith)
                    requires
                        chunk >= 1,
                        head_v_dim >= 0,
                ;
                lemma_scan_floats_grow(0, chunk as int, 0);
                assert(2 * chunk * chunk >= 0);
            }
            false
        } else {
            proof {
                assert(head_v_dim * chunk <= 7936 * 64 && 2 * chunk * chunk <= 2 * 64 * 64)
                    by (nonlinear_arith)
                    requires
                        1 <= chunk <= 64,
                        head_v_dim <= 7936,
                ;
            }
            2 * chunk * chunk + head_v_dim * chunk <= 7936
        };
        if fits {
            return chunk;
        }
        chunk -= 1;
    }
    chunk
}

fn scan_chunk_fits(chunk: usize, head_v_dim: usize) -> (fits: bool)
    requires
        chunk >= 1,
    ensures
        fits == scan_fits(chunk as int, head_v_dim as int),
{
    if chunk > 90 || head_v_dim > 8192 {
        proof {
            if chunk > 90 {
                lemma_scan_floats_grow(91, chunk as int, head_v_dim as int);
                lemma_scan_floats_grow(0, 91, 0);
                assert(head_v_dim * 91 >= 0);
            } else {
                lemma_scan_floats_grow(1, chunk as int, head_v_dim as int);
            }
        }
        return false;
    }
    proof {
        assert(head_v_dim * chunk <= 8192 * 90 && 2 * chunk * chunk <= 2 * 90 * 90) by (nonlinear_arith)
            requires
                1 <= chunk <= 90,
                head_v_dim <= 8192,
        ;
        assert(chunk * head_v_dim == head_v_dim * chunk) by (nonlinear_arith);
    }
    (chunk * head_v_dim + 2 * chunk * chunk + 256) * 4 <= 32 * 1024
}

/// How the device reads this step, if it takes it.
pub open spec fn prefill_gdn_conv_delta_chain_reading(
    switch: Option<&str>,
    scan_setting: Option<&str>,
    head_v_dim: usize,
) -> Option<usize> {
    if !set_to(switch, "0"@) && scan_fits(
        scan_chunk(scan_setting, head_v_dim),
        head_v_dim as int,
    ) {
        Some(scan_chunk(scan_setting, head_v_dim) as usize)
    } else {
        None
    }
}

fn reads_prefill_gdn_conv_delta_chain(
    switch: Option<&str>,
    scan_setting: Option<&str>,
    head_v_dim: usize,
) -> (chunk: Option<usize>)
    ensures
        chunk == prefill_gdn_conv_delta_chain_reading(switch, scan_setting, head_v_dim),
{
    if env_is(switch, "0") {
        return None;
    }
    let chunk: usize = pick_delta_scan_chunk_size(scan_setting, head_v_dim);
    if !scan_chunk_fits(chunk, head_v_dim) {
        return None;
    }
    Some(chunk)
}

/// A delta net's convolution and scan.
#[derive(Debug, Clone, Copy, PartialEq, Eq)]
pub struct ConvDeltaRequest<'a> {
    pub conv_input: &'a [u32],
    pub conv_weight: &'a [u32],
    pub gate: &'a [u32],
    pub beta: &'a [u32],
    pub state: &'a [u32],
    pub seq_len: usize,
    pub conv_channels: usize,
    pub conv_kernel: usize,
    pub num_k_heads: usize,
    pub num_v_heads: usize,
    pub head_k_dim: usize,
    pub head_v_dim: usize,
    pub norm_eps: u32,
}

/// Runs a delta net's convolution and scan on the device, unless
/// `RNB_METAL_PREFILL_GDN_CONV_DELTA=0` or a chunk does not fit. The device is told the
/// chunk length.
pub fn metal_prefill_gdn_conv_delta_chain_into_if_supported<
    'a,
    T,
    D: FnOnce(usize, ConvDeltaRequest<'a>) -> T,
>(
    switch: Option<&str>,
    scan_setting: Option<&str>,
    request: ConvDeltaRequest<'a>,
    device: D,
) -> (output: Option<T>)
    requires
        forall|reads: usize| call_requires(device, (reads, request)),
    ensures
        taken(
            prefill_gdn_conv_delta_chain_reading(switch, scan_setting, request.head_v_dim),
            request,
            device,
            output,
        ),
{
    let reads: Option<usize> = reads_prefill_gdn_conv_delta_chain(
        switch,
        scan_setting,
        request.head_v_dim,
    );
    hand_over(reads, request, device)
}

/// A delta net up to its output projection.
#[derive(Debug, Clone, Copy, PartialEq, Eq)]
pub struct GdnFullRequest<'a> {
    pub conv_delta: ConvDeltaRequest<'a>,
    pub z: &'a [u32],
    pub ssm_norm: &'a [u32],
    pub ssm_out_ggml: GGMLType,
    pub ssm_out_raw: &'a [u8],
    pub n_out: usize,
}

/// How the device reads this step, if it takes it.
pub open spec fn prefill_gdn_full_chain_reading(
    switch: Option<&str>,
    scan_setting: Option<&str>,
    ssm_out_ggml: GGMLType,
    head_v_dim: usize,
) -> Option<(TensoropsQuant, usize)> {
    if !set_to(switch, "0"@) && tensorops_quant(ssm_out_ggml) is Some && scan_fits(
        scan_chunk(scan_setting, head_v_dim),
        head_v_dim as int,
    ) {
        Some(
            (
                tensorops_quant(ssm_out_ggml)->0,
                scan_chunk(scan_setting, head_v_dim) as usize,
            ),
        )
    } else {
        None
    }
}

fn reads_prefill_gdn_full_chain(
    switch: Option<&str>,
    scan_setting: Option<&str>,
    ssm_out_ggml: GGMLType,
    head_v_dim: usize,
) -> (runs: Option<(TensoropsQuant, usize)>)
    ensures
        runs == prefill_gdn_full_chain_reading(switch, scan_setting, ssm_out_ggml, head_v_dim),
{
    if env_is(switch, "0") {
        return None;
    }
    let quant = tensorops_quant_from_ggml(ssm_out_ggml)?;
    let chunk: usize = pick_delta_scan_chunk_size(scan_setting, head_v_dim);
    if !scan_chunk_fits(chunk, head_v_dim) {
        return None;
    }
    Some((quant, chunk))
}

/// Runs a delta net up to its output projection on the device, unless
/// `RNB_METAL_PREFILL_GDN_FULL=0` or a chunk does not fit.
pub fn metal_prefill_gdn_full_chain_into_if_supported<
    'a,
    T,
    D: FnOnce((TensoropsQuant, usize), GdnFullRequest<'a>) -> T,
>(
    switch: Option<&str>,
    scan_setting: Option<&str>,
    request: GdnFullRequest<'a>,
    device: D,
) -> (output: Option<T>)
    requires
        forall|reads: (TensoropsQuant, usize)| call_requires(device, (reads, request)),
    ensures
        taken(
            prefill_gdn_full_chain_reading(
                switch,
                scan_setting,
                request.ssm_out_ggml,
                request.conv_delta.head_v_dim,
            ),
            request,
            device,
            output,
        ),
{
    let reads: Option<(TensoropsQuant, usize)> = reads_prefill_gdn_full_chain(
        switch,
        scan_setting,
        request.ssm_out_ggml,
        request.conv_delta.head_v_dim,
    );
    hand_over(reads, request, device)
}

/// A delta net with its feed-forward block.
#[derive(Debug, Clone, Copy, PartialEq, Eq)]
pub struct GdnFullFfnRequest<'a> {
    pub hidden: &'a [u32],
    pub conv_delta: ConvDeltaRequest<'a>,
    pub z: &'a [u32],
    pub ssm_norm: &'a [u32],
    pub ssm_out_ggml: GGMLType,
    pub ssm_out_raw: &'a [u8],
    pub post_norm_w: &'a [u32],
    pub ffn: FfnWeights<'a>,
    pub hidden_dim: usize,
    pub ffn_dim: usize,
}

/// How the device runs a delta net with its feed-forward block.
#[derive(Debug, Clone, Copy, PartialEq, Eq, Structural)]
pub struct GdnFullFfnRun {
    pub ssm_out: TensoropsQuant,
    pub ffn_down_is_q6k: bool,
    pub chunk_size: usize,
}

/// How the device reads this step, if it takes it.
pub open spec fn prefill_gdn_full_ffn_chain_reading(
    full_ffn: Option<&str>,
    full: Option<&str>,
    scan_setting: Option<&str>,
    request: GdnFullFfnRequest<'_>,
) -> Option<GdnFullFfnRun> {
    let head_v_dim = request.conv_delta.head_v_dim;
    if unless_falsey(full_ffn, true) && !set_to(full, "0"@) && tensorops_quant(
        request.ssm_out_ggml,
    ) is Some && request.ffn.formats.down_is_q6k() is Some && scan_fits(
        scan_chunk(scan_setting, head_v_dim),
        head_v_dim as int,
    ) {
        Some(
            GdnFullFfnRun {
                ssm_out: tensorops_quant(request.ssm_out_ggml)->0,
                ffn_down_is_q6k: request.ffn.formats.down_is_q6k()->0,
                chunk_size: scan_chunk(scan_setting, head_v_dim) as usize,
            },
        )
    } else {
        None
    }
}

fn reads_prefill_gdn_full_ffn_chain(
    full_ffn: Option<&str>,
    full: Option<&str>,
    scan_setting: Option<&str>,
    request: &GdnFullFfnRequest<'_>,
) -> (runs: Option<GdnFullFfnRun>)
    ensures
        runs == prefill_gdn_full_ffn_chain_reading(full_ffn, full, scan_setting, *request),
{
    if !metal_prefill_gdn_full_ffn_enabled(full_ffn) {
        return None;
    }
    if env_is(full, "0") {
        return None;
    }
    let ssm_out = tensorops_quant_from_ggml(request.ssm_out_ggml)?;
    let ffn = request.ffn.formats;
    if ffn.gate != GGMLType::Q4_K || ffn.up != GGMLType::Q4_K {
        return None;
    }
    let ffn_down_is_q6k = is_q6k_of_q4k_or_q6k(ffn.down)?;
    let head_v_dim: usize = request.conv_delta.head_v_dim;
    let chunk_size: usize = pick_delta_scan_chunk_size(scan_setting, head_v_dim);
    if !scan_chunk_fits(chunk_size, head_v_dim) {
        return None;
    }
    Some(GdnFullFfnRun { ssm_out, ffn_down_is_q6k, chunk_size })
}

/// Runs a delta net with its feed-forward block on the device, unless
/// `RNB_METAL_PREFILL_GDN_FULL_FFN` is falsey or `RNB_METAL_PREFILL_GDN_FULL=0`.
pub fn metal_prefill_gdn_full_ffn_chain_into_if_supported<
    'a,
    T,
    D: FnOnce(GdnFullFfnRun, GdnFullFfnRequest<'a>) -> Option<T>,
>(
    full_ffn: Option<&str>,
    full: Option<&str>,
    scan_setting: Option<&str>,
    request: GdnFullFfnRequest<'a>,
    device: D,
) -> (output: Option<T>)
    requires
        forall|reads: GdnFullFfnRun| call_requires(device, (reads, request)),
    ensures
        offered(
            prefill_gdn_full_ffn_chain_reading(full_ffn, full, scan_setting, request),
            request,
            device,
            output,
        ),
{
    let reads: Option<GdnFullFfnRun> = reads_prefill_gdn_full_ffn_chain(
        full_ffn,
        full,
        scan_setting,
        &request,
    );
    offer(reads, request, device)
}

/// How the device reads this step, if it takes it.
pub open spec fn prefill_delta_net_scan_reading(
    switch: Option<&str>,
    scan_setting: Option<&str>,
    head_v_dim: usize,
) -> Option<usize> {
    if !set_to(switch, "0"@) && scan_fits(
        scan_chunk(scan_setting, head_v_dim),
        head_v_dim as int,
    ) {
        Some(scan_chunk(scan_setting, head_v_dim) as usize)
    } else {
        None
    }
}

fn reads_prefill_delta_net_scan(
    switch: Option<&str>,
    scan_setting: Option<&str>,
    head_v_dim: usize,
) -> (chunk: Option<usize>)
    ensures
        chunk == prefill_delta_net_scan_reading(switch, scan_setting, head_v_dim),
{
    if env_is(switch, "0") {
        return None;
    }
    let chunk: usize = pick_delta_scan_chunk_size(scan_setting, head_v_dim);
    if !scan_chunk_fits(chunk, head_v_dim) {
        return None;
    }
    Some(chunk)
}

/// A delta net's scan.
#[derive(Debug, Clone, Copy, PartialEq, Eq)]
pub struct ScanRequest<'a> {
    pub q: &'a [u32],
    pub k: &'a [u32],
    pub v: &'a [u32],
    pub gate: &'a [u32],
    pub beta: &'a [u32],
    pub seq_len: usize,
    pub num_heads: usize,
    pub head_k_dim: usize,
    pub head_v_dim: usize,
}

/// The device takes a scan from a state, if there is a way to read it, and gives back as
/// much output and state as the host has room for.
pub open spec fn scans<'a, D: FnOnce(usize, ScanRequest<'a>, &Vec<u32>) -> (Vec<u32>, Vec<u32>)>(
    reads: Option<usize>,
    request: ScanRequest<'a>,
    device: D,
    state: Vec<u32>,
    out: Vec<u32>,
) -> bool {
    reads is Some ==> {
        &&& call_requires(device, (reads->0, request, &state))
        &&& forall|output: Vec<u32>, new_state: Vec<u32>| #[trigger]
            call_ensures(device, (reads->0, request, &state), (output, new_state))
                ==> output@.len() == out@.len() && new_state@.len() == state@.len()
    }
}

/// Runs a delta net's scan on the device, unless `RNB_METAL_PREFILL_GDN_SCAN=0` or a
/// chunk does not fit. The device is told the chunk length; its output and the state
/// after the scan take the place of what was there.
pub fn metal_prefill_delta_net_scan_into_if_supported<
    'a,
    D: FnOnce(usize, ScanRequest<'a>, &Vec<u32>) -> (Vec<u32>, Vec<u32>),
>(
    switch: Option<&str>,
    scan_setting: Option<&str>,
    request: ScanRequest<'a>,
    state: &mut Vec<u32>,
    out: &mut Vec<u32>,
    device: D,
) -> (done: bool)
    requires
        scans(
            prefill_delta_net_scan_reading(switch, scan_setting, request.head_v_dim),
            request,
            device,
            *old(state),
            *old(out),
        ),
    ensures
        match prefill_delta_net_scan_reading(switch, scan_setting, request.head_v_dim) {
            Some(chunk) => done && call_ensures(
                device,
                (chunk, request, &*old(state)),
                (*final(out), *final(state)),
            ),
            None => !done && *final(out) == *old(out) && *final(state) == *old(state),
        },
{
    let reads: Option<usize> = reads_prefill_delta_net_scan(
        switch,
        scan_setting,
        request.head_v_dim,
    );
    match reads {
        Some(chunk) => {
            let (output, new_state) = device(chunk, request, &*state);
            *out = output;
            *state = new_state;
            true
        },
        None => false,
    }
}

/// Without a setting the chunk is the longest of up to 64 tokens whose floats fit in
/// 31 KiB, and 1 where not even two tokens fit; what fits there fits in the 32 KiB
/// of the check, unless a single token is too much.
pub proof fn law_scan_chunk_is_longest(head_v_dim: usize, chunk: int)
    ensures
        1 <= scan_chunk(None, head_v_dim) <= 64,
        scan_chunk(None, head_v_dim) < chunk <= 64 ==> scan_floats(chunk, head_v_dim as int)
            > 7936,
        scan_chunk(None, head_v_dim) > 1 ==> scan_floats(
            scan_chunk(None, head_v_dim),
            head_v_dim as int,
        ) <= 7936,
        scan_floats(1, head_v_dim as int) <= 7936 ==> scan_fits(
            scan_chunk(None, head_v_dim),
            head_v_dim as int,
        ),
{
    lemma_longest_scan_chunk(head_v_dim as int, 64);
}

proof fn lemma_longest_scan_chunk(head_v_dim: int, limit: nat)
    ensures
        1 <= longest_scan_chunk(head_v_dim, limit),
        limit >= 1 ==> longest_scan_chunk(head_v_dim, limit) <= limit,
        longest_scan_chunk(head_v_dim, limit) > 1 ==> scan_floats(
            longest_scan_chunk(head_v_dim, limit) as int,
            head_v_dim,
        ) <= 7936,
        forall|c: int|
            longest_scan_chunk(head_v_dim, limit) < c <= limit ==> #[trigger] scan_floats(
                c,
                head_v_dim,
            ) > 7936,
    decreases limit,
{
    if limit > 1 && scan_floats(limit as int, head_v_dim) > 7936 {
        lemma_longest_scan_chunk(head_v_dim, (limit - 1) as nat);
    }
}

/// Two projections of a prompt run together in their own formats unless they are switched
/// off, or in plain floats where that is asked for and both hold all their floats; and only
/// on an activation for each token.
pub proof fn law_how_two_projections_run_together(
    inproj: Option<&str>,
    f32_dual: Option<&str>,
    r: DualProjectionRequest<'_>,
)
    ensures
        ({
            let run = dual_projection(inproj, f32_dual, r);
            let states = r.normed@.len() == r.seq_len * r.hidden_dim;
            let left = r.left_ggml is Q4_K || r.left_ggml is Q5_K || r.left_ggml is Q6_K;
            let right = r.right_ggml is Q4_K || r.right_ggml is Q5_K || r.right_ggml is Q6_K;
            let floats = r.left_ggml is F32 && r.right_ggml is F32 && r.left_raw@.len() >= 4 * (
            r.n_out * r.hidden_dim) && r.right_raw@.len() >= 4 * (r.n_out * r.hidden_dim);
            &&& run is Some <==> states && (left && right && !(inproj is Some && inproj->0@
                == "0"@) || floats && switched_on(f32_dual))
            &&& run matches Some(DualProjection::Quant { left: l, right: r2 }) ==> {
                &&& left && right
                &&& l is Q4K <==> r.left_ggml is Q4_K
                &&& l is Q5K <==> r.left_ggml is Q5_K
                &&& l is Q6K <==> r.left_ggml is Q6_K
                &&& r2 is Q4K <==> r.right_ggml is Q4_K
                &&& r2 is Q5K <==> r.right_ggml is Q5_K
                &&& r2 is Q6K <==> r.right_ggml is Q6_K
            }
            &&& run == Some(DualProjection::F32) ==> floats
        }),
{
    assert(r.n_out * r.hidden_dim * 4 == 4 * (r.n_out * r.hidden_dim)) by (nonlinear_arith);
}

/// A projection of a prompt is read in its own format, with its own trace, unless it is
/// switched off; so is the one behind a gated norm.
pub proof fn law_prompt_projections_are_read_as_themselves(
    off: Option<&str>,
    t: GGMLType,
    trace: Option<MetalPrefillProjTrace>,
)
    ensures
        ({
            let on = !(off is Some && off->0@ == "0"@);
            let read = t is Q4_K || t is Q5_K || t is Q6_K;
            &&& projection_reads(off, t, trace) is Some <==> on && read
            &&& projection_reads(off, t, trace) matches Some(reads) ==> reads.1 == trace && {
                &&& reads.0 is Q4K <==> t is Q4_K
                &&& reads.0 is Q5K <==> t is Q5_K
                &&& reads.0 is Q6K <==> t is Q6_K
            }
            &&& prefill_gated_norm_silu_project_reading(off, t) is Some <==> on && read
            &&& prefill_gated_norm_silu_project_reading(off, t) matches Some(quant) ==> {
                &&& quant is Q4K <==> t is Q4_K
                &&& quant is Q5K <==> t is Q5_K
                &&& quant is Q6K <==> t is Q6_K
            }
        }),
{
}

/// The flash kernel takes heads of 256 dimensions in groups of one size.
pub proof fn law_flash_heads_form_equal_groups(heads: usize, kv_heads: usize, head_dim: usize)
    ensures
        flash_heads(heads, kv_heads, head_dim) <==> head_dim == 256 && kv_heads > 0 && heads
            % kv_heads == 0,
        flash_heads(heads, kv_heads, head_dim) ==> heads_fit(heads, kv_heads, head_dim),
{
}

/// A chunk of the scan keeps a correction for each token and value dimension and two square
/// tables; with a kilobyte beside them, four bytes each fit in 32 KiB.
pub proof fn law_a_scan_chunk_holds_its_tables(chunk: int, head_v_dim: int)
    ensures
        scan_floats(chunk, head_v_dim) == chunk * head_v_dim + chunk * chunk + chunk * chunk,
        scan_fits(chunk, head_v_dim) <==> 4 * (chunk * head_v_dim + 2 * (chunk * chunk)) + 1024
            <= 32768,
{
    assert(2 * chunk * chunk == chunk * chunk + chunk * chunk) by (nonlinear_arith);
    assert(head_v_dim * chunk == chunk * head_v_dim) by (nonlinear_arith);
}

/// The chunk length is the one that is set, where that is a number from 1 up; any other
/// setting is as none at all.
pub proof fn law_the_chunk_length_is_the_one_that_is_set(text: &str, head_v_dim: usize)
    ensures
        parsed_usize(text@) is Some && parsed_usize(text@)->0 >= 1 ==> scan_chunk(
            Some(text),
            head_v_dim,
        ) == parsed_usize(text@)->0,
        parsed_usize(text@) is None || parsed_usize(text@)->0 == 0 ==> scan_chunk(
            Some(text),
            head_v_dim,
        ) == scan_chunk(None, head_v_dim),
{
}

/// A delta net of a prompt is taken where it is not switched off, its chunk fits and its
/// weights are read; it is run with that chunk, each weight in its own format.
pub proof fn law_which_prompt_delta_nets_are_taken(
    off: Option<&str>,
    full_ffn: Option<&str>,
    setting: Option<&str>,
    t: GGMLType,
    head_v_dim: usize,
    r: GdnFullFfnRequest<'_>,
)
    ensures
        ({
            let on = !(off is Some && off->0@ == "0"@);
            let chunk = scan_chunk(setting, head_v_dim);
            let fits = scan_fits(chunk, head_v_dim as int);
            let read = t is Q4_K || t is Q5_K || t is Q6_K;
            let conv = prefill_gdn_conv_delta_chain_reading(off, setting, head_v_dim);
            let scan = prefill_delta_net_scan_reading(off, setting, head_v_dim);
            let full = prefill_gdn_full_chain_reading(off, setting, t, head_v_dim);
            &&& conv is Some <==> on && fits
            &&& scan is Some <==> on && fits
            &&& full is Some <==> on && fits && read
            &&& conv matches Some(used) ==> used == chunk
            &&& scan matches Some(used) ==> used == chunk
            &&& full matches Some(used) ==> {
                &&& used.1 == chunk
                &&& used.0 is Q4K <==> t is Q4_K
                &&& used.0 is Q5K <==> t is Q5_K
                &&& used.0 is Q6K <==> t is Q6_K
            }
        }),
        ({
            let on = !(off is Some && off->0@ == "0"@) && !switched_off(full_ffn);
            let chunk = scan_chunk(setting, r.conv_delta.head_v_dim);
            let out = r.ssm_out_ggml;
            let read = out is Q4_K || out is Q5_K || out is Q6_K;
            let formats = r.ffn.formats;
            let block = formats.gate is Q4_K && formats.up is Q4_K && (formats.down is Q4_K
                || formats.down is Q6_K);
            let run = prefill_gdn_full_ffn_chain_reading(full_ffn, off, setting, r);
            &&& run is Some <==> on && read && block && scan_fits(
                chunk,
                r.conv_delta.head_v_dim as int,
            )
            &&& run matches Some(used) ==> {
                &&& used.chunk_size == chunk
                &&& used.ffn_down_is_q6k == (formats.down is Q6_K)
                &&& used.ssm_out is Q4K <==> out is Q4_K
                &&& used.ssm_out is Q5K <==> out is Q5_K
                &&& used.ssm_out is Q6K <==> out is Q6_K
            }
        }),
{
    lemma_longest_scan_chunk(head_v_dim as int, 64);
    lemma_longest_scan_chunk(r.conv_delta.head_v_dim as int, 64);
}

} // verus!
