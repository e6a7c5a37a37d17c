//! When the device takes a decode or prefill step, how it reads it, and what it is handed.
//!
//! Each function takes the switches and the step with its tensors, and hands the step to
//! the device with what it is to be read by, if the device takes it; `None` or `false`
//! leaves the step to the caller's own path. Floats are their bits, as are halves.

use crate::arith::is_product;
use crate::metal_inference::counters::{
    metal_decode_parity_record_output_argmax, MetalDecodeParityCounters, MetalOutputArgmaxReport,
};
use crate::metal_inference::device::{
    fill_over, fill_where, filled, filled_where, fills, fills_where, overlaid, overlay, rewrites,
    rewrites_where, write_over, write_where, written, wrote, Buffers,
};
use crate::metal_inference::decode_chain::{
    gdn_code, gdn_ffn_codes, gdn_projection_codes, heads_fit, heads_supported, moe_down_code,
    projection_codes, FfnQuantCodes, GdnQuantCodes, ffn_codes,
};
use crate::metal_inference::switches::{
    metal_qwen_moe_expert_batch_enabled, metal_qwen_moe_prefill_route_topk_requested,
    metal_qwen_moe_prefill_router_requested, set_or_at_least,
};
use crate::policy::{env_is, set_to, switched_off, unless_falsey};
use crate::quant::{is_q6k_of_q4k_or_q6k, q4k_or_q6k, GGMLType};
use crate::text::{decimal, lemma_says, lemma_says_more, push_decimal, says};
use vstd::prelude::*;

verus! {

/// A weight and what it is applied to.
#[derive(Debug, Clone, Copy, PartialEq, Eq)]
pub struct GemvRequest<'a> {
    pub ggml_type: GGMLType,
    pub raw: &'a [u8],
    pub rows: usize,
    pub cols: usize,
    pub input: &'a [u32],
}

/// How the device reads this step, if it takes it.
pub open spec fn decode_gemv_reading(
    decode: Option<&str>,
    simd_gemv: Option<&str>,
    ggml_type: GGMLType,
) -> Option<bool> {
    if set_to(decode, "1"@) && ggml_type == GGMLType::Q4_K {
        Some(set_to(simd_gemv, "1"@))
    } else {
        None
    }
}

fn reads_decode_gemv(
    decode: Option<&str>,
    simd_gemv: Option<&str>,
    ggml_type: GGMLType,
) -> (use_simd: Option<bool>)
    ensures
        use_simd == decode_gemv_reading(decode, simd_gemv, ggml_type),
{
    if !env_is(decode, "1") {
        return None;
    }
    if ggml_type != GGMLType::Q4_K {
        return None;
    }
    Some(env_is(simd_gemv, "1"))
}

/// Runs a decode projection on the device: with `RNB_METAL_DECODE=1` and a Q4_K
/// weight. The device is told whether to use its cooperative kernel
/// (`RNB_METAL_SIMD_GEMV=1`).
pub fn decode_gemv_into_if_supported<'a, D: FnOnce(bool, GemvRequest<'a>) -> Vec<u32>>(
    decode: Option<&str>,
    simd_gemv: Option<&str>,
    request: GemvRequest<'a>,
    output: &mut Vec<u32>,
    device: D,
) -> (done: bool)
    requires
        fills(
            decode_gemv_reading(decode, simd_gemv, request.ggml_type),
            request,
            device,
            *old(output),
        ),
    ensures
        filled(
            decode_gemv_reading(decode, simd_gemv, request.ggml_type),
            request,
            device,
            *old(output),
            *final(output),
            done,
        ),
{
    let reads: Option<bool> = reads_decode_gemv(decode, simd_gemv, request.ggml_type);
    fill_over(reads, request, output, device)
}

/// How the device reads this step, if it takes it.
pub open spec fn output_argmax_token_reading(
    switch: Option<&str>,
    request: GemvRequest<'_>,
) -> Option<bool> {
    if set_to(switch, "1"@) && request.input@.len() == request.cols && request.rows != 0 {
        q4k_or_q6k(request.ggml_type)
    } else {
        None
    }
}

fn reads_output_argmax_token(switch: Option<&str>, request: &GemvRequest<'_>) -> (is_q6k: Option<
    bool,
>)
    ensures
        is_q6k == output_argmax_token_reading(switch, *request),
{
    if !env_is(switch, "1") {
        return None;
    }
    if request.input.len() != request.cols || request.rows == 0 {
        return None;
    }
    is_q6k_of_q4k_or_q6k(request.ggml_type)
}

/// Looks for the best output token on the device, and counts what the device did: with
/// `RNB_METAL_OUTPUT_ARGMAX=1` and a Q4_K or Q6_K projection of the right width. The
/// device is told whether it is Q6_K.
pub fn metal_output_argmax_token_if_supported<
    'a,
    D: FnOnce(bool, GemvRequest<'a>) -> MetalOutputArgmaxReport,
>(
    counters: &mut MetalDecodeParityCounters,
    switch: Option<&str>,
    request: GemvRequest<'a>,
    device: D,
) -> (token: Option<u32>)
    requires
        forall|is_q6k: bool| call_requires(device, (is_q6k, request)),
        forall|is_q6k: bool, report: MetalOutputArgmaxReport|
            output_argmax_token_reading(switch, request) == Some(is_q6k) && #[trigger] call_ensures(
                device,
                (is_q6k, request),
                report,
            ) ==> old(counters).room_for_argmax(report),
    ensures
        match output_argmax_token_reading(switch, request) {
            Some(is_q6k) => exists|report: MetalOutputArgmaxReport| #[trigger]
                call_ensures(device, (is_q6k, request), report) && token == report.token_id
                    && *final(counters) == old(counters).after_argmax(report),
            None => token is None && *final(counters) == *old(counters),
        },
{
    let is_q6k: bool = match reads_output_argmax_token(switch, &request) {
        Some(is_q6k) => is_q6k,
        None => return None,
    };
    let report: MetalOutputArgmaxReport = device(is_q6k, request);
    metal_decode_parity_record_output_argmax(counters, report);
    report.token_id
}

/// An attention's output projection, which is added to the hidden state.
#[derive(Debug, Clone, Copy, PartialEq, Eq)]
pub struct OutputChainRequest<'a> {
    pub o_ggml: GGMLType,
    pub attn_out: &'a [u32],
    pub o_raw: &'a [u8],
    pub hidden_dim: usize,
    pub q_dim: usize,
}

/// Whether the device takes an attention's output projection.
pub open spec fn o_chain_taken(switch: Option<&str>, request: OutputChainRequest<'_>) -> bool {
    set_to(switch, "1"@) && request.o_ggml == GGMLType::Q4_K
}

/// Runs an attention's output projection on the device: with
/// `RNB_METAL_O_CHAIN=1` and a Q4_K weight.
pub fn metal_attention_o_chain_into_if_supported<
    'a,
    D: FnOnce(OutputChainRequest<'a>, &Vec<u32>) -> Vec<u32>,
>(
    switch: Option<&str>,
    request: OutputChainRequest<'a>,
    hidden: &mut Vec<u32>,
    device: D,
) -> (done: bool)
    requires
        rewrites_where(o_chain_taken(switch, request), request, device, *old(hidden)),
    ensures
        wrote(
            o_chain_taken(switch, request),
            request,
            device,
            *old(hidden),
            *final(hidden),
            done,
        ),
{
    let runs: bool = env_is(switch, "1") && request.o_ggml == GGMLType::Q4_K;
    write_where(runs, request, hidden, device)
}

/// A token's attention.
#[derive(Debug, Clone, Copy, PartialEq, Eq)]
pub struct AttnDecodeRequest<'a> {
    pub q: &'a [u32],
    pub k_cache: &'a [u16],
    pub v_cache: &'a [u16],
    pub num_heads: usize,
    pub num_kv_heads: usize,
    pub head_dim: usize,
    pub kv_len: usize,
    pub scale: u32,
}

/// Whether the device takes a token's attention: neither sliding windows nor soft caps,
/// and heads that the kernel can hold.
pub open spec fn attn_decode_taken(
    switch: Option<&str>,
    request: AttnDecodeRequest<'_>,
    sliding_window: Option<usize>,
    has_softcap: bool,
) -> bool {
    set_to(switch, "1"@) && sliding_window is None && !has_softcap && heads_fit(
        request.num_heads,
        request.num_kv_heads,
        request.head_dim,
    )
}

fn takes_attn_decode(
    switch: Option<&str>,
    request: &AttnDecodeRequest<'_>,
    sliding_window: Option<usize>,
    has_softcap: bool,
) -> (runs: bool)
    ensures
        runs == attn_decode_taken(switch, *request, sliding_window, has_softcap),
{
    env_is(switch, "1") && sliding_window.is_none() && !has_softcap && heads_supported(
        request.num_heads,
        request.num_kv_heads,
        request.head_dim,
    )
}

/// Runs a token's attention on the device (`RNB_METAL_ATTN_COMPUTE=1`). What comes back
/// lies over the start of `attn_out`.
pub fn metal_attn_decode_into_if_supported<'a, D: FnOnce(AttnDecodeRequest<'a>) -> Vec<u32>>(
    switch: Option<&str>,
    request: AttnDecodeRequest<'a>,
    attn_out: &mut Vec<u32>,
    sliding_window: Option<usize>,
    has_softcap: bool,
    device: D,
) -> (done: bool)
    requires
        attn_decode_taken(switch, request, sliding_window, has_softcap) ==> {
            &&& call_requires(device, (request,))
            &&& forall|reply: Vec<u32>| #[trigger]
                call_ensures(device, (request,), reply) ==> reply@.len() <= old(attn_out)@.len()
        },
    ensures
        if attn_decode_taken(switch, request, sliding_window, has_softcap) {
            done && exists|reply: Vec<u32>| #[trigger]
                call_ensures(device, (request,), reply) && final(attn_out)@ == overlaid(
                    old(attn_out)@,
                    reply@,
                )
        } else {
            !done && *final(attn_out) == *old(attn_out)
        },
{
    if !takes_attn_decode(switch, &request, sliding_window, has_softcap) {
        return false;
    }
    let reply: Vec<u32> = device(request);
    overlay(attn_out, &reply);
    true
}

/// A token's attention against keys and values that stay on the device.
#[derive(Debug, Clone, Copy, PartialEq, Eq)]
pub struct ResidentAttnRequest<'a> {
    pub layer: usize,
    pub attention: AttnDecodeRequest<'a>,
    pub capacity: usize,
}

/// Runs a token's attention against keys and values that stay on the device
/// (`RNB_METAL_ATTN_RESIDENT=1`). What comes back lies over the start of `attn_out`; the
/// device may decline.
pub fn metal_attn_decode_kv_resident_into_if_supported<
    'a,
    D: FnOnce(ResidentAttnRequest<'a>) -> Option<Vec<u32>>,
>(
    switch: Option<&str>,
    request: ResidentAttnRequest<'a>,
    attn_out: &mut Vec<u32>,
    sliding_window: Option<usize>,
    has_softcap: bool,
    device: D,
) -> (done: bool)
    requires
        attn_decode_taken(switch, request.attention, sliding_window, has_softcap) ==> {
            &&& call_requires(device, (request,))
            &&& forall|reply: Vec<u32>| #[trigger]
                call_ensures(device, (request,), Some(reply)) ==> reply@.len() <= old(
                    attn_out,
                )@.len()
        },
    ensures
        if attn_decode_taken(switch, request.attention, sliding_window, has_softcap) {
            exists|reply: Option<Vec<u32>>| #[trigger]
                call_ensures(device, (request,), reply) && match reply {
                    Some(attended) => done && final(attn_out)@ == overlaid(
                        old(attn_out)@,
                        attended@,
                    ),
                    None => !done && *final(attn_out) == *old(attn_out),
                }
        } else {
            !done && *final(attn_out) == *old(attn_out)
        },
{
    if !takes_attn_decode(switch, &request.attention, sliding_window, has_softcap) {
        return false;
    }
    let reply: Option<Vec<u32>> = device(request);
    match reply {
        Some(attended) => {
            overlay(attn_out, &attended);
            true
        },
        None => false,
    }
}

/// The sizes of a rotation.
#[derive(Debug, Clone, Copy, PartialEq, Eq, Structural)]
pub struct MropeSizes {
    pub head_dim: usize,
    pub q_dim: usize,
    pub kv_dim: usize,
    pub mrope_dim: usize,
    pub theta: u32,
    pub pos: usize,
}

/// One rotation of `dim` floats.
#[derive(Debug, Clone, Copy, PartialEq, Eq, Structural)]
pub struct MropeCall {
    pub head_dim: usize,
    pub dim: usize,
    pub mrope_dim: usize,
    pub theta: u32,
    pub pos: usize,
}

impl MropeSizes {
    /// The rotation of `dim` floats.
    pub open spec fn call(self, dim: usize) -> MropeCall {
        MropeCall {
            head_dim: self.head_dim,
            dim,
            mrope_dim: self.mrope_dim,
            theta: self.theta,
            pos: self.pos,
        }
    }

    fn rotation(&self, dim: usize) -> (call: MropeCall)
        ensures
            call == self.call(dim),
    {
        MropeCall {
            head_dim: self.head_dim,
            dim,
            mrope_dim: self.mrope_dim,
            theta: self.theta,
            pos: self.pos,
        }
    }
}

/// The device rotates what is in `before`, and as many floats come back.
pub open spec fn rotates<D: Fn(MropeCall, &Vec<u32>) -> Vec<u32>>(
    device: D,
    call: MropeCall,
    before: Vec<u32>,
) -> bool {
    &&& call_requires(device, (call, &before))
    &&& forall|reply: Vec<u32>| #[trigger]
        call_ensures(device, (call, &before), reply) ==> reply@.len() == before@.len()
}

/// Rotates queries, and keys too where `apply_k` asks for it, on the device
/// (`RNB_METAL_ROPE=1`).
pub fn metal_rope_mrope_into_if_supported<D: Fn(MropeCall, &Vec<u32>) -> Vec<u32>>(
    switch: Option<&str>,
    sizes: MropeSizes,
    apply_k: bool,
    q: &mut Vec<u32>,
    k: &mut Vec<u32>,
    device: &D,
) -> (rotated: bool)
    requires
        set_to(switch, "1"@) ==> rotates(*device, sizes.call(sizes.q_dim), *old(q)),
        set_to(switch, "1"@) && apply_k ==> rotates(*device, sizes.call(sizes.kv_dim), *old(k)),
    ensures
        rotated == set_to(switch, "1"@),
        if rotated {
            call_ensures(*device, (sizes.call(sizes.q_dim), &*old(q)), *final(q))
        } else {
            *final(q) == *old(q)
        },
        if rotated && apply_k {
            call_ensures(*device, (sizes.call(sizes.kv_dim), &*old(k)), *final(k))
        } else {
            *final(k) == *old(k)
        },
{
    if !env_is(switch, "1") {
        return false;
    }
    let turned: Vec<u32> = (*device)(sizes.rotation(sizes.q_dim), &*q);
    *q = turned;
    if apply_k {
        let turned: Vec<u32> = (*device)(sizes.rotation(sizes.kv_dim), &*k);
        *k = turned;
    }
    true
}

/// A token's attention layer with a dense feed-forward block.
#[derive(Debug, Clone, Copy, PartialEq, Eq)]
pub struct AttnLayerRequest<'a> {
    pub layer: usize,
    pub norm_weight: &'a [u32],
    pub q_ggml: GGMLType,
    pub k_ggml: GGMLType,
    pub v_ggml: GGMLType,
    pub o_ggml: GGMLType,
    pub q_raw: &'a [u8],
    pub k_raw: &'a [u8],
    pub v_raw: &'a [u8],
    pub q_norm_weight: &'a [u32],
    pub k_norm_weight: &'a [u32],
    pub o_raw: &'a [u8],
    pub ffn_norm_weight: &'a [u32],
    pub ffn: FfnWeights<'a>,
    pub prior_k: &'a [u16],
    pub prior_v: &'a [u16],
    pub pos: usize,
    pub hidden_dim: usize,
    pub q_dim: usize,
    pub q_out_dim: usize,
    pub kv_dim: usize,
    pub head_dim: usize,
    pub num_heads: usize,
    pub num_kv_heads: usize,
    pub n_rot: usize,
    pub capacity: usize,
    pub ffn_dim: usize,
    pub eps: u32,
    pub theta: u32,
    pub scale: u32,
}

/// How the device reads this step, if it takes it.
pub open spec fn attn_layer_reading(switch: Option<&str>, request: AttnLayerRequest<'_>) -> Option<
    (bool, bool),
> {
    if !set_to(switch, "0"@) && request.q_ggml == GGMLType::Q4_K && request.k_ggml
        == GGMLType::Q4_K && request.o_ggml == GGMLType::Q4_K && q4k_or_q6k(request.v_ggml) is Some
        && request.ffn.formats.down_is_q6k() is Some && heads_fit(
        request.num_heads,
        request.num_kv_heads,
        request.head_dim,
    ) {
        Some((q4k_or_q6k(request.v_ggml)->0, request.ffn.formats.down_is_q6k()->0))
    } else {
        None
    }
}

fn reads_attn_layer(switch: Option<&str>, request: &AttnLayerRequest<'_>) -> (reads: Option<
    (bool, bool),
>)
    ensures
        reads == attn_layer_reading(switch, *request),
{
    if env_is(switch, "0") {
        return None;
    }
    if request.q_ggml != GGMLType::Q4_K || request.k_ggml != GGMLType::Q4_K || request.o_ggml
        != GGMLType::Q4_K {
        return None;
    }
    let v_is_q6k = is_q6k_of_q4k_or_q6k(request.v_ggml)?;
    let ffn_down_is_q6k = request.ffn.formats.q4k_with_down()?;
    if !heads_supported(request.num_heads, request.num_kv_heads, request.head_dim) {
        return None;
    }
    Some((v_is_q6k, ffn_down_is_q6k))
}

/// Runs a whole attention layer on the device, unless `RNB_METAL_ATTN_LAYER=0`: Q4_K
/// throughout, but for values and down projections in Q6_K. The device is told which of
/// these two are.
pub fn metal_attn_layer_into_if_supported<
    'a,
    D: FnOnce((bool, bool), AttnLayerRequest<'a>, &Vec<u32>) -> Vec<u32>,
>(
    switch: Option<&str>,
    request: AttnLayerRequest<'a>,
    hidden: &mut Vec<u32>,
    device: D,
) -> (done: bool)
    requires
        rewrites(attn_layer_reading(switch, request), request, device, *old(hidden)),
    ensures
        written(
            attn_layer_reading(switch, request),
            request,
            device,
            *old(hidden),
            *final(hidden),
            done,
        ),
{
    let reads: Option<(bool, bool)> = reads_attn_layer(switch, &request);
    write_over(reads, request, hidden, device)
}

/// The formats of a feed-forward block.
#[derive(Debug, Clone, Copy, PartialEq, Eq, Structural)]
pub struct FfnFormats {
    pub gate: GGMLType,
    pub up: GGMLType,
    pub down: GGMLType,
}

impl FfnFormats {
    /// Gate and up in Q4_K, down in Q4_K (`false`) or Q6_K (`true`).
    pub open spec fn down_is_q6k(self) -> Option<bool> {
        if self.gate == GGMLType::Q4_K && self.up == GGMLType::Q4_K {
            q4k_or_q6k(self.down)
        } else {
            None
        }
    }

    fn q4k_with_down(self) -> (is_q6k: Option<bool>)
        ensures
            is_q6k == self.down_is_q6k(),
    {
        if self.gate != GGMLType::Q4_K || self.up != GGMLType::Q4_K {
            return None;
        }
        is_q6k_of_q4k_or_q6k(self.down)
    }
}

/// The weights of a feed-forward block.
#[derive(Debug, Clone, Copy, PartialEq, Eq)]
pub struct FfnWeights<'a> {
    pub formats: FfnFormats,
    pub gate_raw: &'a [u8],
    pub up_raw: &'a [u8],
    pub down_raw: &'a [u8],
}

/// A token's delta net.
#[derive(Debug, Clone, Copy, PartialEq, Eq)]
pub struct GdnCoreRequest<'a> {
    pub layer: usize,
    pub attn_norm_weight: &'a [u32],
    pub qkv_ggml: GGMLType,
    pub qkv_raw: &'a [u8],
    pub gate_ggml: GGMLType,
    pub gate_raw: &'a [u8],
    pub alpha_ggml: GGMLType,
    pub alpha_raw: &'a [u8],
    pub beta_ggml: GGMLType,
    pub beta_raw: &'a [u8],
    pub dt_bias_weight: &'a [u32],
    pub ssm_a_weight: &'a [u32],
    pub conv1d_weight: &'a [u32],
    pub ssm_norm_weight: &'a [u32],
    pub ssm_out_ggml: GGMLType,
    pub ssm_out_raw: &'a [u8],
    pub hidden_dim: usize,
    pub conv_channels: usize,
    pub conv_kernel: usize,
    pub z_dim: usize,
    pub num_v_heads: usize,
    pub num_k_heads: usize,
    pub head_k_dim: usize,
    pub head_v_dim: usize,
    pub eps: u32,
}

impl<'a> GdnCoreRequest<'a> {
    /// The codes of the five projections, if each has one and the heads fit.
    pub open spec fn codes(self) -> Option<GdnQuantCodes> {
        if heads_fit(self.num_v_heads, self.num_k_heads, self.head_k_dim) {
            projection_codes(
                self.qkv_ggml,
                self.gate_ggml,
                self.alpha_ggml,
                self.beta_ggml,
                self.ssm_out_ggml,
            )
        } else {
            None
        }
    }

    fn quant_codes(&self) -> (codes: Option<GdnQuantCodes>)
        ensures
            codes == self.codes(),
    {
        if !heads_supported(self.num_v_heads, self.num_k_heads, self.head_k_dim) {
            return None;
        }
        gdn_projection_codes(
            self.qkv_ggml,
            self.gate_ggml,
            self.alpha_ggml,
            self.beta_ggml,
            self.ssm_out_ggml,
        )
    }
}

/// What a delta net's layer works on: the hidden state and the net's own two states.
#[derive(Debug, Clone, PartialEq, Eq)]
pub struct GdnBuffers {
    pub hidden: Vec<u32>,
    pub conv_state: Vec<u32>,
    pub delta_state: Vec<u32>,
}

impl Buffers for GdnBuffers {
    open spec fn as_long_as(&self, other: &Self) -> bool {
        &&& self.hidden@.len() == other.hidden@.len()
        &&& self.conv_state@.len() == other.conv_state@.len()
        &&& self.delta_state@.len() == other.delta_state@.len()
    }
}

/// A token's delta net with a dense feed-forward block.
#[derive(Debug, Clone, Copy, PartialEq, Eq)]
pub struct GdnLayerRequest<'a> {
    pub core: GdnCoreRequest<'a>,
    pub ffn_norm_weight: &'a [u32],
    pub ffn: FfnWeights<'a>,
    pub ffn_dim: usize,
}

/// How the device reads this step, if it takes it.
pub open spec fn gdn_layer_reading(switch: Option<&str>, request: GdnLayerRequest<'_>) -> Option<
    (GdnQuantCodes, FfnQuantCodes),
> {
    let ffn = request.ffn.formats;
    if !set_to(switch, "0"@) && request.core.codes() is Some && ffn_codes(
        ffn.gate,
        ffn.up,
        ffn.down,
    ) is Some {
        Some((request.core.codes()->0, ffn_codes(ffn.gate, ffn.up, ffn.down)->0))
    } else {
        None
    }
}

fn reads_gdn_layer(switch: Option<&str>, request: &GdnLayerRequest<'_>) -> (reads: Option<
    (GdnQuantCodes, FfnQuantCodes),
>)
    ensures
        reads == gdn_layer_reading(switch, *request),
{
    if env_is(switch, "0") {
        return None;
    }
    let projections = request.core.quant_codes()?;
    let ffn = request.ffn.formats;
    let dense = gdn_ffn_codes(ffn.gate, ffn.up, ffn.down)?;
    Some((projections, dense))
}

/// Runs a whole delta-net layer on the device, unless `RNB_METAL_GDN_LAYER=0`.
pub fn metal_gdn_layer_into_if_supported<
    'a,
    D: FnOnce((GdnQuantCodes, FfnQuantCodes), GdnLayerRequest<'a>, &GdnBuffers) -> GdnBuffers,
>(
    switch: Option<&str>,
    request: GdnLayerRequest<'a>,
    buffers: &mut GdnBuffers,
    device: D,
) -> (done: bool)
    requires
        rewrites(gdn_layer_reading(switch, request), request, device, *old(buffers)),
    ensures
        written(
            gdn_layer_reading(switch, request),
            request,
            device,
            *old(buffers),
            *final(buffers),
            done,
        ),
{
    let reads: Option<(GdnQuantCodes, FfnQuantCodes)> = reads_gdn_layer(switch, &request);
    write_over(reads, request, buffers, device)
}

/// How the device reads this step, if it takes it.
pub open spec fn gdn_core_reading(switch: Option<&str>, request: GdnCoreRequest<'_>) -> Option<
    GdnQuantCodes,
> {
    if set_to(switch, "1"@) {
        request.codes()
    } else {
        None
    }
}

fn reads_gdn_core(switch: Option<&str>, request: &GdnCoreRequest<'_>) -> (reads: Option<
    GdnQuantCodes,
>)
    ensures
        reads == gdn_core_reading(switch, *request),
{
    if !env_is(switch, "1") {
        return None;
    }
    request.quant_codes()
}

/// Runs the delta net of an expert layer on the device, with
/// `RNB_METAL_QWEN35_MOE_GDN_CORE=1`.
pub fn metal_gdn_core_into_if_supported<
    'a,
    D: FnOnce(GdnQuantCodes, GdnCoreRequest<'a>, &GdnBuffers) -> GdnBuffers,
>(
    switch: Option<&str>,
    request: GdnCoreRequest<'a>,
    buffers: &mut GdnBuffers,
    device: D,
) -> (done: bool)
    requires
        rewrites(gdn_core_reading(switch, request), request, device, *old(buffers)),
    ensures
        written(
            gdn_core_reading(switch, request),
            request,
            device,
            *old(buffers),
            *final(buffers),
            done,
        ),
{
    let reads: Option<GdnQuantCodes> = reads_gdn_core(switch, &request);
    write_over(reads, request, buffers, device)
}

/// A token's delta net with experts.
#[derive(Debug, Clone, Copy, PartialEq, Eq)]
pub struct GdnMoeRequest<'a> {
    pub core: GdnCoreRequest<'a>,
    pub ffn_norm_weight: &'a [u32],
    pub router_w: &'a [u32],
    pub sparse: FfnWeights<'a>,
    pub gate_expert_bytes: usize,
    pub up_expert_bytes: usize,
    pub down_expert_bytes: usize,
    pub shared_input_scale: &'a [u32],
    pub shared: FfnWeights<'a>,
    pub n_ff: usize,
    pub n_expert: usize,
    pub n_expert_used: usize,
}

impl<'a> FfnWeights<'a> {
    /// Each of the three has bytes.
    pub open spec fn present(self) -> bool {
        self.gate_raw@.len() != 0 && self.up_raw@.len() != 0 && self.down_raw@.len() != 0
    }

    fn are_present(&self) -> (yes: bool)
        ensures
            yes == self.present(),
    {
        self.gate_raw.len() != 0 && self.up_raw.len() != 0 && self.down_raw.len() != 0
    }
}

impl<'a> GdnMoeRequest<'a> {
    /// The experts are in formats that the kernel reads, and all their parts are there.
    pub open spec fn supported(self, hidden: Seq<u32>) -> bool {
        &&& self.sparse.formats.gate == GGMLType::Q4_K
        &&& self.sparse.formats.up == GGMLType::Q4_K
        &&& self.shared.formats.gate == GGMLType::Q4_K
        &&& self.shared.formats.up == GGMLType::Q4_K
        &&& self.shared.formats.down == self.sparse.formats.down
        &&& self.sparse.formats.down == GGMLType::Q5_K || self.sparse.formats.down
            == GGMLType::Q6_K
        &&& 1 <= self.n_expert_used <= 31
        &&& hidden.len() == self.core.hidden_dim
        &&& self.router_w@.len() == self.n_expert * self.core.hidden_dim
        &&& self.shared_input_scale@.len() == self.core.hidden_dim
        &&& self.sparse.present()
        &&& self.shared.present()
        &&& self.gate_expert_bytes != 0 && self.up_expert_bytes != 0 && self.down_expert_bytes != 0
    }
}

/// How the device reads this step, if it takes it.
pub open spec fn gdn_moe_layer_reading(
    switch: Option<&str>,
    request: GdnMoeRequest<'_>,
    hidden: Seq<u32>,
) -> Option<(GdnQuantCodes, u8)> {
    if set_to(switch, "1"@) && request.core.codes() is Some && request.supported(hidden) {
        Some((request.core.codes()->0, moe_down_code(request.sparse.formats.down)->0))
    } else {
        None
    }
}

fn reads_gdn_moe_layer(
    switch: Option<&str>,
    request: &GdnMoeRequest<'_>,
    hidden: &Vec<u32>,
) -> (reads: Option<(GdnQuantCodes, u8)>)
    ensures
        reads == gdn_moe_layer_reading(switch, *request, hidden@),
{
    if !env_is(switch, "1") {
        return None;
    }
    let projections = request.core.quant_codes()?;
    let sparse = request.sparse.formats;
    let shared = request.shared.formats;
    if sparse.gate != GGMLType::Q4_K || sparse.up != GGMLType::Q4_K || shared.gate
        != GGMLType::Q4_K || shared.up != GGMLType::Q4_K || shared.down != sparse.down {
        return None;
    }
    let down_quant: u8 = match sparse.down {
        GGMLType::Q5_K => 1,
        GGMLType::Q6_K => 2,
        _ => return None,
    };
    let hidden_dim: usize = request.core.hidden_dim;
    if request.n_expert_used == 0 || request.n_expert_used > 31 || hidden.len() != hidden_dim
        || !is_product(request.router_w.len(), request.n_expert, hidden_dim)
        || request.shared_input_scale.len() != hidden_dim || !request.sparse.are_present()
        || !request.shared.are_present() || request.gate_expert_bytes == 0
        || request.up_expert_bytes == 0 || request.down_expert_bytes == 0 {
        return None;
    }
    Some((projections, down_quant))
}

/// Runs a delta-net layer with its experts on the device, with
/// `RNB_METAL_QWEN35_MOE_GDN_FULL_LAYER=1`. The device is told the codes of the
/// projections and of the experts' down projection.
pub fn metal_gdn_moe_layer_into_if_supported<
    'a,
    D: FnOnce((GdnQuantCodes, u8), GdnMoeRequest<'a>, &GdnBuffers) -> GdnBuffers,
>(
    switch: Option<&str>,
    request: GdnMoeRequest<'a>,
    buffers: &mut GdnBuffers,
    device: D,
) -> (done: bool)
    requires
        rewrites(
            gdn_moe_layer_reading(switch, request, old(buffers).hidden@),
            request,
            device,
            *old(buffers),
        ),
    ensures
        written(
            gdn_moe_layer_reading(switch, request, old(buffers).hidden@),
            request,
            device,
            *old(buffers),
            *final(buffers),
            done,
        ),
{
    let reads: Option<(GdnQuantCodes, u8)> = reads_gdn_moe_layer(switch, &request, &buffers.hidden);
    write_over(reads, request, buffers, device)
}

/// The two input projections of a delta net.
#[derive(Debug, Clone, Copy, PartialEq, Eq)]
pub struct GdnInputRequest<'a> {
    pub qkv_ggml: GGMLType,
    pub gate_ggml: GGMLType,
    pub norm_input: &'a [u32],
    pub qkv_raw: &'a [u8],
    pub gate_raw: &'a [u8],
    pub hidden_dim: usize,
    pub qkv_dim: usize,
    pub gate_dim: usize,
}

/// What comes of the two input projections of a delta net.
#[derive(Debug, Clone, PartialEq, Eq)]
pub struct GdnInputBuffers {
    pub qkv: Vec<u32>,
    pub gate: Vec<u32>,
}

impl Buffers for GdnInputBuffers {
    open spec fn as_long_as(&self, other: &Self) -> bool {
        self.qkv@.len() == other.qkv@.len() && self.gate@.len() == other.gate@.len()
    }
}

/// Whether the device takes a delta net's two input projections.
pub open spec fn gdn_inproj_taken(switch: Option<&str>, request: GdnInputRequest<'_>) -> bool {
    set_to(switch, "1"@) && request.qkv_ggml == GGMLType::Q4_K && request.gate_ggml
        == GGMLType::Q4_K
}

/// Runs a delta net's two input projections in one go (`RNB_METAL_GDN_CHAIN=1`).
pub fn metal_gdn_inproj_chain_into_if_supported<
    'a,
    D: FnOnce(GdnInputRequest<'a>) -> GdnInputBuffers,
>(
    switch: Option<&str>,
    request: GdnInputRequest<'a>,
    out: &mut GdnInputBuffers,
    device: D,
) -> (done: bool)
    requires
        fills_where(gdn_inproj_taken(switch, request), request, device, *old(out)),
    ensures
        filled_where(
            gdn_inproj_taken(switch, request),
            request,
            device,
            *old(out),
            *final(out),
            done,
        ),
{
    let runs: bool = env_is(switch, "1") && request.qkv_ggml == GGMLType::Q4_K && request.gate_ggml
        == GGMLType::Q4_K;
    fill_where(runs, request, out, device)
}

/// The three projections of an attention.
#[derive(Debug, Clone, Copy, PartialEq, Eq)]
pub struct QkvChainRequest<'a> {
    pub q_ggml: GGMLType,
    pub k_ggml: GGMLType,
    pub v_ggml: GGMLType,
    pub norm_input: &'a [u32],
    pub q_raw: &'a [u8],
    pub k_raw: &'a [u8],
    pub v_raw: &'a [u8],
    pub hidden_dim: usize,
    pub q_out_dim: usize,
    pub kv_dim: usize,
}

/// What comes of the three projections of an attention.
#[derive(Debug, Clone, PartialEq, Eq)]
pub struct QkvBuffers {
    pub q: Vec<u32>,
    pub k: Vec<u32>,
    pub v: Vec<u32>,
}

impl Buffers for QkvBuffers {
    open spec fn as_long_as(&self, other: &Self) -> bool {
        &&& self.q@.len() == other.q@.len()
        &&& self.k@.len() == other.k@.len()
        &&& self.v@.len() == other.v@.len()
    }
}

/// Whether the device takes an attention's three projections.
pub open spec fn qkv_chain_taken(switch: Option<&str>, request: QkvChainRequest<'_>) -> bool {
    set_to(switch, "1"@) && request.q_ggml == GGMLType::Q4_K && request.k_ggml == GGMLType::Q4_K
        && request.v_ggml == GGMLType::Q4_K
}

/// Runs an attention's three projections in one go (`RNB_METAL_QKV_CHAIN=1`).
pub fn metal_attention_qkv_chain_into_if_supported<
    'a,
    D: FnOnce(QkvChainRequest<'a>) -> QkvBuffers,
>(switch: Option<&str>, request: QkvChainRequest<'a>, out: &mut QkvBuffers, device: D) -> (done:
    bool)
    requires
        fills_where(qkv_chain_taken(switch, request), request, device, *old(out)),
    ensures
        filled_where(
            qkv_chain_taken(switch, request),
            request,
            device,
            *old(out),
            *final(out),
            done,
        ),
{
    let runs: bool = env_is(switch, "1") && request.q_ggml == GGMLType::Q4_K && request.k_ggml
        == GGMLType::Q4_K && request.v_ggml == GGMLType::Q4_K;
    fill_where(runs, request, out, device)
}

/// A token's feed-forward block, which works on the hidden state.
#[derive(Debug, Clone, Copy, PartialEq, Eq)]
pub struct FfnChainRequest<'a> {
    pub ffn: FfnWeights<'a>,
    pub norm_weight: &'a [u32],
    pub hidden_dim: usize,
    pub ffn_dim: usize,
    pub norm_eps: u32,
}

/// How the device reads this step, if it takes it.
pub open spec fn ffn_chain_reading(
    switch: Option<&str>,
    formats: FfnFormats,
) -> Option<bool> {
    if set_to(switch, "1"@) {
        formats.down_is_q6k()
    } else {
        None
    }
}

fn reads_ffn_chain(
    switch: Option<&str>,
    formats: FfnFormats,
) -> (is_q6k: Option<bool>)
    ensures
        is_q6k == ffn_chain_reading(switch, formats),
{
    if !env_is(switch, "1") {
        return None;
    }
    formats.q4k_with_down()
}

/// Runs a token's feed-forward block (`RNB_METAL_FFN_CHAIN=1`). The device is told
/// whether the down projection is Q6_K.
pub fn metal_ffn_chain_into_if_supported<
    'a,
    D: FnOnce(bool, FfnChainRequest<'a>, &Vec<u32>) -> Vec<u32>,
>(
    switch: Option<&str>,
    request: FfnChainRequest<'a>,
    hidden: &mut Vec<u32>,
    device: D,
) -> (done: bool)
    requires
        rewrites(ffn_chain_reading(switch, request.ffn.formats), request, device, *old(hidden)),
    ensures
        written(
            ffn_chain_reading(switch, request.ffn.formats),
            request,
            device,
            *old(hidden),
            *final(hidden),
            done,
        ),
{
    let reads: Option<bool> = reads_ffn_chain(switch, request.ffn.formats);
    write_over(reads, request, hidden, device)
}

/// A feed-forward block on the activations of some tokens.
#[derive(Debug, Clone, Copy, PartialEq, Eq)]
pub struct FfnBatchRequest<'a> {
    pub ffn: FfnWeights<'a>,
    pub normed: &'a [u32],
    pub tokens: usize,
    pub hidden_dim: usize,
    pub ffn_dim: usize,
}

/// How the device reads this step, if it takes it.
pub open spec fn prefill_ffn_chain_reading(
    switch: Option<&str>,
    formats: FfnFormats,
) -> Option<bool> {
    if !set_to(switch, "0"@) {
        formats.down_is_q6k()
    } else {
        None
    }
}

fn reads_prefill_ffn_chain(
    switch: Option<&str>,
    formats: FfnFormats,
) -> (is_q6k: Option<bool>)
    ensures
        is_q6k == prefill_ffn_chain_reading(switch, formats),
{
    if env_is(switch, "0") {
        return None;
    }
    formats.q4k_with_down()
}

/// Runs a prompt's feed-forward block, unless `RNB_METAL_PREFILL_FFN=0`.
pub fn metal_prefill_ffn_chain_into_if_supported<
    'a,
    D: FnOnce(bool, FfnBatchRequest<'a>) -> Vec<u32>,
>(switch: Option<&str>, request: FfnBatchRequest<'a>, out: &mut Vec<u32>, device: D) -> (done: bool)
    requires
        fills(
            prefill_ffn_chain_reading(switch, request.ffn.formats),
            request,
            device,
            *old(out),
        ),
    ensures
        filled(
            prefill_ffn_chain_reading(switch, request.ffn.formats),
            request,
            device,
            *old(out),
            *final(out),
            done,
        ),
{
    let reads: Option<bool> = reads_prefill_ffn_chain(switch, request.ffn.formats);
    fill_over(reads, request, out, device)
}

/// What a length that is not as expected is reported with.
pub open spec fn length_message(what: Seq<char>, got: nat, expected: nat) -> Seq<char> {
    what + " len mismatch: got "@ + decimal(got) + ", expected "@ + decimal(expected)
}

fn length_error(what: &str, got: usize, expected: usize) -> (message: String)
    ensures
        message@ == length_message(what@, got as nat, expected as nat),
{
    let mut message = String::from_str(what);
    message.append(" len mismatch: got ");
    push_decimal(&mut message, got);
    message.append(", expected ");
    push_decimal(&mut message, expected);
    message
}

/// What is wrong with the operands of a router, whose weights and activations must have
/// the lengths that the sizes ask for.
pub open spec fn router_fault(
    weight: Seq<char>,
    norm: Seq<char>,
    router_len: nat,
    norm_len: nat,
    n_expert: usize,
    hidden_dim: usize,
    seq_len: usize,
) -> Option<Seq<char>> {
    if router_len != n_expert * hidden_dim {
        Some(length_message(weight, router_len, (n_expert * hidden_dim) as nat))
    } else if norm_len != seq_len * hidden_dim {
        Some(length_message(norm, norm_len, (seq_len * hidden_dim) as nat))
    } else {
        None
    }
}

/// The lengths that are held against each other can be counted: of the weights, of the
/// activations if the weights fit, and of the `per_token` replies for each token if the
/// activations fit too.
pub open spec fn router_countable(
    router_len: nat,
    norm_len: nat,
    n_expert: usize,
    hidden_dim: usize,
    seq_len: usize,
    per_token: int,
) -> bool {
    &&& n_expert * hidden_dim <= usize::MAX
    &&& router_len == n_expert * hidden_dim ==> seq_len * hidden_dim <= usize::MAX
    &&& router_len == n_expert * hidden_dim && norm_len == seq_len * hidden_dim ==> seq_len
        * per_token <= usize::MAX
}

fn check_router(
    weight: &str,
    norm: &str,
    router_len: usize,
    norm_len: usize,
    n_expert: usize,
    hidden_dim: usize,
    seq_len: usize,
) -> (checked: Result<(), String>)
    requires
        n_expert * hidden_dim <= usize::MAX,
        router_len == n_expert * hidden_dim ==> seq_len * hidden_dim <= usize::MAX,
    ensures
        match (
            router_fault(
                weight@,
                norm@,
                router_len as nat,
                norm_len as nat,
                n_expert,
                hidden_dim,
                seq_len,
            ),
            checked,
        ) {
            (None, Ok(())) => true,
            (Some(fault), Err(message)) => message@ == fault,
            _ => false,
        },
{
    let weights: usize = n_expert * hidden_dim;
    if router_len != weights {
        return Err(length_error(weight, router_len, weights));
    }
    let activations: usize = seq_len * hidden_dim;
    if norm_len != activations {
        return Err(length_error(norm, norm_len, activations));
    }
    Ok(())
}

/// Runs a prompt's router on the device, unless `RNB_METAL_QWEN35_PREFILL_ROUTER` is
/// falsey. Floats are their bits; the reply must hold a logit for each token and expert.
pub fn metal_qwen_moe_prefill_router_logits_if_supported<
    'a,
    D: FnOnce(&'a [u32], &'a [u32], usize, usize, usize) -> Vec<u32>,
>(
    router: Option<&str>,
    router_w: &'a [u32],
    n_expert: usize,
    hidden_dim: usize,
    norm_all: &'a [u32],
    seq_len: usize,
    device: D,
) -> (output: Result<Option<Vec<u32>>, String>)
    requires
        unless_falsey(router, true) ==> router_countable(
            router_w@.len(),
            norm_all@.len(),
            n_expert,
            hidden_dim,
            seq_len,
            n_expert as int,
        ),
        call_requires(device, (router_w, norm_all, n_expert, hidden_dim, seq_len)),
    ensures
        ({
            let fault = router_fault(
                "metal qwen moe router weight"@,
                "metal qwen moe router norm"@,
                router_w@.len(),
                norm_all@.len(),
                n_expert,
                hidden_dim,
                seq_len,
            );
            if !unless_falsey(router, true) {
                output == Ok::<Option<Vec<u32>>, String>(None)
            } else if fault is Some {
                output matches Err(message) && message@ == fault->0
            } else {
                exists|logits: Vec<u32>| #[trigger]
                    call_ensures(
                        device,
                        (router_w, norm_all, n_expert, hidden_dim, seq_len),
                        logits,
                    ) && match output {
                        Ok(Some(kept)) => kept == logits && logits@.len() == seq_len * n_expert,
                        Err(message) => {
                            &&& logits@.len() != seq_len * n_expert
                            &&& message@ == length_message(
                                "metal qwen moe router logits"@,
                                logits@.len(),
                                (seq_len * n_expert) as nat,
                            )
                        },
                        Ok(None) => false,
                    }
            }
        }),
{
    if !metal_qwen_moe_prefill_router_requested(router) {
        return Ok(None);
    }
    let checked = check_router(
        "metal qwen moe router weight",
        "metal qwen moe router norm",
        router_w.len(),
        norm_all.len(),
        n_expert,
        hidden_dim,
        seq_len,
    );
    if let Err(message) = checked {
        return Err(message);
    }
    let logits = device(router_w, norm_all, n_expert, hidden_dim, seq_len);
    let expected: usize = seq_len * n_expert;
    if logits.len() != expected {
        return Err(length_error("metal qwen moe router logits", logits.len(), expected));
    }
    Ok(Some(logits))
}

/// Experts that a token is routed to: at most as many as there are.
pub open spec fn routes_per_token(n_expert: int, n_expert_used: int) -> int {
    if n_expert_used <= n_expert {
        n_expert_used
    } else {
        n_expert
    }
}

/// Slots that the routes of a prompt fill.
pub open spec fn route_slot_count(seq_len: int, n_expert: int, n_expert_used: int) -> int {
    seq_len * routes_per_token(n_expert, n_expert_used)
}

/// Whether routes are asked for: with both switches on, for up to 32 experts per token.
pub open spec fn routes_wanted(
    router: Option<&str>,
    route_topk: Option<&str>,
    n_expert_used: usize,
) -> bool {
    unless_falsey(router, true) && unless_falsey(route_topk, false) && 1 <= n_expert_used <= 32
}

/// What is said of routes of which some array does not hold every slot.
pub open spec fn route_arrays_message(
    experts: nat,
    weights: nat,
    tokens: nat,
    slots: nat,
) -> Seq<char> {
    "metal qwen moe route arrays len mismatch: experts="@ + decimal(experts) + " weights="@
        + decimal(weights) + " tokens="@ + decimal(tokens) + " expected="@ + decimal(slots)
}

/// Routes a prompt's tokens on the device: with the router and
/// `RNB_METAL_QWEN35_PREFILL_ROUTE_TOPK` on, for up to 32 experts per token. The reply,
/// experts, weights and tokens, must fill every slot.
pub fn metal_qwen_moe_prefill_route_arrays_if_supported<
    'a,
    D: FnOnce(&'a [u32], &'a [u32], usize, usize, usize, usize) -> (Vec<u32>, Vec<u32>, Vec<u32>),
>(
    router: Option<&str>,
    route_topk: Option<&str>,
    router_w: &'a [u32],
    n_expert: usize,
    hidden_dim: usize,
    norm_all: &'a [u32],
    seq_len: usize,
    n_expert_used: usize,
    device: D,
) -> (output: Result<Option<(Vec<u32>, Vec<u32>, Vec<u32>)>, String>)
    requires
        routes_wanted(router, route_topk, n_expert_used) ==> router_countable(
            router_w@.len(),
            norm_all@.len(),
            n_expert,
            hidden_dim,
            seq_len,
            routes_per_token(n_expert as int, n_expert_used as int),
        ),
        call_requires(device, (router_w, norm_all, n_expert, hidden_dim, seq_len, n_expert_used)),
    ensures
        ({
            let wanted = routes_wanted(router, route_topk, n_expert_used);
            let fault = router_fault(
                "metal qwen moe route weight"@,
                "metal qwen moe route norm"@,
                router_w@.len(),
                norm_all@.len(),
                n_expert,
                hidden_dim,
                seq_len,
            );
            let slots = route_slot_count(seq_len as int, n_expert as int, n_expert_used as int);
            if !wanted {
                output == Ok::<Option<(Vec<u32>, Vec<u32>, Vec<u32>)>, String>(None)
            } else if fault is Some {
                output matches Err(message) && message@ == fault->0
            } else {
                exists|routes: (Vec<u32>, Vec<u32>, Vec<u32>)| #[trigger]
                    call_ensures(
                        device,
                        (router_w, norm_all, n_expert, hidden_dim, seq_len, n_expert_used),
                        routes,
                    ) && if routes.0@.len() == slots && routes.1@.len() == slots
                        && routes.2@.len() == slots {
                        output == Ok::<Option<(Vec<u32>, Vec<u32>, Vec<u32>)>, String>(
                            Some(routes),
                        )
                    } else {
                        output matches Err(message) && message@ == route_arrays_message(
                            routes.0@.len(),
                            routes.1@.len(),
                            routes.2@.len(),
                            slots as nat,
                        )
                    }
            }
        }),
{
    if !metal_qwen_moe_prefill_router_requested(router)
        || !metal_qwen_moe_prefill_route_topk_requested(route_topk) || n_expert_used == 0
        || n_expert_used > 32 {
        return Ok(None);
    }
    let checked = check_router(
        "metal qwen moe route weight",
        "metal qwen moe route norm",
        router_w.len(),
        norm_all.len(),
        n_expert,
        hidden_dim,
        seq_len,
    );
    if let Err(message) = checked {
        return Err(message);
    }
    let routes = device(router_w, norm_all, n_expert, hidden_dim, seq_len, n_expert_used);
    let per_token: usize = if n_expert_used <= n_expert {
        n_expert_used
    } else {
        n_expert
    };
    let slots: usize = seq_len * per_token;
    if routes.0.len() != slots || routes.1.len() != slots || routes.2.len() != slots {
        let mut message = String::from_str("metal qwen moe route arrays len mismatch: experts=");
        push_decimal(&mut message, routes.0.len());
        message.append(" weights=");
        push_decimal(&mut message, routes.1.len());
        message.append(" tokens=");
        push_decimal(&mut message, routes.2.len());
        message.append(" expected=");
        push_decimal(&mut message, slots);
        return Err(message);
    }
    Ok(Some(routes))
}

/// How the device reads this step, if it takes it.
pub open spec fn qwen_moe_expert_ffn_reading(
    expert_batch: Option<&str>,
    request: FfnBatchRequest<'_>,
    out: Seq<u32>,
) -> Option<bool> {
    if set_or_at_least(expert_batch, request.tokens, 16) && request.tokens != 0
        && request.normed@.len() == request.tokens * request.hidden_dim && out.len()
        == request.tokens * request.hidden_dim {
        request.ffn.formats.down_is_q6k()
    } else {
        None
    }
}

fn reads_qwen_moe_expert_ffn(
    expert_batch: Option<&str>,
    request: &FfnBatchRequest<'_>,
    out: &Vec<u32>,
) -> (is_q6k: Option<bool>)
    ensures
        is_q6k == qwen_moe_expert_ffn_reading(expert_batch, *request, out@),
{
    if !metal_qwen_moe_expert_batch_enabled(expert_batch, request.tokens) {
        return None;
    }
    let down_is_q6k = request.ffn.formats.q4k_with_down()?;
    if request.tokens == 0 || !is_product(request.normed.len(), request.tokens, request.hidden_dim)
        || !is_product(out.len(), request.tokens, request.hidden_dim) {
        return None;
    }
    Some(down_is_q6k)
}

/// Runs one expert's group of tokens on the device
/// (`RNB_METAL_QWEN35_MOE_EXPERT_BATCH`). The device is told whether the down
/// projection is Q6_K.
pub fn metal_qwen_moe_expert_ffn_into_if_supported<
    'a,
    D: FnOnce(bool, FfnBatchRequest<'a>) -> Vec<u32>,
>(
    expert_batch: Option<&str>,
    request: FfnBatchRequest<'a>,
    out: &mut Vec<u32>,
    device: D,
) -> (done: bool)
    requires
        fills(
            qwen_moe_expert_ffn_reading(expert_batch, request, old(out)@),
            request,
            device,
            *old(out),
        ),
    ensures
        filled(
            qwen_moe_expert_ffn_reading(expert_batch, request, old(out)@),
            request,
            device,
            *old(out),
            *final(out),
            done,
        ),
{
    let reads: Option<bool> = reads_qwen_moe_expert_ffn(expert_batch, &request, &*out);
    fill_over(reads, request, out, device)
}

/// A feed-forward block is read with a down projection in Q4_K or in Q6_K, and told apart
/// by that; its other two weights are in Q4_K.
pub proof fn law_which_blocks_are_read(
    on: Option<&str>,
    formats: FfnFormats,
    batch: FfnBatchRequest<'_>,
    out: Seq<u32>,
)
    ensures
        ({
            let read = formats.gate is Q4_K && formats.up is Q4_K && (formats.down is Q4_K
                || formats.down is Q6_K);
            let told = Some(formats.down is Q6_K);
            &&& formats.down_is_q6k() == if read {
                told
            } else {
                None::<bool>
            }
            &&& ffn_chain_reading(on, formats) == if read && on is Some && on->0@ == "1"@ {
                told
            } else {
                None::<bool>
            }
            &&& prefill_ffn_chain_reading(on, formats) == if read && !(on is Some && on->0@ == "0"@) {
                told
            } else {
                None::<bool>
            }
        }),
        qwen_moe_expert_ffn_reading(on, batch, out) is Some <==> {
            &&& on is Some && !switched_off(on) || on is None && batch.tokens >= 16
            &&& batch.tokens > 0
            &&& batch.normed@.len() == batch.tokens * batch.hidden_dim
            &&& out.len() == batch.tokens * batch.hidden_dim
            &&& batch.ffn.formats.gate is Q4_K && batch.ffn.formats.up is Q4_K
            &&& batch.ffn.formats.down is Q4_K || batch.ffn.formats.down is Q6_K
        },
        qwen_moe_expert_ffn_reading(on, batch, out) matches Some(is_q6k) ==> is_q6k
            == (batch.ffn.formats.down is Q6_K),
{
}

/// A projection is taken where it is asked for, in the formats that there are kernels for.
pub proof fn law_which_projections_are_taken(
    on: Option<&str>,
    simd: Option<&str>,
    gemv: GemvRequest<'_>,
    o: OutputChainRequest<'_>,
    gdn: GdnInputRequest<'_>,
    qkv: QkvChainRequest<'_>,
)
    ensures
        ({
            let set = on is Some && on->0@ == "1"@;
            &&& decode_gemv_reading(on, simd, gemv.ggml_type) is Some <==> set
                && gemv.ggml_type is Q4_K
            &&& decode_gemv_reading(on, simd, gemv.ggml_type) matches Some(cooperative) ==> cooperative
                == (simd is Some && simd->0@ == "1"@)
            &&& output_argmax_token_reading(on, gemv) is Some <==> set && gemv.input@.len()
                == gemv.cols && gemv.rows > 0 && (gemv.ggml_type is Q4_K || gemv.ggml_type is Q6_K)
            &&& output_argmax_token_reading(on, gemv) matches Some(is_q6k) ==> is_q6k
                == (gemv.ggml_type is Q6_K)
            &&& o_chain_taken(on, o) <==> set && o.o_ggml is Q4_K
            &&& gdn_inproj_taken(on, gdn) <==> set && gdn.qkv_ggml is Q4_K && gdn.gate_ggml is Q4_K
            &&& qkv_chain_taken(on, qkv) <==> set && qkv.q_ggml is Q4_K && qkv.k_ggml is Q4_K
                && qkv.v_ggml is Q4_K
        }),
{
}

/// A token's attention is taken where it is asked for, without a window and without a soft
/// cap; a whole attention layer unless it is switched off, with what is read of its values
/// and of its down projection told apart.
pub proof fn law_which_attentions_are_taken(
    on: Option<&str>,
    attn: AttnDecodeRequest<'_>,
    window: Option<usize>,
    softcap: bool,
    layer: AttnLayerRequest<'_>,
)
    ensures
        attn_decode_taken(on, attn, window, softcap) <==> {
            &&& on is Some && on->0@ == "1"@
            &&& window is None && !softcap
            &&& heads_fit(attn.num_heads, attn.num_kv_heads, attn.head_dim)
        },
        attn_layer_reading(on, layer) is Some <==> {
            &&& !(on is Some && on->0@ == "0"@)
            &&& layer.q_ggml is Q4_K && layer.k_ggml is Q4_K && layer.o_ggml is Q4_K
            &&& layer.v_ggml is Q4_K || layer.v_ggml is Q6_K
            &&& layer.ffn.formats.gate is Q4_K && layer.ffn.formats.up is Q4_K
            &&& layer.ffn.formats.down is Q4_K || layer.ffn.formats.down is Q6_K
            &&& heads_fit(layer.num_heads, layer.num_kv_heads, layer.head_dim)
        },
        attn_layer_reading(on, layer) matches Some(reads) ==> reads.0 == (layer.v_ggml is Q6_K)
            && reads.1 == (layer.ffn.formats.down is Q6_K),
{
}

/// Both rotations of a token are of its own sizes, base and position, and differ in their
/// length alone.
pub proof fn law_rotations_differ_in_length_alone(sizes: MropeSizes, dim: usize)
    ensures
        sizes.call(dim).dim == dim,
        sizes.call(dim).head_dim == sizes.head_dim,
        sizes.call(dim).mrope_dim == sizes.mrope_dim,
        sizes.call(dim).theta == sizes.theta,
        sizes.call(dim).pos == sizes.pos,
{
}

/// Whether the codes are those of a delta net's own projections.
pub open spec fn codes_its_projections(codes: GdnQuantCodes, core: GdnCoreRequest<'_>) -> bool {
    &&& Some(codes.qkv) == gdn_code(core.qkv_ggml)
    &&& Some(codes.gate) == gdn_code(core.gate_ggml)
    &&& Some(codes.alpha) == gdn_code(core.alpha_ggml)
    &&& Some(codes.beta) == gdn_code(core.beta_ggml)
    &&& Some(codes.ssm_out) == gdn_code(core.ssm_out_ggml)
}

/// Whether a delta net's projections all have codes and its heads fit.
pub open spec fn reads_core(core: GdnCoreRequest<'_>) -> bool {
    &&& heads_fit(core.num_v_heads, core.num_k_heads, core.head_k_dim)
    &&& gdn_code(core.qkv_ggml) is Some && gdn_code(core.gate_ggml) is Some
    &&& gdn_code(core.alpha_ggml) is Some && gdn_code(core.beta_ggml) is Some
    &&& gdn_code(core.ssm_out_ggml) is Some
}

/// Which delta nets are taken, alone, with a dense block or with experts, and by which
/// codes each weight is read.
pub proof fn law_which_delta_net_steps_are_taken(
    on: Option<&str>,
    core: GdnCoreRequest<'_>,
    layer: GdnLayerRequest<'_>,
    moe: GdnMoeRequest<'_>,
    hidden: Seq<u32>,
)
    ensures
        core.codes() is Some <==> reads_core(core),
        core.codes() matches Some(codes) ==> codes_its_projections(codes, core),
        gdn_core_reading(on, core) is Some <==> on is Some && on->0@ == "1"@ && reads_core(core),
        gdn_core_reading(on, core) matches Some(codes) ==> codes_its_projections(codes, core),
        gdn_layer_reading(on, layer) is Some <==> {
            &&& !(on is Some && on->0@ == "0"@)
            &&& reads_core(layer.core)
            &&& gdn_code(layer.ffn.formats.gate) is Some && gdn_code(layer.ffn.formats.up) is Some
            &&& gdn_code(layer.ffn.formats.down) is Some
        },
        gdn_layer_reading(on, layer) matches Some(reads) ==> {
            &&& codes_its_projections(reads.0, layer.core)
            &&& Some(reads.1.gate) == gdn_code(layer.ffn.formats.gate)
            &&& Some(reads.1.up) == gdn_code(layer.ffn.formats.up)
            &&& Some(reads.1.down) == gdn_code(layer.ffn.formats.down)
        },
        gdn_moe_layer_reading(on, moe, hidden) is Some <==> {
            &&& on is Some && on->0@ == "1"@
            &&& reads_core(moe.core)
            &&& moe.sparse.formats.gate is Q4_K && moe.sparse.formats.up is Q4_K
            &&& moe.shared.formats.gate is Q4_K && moe.shared.formats.up is Q4_K
            &&& moe.sparse.formats.down is Q5_K || moe.sparse.formats.down is Q6_K
            &&& moe.shared.formats.down == moe.sparse.formats.down
            &&& 1 <= moe.n_expert_used <= 31
            &&& hidden.len() == moe.core.hidden_dim
            &&& moe.router_w@.len() == moe.n_expert * moe.core.hidden_dim
            &&& moe.shared_input_scale@.len() == moe.core.hidden_dim
            &&& moe.sparse.gate_raw@.len() > 0 && moe.sparse.up_raw@.len() > 0
            &&& moe.sparse.down_raw@.len() > 0
            &&& moe.shared.gate_raw@.len() > 0 && moe.shared.up_raw@.len() > 0
            &&& moe.shared.down_raw@.len() > 0
            &&& moe.gate_expert_bytes > 0 && moe.up_expert_bytes > 0 && moe.down_expert_bytes > 0
        },
        gdn_moe_layer_reading(on, moe, hidden) matches Some(reads) ==> codes_its_projections(
            reads.0,
            moe.core,
        ) && reads.1 == if moe.sparse.formats.down is Q5_K {
            1u8
        } else {
            2u8
        },
{
}

/// Buffers are as long as each other exactly if each part is.
pub proof fn law_buffers_are_compared_part_by_part(
    a: GdnBuffers,
    b: GdnBuffers,
    c: GdnInputBuffers,
    d: GdnInputBuffers,
    e: QkvBuffers,
    f: QkvBuffers,
)
    ensures
        a.as_long_as(&b) <==> a.hidden@.len() == b.hidden@.len() && a.conv_state@.len()
            == b.conv_state@.len() && a.delta_state@.len() == b.delta_state@.len(),
        c.as_long_as(&d) <==> c.qkv@.len() == d.qkv@.len() && c.gate@.len() == d.gate@.len(),
        e.as_long_as(&f) <==> e.q@.len() == f.q@.len() && e.k@.len() == f.k@.len() && e.v@.len()
            == f.v@.len(),
{
}

/// A router is found at fault exactly if its weights are not one row of the hidden size for
/// each expert, or the activations not one for each token; of two faults the weights' is
/// told.
pub proof fn law_which_routers_are_at_fault(
    weight: Seq<char>,
    norm: Seq<char>,
    router_len: nat,
    norm_len: nat,
    n_expert: usize,
    hidden_dim: usize,
    seq_len: usize,
)
    ensures
        ({
            let fault = router_fault(
                weight,
                norm,
                router_len,
                norm_len,
                n_expert,
                hidden_dim,
                seq_len,
            );
            let rows = router_len == n_expert * hidden_dim;
            let states = norm_len == seq_len * hidden_dim;
            &&& fault is None <==> rows && states
            &&& !rows ==> fault == Some(
                length_message(weight, router_len, (n_expert * hidden_dim) as nat),
            )
            &&& rows && !states ==> fault == Some(
                length_message(norm, norm_len, (seq_len * hidden_dim) as nat),
            )
        }),
{
}

/// Messages of lengths say first what it is about, then what there was and what was
/// expected, each behind its name.
pub proof fn law_length_messages_say_both_lengths(
    what: Seq<char>,
    got: nat,
    expected: nat,
    experts: nat,
    weights: nat,
    tokens: nat,
)
    ensures
        length_message(what, got, expected).take(what.len() as int) == what,
        says(length_message(what, got, expected), " len mismatch: got "@, decimal(got)),
        says(length_message(what, got, expected), ", expected "@, decimal(expected)),
        says(
            route_arrays_message(experts, weights, tokens, expected),
            "metal qwen moe route arrays len mismatch: experts="@,
            decimal(experts),
        ),
        says(
            route_arrays_message(experts, weights, tokens, expected),
            " weights="@,
            decimal(weights),
        ),
        says(route_arrays_message(experts, weights, tokens, expected), " tokens="@, decimal(tokens)),
        says(
            route_arrays_message(experts, weights, tokens, expected),
            " expected="@,
            decimal(expected),
        ),
{
    let line = what + " len mismatch: got "@ + decimal(got);
    lemma_says(what, " len mismatch: got "@, decimal(got));
    lemma_says_more(line, " len mismatch: got "@, decimal(got), ", expected "@);
    lemma_says_more(
        line + ", expected "@,
        " len mismatch: got "@,
        decimal(got),
        decimal(expected),
    );
    lemma_says(line, ", expected "@, decimal(expected));
    assert(length_message(what, got, expected).take(what.len() as int) =~= what);
    let start = "metal qwen moe route arrays len mismatch: experts="@;
    let one = start + decimal(experts);
    let two = one + " weights="@ + decimal(weights);
    let three = two + " tokens="@ + decimal(tokens);
    assert(Seq::<char>::empty() + start + decimal(experts) =~= one);
    lemma_says(Seq::empty(), start, decimal(experts));
    lemma_says(one, " weights="@, decimal(weights));
    lemma_says(two, " tokens="@, decimal(tokens));
    lemma_says(three, " expected="@, decimal(expected));
    lemma_says_more(one, start, decimal(experts), " weights="@);
    lemma_says_more(one + " weights="@, start, decimal(experts), decimal(weights));
    lemma_says_more(two, start, decimal(experts), " tokens="@);
    lemma_says_more(two + " tokens="@, start, decimal(experts), decimal(tokens));
    lemma_says_more(three, start, decimal(experts), " expected="@);
    lemma_says_more(three + " expected="@, start, decimal(experts), decimal(expected));
    lemma_says_more(two, " weights="@, decimal(weights), " tokens="@);
    lemma_says_more(two + " tokens="@, " weights="@, decimal(weights), decimal(tokens));
    lemma_says_more(three, " weights="@, decimal(weights), " expected="@);
    lemma_says_more(three + " expected="@, " weights="@, decimal(weights), decimal(expected));
    lemma_says_more(three, " tokens="@, decimal(tokens), " expected="@);
    lemma_says_more(three + " expected="@, " tokens="@, decimal(tokens), decimal(expected));
}

/// Routes are asked for with the router on, their own switch set and at least one and at
/// most 32 experts a token; a token is routed to as many experts as it uses, or to all where
/// there are fewer, and each of a prompt's tokens fills as many slots.
pub proof fn law_routes_fill_a_slot_for_each_expert_used(
    router: Option<&str>,
    route_topk: Option<&str>,
    seq_len: int,
    n_expert: int,
    n_expert_used: usize,
)
    requires
        0 <= seq_len && 0 <= n_expert,
    ensures
        routes_wanted(router, route_topk, n_expert_used) <==> !switched_off(router)
            && route_topk is Some && !switched_off(route_topk) && 1 <= n_expert_used <= 32,
        routes_per_token(n_expert, n_expert_used as int) <= n_expert,
        routes_per_token(n_expert, n_expert_used as int) <= n_expert_used,
        routes_per_token(n_expert, n_expert_used as int) == n_expert || routes_per_token(
            n_expert,
            n_expert_used as int,
        ) == n_expert_used,
        route_slot_count(0, n_expert, n_expert_used as int) == 0,
        route_slot_count(seq_len + 1, n_expert, n_expert_used as int) == route_slot_count(
            seq_len,
            n_expert,
            n_expert_used as int,
        ) + routes_per_token(n_expert, n_expert_used as int),
{
    let each = routes_per_token(n_expert, n_expert_used as int);
    assert((seq_len + 1) * each == seq_len * each + each) by (nonlinear_arith);
}

} // verus!
