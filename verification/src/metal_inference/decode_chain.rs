//! The decode chain: all layers of one token in a single submission to the device.
//!
//! Every layer is checked before any is handed over; the first that the device
//! cannot take makes the token fall back. Tensors hold single-precision floats as
//! bit patterns.

use crate::arith::is_product;
use crate::metal_inference::counters::{
    metal_decode_parity_record_chain_report, MetalDecodeChainReport, MetalDecodeParityCounters,
};
use crate::policy::{env_falsey, env_is, env_unless_falsey, set_to, switched_off, unless_falsey};
use crate::quant::{is_q6k_of_q4k_or_q6k, q4k_or_q6k, GGMLType};
use vstd::prelude::*;

verus! {

/// The values of the environment variables that steer the decode chain.
#[derive(Debug, Clone, Copy)]
pub struct MetalDecodeParityEnv<'a> {
    /// `RNB_METAL_DECODE_PARITY_CHAIN`
    pub parity_chain: Option<&'a str>,
    /// `RNB_METAL_DECODE_PARITY_TIME`
    pub parity_time: Option<&'a str>,
    /// `RNB_METAL_DECODE_CHAIN`
    pub decode_chain: Option<&'a str>,
    /// `RNB_METAL_GDN_LAYER`
    pub gdn_layer: Option<&'a str>,
    /// `RNB_METAL_ATTN_LAYER`
    pub attn_layer: Option<&'a str>,
    /// `RNB_METAL_QWEN35_MOE_DECODE_CHAIN`
    pub qwen_moe_decode_chain: Option<&'a str>,
    /// `RNB_METAL_KV_INT8`
    pub kv_int8: Option<&'a str>,
    /// `RNB_METAL_CHAIN_GPU_TIME`
    pub chain_gpu_time: Option<&'a str>,
    /// `RNB_METAL_DELTA_RESIDENT`
    pub delta_resident: Option<&'a str>,
}

/// What the environment asks of the decode chain.
#[derive(Debug, Clone, Copy, PartialEq, Eq, Structural)]
pub struct MetalDecodeParityPolicy {
    pub parity_requested: bool,
    pub timing_enabled: bool,
    pub legacy_decode_chain_enabled: bool,
    pub legacy_gdn_layer_enabled: bool,
    pub legacy_attn_layer_enabled: bool,
    pub qwen_moe_decode_chain_enabled: bool,
    pub kv_int8_requested: bool,
    pub collect_gpu_time: bool,
    pub delta_resident: bool,
}

impl MetalDecodeParityPolicy {
    pub fn legacy_carrier_enabled(self) -> (enabled: bool)
        ensures
            enabled == (self.legacy_decode_chain_enabled && self.legacy_gdn_layer_enabled),
    {
        self.legacy_decode_chain_enabled && self.legacy_gdn_layer_enabled
    }

    /// Why 8-bit keys and values cannot be had, where they are asked for without
    /// what they need.
    pub fn kv_int8_requires_carrier_error(
        self,
        carrier_chain_enabled: bool,
        attn_layer_enabled: bool,
    ) -> (error: Option<&'static str>)
        ensures
            error is Some <==> self.kv_int8_requested && !(carrier_chain_enabled
                && attn_layer_enabled),
            error matches Some(text) ==> text@
                == "RNB_METAL_KV_INT8=1 requires Metal carrier chain and attention layer"@,
    {
        if self.kv_int8_requested && !(carrier_chain_enabled && attn_layer_enabled) {
            Some("RNB_METAL_KV_INT8=1 requires Metal carrier chain and attention layer")
        } else {
            None
        }
    }
}

/// The policy that the environment states: the parity chain is asked for by any
/// word but a falsey one, timing and 8-bit keys by `1`; the older chain, its layers
/// and the resident state are on unless set to `0`, the expert chain unless falsey.
pub open spec fn parity_policy(env: MetalDecodeParityEnv<'_>) -> MetalDecodeParityPolicy {
    MetalDecodeParityPolicy {
        parity_requested: unless_falsey(env.parity_chain, false),
        timing_enabled: set_to(env.parity_time, "1"@),
        legacy_decode_chain_enabled: !set_to(env.decode_chain, "0"@),
        legacy_gdn_layer_enabled: !set_to(env.gdn_layer, "0"@),
        legacy_attn_layer_enabled: !set_to(env.attn_layer, "0"@),
        qwen_moe_decode_chain_enabled: !switched_off(env.qwen_moe_decode_chain),
        kv_int8_requested: set_to(env.kv_int8, "1"@),
        collect_gpu_time: set_to(env.chain_gpu_time, "1"@),
        delta_resident: !set_to(env.delta_resident, "0"@),
    }
}

/// Reads the policy from the environment's values.
pub fn metal_decode_parity_policy(env: MetalDecodeParityEnv<'_>) -> (policy:
    MetalDecodeParityPolicy)
    ensures
        policy == parity_policy(env),
{
    MetalDecodeParityPolicy {
        parity_requested: env_unless_falsey(env.parity_chain, false),
        timing_enabled: env_is(env.parity_time, "1"),
        legacy_decode_chain_enabled: !env_is(env.decode_chain, "0"),
        legacy_gdn_layer_enabled: !env_is(env.gdn_layer, "0"),
        legacy_attn_layer_enabled: !env_is(env.attn_layer, "0"),
        qwen_moe_decode_chain_enabled: !env_falsey(env.qwen_moe_decode_chain),
        kv_int8_requested: env_is(env.kv_int8, "1"),
        collect_gpu_time: env_is(env.chain_gpu_time, "1"),
        delta_resident: !env_is(env.delta_resident, "0"),
    }
}

/// An environment without settings asks for the older chain and the expert chain,
/// and for nothing else.
pub proof fn law_default_policy(env: MetalDecodeParityEnv<'_>)
    requires
        env.parity_chain is None && env.parity_time is None && env.decode_chain is None,
        env.gdn_layer is None && env.attn_layer is None && env.qwen_moe_decode_chain is None,
        env.kv_int8 is None && env.chain_gpu_time is None && env.delta_resident is None,
    ensures
        parity_policy(env) == (MetalDecodeParityPolicy {
            parity_requested: false,
            timing_enabled: false,
            legacy_decode_chain_enabled: true,
            legacy_gdn_layer_enabled: true,
            legacy_attn_layer_enabled: true,
            qwen_moe_decode_chain_enabled: true,
            kv_int8_requested: false,
            collect_gpu_time: false,
            delta_resident: true,
        }),
{
}

/// A gated-delta-net layer with a dense feed-forward block, as the chain runs it.
#[derive(Debug, Clone)]
pub struct MetalGdnChainLayer<'a> {
    pub layer: usize,
    pub conv_state: Vec<u32>,
    pub delta_state: Vec<u32>,
    pub attn_norm_weight: &'a [u32],
    pub dt_bias_weight: &'a [u32],
    pub ssm_a_weight: &'a [u32],
    pub conv1d_weight: &'a [u32],
    pub ssm_norm_weight: &'a [u32],
    pub ffn_norm_weight: &'a [u32],
    pub qkv_ggml: GGMLType,
    pub qkv_raw: &'a [u8],
    pub gate_ggml: GGMLType,
    pub gate_raw: &'a [u8],
    pub alpha_ggml: GGMLType,
    pub alpha_raw: &'a [u8],
    pub beta_ggml: GGMLType,
    pub beta_raw: &'a [u8],
    pub ssm_out_ggml: GGMLType,
    pub ssm_out_raw: &'a [u8],
    pub ffn_gate_ggml: GGMLType,
    pub ffn_gate_raw: &'a [u8],
    pub ffn_up_ggml: GGMLType,
    pub ffn_up_raw: &'a [u8],
    pub ffn_down_ggml: GGMLType,
    pub ffn_down_raw: &'a [u8],
    pub hidden_dim: usize,
    pub conv_channels: usize,
    pub conv_kernel: usize,
    pub z_dim: usize,
    pub num_v_heads: usize,
    pub num_k_heads: usize,
    pub head_k_dim: usize,
    pub head_v_dim: usize,
    pub ffn_dim: usize,
    pub eps: u32,
}

/// A gated-delta-net layer with a mixture of experts, as the chain runs it.
#[derive(Debug, Clone)]
pub struct MetalGdnMoeQwenChainLayer<'a> {
    pub layer: usize,
    pub conv_state: Vec<u32>,
    pub delta_state: Vec<u32>,
    pub attn_norm_weight: &'a [u32],
    pub dt_bias_weight: &'a [u32],
    pub ssm_a_weight: &'a [u32],
    pub conv1d_weight: &'a [u32],
    pub ssm_norm_weight: &'a [u32],
    pub ffn_norm_weight: &'a [u32],
    pub qkv_ggml: GGMLType,
    pub qkv_raw: &'a [u8],
    pub gate_ggml: GGMLType,
    pub gate_raw: &'a [u8],
    pub alpha_ggml: GGMLType,
    pub alpha_raw: &'a [u8],
    pub beta_ggml: GGMLType,
    pub beta_raw: &'a [u8],
    pub ssm_out_ggml: GGMLType,
    pub ssm_out_raw: &'a [u8],
    pub router_w: &'a [u32],
    pub gate_exps_ggml: GGMLType,
    pub gate_exps_raw: &'a [u8],
    pub gate_expert_bytes: usize,
    pub up_exps_ggml: GGMLType,
    pub up_exps_raw: &'a [u8],
    pub up_expert_bytes: usize,
    pub down_exps_ggml: GGMLType,
    pub down_exps_raw: &'a [u8],
    pub down_expert_bytes: usize,
    pub shared_input_scale: &'a [u32],
    pub shared_gate_ggml: GGMLType,
    pub shared_gate_raw: &'a [u8],
    pub shared_up_ggml: GGMLType,
    pub shared_up_raw: &'a [u8],
    pub shared_down_ggml: GGMLType,
    pub shared_down_raw: &'a [u8],
    pub hidden_dim: usize,
    pub conv_channels: usize,
    pub conv_kernel: usize,
    pub z_dim: usize,
    pub num_v_heads: usize,
    pub num_k_heads: usize,
    pub head_k_dim: usize,
    pub head_v_dim: usize,
    pub n_ff: usize,
    pub n_expert: usize,
    pub n_expert_used: usize,
    pub eps: u32,
}

/// An attention layer with a dense feed-forward block, as the chain runs it.
#[derive(Debug, Clone)]
pub struct MetalAttnChainLayer<'a> {
    pub layer: usize,
    pub norm_weight: &'a [u32],
    pub q_norm_weight: &'a [u32],
    pub k_norm_weight: &'a [u32],
    pub ffn_norm_weight: &'a [u32],
    pub q_ggml: GGMLType,
    pub q_raw: &'a [u8],
    pub k_ggml: GGMLType,
    pub k_raw: &'a [u8],
    pub v_ggml: GGMLType,
    pub v_raw: &'a [u8],
    pub o_ggml: GGMLType,
    pub o_raw: &'a [u8],
    pub ffn_gate_ggml: GGMLType,
    pub ffn_gate_raw: &'a [u8],
    pub ffn_up_ggml: GGMLType,
    pub ffn_up_raw: &'a [u8],
    pub ffn_down_ggml: GGMLType,
    pub ffn_down_raw: &'a [u8],
    pub prior_k: &'a [u16],
    pub prior_v: &'a [u16],
    pub pos: usize,
    pub hidden_dim: usize,
    pub q_dim: usize,
    pub q_out_dim: usize,
    pub kv_dim: usize,
    pub head_dim: usize,
    pub num_heads: usize,
    pub num_kv_heads: usize,
    pub n_rot: usize,
    pub capacity: usize,
    pub ffn_dim: usize,
    pub eps: u32,
    pub theta: u32,
    pub scale: u32,
}

/// An attention layer with a mixture of experts, as the chain runs it.
#[derive(Debug, Clone)]
pub struct MetalAttnMoeQwenChainLayer<'a> {
    pub layer: usize,
    pub norm_weight: &'a [u32],
    pub q_norm_weight: &'a [u32],
    pub k_norm_weight: &'a [u32],
    pub ffn_norm_weight: &'a [u32],
    pub q_ggml: GGMLType,
    pub q_raw: &'a [u8],
    pub k_ggml: GGMLType,
    pub k_raw: &'a [u8],
    pub v_ggml: GGMLType,
    pub v_raw: &'a [u8],
    pub o_ggml: GGMLType,
    pub o_raw: &'a [u8],
    pub router_w: &'a [u32],
    pub gate_exps_ggml: GGMLType,
    pub gate_exps_raw: &'a [u8],
    pub gate_expert_bytes: usize,
    pub up_exps_ggml: GGMLType,
    pub up_exps_raw: &'a [u8],
    pub up_expert_bytes: usize,
    pub down_exps_ggml: GGMLType,
    pub down_exps_raw: &'a [u8],
    pub down_expert_bytes: usize,
    pub shared_input_scale: &'a [u32],
    pub shared_gate_ggml: GGMLType,
    pub shared_gate_raw: &'a [u8],
    pub shared_up_ggml: GGMLType,
    pub shared_up_raw: &'a [u8],
    pub shared_down_ggml: GGMLType,
    pub shared_down_raw: &'a [u8],
    pub prior_k: &'a [u16],
    pub prior_v: &'a [u16],
    pub pos: usize,
    pub hidden_dim: usize,
    pub q_dim: usize,
    pub q_out_dim: usize,
    pub kv_dim: usize,
    pub head_dim: usize,
    pub num_heads: usize,
    pub num_kv_heads: usize,
    pub n_rot: usize,
    pub capacity: usize,
    pub n_ff: usize,
    pub n_expert: usize,
    pub n_expert_used: usize,
    pub eps: u32,
    pub theta: u32,
    pub scale: u32,
}

/// The output projection whose best token the chain looks for.
#[derive(Debug, Clone, Copy)]
pub struct MetalDecodeOutputArgmax<'a> {
    pub norm_weight: &'a [u32],
    pub output_ggml: GGMLType,
    pub output_raw: &'a [u8],
    pub rows: usize,
    pub cols: usize,
    pub eps: u32,
}

/// A layer of the chain.
#[derive(Debug, Clone)]
pub enum MetalChainLayer<'a> {
    Attn(MetalAttnChainLayer<'a>),
    AttnMoeQwen(MetalAttnMoeQwenChainLayer<'a>),
    Gdn(MetalGdnChainLayer<'a>),
    GdnMoeQwen(MetalGdnMoeQwenChainLayer<'a>),
}

/// The codes of a delta net's five projections.
#[derive(Debug, Clone, Copy, PartialEq, Eq, Structural)]
pub struct GdnQuantCodes {
    pub qkv: u8,
    pub gate: u8,
    pub alpha: u8,
    pub beta: u8,
    pub ssm_out: u8,
}

/// The codes of a dense feed-forward block.
#[derive(Debug, Clone, Copy, PartialEq, Eq, Structural)]
pub struct FfnQuantCodes {
    pub gate: u8,
    pub up: u8,
    pub down: u8,
}

/// How the device reads a layer that it takes.
#[derive(Debug, Clone, Copy, PartialEq, Eq, Structural)]
pub enum ChainLayerCodes {
    Attn { v_is_q6k: bool, ffn_down_is_q6k: bool },
    AttnMoeQwen { v_is_q6k: bool, down_quant: u8 },
    Gdn { projections: GdnQuantCodes, ffn: FfnQuantCodes },
    GdnMoeQwen { projections: GdnQuantCodes, down_quant: u8 },
}

pub open spec fn gdn_code(t: GGMLType) -> Option<u8> {
    match t {
        GGMLType::Q4_K => Some(0),
        GGMLType::Q5_K => Some(1),
        GGMLType::Q6_K => Some(2),
        GGMLType::Q8_0 => Some(3),
        GGMLType::F32 => Some(4),
        _ => None,
    }
}

/// The code of a format that the delta-net kernels read; plain floats are one of
/// them, since some models keep their decay and beta projections that way.
pub fn gdn_quant_code(t: GGMLType) -> (code: Option<u8>)
    ensures
        code == gdn_code(t),
{
    match t {
        GGMLType::Q4_K => Some(0),
        GGMLType::Q5_K => Some(1),
        GGMLType::Q6_K => Some(2),
        GGMLType::Q8_0 => Some(3),
        GGMLType::F32 => Some(4),
        _ => None,
    }
}

pub open spec fn moe_down_code(t: GGMLType) -> Option<u8> {
    match t {
        GGMLType::Q4_K => Some(0),
        GGMLType::Q5_K => Some(1),
        GGMLType::Q6_K => Some(2),
        _ => None,
    }
}

/// The code of a format that the experts' down projection may have.
pub fn qwen_moe_decode_down_quant_code(t: GGMLType) -> (code: Option<u8>)
    ensures
        code == moe_down_code(t),
{
    match t {
        GGMLType::Q4_K => Some(0),
        GGMLType::Q5_K => Some(1),
        GGMLType::Q6_K => Some(2),
        _ => None,
    }
}

/// Heads that form groups, of at most the size that a lane can hold.
pub open spec fn heads_fit(heads: usize, kv_heads: usize, head_dim: usize) -> bool {
    &&& kv_heads != 0
    &&& heads % kv_heads == 0
    &&& head_dim <= 256
}

pub fn heads_supported(heads: usize, kv_heads: usize, head_dim: usize) -> (fit: bool)
    ensures
        fit == heads_fit(heads, kv_heads, head_dim),
{
    kv_heads != 0 && heads % kv_heads == 0 && head_dim <= 256
}

/// The codes of the five projections, where each has one.
pub open spec fn projection_codes(
    qkv: GGMLType,
    gate: GGMLType,
    alpha: GGMLType,
    beta: GGMLType,
    ssm_out: GGMLType,
) -> Option<GdnQuantCodes> {
    if gdn_code(qkv) is Some && gdn_code(gate) is Some && gdn_code(alpha) is Some && gdn_code(
        beta,
    ) is Some && gdn_code(ssm_out) is Some {
        Some(
            GdnQuantCodes {
                qkv: gdn_code(qkv)->0,
                gate: gdn_code(gate)->0,
                alpha: gdn_code(alpha)->0,
                beta: gdn_code(beta)->0,
                ssm_out: gdn_code(ssm_out)->0,
            },
        )
    } else {
        None
    }
}

pub fn gdn_projection_codes(
    qkv: GGMLType,
    gate: GGMLType,
    alpha: GGMLType,
    beta: GGMLType,
    ssm_out: GGMLType,
) -> (codes: Option<GdnQuantCodes>)
    ensures
        codes == projection_codes(qkv, gate, alpha, beta, ssm_out),
{
    Some(
        GdnQuantCodes {
            qkv: gdn_quant_code(qkv)?,
            gate: gdn_quant_code(gate)?,
            alpha: gdn_quant_code(alpha)?,
            beta: gdn_quant_code(beta)?,
            ssm_out: gdn_quant_code(ssm_out)?,
        },
    )
}

/// The codes of a dense feed-forward block, where each weight has one.
pub open spec fn ffn_codes(gate: GGMLType, up: GGMLType, down: GGMLType) -> Option<FfnQuantCodes> {
    if gdn_code(gate) is Some && gdn_code(up) is Some && gdn_code(down) is Some {
        Some(
            FfnQuantCodes {
                gate: gdn_code(gate)->0,
                up: gdn_code(up)->0,
                down: gdn_code(down)->0,
            },
        )
    } else {
        None
    }
}

pub fn gdn_ffn_codes(gate: GGMLType, up: GGMLType, down: GGMLType) -> (codes: Option<
    FfnQuantCodes,
>)
    ensures
        codes == ffn_codes(gate, up, down),
{
    Some(
        FfnQuantCodes {
            gate: gdn_quant_code(gate)?,
            up: gdn_quant_code(up)?,
            down: gdn_quant_code(down)?,
        },
    )
}

/// The experts of a layer, as far as its checks go.
pub struct MoeShape {
    pub n_expert: usize,
    pub n_expert_used: usize,
    pub hidden_dim: usize,
    pub n_ff: usize,
    pub gate_expert_bytes: usize,
    pub up_expert_bytes: usize,
    pub down_expert_bytes: usize,
    pub router_len: nat,
    pub shared_input_scale_len: nat,
    pub gate_exps_len: nat,
    pub up_exps_len: nat,
    pub down_exps_len: nat,
    pub shared_gate_len: nat,
    pub shared_up_len: nat,
    pub shared_down_len: nat,
    pub gate_exps: GGMLType,
    pub up_exps: GGMLType,
    pub down_exps: GGMLType,
    pub shared_gate: GGMLType,
    pub shared_up: GGMLType,
    pub shared_down: GGMLType,
}

impl MoeShape {
    /// The first reason that the device cannot take the experts.
    pub open spec fn reject(self) -> Option<Seq<char>> {
        if self.gate_exps != GGMLType::Q4_K || self.up_exps != GGMLType::Q4_K || self.shared_gate
            != GGMLType::Q4_K || self.shared_up != GGMLType::Q4_K {
            Some("unsupported qwen moe gate/up quant"@)
        } else if moe_down_code(self.down_exps) is None {
            Some("unsupported qwen moe down quant"@)
        } else if self.shared_down != self.down_exps {
            Some("unsupported qwen moe shared down quant"@)
        } else if !(1 <= self.n_expert_used <= 31) || self.n_expert_used > self.n_expert
            || self.hidden_dim == 0 || self.n_ff == 0 {
            Some("unsupported qwen moe shape"@)
        } else if self.router_len != self.n_expert * self.hidden_dim {
            Some("qwen moe router length mismatch"@)
        } else if self.shared_input_scale_len != self.hidden_dim {
            Some("qwen moe shared input scale length mismatch"@)
        } else if self.gate_exps_len != self.n_expert * self.gate_expert_bytes || self.up_exps_len
            != self.n_expert * self.up_expert_bytes || self.down_exps_len != self.n_expert
            * self.down_expert_bytes || self.shared_gate_len != self.gate_expert_bytes
            || self.shared_up_len != self.up_expert_bytes || self.shared_down_len
            != self.down_expert_bytes {
            Some("qwen moe raw length mismatch"@)
        } else {
            None
        }
    }
}

impl<'a> MetalGdnMoeQwenChainLayer<'a> {
    pub open spec fn moe(self) -> MoeShape {
        MoeShape {
            n_expert: self.n_expert,
            n_expert_used: self.n_expert_used,
            hidden_dim: self.hidden_dim,
            n_ff: self.n_ff,
            gate_expert_bytes: self.gate_expert_bytes,
            up_expert_bytes: self.up_expert_bytes,
            down_expert_bytes: self.down_expert_bytes,
            router_len: self.router_w@.len(),
            shared_input_scale_len: self.shared_input_scale@.len(),
            gate_exps_len: self.gate_exps_raw@.len(),
            up_exps_len: self.up_exps_raw@.len(),
            down_exps_len: self.down_exps_raw@.len(),
            shared_gate_len: self.shared_gate_raw@.len(),
            shared_up_len: self.shared_up_raw@.len(),
            shared_down_len: self.shared_down_raw@.len(),
            gate_exps: self.gate_exps_ggml,
            up_exps: self.up_exps_ggml,
            down_exps: self.down_exps_ggml,
            shared_gate: self.shared_gate_ggml,
            shared_up: self.shared_up_ggml,
            shared_down: self.shared_down_ggml,
        }
    }
}

impl<'a> MetalAttnMoeQwenChainLayer<'a> {
    pub open spec fn moe(self) -> MoeShape {
        MoeShape {
            n_expert: self.n_expert,
            n_expert_used: self.n_expert_used,
            hidden_dim: self.hidden_dim,
            n_ff: self.n_ff,
            gate_expert_bytes: self.gate_expert_bytes,
            up_expert_bytes: self.up_expert_bytes,
            down_expert_bytes: self.down_expert_bytes,
            router_len: self.router_w@.len(),
            shared_input_scale_len: self.shared_input_scale@.len(),
            gate_exps_len: self.gate_exps_raw@.len(),
            up_exps_len: self.up_exps_raw@.len(),
            down_exps_len: self.down_exps_raw@.len(),
            shared_gate_len: self.shared_gate_raw@.len(),
            shared_up_len: self.shared_up_raw@.len(),
            shared_down_len: self.shared_down_raw@.len(),
            gate_exps: self.gate_exps_ggml,
            up_exps: self.up_exps_ggml,
            down_exps: self.down_exps_ggml,
            shared_gate: self.shared_gate_ggml,
            shared_up: self.shared_up_ggml,
            shared_down: self.shared_down_ggml,
        }
    }
}

impl<'a> MetalGdnMoeQwenChainLayer<'a> {
    /// The first reason that the device cannot take the layer.
    pub open spec fn reject(self) -> Option<Seq<char>> {
        if projection_codes(
            self.qkv_ggml,
            self.gate_ggml,
            self.alpha_ggml,
            self.beta_ggml,
            self.ssm_out_ggml,
        ) is None {
            Some("unsupported gdn quant"@)
        } else if !heads_fit(self.num_v_heads, self.num_k_heads, self.head_k_dim) {
            Some("unsupported gdn shape"@)
        } else {
            self.moe().reject()
        }
    }

    pub open spec fn codes(self) -> ChainLayerCodes {
        ChainLayerCodes::GdnMoeQwen {
            projections: projection_codes(
                self.qkv_ggml,
                self.gate_ggml,
                self.alpha_ggml,
                self.beta_ggml,
                self.ssm_out_ggml,
            )->0,
            down_quant: moe_down_code(self.down_exps_ggml)->0,
        }
    }
}

impl<'a> MetalAttnMoeQwenChainLayer<'a> {
    /// The first reason that the device cannot take the layer.
    pub open spec fn reject(self) -> Option<Seq<char>> {
        if self.q_ggml != GGMLType::Q4_K || self.k_ggml != GGMLType::Q4_K || self.o_ggml
            != GGMLType::Q4_K {
            Some("unsupported attention quant"@)
        } else if q4k_or_q6k(self.v_ggml) is None {
            Some("unsupported attention v quant"@)
        } else if !heads_fit(self.num_heads, self.num_kv_heads, self.head_dim) {
            Some("unsupported attention shape"@)
        } else {
            self.moe().reject()
        }
    }

    pub open spec fn codes(self) -> ChainLayerCodes {
        ChainLayerCodes::AttnMoeQwen {
            v_is_q6k: q4k_or_q6k(self.v_ggml)->0,
            down_quant: moe_down_code(self.down_exps_ggml)->0,
        }
    }
}

impl<'a> MetalAttnChainLayer<'a> {
    /// The first reason that the device cannot take the layer.
    pub open spec fn reject(self) -> Option<Seq<char>> {
        if self.q_ggml != GGMLType::Q4_K || self.k_ggml != GGMLType::Q4_K || self.o_ggml
            != GGMLType::Q4_K || self.ffn_gate_ggml != GGMLType::Q4_K || self.ffn_up_ggml
            != GGMLType::Q4_K {
            Some("unsupported attention quant"@)
        } else if q4k_or_q6k(self.v_ggml) is None {
            Some("unsupported attention v quant"@)
        } else if q4k_or_q6k(self.ffn_down_ggml) is None {
            Some("unsupported attention ffn_down quant"@)
        } else if !heads_fit(self.num_heads, self.num_kv_heads, self.head_dim) {
            Some("unsupported attention shape"@)
        } else {
            None
        }
    }

    pub open spec fn codes(self) -> ChainLayerCodes {
        ChainLayerCodes::Attn {
            v_is_q6k: q4k_or_q6k(self.v_ggml)->0,
            ffn_down_is_q6k: q4k_or_q6k(self.ffn_down_ggml)->0,
        }
    }
}

impl<'a> MetalGdnChainLayer<'a> {
    /// The first reason that the device cannot take the layer.
    pub open spec fn reject(self) -> Option<Seq<char>> {
        if projection_codes(
            self.qkv_ggml,
            self.gate_ggml,
            self.alpha_ggml,
            self.beta_ggml,
            self.ssm_out_ggml,
        ) is None || ffn_codes(self.ffn_gate_ggml, self.ffn_up_ggml, self.ffn_down_ggml) is None {
            Some("unsupported gdn quant"@)
        } else if !heads_fit(self.num_v_heads, self.num_k_heads, self.head_k_dim) {
            Some("unsupported gdn shape"@)
        } else {
            None
        }
    }

    pub open spec fn codes(self) -> ChainLayerCodes {
        ChainLayerCodes::Gdn {
            projections: projection_codes(
                self.qkv_ggml,
                self.gate_ggml,
                self.alpha_ggml,
                self.beta_ggml,
                self.ssm_out_ggml,
            )->0,
            ffn: ffn_codes(self.ffn_gate_ggml, self.ffn_up_ggml, self.ffn_down_ggml)->0,
        }
    }
}

impl<'a> MetalChainLayer<'a> {
    /// The first reason that the device cannot take the layer.
    pub open spec fn reject(self) -> Option<Seq<char>> {
        match self {
            MetalChainLayer::Attn(layer) => layer.reject(),
            MetalChainLayer::AttnMoeQwen(layer) => layer.reject(),
            MetalChainLayer::Gdn(layer) => layer.reject(),
            MetalChainLayer::GdnMoeQwen(layer) => layer.reject(),
        }
    }

    /// How the device reads the layer, where it takes it.
    pub open spec fn codes(self) -> ChainLayerCodes {
        match self {
            MetalChainLayer::Attn(layer) => layer.codes(),
            MetalChainLayer::AttnMoeQwen(layer) => layer.codes(),
            MetalChainLayer::Gdn(layer) => layer.codes(),
            MetalChainLayer::GdnMoeQwen(layer) => layer.codes(),
        }
    }
}

/// Whether `handed` is the outcome for a layer that is rejected for `reject`, or
/// read by `codes` where it is not.
pub open spec fn layer_outcome(
    reject: Option<Seq<char>>,
    codes: ChainLayerCodes,
    handed: Result<ChainLayerCodes, &'static str>,
) -> bool {
    match (reject, handed) {
        (None, Ok(handed)) => handed == codes,
        (Some(reason), Err(text)) => text@ == reason,
        _ => false,
    }
}

/// Checks a delta-net layer with experts.
pub fn gdn_moe_qwen_chain_ref_if_supported(s: &MetalGdnMoeQwenChainLayer<'_>) -> (handed: Result<
    ChainLayerCodes,
    &'static str,
>)
    ensures
        layer_outcome(s.reject(), s.codes(), handed),
{
    let projections = match gdn_projection_codes(
        s.qkv_ggml,
        s.gate_ggml,
        s.alpha_ggml,
        s.beta_ggml,
        s.ssm_out_ggml,
    ) {
        Some(codes) => codes,
        None => return Err("unsupported gdn quant"),
    };
    if !heads_supported(s.num_v_heads, s.num_k_heads, s.head_k_dim) {
        return Err("unsupported gdn shape");
    }
    if s.gate_exps_ggml != GGMLType::Q4_K || s.up_exps_ggml != GGMLType::Q4_K || s.shared_gate_ggml
        != GGMLType::Q4_K || s.shared_up_ggml != GGMLType::Q4_K {
        return Err("unsupported qwen moe gate/up quant");
    }
    let down_quant = match qwen_moe_decode_down_quant_code(s.down_exps_ggml) {
        Some(code) => code,
        None => return Err("unsupported qwen moe down quant"),
    };
    if s.shared_down_ggml != s.down_exps_ggml {
        return Err("unsupported qwen moe shared down quant");
    }
    if s.n_expert_used == 0 || s.n_expert_used > 31 || s.n_expert_used > s.n_expert || s.hidden_dim
        == 0 || s.n_ff == 0 {
        return Err("unsupported qwen moe shape");
    }
    if !is_product(s.router_w.len(), s.n_expert, s.hidden_dim) {
        return Err("qwen moe router length mismatch");
    }
    if s.shared_input_scale.len() != s.hidden_dim {
        return Err("qwen moe shared input scale length mismatch");
    }
    if !is_product(s.gate_exps_raw.len(), s.n_expert, s.gate_expert_bytes) || !is_product(
        s.up_exps_raw.len(),
        s.n_expert,
        s.up_expert_bytes,
    ) || !is_product(s.down_exps_raw.len(), s.n_expert, s.down_expert_bytes)
        || s.shared_gate_raw.len() != s.gate_expert_bytes || s.shared_up_raw.len()
        != s.up_expert_bytes || s.shared_down_raw.len() != s.down_expert_bytes {
        return Err("qwen moe raw length mismatch");
    }
    Ok(ChainLayerCodes::GdnMoeQwen { projections, down_quant })
}

/// Checks an attention layer with experts.
pub fn attn_moe_qwen_chain_ref_if_supported(s: &MetalAttnMoeQwenChainLayer<'_>) -> (handed: Result<
    ChainLayerCodes,
    &'static str,
>)
    ensures
        layer_outcome(s.reject(), s.codes(), handed),
{
    if s.q_ggml != GGMLType::Q4_K || s.k_ggml != GGMLType::Q4_K || s.o_ggml != GGMLType::Q4_K {
        return Err("unsupported attention quant");
    }
    let v_is_q6k = match is_q6k_of_q4k_or_q6k(s.v_ggml) {
        Some(is_q6k) => is_q6k,
        None => return Err("unsupported attention v quant"),
    };
    if !heads_supported(s.num_heads, s.num_kv_heads, s.head_dim) {
        return Err("unsupported attention shape");
    }
    if s.gate_exps_ggml != GGMLType::Q4_K || s.up_exps_ggml != GGMLType::Q4_K || s.shared_gate_ggml
        != GGMLType::Q4_K || s.shared_up_ggml != GGMLType::Q4_K {
        return Err("unsupported qwen moe gate/up quant");
    }
    let down_quant = match qwen_moe_decode_down_quant_code(s.down_exps_ggml) {
        Some(code) => code,
        None => return Err("unsupported qwen moe down quant"),
    };
    if s.shared_down_ggml != s.down_exps_ggml {
        return Err("unsupported qwen moe shared down quant");
    }
    if s.n_expert_used == 0 || s.n_expert_used > 31 || s.n_expert_used > s.n_expert || s.hidden_dim
        == 0 || s.n_ff == 0 {
        return Err("unsupported qwen moe shape");
    }
    if !is_product(s.router_w.len(), s.n_expert, s.hidden_dim) {
        return Err("qwen moe router length mismatch");
    }
    if s.shared_input_scale.len() != s.hidden_dim {
        return Err("qwen moe shared input scale length mismatch");
    }
    if !is_product(s.gate_exps_raw.len(), s.n_expert, s.gate_expert_bytes) || !is_product(
        s.up_exps_raw.len(),
        s.n_expert,
        s.up_expert_bytes,
    ) || !is_product(s.down_exps_raw.len(), s.n_expert, s.down_expert_bytes)
        || s.shared_gate_raw.len() != s.gate_expert_bytes || s.shared_up_raw.len()
        != s.up_expert_bytes || s.shared_down_raw.len() != s.down_expert_bytes {
        return Err("qwen moe raw length mismatch");
    }
    Ok(ChainLayerCodes::AttnMoeQwen { v_is_q6k, down_quant })
}

fn attn_chain_codes(a: &MetalAttnChainLayer<'_>) -> (handed: Result<ChainLayerCodes, &'static str>)
    ensures
        layer_outcome(a.reject(), a.codes(), handed),
{
    if a.q_ggml != GGMLType::Q4_K || a.k_ggml != GGMLType::Q4_K || a.o_ggml != GGMLType::Q4_K
        || a.ffn_gate_ggml != GGMLType::Q4_K || a.ffn_up_ggml != GGMLType::Q4_K {
        return Err("unsupported attention quant");
    }
    let v_is_q6k = match is_q6k_of_q4k_or_q6k(a.v_ggml) {
        Some(is_q6k) => is_q6k,
        None => return Err("unsupported attention v quant"),
    };
    let ffn_down_is_q6k = match is_q6k_of_q4k_or_q6k(a.ffn_down_ggml) {
        Some(is_q6k) => is_q6k,
        None => return Err("unsupported attention ffn_down quant"),
    };
    if !heads_supported(a.num_heads, a.num_kv_heads, a.head_dim) {
        return Err("unsupported attention shape");
    }
    Ok(ChainLayerCodes::Attn { v_is_q6k, ffn_down_is_q6k })
}

fn gdn_chain_codes(s: &MetalGdnChainLayer<'_>) -> (handed: Result<ChainLayerCodes, &'static str>)
    ensures
        layer_outcome(s.reject(), s.codes(), handed),
{
    let projections = match gdn_projection_codes(
        s.qkv_ggml,
        s.gate_ggml,
        s.alpha_ggml,
        s.beta_ggml,
        s.ssm_out_ggml,
    ) {
        Some(codes) => codes,
        None => return Err("unsupported gdn quant"),
    };
    let ffn = match gdn_ffn_codes(s.ffn_gate_ggml, s.ffn_up_ggml, s.ffn_down_ggml) {
        Some(codes) => codes,
        None => return Err("unsupported gdn quant"),
    };
    if !heads_supported(s.num_v_heads, s.num_k_heads, s.head_k_dim) {
        return Err("unsupported gdn shape");
    }
    Ok(ChainLayerCodes::Gdn { projections, ffn })
}

fn chain_layer_codes(layer: &MetalChainLayer<'_>) -> (handed: Result<ChainLayerCodes, &'static str>)
    ensures
        layer_outcome(layer.reject(), layer.codes(), handed),
{
    match layer {
        MetalChainLayer::Attn(a) => attn_chain_codes(a),
        MetalChainLayer::AttnMoeQwen(s) => attn_moe_qwen_chain_ref_if_supported(s),
        MetalChainLayer::Gdn(s) => gdn_chain_codes(s),
        MetalChainLayer::GdnMoeQwen(s) => gdn_moe_qwen_chain_ref_if_supported(s),
    }
}

/// How the device runs a chain.
#[derive(Debug, Clone, Copy, PartialEq, Eq, Structural)]
pub struct DecodeChainOptions {
    pub collect_timing: bool,
    pub delta_resident: bool,
}

pub fn decode_chain_options(policy: MetalDecodeParityPolicy) -> (options: DecodeChainOptions)
    ensures
        options == (DecodeChainOptions {
            collect_timing: policy.timing_enabled || policy.collect_gpu_time,
            delta_resident: policy.delta_resident,
        }),
{
    DecodeChainOptions {
        collect_timing: policy.timing_enabled || policy.collect_gpu_time,
        delta_resident: policy.delta_resident,
    }
}

/// A chain as the device is asked to run it: each layer with the codes to read it by,
/// and the output projection, where the best token is looked for, with its code.
#[derive(Debug)]
pub struct DecodeChainCall<'b, 'a> {
    pub layers: &'b [MetalChainLayer<'a>],
    pub codes: Vec<ChainLayerCodes>,
    pub output: Option<(MetalDecodeOutputArgmax<'a>, u8)>,
    pub options: DecodeChainOptions,
}

/// The code of the output projection, where one is given; `None` where the device
/// cannot read it.
pub open spec fn output_code(output: Option<MetalDecodeOutputArgmax<'_>>) -> Option<Option<u8>> {
    match output {
        None => Some(None),
        Some(output) => match output.output_ggml {
            GGMLType::Q4_K => Some(Some(0u8)),
            GGMLType::Q6_K => Some(Some(2u8)),
            _ => None,
        },
    }
}

/// The first reason that a chain is not run: of its layers in order, then of its
/// output projection.
pub open spec fn chain_reject(
    layers: Seq<MetalChainLayer<'_>>,
    output: Option<MetalDecodeOutputArgmax<'_>>,
    from: int,
) -> Option<Seq<char>>
    decreases layers.len() - from,
{
    if from < 0 || from >= layers.len() {
        if output_code(output) is None {
            Some("unsupported output quant"@)
        } else {
            None
        }
    } else {
        match layers[from].reject() {
            Some(reason) => Some(reason),
            None => chain_reject(layers, output, from + 1),
        }
    }
}

/// Whether `codes` are those of `layers`, one for one.
pub open spec fn codes_of(
    layers: Seq<MetalChainLayer<'_>>,
    codes: Seq<ChainLayerCodes>,
) -> bool {
    &&& codes.len() == layers.len()
    &&& forall|k: int| 0 <= k < layers.len() ==> codes[k] == (#[trigger] layers[k]).codes()
}

/// The codes of a chain's layers, or the first reason that the device cannot take them.
fn chain_codes(
    layers: &[MetalChainLayer<'_>],
    output_argmax: Option<MetalDecodeOutputArgmax<'_>>,
) -> (codes: Result<Vec<ChainLayerCodes>, &'static str>)
    ensures
        match codes {
            Ok(codes) => {
                &&& codes_of(layers@, codes@)
                &&& chain_reject(layers@, output_argmax, 0) == chain_reject(
                    layers@,
                    output_argmax,
                    layers@.len() as int,
                )
            },
            Err(reason) => chain_reject(layers@, output_argmax, 0) == Some(reason@),
        },
{
    let mut codes: Vec<ChainLayerCodes> = Vec::new();
    let mut i: usize = 0;
    while i < layers.len()
        invariant
            i <= layers@.len(),
            codes@.len() == i,
            forall|k: int| 0 <= k < i ==> codes@[k] == (#[trigger] layers@[k]).codes(),
            chain_reject(layers@, output_argmax, 0) == chain_reject(
                layers@,
                output_argmax,
                i as int,
            ),
        decreases layers@.len() - i,
    {
        match chain_layer_codes(&layers[i]) {
            Ok(handed) => {
                codes.push(handed);
            },
            Err(reason) => {
                return Err(reason);
            },
        }
        i += 1;
    }
    Ok(codes)
}

/// What is reported of a chain that the device was asked to run: which of the two
/// chains it counts for is told where it ran.
pub open spec fn chain_report(
    report: MetalDecodeChainReport,
    policy: MetalDecodeParityPolicy,
) -> MetalDecodeChainReport {
    if report.did_run && policy.parity_requested {
        MetalDecodeChainReport { pm51_extension_hit: true, ..report }
    } else if report.did_run {
        MetalDecodeChainReport { legacy_chain_hit: true, ..report }
    } else {
        report
    }
}

/// Whether `call` asks for the chain of `layers` with `output`.
pub open spec fn asks_for_chain<'b, 'a>(
    call: DecodeChainCall<'b, 'a>,
    policy: MetalDecodeParityPolicy,
    layers: &'b [MetalChainLayer<'a>],
    output: Option<MetalDecodeOutputArgmax<'a>>,
) -> bool {
    &&& call.layers == layers
    &&& codes_of(layers@, call.codes@)
    &&& call.output == (match output {
        None => None,
        Some(given) => Some((given, output_code(output)->0->0)),
    })
    &&& call.options == (DecodeChainOptions {
        collect_timing: policy.timing_enabled || policy.collect_gpu_time,
        delta_resident: policy.delta_resident,
    })
}

/// Whether a chain comes to `report` and leaves `after` in the counters: an empty one is
/// done, one that the device cannot take falls back with the first reason, any other is
/// run and counted.
pub open spec fn chain_answers<
    'b,
    'a,
    H,
    D: FnOnce(DecodeChainCall<'b, 'a>, H) -> MetalDecodeChainReport,
>(
    policy: MetalDecodeParityPolicy,
    layers: &'b [MetalChainLayer<'a>],
    output: Option<MetalDecodeOutputArgmax<'a>>,
    state: H,
    device: D,
    before: MetalDecodeParityCounters,
    after: MetalDecodeParityCounters,
    report: MetalDecodeChainReport,
) -> bool {
    if layers@.len() == 0 {
        &&& report == (MetalDecodeChainReport {
            did_run: true,
            ..MetalDecodeChainReport::spec_none()
        })
        &&& after == before
    } else {
        match chain_reject(layers@, output, 0) {
            Some(reason) => {
                &&& report.fallback_reason is Some
                &&& report.fallback_reason->0@ == reason
                &&& report == (MetalDecodeChainReport {
                    fallback_reason: report.fallback_reason,
                    ..MetalDecodeChainReport::spec_none()
                })
                &&& after == before
            },
            None => exists|call: DecodeChainCall<'b, 'a>, reply: MetalDecodeChainReport|
                {
                    &&& asks_for_chain(call, policy, layers, output)
                    &&& #[trigger] call_ensures(device, (call, state), reply)
                    &&& report == chain_report(reply, policy)
                    &&& after == before.after_chain(report)
                },
        }
    }
}

/// Runs all layers of a token on the device. `state` is what the device updates: the
/// hidden state and the layers' states.
pub fn metal_decode_chain_run<
    'b,
    'a,
    H,
    D: FnOnce(DecodeChainCall<'b, 'a>, H) -> MetalDecodeChainReport,
>(
    counters: &mut MetalDecodeParityCounters,
    policy: MetalDecodeParityPolicy,
    layers: &'b [MetalChainLayer<'a>],
    output_argmax: Option<MetalDecodeOutputArgmax<'a>>,
    state: H,
    device: D,
) -> (report: MetalDecodeChainReport)
    requires
        forall|call: DecodeChainCall<'b, 'a>| call_requires(device, (call, state)),
        forall|call: DecodeChainCall<'b, 'a>, reply: MetalDecodeChainReport|
            layers@.len() > 0 && chain_reject(layers@, output_argmax, 0) is None && asks_for_chain(
                call,
                policy,
                layers,
                output_argmax,
            ) && #[trigger] call_ensures(device, (call, state), reply) ==> old(counters).room_for(
                reply,
            ),
    ensures
        chain_answers(
            policy,
            layers,
            output_argmax,
            state,
            device,
            *old(counters),
            *final(counters),
            report,
        ),
{
    if layers.len() == 0 {
        return MetalDecodeChainReport { did_run: true, ..MetalDecodeChainReport::default() };
    }
    let codes = match chain_codes(layers, output_argmax) {
        Ok(codes) => codes,
        Err(reason) => return MetalDecodeChainReport::fallback(reason, false),
    };
    let output: Option<(MetalDecodeOutputArgmax<'a>, u8)> = match output_argmax {
        Some(output) => match output.output_ggml {
            GGMLType::Q4_K => Some((output, 0)),
            GGMLType::Q6_K => Some((output, 2)),
            _ => return MetalDecodeChainReport::fallback("unsupported output quant", false),
        },
        None => None,
    };
    let call = DecodeChainCall { layers, codes, output, options: decode_chain_options(policy) };
    assert(asks_for_chain(call, policy, layers, output_argmax));
    let mut report: MetalDecodeChainReport = device(call, state);
    if report.did_run {
        if policy.parity_requested {
            report.pm51_extension_hit = true;
        } else {
            report.legacy_chain_hit = true;
        }
    }
    metal_decode_parity_record_chain_report(counters, report);
    report
}

/// A chain is run exactly if the device takes each of its layers and its output
/// projection.
pub proof fn law_chain_runs_iff_all_supported(
    layers: Seq<MetalChainLayer<'_>>,
    output: Option<MetalDecodeOutputArgmax<'_>>,
    from: int,
)
    requires
        0 <= from <= layers.len(),
    ensures
        chain_reject(layers, output, from) is None <==> {
            &&& output_code(output) is Some
            &&& forall|k: int| from <= k < layers.len() ==> (#[trigger] layers[k]).reject() is None
        },
    decreases layers.len() - from,
{
    if from < layers.len() {
        law_chain_runs_iff_all_supported(layers, output, from + 1);
        assert(layers[from].reject() is None || chain_reject(layers, output, from) is Some);
    }
}

/// Whether the delta-net kernels read a format.
pub open spec fn is_gdn_format(t: GGMLType) -> bool {
    t is Q4_K || t is Q5_K || t is Q6_K || t is Q8_0 || t is F32
}

/// Whether the experts' down projection may have a format.
pub open spec fn is_down_format(t: GGMLType) -> bool {
    t is Q4_K || t is Q5_K || t is Q6_K
}

/// Each format has its own code, and the two tables agree where both have one.
pub proof fn law_formats_are_told_apart_by_code(t: GGMLType)
    ensures
        gdn_code(t) == Some(0u8) <==> t is Q4_K,
        gdn_code(t) == Some(1u8) <==> t is Q5_K,
        gdn_code(t) == Some(2u8) <==> t is Q6_K,
        gdn_code(t) == Some(3u8) <==> t is Q8_0,
        gdn_code(t) == Some(4u8) <==> t is F32,
        gdn_code(t) is Some <==> is_gdn_format(t),
        moe_down_code(t) is Some <==> is_down_format(t),
        moe_down_code(t) is Some ==> moe_down_code(t) == gdn_code(t),
{
}

/// Each projection of a delta net, and each weight of its feed-forward block, is told the
/// code of its own format; they have codes exactly if the kernels read every one of them.
pub proof fn law_projections_have_their_own_codes(
    qkv: GGMLType,
    gate: GGMLType,
    alpha: GGMLType,
    beta: GGMLType,
    ssm_out: GGMLType,
    up: GGMLType,
    down: GGMLType,
)
    ensures
        projection_codes(qkv, gate, alpha, beta, ssm_out) is Some <==> is_gdn_format(qkv)
            && is_gdn_format(gate) && is_gdn_format(alpha) && is_gdn_format(beta) && is_gdn_format(
            ssm_out,
        ),
        projection_codes(qkv, gate, alpha, beta, ssm_out) matches Some(codes) ==> {
            &&& Some(codes.qkv) == gdn_code(qkv)
            &&& Some(codes.gate) == gdn_code(gate)
            &&& Some(codes.alpha) == gdn_code(alpha)
            &&& Some(codes.beta) == gdn_code(beta)
            &&& Some(codes.ssm_out) == gdn_code(ssm_out)
        },
        ffn_codes(gate, up, down) is Some <==> is_gdn_format(gate) && is_gdn_format(up)
            && is_gdn_format(down),
        ffn_codes(gate, up, down) matches Some(codes) ==> {
            &&& Some(codes.gate) == gdn_code(gate)
            &&& Some(codes.up) == gdn_code(up)
            &&& Some(codes.down) == gdn_code(down)
        },
{
}

/// Heads share keys and values in groups of one size: `kv_heads` groups of `k` heads each
/// fit, as long as a head has at most 256 dimensions, and nothing else does.
pub proof fn law_heads_form_equal_groups(heads: usize, kv_heads: usize, head_dim: usize)
    ensures
        heads_fit(heads, kv_heads, head_dim) <==> kv_heads > 0 && head_dim <= 256 && exists|k: int|
            0 <= k && heads == #[trigger] (k * kv_heads),
{
    if kv_heads > 0 {
        vstd::arithmetic::div_mod::lemma_fundamental_div_mod(heads as int, kv_heads as int);
        vstd::arithmetic::mul::lemma_mul_is_commutative(
            kv_heads as int,
            heads as int / kv_heads as int,
        );
        if heads % kv_heads == 0 {
            let k = heads as int / kv_heads as int;
            assert(0 <= k) by {
                vstd::arithmetic::div_mod::lemma_div_pos_is_pos(heads as int, kv_heads as int);
            }
            assert(heads == k * kv_heads);
        }
        if exists|k: int| 0 <= k && heads == #[trigger] (k * kv_heads) {
            let k = choose|k: int| 0 <= k && heads == #[trigger] (k * kv_heads);
            vstd::arithmetic::div_mod::lemma_mod_multiples_basic(k, kv_heads as int);
        }
    }
}

/// Whether the experts of a layer are such as the device takes: gates and ups in Q4_K, both
/// downs in one format that it reads, up to 31 of the experts used, a router row for each
/// expert, and each weight of the length that the others and the sizes give.
pub open spec fn takes_experts(m: MoeShape) -> bool {
    &&& m.gate_exps is Q4_K && m.up_exps is Q4_K
    &&& m.shared_gate is Q4_K && m.shared_up is Q4_K
    &&& is_down_format(m.down_exps) && m.shared_down == m.down_exps
    &&& 1 <= m.n_expert_used <= 31 && m.n_expert_used <= m.n_expert
    &&& m.hidden_dim > 0 && m.n_ff > 0
    &&& m.router_len == m.n_expert * m.hidden_dim
    &&& m.shared_input_scale_len == m.hidden_dim
    &&& m.gate_exps_len == m.n_expert * m.gate_expert_bytes
    &&& m.up_exps_len == m.n_expert * m.up_expert_bytes
    &&& m.down_exps_len == m.n_expert * m.down_expert_bytes
    &&& m.shared_gate_len == m.gate_expert_bytes
    &&& m.shared_up_len == m.up_expert_bytes
    &&& m.shared_down_len == m.down_expert_bytes
}

/// Experts are rejected exactly if one of the conditions fails, and for the first of them.
pub proof fn law_which_experts_a_chain_takes(m: MoeShape)
    ensures
        m.reject() is None <==> takes_experts(m),
        !(m.gate_exps is Q4_K && m.up_exps is Q4_K && m.shared_gate is Q4_K && m.shared_up is Q4_K)
            ==> m.reject() == Some("unsupported qwen moe gate/up quant"@),
        m.gate_exps is Q4_K && m.up_exps is Q4_K && m.shared_gate is Q4_K && m.shared_up is Q4_K
            ==> {
            &&& !is_down_format(m.down_exps) ==> m.reject() == Some(
                "unsupported qwen moe down quant"@,
            )
            &&& is_down_format(m.down_exps) && m.shared_down != m.down_exps ==> m.reject() == Some(
                "unsupported qwen moe shared down quant"@,
            )
            &&& is_down_format(m.down_exps) && m.shared_down == m.down_exps ==> {
                let shaped = 1 <= m.n_expert_used <= 31 && m.n_expert_used <= m.n_expert
                    && m.hidden_dim > 0 && m.n_ff > 0;
                let routed = m.router_len == m.n_expert * m.hidden_dim;
                let scaled = m.shared_input_scale_len == m.hidden_dim;
                &&& !shaped ==> m.reject() == Some("unsupported qwen moe shape"@)
                &&& shaped && !routed ==> m.reject() == Some("qwen moe router length mismatch"@)
                &&& shaped && routed && !scaled ==> m.reject() == Some(
                    "qwen moe shared input scale length mismatch"@,
                )
                &&& shaped && routed && scaled && !takes_experts(m) ==> m.reject() == Some(
                    "qwen moe raw length mismatch"@,
                )
            }
        },
{
}

/// The checks of a layer's experts are those of its own experts.
pub proof fn law_the_experts_of_a_layer_are_its_own(
    gdn: MetalGdnMoeQwenChainLayer<'_>,
    attn: MetalAttnMoeQwenChainLayer<'_>,
)
    ensures
        gdn.moe().n_expert == gdn.n_expert,
        gdn.moe().n_expert_used == gdn.n_expert_used,
        gdn.moe().hidden_dim == gdn.hidden_dim,
        gdn.moe().n_ff == gdn.n_ff,
        gdn.moe().gate_expert_bytes == gdn.gate_expert_bytes,
        gdn.moe().up_expert_bytes == gdn.up_expert_bytes,
        gdn.moe().down_expert_bytes == gdn.down_expert_bytes,
        gdn.moe().router_len == gdn.router_w@.len(),
        gdn.moe().shared_input_scale_len == gdn.shared_input_scale@.len(),
        gdn.moe().gate_exps_len == gdn.gate_exps_raw@.len(),
        gdn.moe().up_exps_len == gdn.up_exps_raw@.len(),
        gdn.moe().down_exps_len == gdn.down_exps_raw@.len(),
        gdn.moe().shared_gate_len == gdn.shared_gate_raw@.len(),
        gdn.moe().shared_up_len == gdn.shared_up_raw@.len(),
        gdn.moe().shared_down_len == gdn.shared_down_raw@.len(),
        gdn.moe().gate_exps == gdn.gate_exps_ggml,
        gdn.moe().up_exps == gdn.up_exps_ggml,
        gdn.moe().down_exps == gdn.down_exps_ggml,
        gdn.moe().shared_gate == gdn.shared_gate_ggml,
        gdn.moe().shared_up == gdn.shared_up_ggml,
        gdn.moe().shared_down == gdn.shared_down_ggml,
        attn.moe().n_expert == attn.n_expert,
        attn.moe().n_expert_used == attn.n_expert_used,
        attn.moe().hidden_dim == attn.hidden_dim,
        attn.moe().n_ff == attn.n_ff,
        attn.moe().gate_expert_bytes == attn.gate_expert_bytes,
        attn.moe().up_expert_bytes == attn.up_expert_bytes,
        attn.moe().down_expert_bytes == attn.down_expert_bytes,
        attn.moe().router_len == attn.router_w@.len(),
        attn.moe().shared_input_scale_len == attn.shared_input_scale@.len(),
        attn.moe().gate_exps_len == attn.gate_exps_raw@.len(),
        attn.moe().up_exps_len == attn.up_exps_raw@.len(),
        attn.moe().down_exps_len == attn.down_exps_raw@.len(),
        attn.moe().shared_gate_len == attn.shared_gate_raw@.len(),
        attn.moe().shared_up_len == attn.shared_up_raw@.len(),
        attn.moe().shared_down_len == attn.shared_down_raw@.len(),
        attn.moe().gate_exps == attn.gate_exps_ggml,
        attn.moe().up_exps == attn.up_exps_ggml,
        attn.moe().down_exps == attn.down_exps_ggml,
        attn.moe().shared_gate == attn.shared_gate_ggml,
        attn.moe().shared_up == attn.shared_up_ggml,
        attn.moe().shared_down == attn.shared_down_ggml,
{
}

/// Which attention layers the device takes, why it rejects one, and how it is told to read
/// one that it takes.
pub proof fn law_which_attention_layers_are_taken(
    a: MetalAttnChainLayer<'_>,
    m: MetalAttnMoeQwenChainLayer<'_>,
)
    ensures
        a.reject() is None <==> {
            &&& a.q_ggml is Q4_K && a.k_ggml is Q4_K && a.o_ggml is Q4_K
            &&& a.ffn_gate_ggml is Q4_K && a.ffn_up_ggml is Q4_K
            &&& a.v_ggml is Q4_K || a.v_ggml is Q6_K
            &&& a.ffn_down_ggml is Q4_K || a.ffn_down_ggml is Q6_K
            &&& heads_fit(a.num_heads, a.num_kv_heads, a.head_dim)
        },
        a.reject() is None ==> (a.codes() matches ChainLayerCodes::Attn {
            v_is_q6k,
            ffn_down_is_q6k,
        } && v_is_q6k == (a.v_ggml is Q6_K) && ffn_down_is_q6k == (a.ffn_down_ggml is Q6_K)),
        !(a.q_ggml is Q4_K && a.k_ggml is Q4_K && a.o_ggml is Q4_K && a.ffn_gate_ggml is Q4_K
            && a.ffn_up_ggml is Q4_K) ==> a.reject() == Some("unsupported attention quant"@),
        a.q_ggml is Q4_K && a.k_ggml is Q4_K && a.o_ggml is Q4_K && a.ffn_gate_ggml is Q4_K
            && a.ffn_up_ggml is Q4_K ==> {
            let v_read = a.v_ggml is Q4_K || a.v_ggml is Q6_K;
            let down_read = a.ffn_down_ggml is Q4_K || a.ffn_down_ggml is Q6_K;
            &&& !v_read ==> a.reject() == Some("unsupported attention v quant"@)
            &&& v_read && !down_read ==> a.reject() == Some("unsupported attention ffn_down quant"@)
            &&& v_read && down_read && !heads_fit(a.num_heads, a.num_kv_heads, a.head_dim)
                ==> a.reject() == Some("unsupported attention shape"@)
        },
        m.reject() is None <==> {
            &&& m.q_ggml is Q4_K && m.k_ggml is Q4_K && m.o_ggml is Q4_K
            &&& m.v_ggml is Q4_K || m.v_ggml is Q6_K
            &&& heads_fit(m.num_heads, m.num_kv_heads, m.head_dim)
            &&& takes_experts(m.moe())
        },
        m.reject() is None ==> (m.codes() matches ChainLayerCodes::AttnMoeQwen {
            v_is_q6k,
            down_quant,
        } && v_is_q6k == (m.v_ggml is Q6_K) && Some(down_quant) == gdn_code(m.down_exps_ggml)),
        !(m.q_ggml is Q4_K && m.k_ggml is Q4_K && m.o_ggml is Q4_K) ==> m.reject() == Some(
            "unsupported attention quant"@,
        ),
        m.q_ggml is Q4_K && m.k_ggml is Q4_K && m.o_ggml is Q4_K ==> {
            let v_read = m.v_ggml is Q4_K || m.v_ggml is Q6_K;
            let fit = heads_fit(m.num_heads, m.num_kv_heads, m.head_dim);
            &&& !v_read ==> m.reject() == Some("unsupported attention v quant"@)
            &&& v_read && !fit ==> m.reject() == Some("unsupported attention shape"@)
            &&& v_read && fit ==> m.reject() == m.moe().reject()
        },
{
    law_which_experts_a_chain_takes(m.moe());
}

/// Which delta-net layers the device takes, why it rejects one, and how it is told to read
/// one that it takes.
pub proof fn law_which_delta_net_layers_are_taken(
    s: MetalGdnChainLayer<'_>,
    m: MetalGdnMoeQwenChainLayer<'_>,
)
    ensures
        s.reject() is None <==> {
            &&& is_gdn_format(s.qkv_ggml) && is_gdn_format(s.gate_ggml)
            &&& is_gdn_format(s.alpha_ggml) && is_gdn_format(s.beta_ggml)
            &&& is_gdn_format(s.ssm_out_ggml)
            &&& is_gdn_format(s.ffn_gate_ggml) && is_gdn_format(s.ffn_up_ggml)
            &&& is_gdn_format(s.ffn_down_ggml)
            &&& heads_fit(s.num_v_heads, s.num_k_heads, s.head_k_dim)
        },
        s.reject() is None ==> (s.codes() matches ChainLayerCodes::Gdn { projections, ffn } && {
            &&& Some(projections.qkv) == gdn_code(s.qkv_ggml)
            &&& Some(projections.gate) == gdn_code(s.gate_ggml)
            &&& Some(projections.alpha) == gdn_code(s.alpha_ggml)
            &&& Some(projections.beta) == gdn_code(s.beta_ggml)
            &&& Some(projections.ssm_out) == gdn_code(s.ssm_out_ggml)
            &&& Some(ffn.gate) == gdn_code(s.ffn_gate_ggml)
            &&& Some(ffn.up) == gdn_code(s.ffn_up_ggml)
            &&& Some(ffn.down) == gdn_code(s.ffn_down_ggml)
        }),
        s.reject() is Some ==> s.reject() == Some(
            if heads_fit(s.num_v_heads, s.num_k_heads, s.head_k_dim) || !(is_gdn_format(s.qkv_ggml)
                && is_gdn_format(s.gate_ggml) && is_gdn_format(s.alpha_ggml) && is_gdn_format(
                s.beta_ggml,
            ) && is_gdn_format(s.ssm_out_ggml) && is_gdn_format(s.ffn_gate_ggml) && is_gdn_format(
                s.ffn_up_ggml,
            ) && is_gdn_format(s.ffn_down_ggml)) {
                "unsupported gdn quant"@
            } else {
                "unsupported gdn shape"@
            },
        ),
        m.reject() is None <==> {
            &&& is_gdn_format(m.qkv_ggml) && is_gdn_format(m.gate_ggml)
            &&& is_gdn_format(m.alpha_ggml) && is_gdn_format(m.beta_ggml)
            &&& is_gdn_format(m.ssm_out_ggml)
            &&& heads_fit(m.num_v_heads, m.num_k_heads, m.head_k_dim)
            &&& takes_experts(m.moe())
        },
        m.reject() is None ==> (m.codes() matches ChainLayerCodes::GdnMoeQwen {
            projections,
            down_quant,
        } && {
            &&& Some(projections.qkv) == gdn_code(m.qkv_ggml)
            &&& Some(projections.gate) == gdn_code(m.gate_ggml)
            &&& Some(projections.alpha) == gdn_code(m.alpha_ggml)
            &&& Some(projections.beta) == gdn_code(m.beta_ggml)
            &&& Some(projections.ssm_out) == gdn_code(m.ssm_out_ggml)
            &&& Some(down_quant) == gdn_code(m.down_exps_ggml)
        }),
        ({
            let read = is_gdn_format(m.qkv_ggml) && is_gdn_format(m.gate_ggml) && is_gdn_format(
                m.alpha_ggml,
            ) && is_gdn_format(m.beta_ggml) && is_gdn_format(m.ssm_out_ggml);
            let fit = heads_fit(m.num_v_heads, m.num_k_heads, m.head_k_dim);
            &&& !read ==> m.reject() == Some("unsupported gdn quant"@)
            &&& read && !fit ==> m.reject() == Some("unsupported gdn shape"@)
            &&& read && fit ==> m.reject() == m.moe().reject()
        }),
{
    law_which_experts_a_chain_takes(m.moe());
}

/// A layer of a chain is checked and read as the kind of layer that it is.
pub proof fn law_layers_are_checked_as_their_kind(layer: MetalChainLayer<'_>)
    ensures
        layer matches MetalChainLayer::Attn(a) ==> layer.reject() == a.reject() && layer.codes()
            == a.codes(),
        layer matches MetalChainLayer::AttnMoeQwen(a) ==> layer.reject() == a.reject()
            && layer.codes() == a.codes(),
        layer matches MetalChainLayer::Gdn(s) ==> layer.reject() == s.reject() && layer.codes()
            == s.codes(),
        layer matches MetalChainLayer::GdnMoeQwen(s) ==> layer.reject() == s.reject()
            && layer.codes() == s.codes(),
{
}

/// A check hands over the codes of a layer that is not rejected and tells the reason of one
/// that is; it never does both.
pub proof fn law_a_checked_layer_has_codes_or_a_reason(
    reject: Option<Seq<char>>,
    codes: ChainLayerCodes,
    handed: Result<ChainLayerCodes, &'static str>,
)
    requires
        layer_outcome(reject, codes, handed),
    ensures
        handed is Ok <==> reject is None,
        handed matches Ok(given) ==> given == codes,
        handed matches Err(text) ==> Some(text@) == reject,
{
}

/// The output projection is read in Q4_K by the code 0 or in Q6_K by the code 2; without
/// one there is nothing to read.
pub proof fn law_output_projections_are_read_in_two_formats(
    output: Option<MetalDecodeOutputArgmax<'_>>,
)
    ensures
        output is None ==> output_code(output) == Some(None::<u8>),
        output matches Some(o) ==> {
            &&& output_code(output) is Some <==> o.output_ggml is Q4_K || o.output_ggml is Q6_K
            &&& o.output_ggml is Q4_K ==> output_code(output) == Some(Some(0u8))
            &&& o.output_ggml is Q6_K ==> output_code(output) == Some(Some(2u8))
        },
{
}

/// A chain is rejected for the reason of its first layer that is, and for its output
/// projection only if no layer is.
pub proof fn law_the_first_rejected_layer_decides(
    layers: Seq<MetalChainLayer<'_>>,
    output: Option<MetalDecodeOutputArgmax<'_>>,
    from: int,
    k: int,
)
    requires
        0 <= from <= k <= layers.len(),
        forall|j: int| from <= j < k ==> (#[trigger] layers[j]).reject() is None,
    ensures
        k < layers.len() && layers[k].reject() is Some ==> chain_reject(layers, output, from)
            == layers[k].reject(),
        k == layers.len() && output_code(output) is None ==> chain_reject(layers, output, from)
            == Some("unsupported output quant"@),
        k == layers.len() && output_code(output) is Some ==> chain_reject(layers, output, from)
            is None,
    decreases k - from,
{
    if from < k {
        assert(layers[from].reject() is None);
        law_the_first_rejected_layer_decides(layers, output, from + 1, k);
    }
}

/// What the device reports of a chain stays as it is, but for which chain ran: the parity
/// chain where it was asked for, else the older one.
pub proof fn law_reports_tell_which_chain_ran(
    reply: MetalDecodeChainReport,
    policy: MetalDecodeParityPolicy,
)
    ensures
        chain_report(reply, policy).pm51_extension_hit == (reply.pm51_extension_hit
            || reply.did_run && policy.parity_requested),
        chain_report(reply, policy).legacy_chain_hit == (reply.legacy_chain_hit || reply.did_run
            && !policy.parity_requested),
        chain_report(reply, policy).did_run == reply.did_run,
        chain_report(reply, policy).qwen_moe_layers == reply.qwen_moe_layers,
        chain_report(reply, policy).fallback_reason == reply.fallback_reason,
        chain_report(reply, policy).cmd_buffers == reply.cmd_buffers,
        chain_report(reply, policy).wait_us == reply.wait_us,
        chain_report(reply, policy).upload_bytes == reply.upload_bytes,
        chain_report(reply, policy).readback_bytes == reply.readback_bytes,
        chain_report(reply, policy).state_syncs == reply.state_syncs,
        chain_report(reply, policy).output_argmax == reply.output_argmax,
{
}

/// The device is asked to run the layers that were given, each with its own codes, the
/// output projection that was given with its own code, timed where either switch asks for
/// it.
pub proof fn law_a_chain_is_asked_for_as_given<'b, 'a>(
    call: DecodeChainCall<'b, 'a>,
    policy: MetalDecodeParityPolicy,
    layers: &'b [MetalChainLayer<'a>],
    output: Option<MetalDecodeOutputArgmax<'a>>,
)
    requires
        asks_for_chain(call, policy, layers, output),
        output_code(output) is Some,
    ensures
        call.layers@ == layers@,
        call.codes@.len() == layers@.len(),
        forall|k: int| 0 <= k < layers@.len() ==> call.codes@[k] == (#[trigger] layers@[k]).codes(),
        output is None ==> call.output is None,
        output matches Some(o) ==> (call.output matches Some(asked) && asked.0 == o && asked.1
            == if o.output_ggml is Q6_K {
            2u8
        } else {
            0u8
        }),
        call.options.collect_timing == (policy.timing_enabled || policy.collect_gpu_time),
        call.options.delta_resident == policy.delta_resident,
{
}

/// An empty chain is done without the device and without a count; one with a layer or an
/// output projection that the device cannot read falls back with the reason and without a
/// count; any other is run, reported and counted.
pub proof fn law_what_becomes_of_a_chain<
    'b,
    'a,
    H,
    D: FnOnce(DecodeChainCall<'b, 'a>, H) -> MetalDecodeChainReport,
>(
    policy: MetalDecodeParityPolicy,
    layers: &'b [MetalChainLayer<'a>],
    output: Option<MetalDecodeOutputArgmax<'a>>,
    state: H,
    device: D,
    before: MetalDecodeParityCounters,
    after: MetalDecodeParityCounters,
    report: MetalDecodeChainReport,
)
    requires
        chain_answers(policy, layers, output, state, device, before, after, report),
    ensures
        ({
            let refused = layers@.len() > 0 && chain_reject(layers@, output, 0) is Some;
            &&& layers@.len() == 0 ==> report.did_run && report.fallback_reason is None
            &&& refused ==> !report.did_run && report.fallback_reason is Some && Some(
                report.fallback_reason->0@,
            ) == chain_reject(layers@, output, 0)
            &&& layers@.len() == 0 || refused ==> {
                &&& after == before
                &&& !report.pm51_extension_hit && !report.legacy_chain_hit
                &&& report.qwen_moe_layers == 0 && report.cmd_buffers == 0 && report.wait_us == 0
                &&& report.upload_bytes == 0 && report.readback_bytes == 0
                &&& report.state_syncs == 0
                &&& !report.output_argmax.attempted && !report.output_argmax.did_run
                &&& report.output_argmax.token_id is None && report.output_argmax.cmd_buffers == 0
                &&& report.output_argmax.fallback_reason is None
            }
            &&& layers@.len() > 0 && !refused ==> exists|
                call: DecodeChainCall<'b, 'a>,
                reply: MetalDecodeChainReport,
            |
                {
                    &&& #[trigger] call_ensures(device, (call, state), reply)
                    &&& asks_for_chain(call, policy, layers, output)
                    &&& report == chain_report(reply, policy)
                    &&& after == before.after_chain(report)
                }
        }),
{
}

/// What the environment asks of the chain: a word that is not falsey asks for the parity
/// chain, `1` for each of the three that are off by themselves; `0` takes away each of the
/// four that are on by themselves, a falsey word the expert chain.
pub proof fn law_each_switch_steers_its_own_part(env: MetalDecodeParityEnv<'_>)
    ensures
        parity_policy(env).parity_requested <==> env.parity_chain is Some && !switched_off(
            env.parity_chain,
        ),
        parity_policy(env).timing_enabled <==> env.parity_time is Some && env.parity_time->0@
            == "1"@,
        parity_policy(env).kv_int8_requested <==> env.kv_int8 is Some && env.kv_int8->0@ == "1"@,
        parity_policy(env).collect_gpu_time <==> env.chain_gpu_time is Some && env.chain_gpu_time->0@
            == "1"@,
        parity_policy(env).legacy_decode_chain_enabled <==> !(env.decode_chain is Some
            && env.decode_chain->0@ == "0"@),
        parity_policy(env).legacy_gdn_layer_enabled <==> !(env.gdn_layer is Some
            && env.gdn_layer->0@ == "0"@),
        parity_policy(env).legacy_attn_layer_enabled <==> !(env.attn_layer is Some
            && env.attn_layer->0@ == "0"@),
        parity_policy(env).delta_resident <==> !(env.delta_resident is Some
            && env.delta_resident->0@ == "0"@),
        parity_policy(env).qwen_moe_decode_chain_enabled <==> !switched_off(
            env.qwen_moe_decode_chain,
        ),
{
}

} // verus!
