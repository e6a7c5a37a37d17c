//! Checking drafted tokens in one go on the device.

use crate::cuda_inference::device::{answers, ask};
use crate::quant::GGMLType;
use vstd::prelude::*;

verus! {

/// A delta net's layer with experts. Floats are their bits; `S` is the net's state, which
/// the device updates.
#[derive(Debug)]
pub struct MtpDeviceVerifyGdnMoeLayer<'a, S> {
    pub layer_index: usize,
    pub attn_norm: &'a [u32],
    pub qkv_q4k: &'a [u8],
    pub qkv_quant: GGMLType,
    pub qkv_rows: usize,
    pub qkv_cols: usize,
    pub gate_q4k: &'a [u8],
    pub gate_rows: usize,
    pub gate_cols: usize,
    pub alpha_q4k: &'a [u8],
    pub alpha_f32: &'a [u32],
    pub alpha_quant: GGMLType,
    pub alpha_rows: usize,
    pub alpha_cols: usize,
    pub beta_q4k: &'a [u8],
    pub beta_f32: &'a [u32],
    pub beta_quant: GGMLType,
    pub beta_rows: usize,
    pub beta_cols: usize,
    pub conv_state: &'a [u32],
    pub conv_kernel: &'a [u32],
    pub kernel_size: usize,
    pub dt_bias: &'a [u32],
    pub ssm_a: &'a [u32],
    pub num_k_heads: usize,
    pub num_v_heads: usize,
    pub head_k_dim: usize,
    pub head_v_dim: usize,
    pub delta_state: S,
    pub sync_delta_state_to_host: bool,
    pub ssm_norm: &'a [u32],
    pub ssm_out_q4k: &'a [u8],
    pub ssm_out_quant: GGMLType,
    pub ssm_out_rows: usize,
    pub ssm_out_cols: usize,
    pub post_attn_norm: &'a [u32],
    pub router_w: &'a [u32],
    pub n_expert: usize,
    pub n_expert_used: usize,
    pub gate_all: &'a [u8],
    pub up_all: &'a [u8],
    pub down_all: &'a [u8],
    pub down_quant: GGMLType,
    pub shared_input_scale: &'a [u32],
    pub shared_gate: &'a [u8],
    pub shared_up: &'a [u8],
    pub shared_down: &'a [u8],
    pub shared_down_quant: GGMLType,
    pub n_ff: usize,
    pub n_embd: usize,
    pub ffn_gate_q4k: &'a [u8],
    pub ffn_gate_rows: usize,
    pub ffn_gate_cols: usize,
    pub ffn_up_q4k: &'a [u8],
    pub ffn_up_rows: usize,
    pub ffn_up_cols: usize,
    pub ffn_down: &'a [u8],
    pub ffn_down_quant: GGMLType,
    pub ffn_down_rows: usize,
    pub ffn_down_cols: usize,
}

/// An attention layer with experts and its keys and values so far.
#[derive(Debug)]
pub struct MtpDeviceVerifyAttentionMoeLayer<'a> {
    pub layer_index: usize,
    pub attn_norm: &'a [u32],
    pub q_q4k: &'a [u8],
    pub q_quant: GGMLType,
    pub q_rows: usize,
    pub q_cols: usize,
    pub k_q4k: &'a [u8],
    pub k_quant: GGMLType,
    pub k_rows: usize,
    pub k_cols: usize,
    pub v_q4k: &'a [u8],
    pub v_quant: GGMLType,
    pub v_rows: usize,
    pub v_cols: usize,
    pub prior_k_bits: Vec<u16>,
    pub prior_v_bits: Vec<u16>,
    pub prior_tokens: usize,
    pub o_q4k: &'a [u8],
    pub o_quant: GGMLType,
    pub o_rows: usize,
    pub o_cols: usize,
    pub q_norm: &'a [u32],
    pub k_norm: &'a [u32],
    pub post_attn_norm: &'a [u32],
    pub ffn_norm: &'a [u32],
    pub ffn_gate_q4k: &'a [u8],
    pub ffn_gate_rows: usize,
    pub ffn_gate_cols: usize,
    pub ffn_up_q4k: &'a [u8],
    pub ffn_up_rows: usize,
    pub ffn_up_cols: usize,
    pub ffn_down: &'a [u8],
    pub ffn_down_quant: GGMLType,
    pub ffn_down_rows: usize,
    pub ffn_down_cols: usize,
    pub router_w: &'a [u32],
    pub n_expert: usize,
    pub n_expert_used: usize,
    pub gate_all: &'a [u8],
    pub up_all: &'a [u8],
    pub down_all: &'a [u8],
    pub down_quant: GGMLType,
    pub shared_input_scale: &'a [u32],
    pub shared_gate: &'a [u8],
    pub shared_up: &'a [u8],
    pub shared_down: &'a [u8],
    pub shared_down_quant: GGMLType,
    pub n_ff: usize,
    pub n_embd: usize,
}

/// A layer by its kind and its place among the layers of that kind.
#[derive(Debug, Clone, Copy, PartialEq, Eq, Structural)]
pub enum MtpDeviceVerifyLayerKind {
    AttentionMoe(usize),
    GdnMoe(usize),
}

/// A window of drafted tokens and the model that is to check them. Floats are their
/// bits.
#[derive(Debug)]
pub struct MtpDeviceVerifyWindowRequest<'a, S> {
    pub verify_tokens: &'a [u32],
    pub prefix_tokens: &'a [usize],
    pub pos_start: usize,
    pub hidden_dim: usize,
    pub rope_dim: usize,
    pub rope_neox: bool,
    pub rope_theta: u32,
    pub include_bonus: bool,
    pub token_embd_q4k: &'a [u8],
    pub token_embd_quant: u32,
    pub token_embd_rows: usize,
    pub token_embd_cols: usize,
    pub layer_order: &'a [MtpDeviceVerifyLayerKind],
    pub attention_moe_layers: &'a [MtpDeviceVerifyAttentionMoeLayer<'a>],
    pub gdn_moe_layers: Vec<MtpDeviceVerifyGdnMoeLayer<'a, S>>,
    pub output_q6k: &'a [u8],
    pub output_quant: u32,
    pub output_rows: usize,
    pub output_cols: usize,
    pub output_norm: &'a [u32],
    pub norm_eps: u32,
}

/// What the model makes of a window.
#[derive(Debug)]
pub struct MtpDeviceVerifyWindowResult {
    pub target_tokens: Vec<u32>,
    pub mtp_hidden_rows: Vec<u32>,
    pub hidden_dim: usize,
    pub prefix_states: Vec<MtpDeviceVerifyPrefixState>,
    pub ssm_final_states: Vec<MtpDeviceVerifySsmLayerFinalState>,
    pub attention_kv_states: Vec<MtpDeviceVerifyAttentionKvState>,
}

/// The states after some tokens of a window.
#[derive(Debug)]
pub struct MtpDeviceVerifyPrefixState {
    pub prefix_tokens: usize,
    pub layers: Vec<MtpDeviceVerifySsmLayerPrefixState>,
}

/// A delta net's state after some tokens of a window. A state that stays on the device
/// goes by its number there.
#[derive(Debug)]
pub struct MtpDeviceVerifySsmLayerPrefixState {
    pub layer_idx: usize,
    pub conv_state: Vec<u32>,
    pub resident_delta_snapshot: Option<u64>,
}

/// A delta net's state after a window.
#[derive(Debug)]
pub struct MtpDeviceVerifySsmLayerFinalState {
    pub layer_idx: usize,
    pub conv_state: Vec<u32>,
}

/// The keys and values of a window.
#[derive(Debug)]
pub struct MtpDeviceVerifyAttentionKvState {
    pub layer_idx: usize,
    pub window_tokens: usize,
    pub kv_rows: usize,
    pub k_bits: Vec<u16>,
    pub v_bits: Vec<u16>,
}

/// A delta net's layer as the device reads it, formats by their numbers.
#[derive(Debug)]
pub struct VerifyGdnMoeLayer<'a, S> {
    pub layer_index: usize,
    pub attn_norm: &'a [u32],
    pub qkv_q4k: &'a [u8],
    pub qkv_quant: u32,
    pub qkv_rows: usize,
    pub qkv_cols: usize,
    pub gate_q4k: &'a [u8],
    pub gate_rows: usize,
    pub gate_cols: usize,
    pub alpha_q4k: &'a [u8],
    pub alpha_f32: &'a [u32],
    pub alpha_quant: u32,
    pub alpha_rows: usize,
    pub alpha_cols: usize,
    pub beta_q4k: &'a [u8],
    pub beta_f32: &'a [u32],
    pub beta_quant: u32,
    pub beta_rows: usize,
    pub beta_cols: usize,
    pub conv_state: &'a [u32],
    pub conv_kernel: &'a [u32],
    pub kernel_size: usize,
    pub dt_bias: &'a [u32],
    pub ssm_a: &'a [u32],
    pub num_k_heads: usize,
    pub num_v_heads: usize,
    pub head_k_dim: usize,
    pub head_v_dim: usize,
    pub delta_state: S,
    pub sync_delta_state_to_host: bool,
    pub ssm_norm: &'a [u32],
    pub ssm_out_q4k: &'a [u8],
    pub ssm_out_quant: u32,
    pub ssm_out_rows: usize,
    pub ssm_out_cols: usize,
    pub post_attn_norm: &'a [u32],
    pub router_w: &'a [u32],
    pub n_expert: usize,
    pub n_expert_used: usize,
    pub gate_all: &'a [u8],
    pub up_all: &'a [u8],
    pub down_all: &'a [u8],
    pub down_quant: u32,
    pub shared_input_scale: &'a [u32],
    pub shared_gate: &'a [u8],
    pub shared_up: &'a [u8],
    pub shared_down: &'a [u8],
    pub shared_down_quant: u32,
    pub n_ff: usize,
    pub n_embd: usize,
    pub ffn_gate_q4k: &'a [u8],
    pub ffn_gate_rows: usize,
    pub ffn_gate_cols: usize,
    pub ffn_up_q4k: &'a [u8],
    pub ffn_up_rows: usize,
    pub ffn_up_cols: usize,
    pub ffn_down: &'a [u8],
    pub ffn_down_quant: u32,
    pub ffn_down_rows: usize,
    pub ffn_down_cols: usize,
}

/// An attention layer as the device reads it, formats by their numbers.
#[derive(Debug)]
pub struct VerifyAttentionMoeLayer<'a> {
    pub layer_index: usize,
    pub attn_norm: &'a [u32],
    pub q_q4k: &'a [u8],
    pub q_quant: u32,
    pub q_rows: usize,
    pub q_cols: usize,
    pub k_q4k: &'a [u8],
    pub k_quant: u32,
    pub k_rows: usize,
    pub k_cols: usize,
    pub v_q4k: &'a [u8],
    pub v_quant: u32,
    pub v_rows: usize,
    pub v_cols: usize,
    pub prior_k_bits: &'a [u16],
    pub prior_v_bits: &'a [u16],
    pub prior_tokens: usize,
    pub o_q4k: &'a [u8],
    pub o_quant: u32,
    pub o_rows: usize,
    pub o_cols: usize,
    pub q_norm: &'a [u32],
    pub k_norm: &'a [u32],
    pub post_attn_norm: &'a [u32],
    pub ffn_norm: &'a [u32],
    pub ffn_gate_q4k: &'a [u8],
    pub ffn_gate_rows: usize,
    pub ffn_gate_cols: usize,
    pub ffn_up_q4k: &'a [u8],
    pub ffn_up_rows: usize,
    pub ffn_up_cols: usize,
    pub ffn_down: &'a [u8],
    pub ffn_down_quant: u32,
    pub ffn_down_rows: usize,
    pub ffn_down_cols: usize,
    pub router_w: &'a [u32],
    pub n_expert: usize,
    pub n_expert_used: usize,
    pub gate_all: &'a [u8],
    pub up_all: &'a [u8],
    pub down_all: &'a [u8],
    pub down_quant: u32,
    pub shared_input_scale: &'a [u32],
    pub shared_gate: &'a [u8],
    pub shared_up: &'a [u8],
    pub shared_down: &'a [u8],
    pub shared_down_quant: u32,
    pub n_ff: usize,
    pub n_embd: usize,
}

/// A window as the device reads it.
#[derive(Debug)]
pub struct VerifyWindow<'a, S> {
    pub verify_tokens: &'a [u32],
    pub prefix_tokens: &'a [usize],
    pub pos_start: usize,
    pub hidden_dim: usize,
    pub rope_dim: usize,
    pub rope_neox: bool,
    pub rope_theta: u32,
    pub include_bonus: bool,
    pub token_embd_q4k: &'a [u8],
    pub token_embd_quant: u32,
    pub token_embd_rows: usize,
    pub token_embd_cols: usize,
    pub layer_order: &'a [MtpDeviceVerifyLayerKind],
    pub attention_moe_layers: Vec<VerifyAttentionMoeLayer<'a>>,
    pub gdn_moe_layers: Vec<VerifyGdnMoeLayer<'a, S>>,
    pub output_q6k: &'a [u8],
    pub output_quant: u32,
    pub output_rows: usize,
    pub output_cols: usize,
    pub output_norm: &'a [u32],
    pub norm_eps: u32,
}

/// Whether `asked` is `layer` with its formats numbered by `code`.
pub open spec fn gdn_layer_asked<'a, S, C: Fn(GGMLType) -> u32>(
    layer: MtpDeviceVerifyGdnMoeLayer<'a, S>,
    code: C,
    asked: VerifyGdnMoeLayer<'a, S>,
) -> bool {
    &&& asked.layer_index == layer.layer_index
    &&& asked.attn_norm == layer.attn_norm
    &&& asked.qkv_q4k == layer.qkv_q4k
    &&& call_ensures(code, (layer.qkv_quant,), asked.qkv_quant)
    &&& asked.qkv_rows == layer.qkv_rows
    &&& asked.qkv_cols == layer.qkv_cols
    &&& asked.gate_q4k == layer.gate_q4k
    &&& asked.gate_rows == layer.gate_rows
    &&& asked.gate_cols == layer.gate_cols
    &&& asked.alpha_q4k == layer.alpha_q4k
    &&& asked.alpha_f32 == layer.alpha_f32
    &&& call_ensures(code, (layer.alpha_quant,), asked.alpha_quant)
    &&& asked.alpha_rows == layer.alpha_rows
    &&& asked.alpha_cols == layer.alpha_cols
    &&& asked.beta_q4k == layer.beta_q4k
    &&& asked.beta_f32 == layer.beta_f32
    &&& call_ensures(code, (layer.beta_quant,), asked.beta_quant)
    &&& asked.beta_rows == layer.beta_rows
    &&& asked.beta_cols == layer.beta_cols
    &&& asked.conv_state == layer.conv_state
    &&& asked.conv_kernel == layer.conv_kernel
    &&& asked.kernel_size == layer.kernel_size
    &&& asked.dt_bias == layer.dt_bias
    &&& asked.ssm_a == layer.ssm_a
    &&& asked.num_k_heads == layer.num_k_heads
    &&& asked.num_v_heads == layer.num_v_heads
    &&& asked.head_k_dim == layer.head_k_dim
    &&& asked.head_v_dim == layer.head_v_dim
    &&& asked.delta_state == layer.delta_state
    &&& asked.sync_delta_state_to_host == layer.sync_delta_state_to_host
    &&& asked.ssm_norm == layer.ssm_norm
    &&& asked.ssm_out_q4k == layer.ssm_out_q4k
    &&& call_ensures(code, (layer.ssm_out_quant,), asked.ssm_out_quant)
    &&& asked.ssm_out_rows == layer.ssm_out_rows
    &&& asked.ssm_out_cols == layer.ssm_out_cols
    &&& asked.post_attn_norm == layer.post_attn_norm
    &&& asked.router_w == layer.router_w
    &&& asked.n_expert == layer.n_expert
    &&& asked.n_expert_used == layer.n_expert_used
    &&& asked.gate_all == layer.gate_all
    &&& asked.up_all == layer.up_all
    &&& asked.down_all == layer.down_all
    &&& call_ensures(code, (layer.down_quant,), asked.down_quant)
    &&& asked.shared_input_scale == layer.shared_input_scale
    &&& asked.shared_gate == layer.shared_gate
    &&& asked.shared_up == layer.shared_up
    &&& asked.shared_down == layer.shared_down
    &&& call_ensures(code, (layer.shared_down_quant,), asked.shared_down_quant)
    &&& asked.n_ff == layer.n_ff
    &&& asked.n_embd == layer.n_embd
    &&& asked.ffn_gate_q4k == layer.ffn_gate_q4k
    &&& asked.ffn_gate_rows == layer.ffn_gate_rows
    &&& asked.ffn_gate_cols == layer.ffn_gate_cols
    &&& asked.ffn_up_q4k == layer.ffn_up_q4k
    &&& asked.ffn_up_rows == layer.ffn_up_rows
    &&& asked.ffn_up_cols == layer.ffn_up_cols
    &&& asked.ffn_down == layer.ffn_down
    &&& call_ensures(code, (layer.ffn_down_quant,), asked.ffn_down_quant)
    &&& asked.ffn_down_rows == layer.ffn_down_rows
    &&& asked.ffn_down_cols == layer.ffn_down_cols
}

/// Whether `asked` is `layer` with its formats numbered by `code`.
pub open spec fn attention_layer_asked<'a, C: Fn(GGMLType) -> u32>(
    layer: MtpDeviceVerifyAttentionMoeLayer<'a>,
    code: C,
    asked: VerifyAttentionMoeLayer<'a>,
) -> bool {
    &&& asked.layer_index == layer.layer_index
    &&& asked.attn_norm == layer.attn_norm
    &&& asked.q_q4k == layer.q_q4k
    &&& call_ensures(code, (layer.q_quant,), asked.q_quant)
    &&& asked.q_rows == layer.q_rows
    &&& asked.q_cols == layer.q_cols
    &&& asked.k_q4k == layer.k_q4k
    &&& call_ensures(code, (layer.k_quant,), asked.k_quant)
    &&& asked.k_rows == layer.k_rows
    &&& asked.k_cols == layer.k_cols
    &&& asked.v_q4k == layer.v_q4k
    &&& call_ensures(code, (layer.v_quant,), asked.v_quant)
    &&& asked.v_rows == layer.v_rows
    &&& asked.v_cols == layer.v_cols
    &&& asked.prior_k_bits@ == layer.prior_k_bits@
    &&& asked.prior_v_bits@ == layer.prior_v_bits@
    &&& asked.prior_tokens == layer.prior_tokens
    &&& asked.o_q4k == layer.o_q4k
    &&& call_ensures(code, (layer.o_quant,), asked.o_quant)
    &&& asked.o_rows == layer.o_rows
    &&& asked.o_cols == layer.o_cols
    &&& asked.q_norm == layer.q_norm
    &&& asked.k_norm == layer.k_norm
    &&& asked.post_attn_norm == layer.post_attn_norm
    &&& asked.ffn_norm == layer.ffn_norm
    &&& asked.ffn_gate_q4k == layer.ffn_gate_q4k
    &&& asked.ffn_gate_rows == layer.ffn_gate_rows
    &&& asked.ffn_gate_cols == layer.ffn_gate_cols
    &&& asked.ffn_up_q4k == layer.ffn_up_q4k
    &&& asked.ffn_up_rows == layer.ffn_up_rows
    &&& asked.ffn_up_cols == layer.ffn_up_cols
    &&& asked.ffn_down == layer.ffn_down
    &&& call_ensures(code, (layer.ffn_down_quant,), asked.ffn_down_quant)
    &&& asked.ffn_down_rows == layer.ffn_down_rows
    &&& asked.ffn_down_cols == layer.ffn_down_cols
    &&& asked.router_w == layer.router_w
    &&& asked.n_expert == layer.n_expert
    &&& asked.n_expert_used == layer.n_expert_used
    &&& asked.gate_all == layer.gate_all
    &&& asked.up_all == layer.up_all
    &&& asked.down_all == layer.down_all
    &&& call_ensures(code, (layer.down_quant,), asked.down_quant)
    &&& asked.shared_input_scale == layer.shared_input_scale
    &&& asked.shared_gate == layer.shared_gate
    &&& asked.shared_up == layer.shared_up
    &&& asked.shared_down == layer.shared_down
    &&& call_ensures(code, (layer.shared_down_quant,), asked.shared_down_quant)
    &&& asked.n_ff == layer.n_ff
    &&& asked.n_embd == layer.n_embd
}

fn ask_for_gdn_layer<'a, S, C: Fn(GGMLType) -> u32>(
    layer: MtpDeviceVerifyGdnMoeLayer<'a, S>,
    code: &C,
) -> (asked: VerifyGdnMoeLayer<'a, S>)
    requires
        forall|quant: GGMLType| call_requires(*code, (quant,)),
    ensures
        gdn_layer_asked(layer, *code, asked),
{
    VerifyGdnMoeLayer {
        layer_index: layer.layer_index,
        attn_norm: layer.attn_norm,
        qkv_q4k: layer.qkv_q4k,
        qkv_quant: (*code)(layer.qkv_quant),
        qkv_rows: layer.qkv_rows,
        qkv_cols: layer.qkv_cols,
        gate_q4k: layer.gate_q4k,
        gate_rows: layer.gate_rows,
        gate_cols: layer.gate_cols,
        alpha_q4k: layer.alpha_q4k,
        alpha_f32: layer.alpha_f32,
        alpha_quant: (*code)(layer.alpha_quant),
        alpha_rows: layer.alpha_rows,
        alpha_cols: layer.alpha_cols,
        beta_q4k: layer.beta_q4k,
        beta_f32: layer.beta_f32,
        beta_quant: (*code)(layer.beta_quant),
        beta_rows: layer.beta_rows,
        beta_cols: layer.beta_cols,
        conv_state: layer.conv_state,
        conv_kernel: layer.conv_kernel,
        kernel_size: layer.kernel_size,
        dt_bias: layer.dt_bias,
        ssm_a: layer.ssm_a,
        num_k_heads: layer.num_k_heads,
        num_v_heads: layer.num_v_heads,
        head_k_dim: layer.head_k_dim,
        head_v_dim: layer.head_v_dim,
        delta_state: layer.delta_state,
        sync_delta_state_to_host: layer.sync_delta_state_to_host,
        ssm_norm: layer.ssm_norm,
        ssm_out_q4k: layer.ssm_out_q4k,
        ssm_out_quant: (*code)(layer.ssm_out_quant),
        ssm_out_rows: layer.ssm_out_rows,
        ssm_out_cols: layer.ssm_out_cols,
        post_attn_norm: layer.post_attn_norm,
        router_w: layer.router_w,
        n_expert: layer.n_expert,
        n_expert_used: layer.n_expert_used,
        gate_all: layer.gate_all,
        up_all: layer.up_all,
        down_all: layer.down_all,
        down_quant: (*code)(layer.down_quant),
        shared_input_scale: layer.shared_input_scale,
        shared_gate: layer.shared_gate,
        shared_up: layer.shared_up,
        shared_down: layer.shared_down,
        shared_down_quant: (*code)(layer.shared_down_quant),
        n_ff: layer.n_ff,
        n_embd: layer.n_embd,
        ffn_gate_q4k: layer.ffn_gate_q4k,
        ffn_gate_rows: layer.ffn_gate_rows,
        ffn_gate_cols: layer.ffn_gate_cols,
        ffn_up_q4k: layer.ffn_up_q4k,
        ffn_up_rows: layer.ffn_up_rows,
        ffn_up_cols: layer.ffn_up_cols,
        ffn_down: layer.ffn_down,
        ffn_down_quant: (*code)(layer.ffn_down_quant),
        ffn_down_rows: layer.ffn_down_rows,
        ffn_down_cols: layer.ffn_down_cols,
    }
}

fn ask_for_attention_layer<'a, C: Fn(GGMLType) -> u32>(
    layer: &'a MtpDeviceVerifyAttentionMoeLayer<'a>,
    code: &C,
) -> (asked: VerifyAttentionMoeLayer<'a>)
    requires
        forall|quant: GGMLType| call_requires(*code, (quant,)),
    ensures
        attention_layer_asked(*layer, *code, asked),
{
    VerifyAttentionMoeLayer {
        layer_index: layer.layer_index,
        attn_norm: layer.attn_norm,
        q_q4k: layer.q_q4k,
        q_quant: (*code)(layer.q_quant),
        q_rows: layer.q_rows,
        q_cols: layer.q_cols,
        k_q4k: layer.k_q4k,
        k_quant: (*code)(layer.k_quant),
        k_rows: layer.k_rows,
        k_cols: layer.k_cols,
        v_q4k: layer.v_q4k,
        v_quant: (*code)(layer.v_quant),
        v_rows: layer.v_rows,
        v_cols: layer.v_cols,
        prior_k_bits: layer.prior_k_bits.as_slice(),
        prior_v_bits: layer.prior_v_bits.as_slice(),
        prior_tokens: layer.prior_tokens,
        o_q4k: layer.o_q4k,
        o_quant: (*code)(layer.o_quant),
        o_rows: layer.o_rows,
        o_cols: layer.o_cols,
        q_norm: layer.q_norm,
        k_norm: layer.k_norm,
        post_attn_norm: layer.post_attn_norm,
        ffn_norm: layer.ffn_norm,
        ffn_gate_q4k: layer.ffn_gate_q4k,
        ffn_gate_rows: layer.ffn_gate_rows,
        ffn_gate_cols: layer.ffn_gate_cols,
        ffn_up_q4k: layer.ffn_up_q4k,
        ffn_up_rows: layer.ffn_up_rows,
        ffn_up_cols: layer.ffn_up_cols,
        ffn_down: layer.ffn_down,
        ffn_down_quant: (*code)(layer.ffn_down_quant),
        ffn_down_rows: layer.ffn_down_rows,
        ffn_down_cols: layer.ffn_down_cols,
        router_w: layer.router_w,
        n_expert: layer.n_expert,
        n_expert_used: layer.n_expert_used,
        gate_all: layer.gate_all,
        up_all: layer.up_all,
        down_all: layer.down_all,
        down_quant: (*code)(layer.down_quant),
        shared_input_scale: layer.shared_input_scale,
        shared_gate: layer.shared_gate,
        shared_up: layer.shared_up,
        shared_down: layer.shared_down,
        shared_down_quant: (*code)(layer.shared_down_quant),
        n_ff: layer.n_ff,
        n_embd: layer.n_embd,
    }
}

/// Whether `asked` are `layers`, one for one.
pub open spec fn gdn_layers_asked<'a, S, C: Fn(GGMLType) -> u32>(
    layers: Seq<MtpDeviceVerifyGdnMoeLayer<'a, S>>,
    code: C,
    asked: Seq<VerifyGdnMoeLayer<'a, S>>,
) -> bool {
    &&& asked.len() == layers.len()
    &&& forall|i: int|
        0 <= i < layers.len() ==> gdn_layer_asked(#[trigger] layers[i], code, asked[i])
}

fn ask_for_gdn_layers<'a, S, C: Fn(GGMLType) -> u32>(
    layers: Vec<MtpDeviceVerifyGdnMoeLayer<'a, S>>,
    code: &C,
) -> (asked: Vec<VerifyGdnMoeLayer<'a, S>>)
    requires
        forall|quant: GGMLType| call_requires(*code, (quant,)),
    ensures
        gdn_layers_asked(layers@, *code, asked@),
{
    let ghost all = layers@;
    let mut rest = layers;
    let mut asked: Vec<VerifyGdnMoeLayer<'a, S>> = Vec::new();
    while rest.len() > 0
        invariant
            asked@.len() + rest@.len() == all.len(),
            rest@ == all.skip(asked@.len() as int),
            forall|quant: GGMLType| call_requires(*code, (quant,)),
            forall|i: int|
                0 <= i < asked@.len() ==> gdn_layer_asked(#[trigger] all[i], *code, asked@[i]),
        decreases rest@.len(),
    {
        let layer = rest.remove(0);
        asked.push(ask_for_gdn_layer(layer, code));
        assert(rest@ =~= all.skip(asked@.len() as int));
    }
    asked
}

/// Whether `asked` are `layers`, one for one.
pub open spec fn attention_layers_asked<'a, C: Fn(GGMLType) -> u32>(
    layers: Seq<MtpDeviceVerifyAttentionMoeLayer<'a>>,
    code: C,
    asked: Seq<VerifyAttentionMoeLayer<'a>>,
) -> bool {
    &&& asked.len() == layers.len()
    &&& forall|i: int|
        0 <= i < layers.len() ==> attention_layer_asked(#[trigger] layers[i], code, asked[i])
}

fn ask_for_attention_layers<'a, C: Fn(GGMLType) -> u32>(
    layers: &'a [MtpDeviceVerifyAttentionMoeLayer<'a>],
    code: &C,
) -> (asked: Vec<VerifyAttentionMoeLayer<'a>>)
    requires
        forall|quant: GGMLType| call_requires(*code, (quant,)),
    ensures
        attention_layers_asked(layers@, *code, asked@),
{
    let mut asked: Vec<VerifyAttentionMoeLayer<'a>> = Vec::new();
    let mut i: usize = 0;
    while i < layers.len()
        invariant
            i == asked@.len(),
            i <= layers@.len(),
            forall|quant: GGMLType| call_requires(*code, (quant,)),
            forall|j: int|
                0 <= j < i ==> attention_layer_asked(#[trigger] layers@[j], *code, asked@[j]),
        decreases layers@.len() - i,
    {
        asked.push(ask_for_attention_layer(&layers[i], code));
        i += 1;
    }
    asked
}

/// Whether `asked` is `request` as the device reads it: every layer in its place, with
/// its formats numbered by `code`, and all else as it is.
pub open spec fn window_asked<'a, S, C: Fn(GGMLType) -> u32>(
    request: MtpDeviceVerifyWindowRequest<'a, S>,
    code: C,
    asked: VerifyWindow<'a, S>,
) -> bool {
    &&& attention_layers_asked(
        request.attention_moe_layers@,
        code,
        asked.attention_moe_layers@,
    )
    &&& gdn_layers_asked(request.gdn_moe_layers@, code, asked.gdn_moe_layers@)
    &&& asked.verify_tokens == request.verify_tokens
    &&& asked.prefix_tokens == request.prefix_tokens
    &&& asked.pos_start == request.pos_start
    &&& asked.hidden_dim == request.hidden_dim
    &&& asked.rope_dim == request.rope_dim
    &&& asked.rope_neox == request.rope_neox
    &&& asked.rope_theta == request.rope_theta
    &&& asked.include_bonus == request.include_bonus
    &&& asked.token_embd_q4k == request.token_embd_q4k
    &&& asked.token_embd_quant == request.token_embd_quant
    &&& asked.token_embd_rows == request.token_embd_rows
    &&& asked.token_embd_cols == request.token_embd_cols
    &&& asked.layer_order == request.layer_order
    &&& asked.output_q6k == request.output_q6k
    &&& asked.output_quant == request.output_quant
    &&& asked.output_rows == request.output_rows
    &&& asked.output_cols == request.output_cols
    &&& asked.output_norm == request.output_norm
    &&& asked.norm_eps == request.norm_eps
}

/// Checks a window of drafted tokens on the device.
pub fn qwen35_mtp_device_verify_window<
    'a,
    S,
    C: Fn(GGMLType) -> u32,
    D: FnOnce(VerifyWindow<'a, S>) -> Result<MtpDeviceVerifyWindowResult, String>,
>(request: MtpDeviceVerifyWindowRequest<'a, S>, code: &C, device: D) -> (output: Result<
    MtpDeviceVerifyWindowResult,
    String,
>)
    requires
        forall|quant: GGMLType| call_requires(*code, (quant,)),
        forall|asked: VerifyWindow<'a, S>| call_requires(device, (asked,)),
    ensures
        exists|asked: VerifyWindow<'a, S>| #[trigger]
            window_asked(request, *code, asked) && answers(
                device,
                asked,
                "Qwen35 MTP device verify failed: "@,
                output,
            ),
{
    let attention_moe_layers = ask_for_attention_layers(request.attention_moe_layers, code);
    let gdn_moe_layers = ask_for_gdn_layers(request.gdn_moe_layers, code);
    let asked = VerifyWindow {
        verify_tokens: request.verify_tokens,
        prefix_tokens: request.prefix_tokens,
        pos_start: request.pos_start,
        hidden_dim: request.hidden_dim,
        rope_dim: request.rope_dim,
        rope_neox: request.rope_neox,
        rope_theta: request.rope_theta,
        include_bonus: request.include_bonus,
        token_embd_q4k: request.token_embd_q4k,
        token_embd_quant: request.token_embd_quant,
        token_embd_rows: request.token_embd_rows,
        token_embd_cols: request.token_embd_cols,
        layer_order: request.layer_order,
        output_q6k: request.output_q6k,
        output_quant: request.output_quant,
        output_rows: request.output_rows,
        output_cols: request.output_cols,
        output_norm: request.output_norm,
        norm_eps: request.norm_eps,
        attention_moe_layers,
        gdn_moe_layers,
    };
    assert(window_asked(request, *code, asked));
    ask(device, asked, "Qwen35 MTP device verify failed: ")
}

/// Every layer of a window reaches the device in the place that it was given in, with each
/// of its weights, shapes, norms, states and sizes in its own role, and each format as the
/// number of that format.
pub proof fn law_layers_of_a_window_keep_their_places_and_roles<'a, S, C: Fn(GGMLType) -> u32>(
    request: MtpDeviceVerifyWindowRequest<'a, S>,
    code: C,
    asked: VerifyWindow<'a, S>,
    i: int,
)
    requires
        window_asked(request, code, asked),
    ensures
        asked.attention_moe_layers@.len() == request.attention_moe_layers@.len(),
        asked.gdn_moe_layers@.len() == request.gdn_moe_layers@.len(),
        0 <= i < request.attention_moe_layers@.len() ==> {
            let given = request.attention_moe_layers@[i];
            let handed = asked.attention_moe_layers@[i];
            &&& handed.layer_index == given.layer_index
            &&& handed.attn_norm@ == given.attn_norm@
            &&& handed.q_q4k@ == given.q_q4k@
            &&& call_ensures(code, (given.q_quant,), handed.q_quant)
            &&& handed.q_rows == given.q_rows
            &&& handed.q_cols == given.q_cols
            &&& handed.k_q4k@ == given.k_q4k@
            &&& call_ensures(code, (given.k_quant,), handed.k_quant)
            &&& handed.k_rows == given.k_rows
            &&& handed.k_cols == given.k_cols
            &&& handed.v_q4k@ == given.v_q4k@
            &&& call_ensures(code, (given.v_quant,), handed.v_quant)
            &&& handed.v_rows == given.v_rows
            &&& handed.v_cols == given.v_cols
            &&& handed.prior_k_bits@ == given.prior_k_bits@
            &&& handed.prior_v_bits@ == given.prior_v_bits@
            &&& handed.prior_tokens == given.prior_tokens
            &&& handed.o_q4k@ == given.o_q4k@
            &&& call_ensures(code, (given.o_quant,), handed.o_quant)
            &&& handed.o_rows == given.o_rows
            &&& handed.o_cols == given.o_cols
            &&& handed.q_norm@ == given.q_norm@
            &&& handed.k_norm@ == given.k_norm@
            &&& handed.post_attn_norm@ == given.post_attn_norm@
            &&& handed.ffn_norm@ == given.ffn_norm@
            &&& handed.ffn_gate_q4k@ == given.ffn_gate_q4k@
            &&& handed.ffn_gate_rows == given.ffn_gate_rows
            &&& handed.ffn_gate_cols == given.ffn_gate_cols
            &&& handed.ffn_up_q4k@ == given.ffn_up_q4k@
            &&& handed.ffn_up_rows == given.ffn_up_rows
            &&& handed.ffn_up_cols == given.ffn_up_cols
            &&& handed.ffn_down@ == given.ffn_down@
            &&& call_ensures(code, (given.ffn_down_quant,), handed.ffn_down_quant)
            &&& handed.ffn_down_rows == given.ffn_down_rows
            &&& handed.ffn_down_cols == given.ffn_down_cols
            &&& handed.router_w@ == given.router_w@
            &&& handed.n_expert == given.n_expert
            &&& handed.n_expert_used == given.n_expert_used
            &&& handed.gate_all@ == given.gate_all@
            &&& handed.up_all@ == given.up_all@
            &&& handed.down_all@ == given.down_all@
            &&& call_ensures(code, (given.down_quant,), handed.down_quant)
            &&& handed.shared_input_scale@ == given.shared_input_scale@
            &&& handed.shared_gate@ == given.shared_gate@
            &&& handed.shared_up@ == given.shared_up@
            &&& handed.shared_down@ == given.shared_down@
            &&& call_ensures(code, (given.shared_down_quant,), handed.shared_down_quant)
            &&& handed.n_ff == given.n_ff
            &&& handed.n_embd == given.n_embd
        },
        0 <= i < request.gdn_moe_layers@.len() ==> {
            let given = request.gdn_moe_layers@[i];
            let handed = asked.gdn_moe_layers@[i];
            &&& handed.layer_index == given.layer_index
            &&& handed.attn_norm@ == given.attn_norm@
            &&& handed.qkv_q4k@ == given.qkv_q4k@
            &&& call_ensures(code, (given.qkv_quant,), handed.qkv_quant)
            &&& handed.qkv_rows == given.qkv_rows
            &&& handed.qkv_cols == given.qkv_cols
            &&& handed.gate_q4k@ == given.gate_q4k@
            &&& handed.gate_rows == given.gate_rows
            &&& handed.gate_cols == given.gate_cols
            &&& handed.alpha_q4k@ == given.alpha_q4k@
            &&& handed.alpha_f32@ == given.alpha_f32@
            &&& call_ensures(code, (given.alpha_quant,), handed.alpha_quant)
            &&& handed.alpha_rows == given.alpha_rows
            &&& handed.alpha_cols == given.alpha_cols
            &&& handed.beta_q4k@ == given.beta_q4k@
            &&& handed.beta_f32@ == given.beta_f32@
            &&& call_ensures(code, (given.beta_quant,), handed.beta_quant)
            &&& handed.beta_rows == given.beta_rows
            &&& handed.beta_cols == given.beta_cols
            &&& handed.conv_state@ == given.conv_state@
            &&& handed.conv_kernel@ == given.conv_kernel@
            &&& handed.kernel_size == given.kernel_size
            &&& handed.dt_bias@ == given.dt_bias@
            &&& handed.ssm_a@ == given.ssm_a@
            &&& handed.num_k_heads == given.num_k_heads
            &&& handed.num_v_heads == given.num_v_heads
            &&& handed.head_k_dim == given.head_k_dim
            &&& handed.head_v_dim == given.head_v_dim
            &&& handed.delta_state == given.delta_state
            &&& handed.sync_delta_state_to_host == given.sync_delta_state_to_host
            &&& handed.ssm_norm@ == given.ssm_norm@
            &&& handed.ssm_out_q4k@ == given.ssm_out_q4k@
            &&& call_ensures(code, (given.ssm_out_quant,), handed.ssm_out_quant)
            &&& handed.ssm_out_rows == given.ssm_out_rows
            &&& handed.ssm_out_cols == given.ssm_out_cols
            &&& handed.post_attn_norm@ == given.post_attn_norm@
            &&& handed.router_w@ == given.router_w@
            &&& handed.n_expert == given.n_expert
            &&& handed.n_expert_used == given.n_expert_used
            &&& handed.gate_all@ == given.gate_all@
            &&& handed.up_all@ == given.up_all@
            &&& handed.down_all@ == given.down_all@
            &&& call_ensures(code, (given.down_quant,), handed.down_quant)
            &&& handed.shared_input_scale@ == given.shared_input_scale@
            &&& handed.shared_gate@ == given.shared_gate@
            &&& handed.shared_up@ == given.shared_up@
            &&& handed.shared_down@ == given.shared_down@
            &&& call_ensures(code, (given.shared_down_quant,), handed.shared_down_quant)
            &&& handed.n_ff == given.n_ff
            &&& handed.n_embd == given.n_embd
            &&& handed.ffn_gate_q4k@ == given.ffn_gate_q4k@
            &&& handed.ffn_gate_rows == given.ffn_gate_rows
            &&& handed.ffn_gate_cols == given.ffn_gate_cols
            &&& handed.ffn_up_q4k@ == given.ffn_up_q4k@
            &&& handed.ffn_up_rows == given.ffn_up_rows
            &&& handed.ffn_up_cols == given.ffn_up_cols
            &&& handed.ffn_down@ == given.ffn_down@
            &&& call_ensures(code, (given.ffn_down_quant,), handed.ffn_down_quant)
            &&& handed.ffn_down_rows == given.ffn_down_rows
            &&& handed.ffn_down_cols == given.ffn_down_cols
        },
{
}

/// The tokens of a window, its place, its embedding and its output projection reach the
/// device as they were given.
pub proof fn law_a_window_is_asked_for_as_given<'a, S, C: Fn(GGMLType) -> u32>(
    request: MtpDeviceVerifyWindowRequest<'a, S>,
    code: C,
    asked: VerifyWindow<'a, S>,
)
    requires
        window_asked(request, code, asked),
    ensures
        asked.verify_tokens@ == request.verify_tokens@,
        asked.prefix_tokens@ == request.prefix_tokens@,
        asked.pos_start == request.pos_start,
        asked.hidden_dim == request.hidden_dim,
        asked.rope_dim == request.rope_dim,
        asked.rope_neox == request.rope_neox,
        asked.rope_theta == request.rope_theta,
        asked.include_bonus == request.include_bonus,
        asked.token_embd_q4k@ == request.token_embd_q4k@,
        asked.token_embd_quant == request.token_embd_quant,
        asked.token_embd_rows == request.token_embd_rows,
        asked.token_embd_cols == request.token_embd_cols,
        asked.layer_order@ == request.layer_order@,
        asked.output_q6k@ == request.output_q6k@,
        asked.output_quant == request.output_quant,
        asked.output_rows == request.output_rows,
        asked.output_cols == request.output_cols,
        asked.output_norm@ == request.output_norm@,
        asked.norm_eps == request.norm_eps,
{
}

} // verus!
