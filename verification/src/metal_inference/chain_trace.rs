//! The lines that say why a chain of a prompt's layers is not run.

use crate::metal_inference::prefill_chain::{
    first_reject, follows, join_reject, joins_chain, moe_quant, moe_weight_bytes,
    qwen_prefill_chain_expected_quant_bytes, qwen_prefill_chain_moe_quant,
    qwen_prefill_chain_moe_weight_bytes, ChainReject, MetalGdnWeightRef, MetalPrefillAtnOTailSpec,
    MetalQuantWeightRef, MetalQwenMoePrefillWeights, MetalQwenPrefillChainLayer,
    MetalQwenPrefillGdnSpec,
};
use crate::quant::GGMLType;
use crate::text::{
    begins_with, decimal, lemma_begins_with_itself, lemma_joined, lemma_says, lemma_says_at_the_end,
    lemma_says_at_the_start, lemma_says_more, push_decimal, says,
};
use vstd::prelude::*;

verus! {

/// A number that may be missing, in the notation of an `Option`.
pub open spec fn optional_text(number: Option<int>) -> Seq<char> {
    match number {
        Some(number) => "Some("@ + decimal(number as nat) + ")"@,
        None => "None"@,
    }
}

/// The number in an option, as an integer.
pub open spec fn whole(number: Option<usize>) -> Option<int> {
    match number {
        Some(number) => Some(number as int),
        None => None,
    }
}

fn push_optional(line: &mut String, number: Option<usize>)
    ensures
        final(line)@ == old(line)@ + optional_text(whole(number)),
{
    let ghost before = line@;
    match number {
        Some(number) => {
            line.append("Some(");
            push_decimal(line, number);
            line.append(")");
            assert(line@ =~= before + optional_text(Some(number as int)));
        },
        None => {
            line.append("None");
        },
    }
}

/// `number` where a machine word holds it.
pub open spec fn word(number: int) -> Option<int> {
    if number <= usize::MAX {
        Some(number)
    } else {
        None
    }
}

/// `factor` times a number, where there is one and a machine word holds the product.
pub open spec fn times(number: Option<int>, factor: usize) -> Option<int> {
    match number {
        Some(number) => word(number * factor),
        None => None,
    }
}

fn multiply(number: Option<usize>, factor: usize) -> (product: Option<usize>)
    ensures
        whole(product) == times(whole(number), factor),
{
    match number {
        Some(number) => number.checked_mul(factor),
        None => None,
    }
}

/// Which layer a line is about: its number, or none.
pub open spec fn layer_text(layer_idx: Option<usize>) -> Seq<char> {
    match layer_idx {
        Some(layer_idx) => decimal(layer_idx as nat),
        None => "none"@,
    }
}

/// The line of a chain that is not run for `reason`.
pub open spec fn reason_text(layer_idx: Option<usize>, reason: Seq<char>) -> Seq<char> {
    "RNB_METAL_QWEN_PREFILL_CHAIN reject layer="@ + layer_text(layer_idx) + " reason="@ + reason
}

/// Builds that line.
pub fn qwen_prefill_chain_trace_reject(layer_idx: Option<usize>, reason: &str) -> (line: String)
    ensures
        line@ == reason_text(layer_idx, reason@),
{
    let mut line = String::from_str("RNB_METAL_QWEN_PREFILL_CHAIN reject layer=");
    match layer_idx {
        Some(layer_idx) => push_decimal(&mut line, layer_idx),
        None => line.append("none"),
    }
    line.append(" reason=");
    line.append(reason);
    line
}

/// A weight's format and shape, the bytes it has and the bytes it should have.
pub open spec fn weight_text(weight: MetalQuantWeightRef<'_>) -> Seq<char> {
    weight.ggml_type.spec_label() + ":"@ + decimal(weight.rows as nat) + "x"@
        + decimal(weight.cols as nat) + " bytes="@ + decimal(weight.raw@.len() as nat)
        + "/expected="@ + optional_text(weight.expected_bytes())
}

fn describe_weight(weight: &MetalQuantWeightRef<'_>) -> (line: String)
    ensures
        line@ == weight_text(*weight),
{
    let mut line = String::from_str(weight.ggml_type.label());
    line.append(":");
    push_decimal(&mut line, weight.rows);
    line.append("x");
    push_decimal(&mut line, weight.cols);
    line.append(" bytes=");
    push_decimal(&mut line, weight.raw.len());
    line.append("/expected=");
    push_optional(&mut line, qwen_prefill_chain_expected_quant_bytes(weight));
    line
}

/// The line of an attention part that the device cannot take.
pub open spec fn attention_text(layer_idx: usize, spec: MetalPrefillAtnOTailSpec<'_>) -> Seq<char> {
    let core = spec.core;
    let q_dim = word(core.num_heads * core.head_dim);
    let kv_dim = word(core.num_kv_heads * core.head_dim);
    "RNB_METAL_QWEN_PREFILL_CHAIN reject layer="@ + decimal(layer_idx as nat)
        + " stage=attention seq="@ + decimal(core.seq_len as nat) + " hidden="@
        + decimal(core.hidden_dim as nat) + " heads="@ + decimal(core.num_heads as nat)
        + " kv_heads="@ + decimal(core.num_kv_heads as nat) + " head_dim="@
        + decimal(core.head_dim as nat) + " pos_start="@ + decimal(core.pos_start as nat)
        + " n_rot="@ + decimal(core.n_rot as nat) + " q_dim="@ + decimal(core.q_dim as nat)
        + "/expected="@ + optional_text(q_dim) + " kv_dim="@ + decimal(core.kv_dim as nat)
        + "/expected="@ + optional_text(kv_dim) + " norms="@
        + decimal(core.attn_norm_w@.len() as nat) + "/"@ + decimal(core.q_norm_w@.len() as nat)
        + "/"@ + decimal(core.k_norm_w@.len() as nat) + " expected="@
        + decimal(core.hidden_dim as nat) + "/"@ + decimal(core.head_dim as nat) + "/"@
        + decimal(core.head_dim as nat) + " q="@ + core.q_weight.ggml_type.spec_label() + ":"@
        + optional_text(times(q_dim, 2)) + "x"@ + decimal(core.q_weight.cols as nat)
        + " bytes="@ + decimal(core.q_weight.raw@.len() as nat) + "/expected="@
        + optional_text(core.q_weight.expected_bytes()) + " k="@ + weight_text(core.k_weight)
        + " v="@ + weight_text(core.v_weight) + " o="@ + weight_text(spec.o_weight)
}

/// Builds that line.
pub fn qwen_prefill_chain_trace_attention_reject(
    layer_idx: usize,
    spec: &MetalPrefillAtnOTailSpec<'_>,
) -> (line: String)
    ensures
        line@ == attention_text(layer_idx, *spec),
{
    let core = &spec.core;
    let q_dim = core.num_heads.checked_mul(core.head_dim);
    let kv_dim = core.num_kv_heads.checked_mul(core.head_dim);
    let mut line = String::from_str("RNB_METAL_QWEN_PREFILL_CHAIN reject layer=");
    push_decimal(&mut line, layer_idx);
    line.append(" stage=attention seq=");
    push_decimal(&mut line, core.seq_len);
    line.append(" hidden=");
    push_decimal(&mut line, core.hidden_dim);
    line.append(" heads=");
    push_decimal(&mut line, core.num_heads);
    line.append(" kv_heads=");
    push_decimal(&mut line, core.num_kv_heads);
    line.append(" head_dim=");
    push_decimal(&mut line, core.head_dim);
    line.append(" pos_start=");
    push_decimal(&mut line, core.pos_start);
    line.append(" n_rot=");
    push_decimal(&mut line, core.n_rot);
    line.append(" q_dim=");
    push_decimal(&mut line, core.q_dim);
    line.append("/expected=");
    push_optional(&mut line, q_dim);
    line.append(" kv_dim=");
    push_decimal(&mut line, core.kv_dim);
    line.append("/expected=");
    push_optional(&mut line, kv_dim);
    line.append(" norms=");
    push_decimal(&mut line, core.attn_norm_w.len());
    line.append("/");
    push_decimal(&mut line, core.q_norm_w.len());
    line.append("/");
    push_decimal(&mut line, core.k_norm_w.len());
    line.append(" expected=");
    push_decimal(&mut line, core.hidden_dim);
    line.append("/");
    push_decimal(&mut line, core.head_dim);
    line.append("/");
    push_decimal(&mut line, core.head_dim);
    line.append(" q=");
    line.append(core.q_weight.ggml_type.label());
    line.append(":");
    push_optional(&mut line, multiply(q_dim, 2));
    line.append("x");
    push_decimal(&mut line, core.q_weight.cols);
    line.append(" bytes=");
    push_decimal(&mut line, core.q_weight.raw.len());
    line.append("/expected=");
    push_optional(&mut line, qwen_prefill_chain_expected_quant_bytes(&core.q_weight));
    line.append(" k=");
    line.append(describe_weight(&core.k_weight).as_str());
    line.append(" v=");
    line.append(describe_weight(&core.v_weight).as_str());
    line.append(" o=");
    line.append(describe_weight(&spec.o_weight).as_str());
    line
}

/// A weight of a delta net: its format and shape, what it has and what it should have.
pub open spec fn gdn_weight_text(weight: MetalGdnWeightRef<'_>) -> Seq<char> {
    match weight {
        MetalGdnWeightRef::F32 { values, rows, cols } => "F32:"@ + decimal(rows as nat) + "x"@
            + decimal(cols as nat) + ":values="@ + decimal(values@.len()),
        MetalGdnWeightRef::Quant(weight) => weight.ggml_type.spec_label() + ":"@ + decimal(
            weight.rows as nat,
        ) + "x"@ + decimal(weight.cols as nat) + ":bytes="@ + decimal(weight.raw@.len())
            + ":expected="@ + optional_text(weight.expected_bytes()),
    }
}

/// Describes a weight of a delta net.
pub fn qwen_prefill_chain_gdn_weight_trace(weight: &MetalGdnWeightRef<'_>) -> (line: String)
    ensures
        line@ == gdn_weight_text(*weight),
{
    match weight {
        MetalGdnWeightRef::F32 { values, rows, cols } => {
            let mut line = String::from_str("F32:");
            push_decimal(&mut line, *rows);
            line.append("x");
            push_decimal(&mut line, *cols);
            line.append(":values=");
            push_decimal(&mut line, values.len());
            line
        },
        MetalGdnWeightRef::Quant(weight) => {
            let mut line = String::from_str(weight.ggml_type.label());
            line.append(":");
            push_decimal(&mut line, weight.rows);
            line.append("x");
            push_decimal(&mut line, weight.cols);
            line.append(":bytes=");
            push_decimal(&mut line, weight.raw.len());
            line.append(":expected=");
            push_optional(&mut line, qwen_prefill_chain_expected_quant_bytes(weight));
            line
        },
    }
}

/// The elements that the state of a convolution should have.
pub open spec fn conv_state_elements(spec: MetalQwenPrefillGdnSpec<'_>) -> Option<int> {
    if spec.conv_kernel_size == 0 {
        None
    } else {
        times(word(spec.conv_channels()), (spec.conv_kernel_size - 1) as usize)
    }
}

/// The elements that a normed head of a delta net has.
pub open spec fn head_elements(spec: MetalQwenPrefillGdnSpec<'_>) -> Option<int> {
    if spec.dt_rank == 0 {
        None
    } else {
        Some(spec.d_inner as int / spec.dt_rank as int)
    }
}

/// The line of a delta net that the device cannot take.
pub open spec fn gdn_text(layer_idx: usize, spec: MetalQwenPrefillGdnSpec<'_>) -> Seq<char> {
    "RNB_METAL_QWEN_PREFILL_CHAIN reject layer="@ + decimal(layer_idx as nat)
        + " stage=gdn seq="@ + decimal(spec.seq_len as nat) + " hidden="@
        + decimal(spec.hidden_dim as nat) + " d_inner="@ + decimal(spec.d_inner as nat)
        + " d_state="@ + decimal(spec.d_state as nat) + " n_group="@
        + decimal(spec.n_group as nat) + " dt_rank="@ + decimal(spec.dt_rank as nat)
        + " kernel="@ + decimal(spec.conv_kernel_size as nat) + " conv_channels="@
        + optional_text(word(spec.conv_channels())) + " conv_state="@
        + decimal(spec.conv_state@.len() as nat) + "/expected="@
        + optional_text(conv_state_elements(spec)) + " conv_kernel="@
        + decimal(spec.conv_kernel@.len() as nat) + "/expected="@
        + optional_text(times(word(spec.conv_channels()), spec.conv_kernel_size))
        + " delta_state="@ + decimal(spec.delta_state@.len() as nat) + "/expected="@
        + optional_text(word(spec.d_inner * spec.d_state)) + " attn_norm="@
        + decimal(spec.attn_norm_w@.len() as nat) + "/expected="@
        + decimal(spec.hidden_dim as nat) + " dt_bias="@ + decimal(spec.dt_bias@.len() as nat)
        + "/expected="@ + decimal(spec.dt_rank as nat) + " ssm_a="@
        + decimal(spec.ssm_a@.len() as nat) + "/expected="@ + decimal(spec.dt_rank as nat)
        + " ssm_norm="@ + decimal(spec.ssm_norm@.len() as nat) + "/expected="@
        + optional_text(head_elements(spec)) + " post_norm="@
        + decimal(spec.post_attn_norm_w@.len() as nat) + "/expected="@
        + decimal(spec.hidden_dim as nat) + " qkv="@ + gdn_weight_text(spec.qkv_weight)
        + " gate="@ + gdn_weight_text(spec.gate_weight) + " alpha="@
        + gdn_weight_text(spec.alpha_weight) + " beta="@ + gdn_weight_text(spec.beta_weight)
        + " ssm_out="@ + gdn_weight_text(spec.ssm_out_weight)
}

/// Builds that line.
pub fn qwen_prefill_chain_trace_gdn_reject(
    layer_idx: usize,
    spec: &MetalQwenPrefillGdnSpec<'_>,
) -> (line: String)
    ensures
        line@ == gdn_text(layer_idx, *spec),
{
    proof {
        assert(0 <= spec.n_group * spec.d_state) by (nonlinear_arith)
            requires
                0 <= spec.n_group,
                0 <= spec.d_state,
        ;
    }
    let conv_channels = match multiply(spec.n_group.checked_mul(spec.d_state), 2) {
        Some(grouped) => spec.d_inner.checked_add(grouped),
        None => None,
    };
    let conv_state = match spec.conv_kernel_size.checked_sub(1) {
        Some(kernel) => multiply(conv_channels, kernel),
        None => None,
    };
    let head_v_dim = if spec.dt_rank == 0 {
        None
    } else {
        Some(spec.d_inner / spec.dt_rank)
    };
    let mut line = String::from_str("RNB_METAL_QWEN_PREFILL_CHAIN reject layer=");
    push_decimal(&mut line, layer_idx);
    line.append(" stage=gdn seq=");
    push_decimal(&mut line, spec.seq_len);
    line.append(" hidden=");
    push_decimal(&mut line, spec.hidden_dim);
    line.append(" d_inner=");
    push_decimal(&mut line, spec.d_inner);
    line.append(" d_state=");
    push_decimal(&mut line, spec.d_state);
    line.append(" n_group=");
    push_decimal(&mut line, spec.n_group);
    line.append(" dt_rank=");
    push_decimal(&mut line, spec.dt_rank);
    line.append(" kernel=");
    push_decimal(&mut line, spec.conv_kernel_size);
    line.append(" conv_channels=");
    push_optional(&mut line, conv_channels);
    line.append(" conv_state=");
    push_decimal(&mut line, spec.conv_state.len());
    line.append("/expected=");
    push_optional(&mut line, conv_state);
    line.append(" conv_kernel=");
    push_decimal(&mut line, spec.conv_kernel.len());
    line.append("/expected=");
    push_optional(&mut line, multiply(conv_channels, spec.conv_kernel_size));
    line.append(" delta_state=");
    push_decimal(&mut line, spec.delta_state.len());
    line.append("/expected=");
    push_optional(&mut line, spec.d_inner.checked_mul(spec.d_state));
    line.append(" attn_norm=");
    push_decimal(&mut line, spec.attn_norm_w.len());
    line.append("/expected=");
    push_decimal(&mut line, spec.hidden_dim);
    line.append(" dt_bias=");
    push_decimal(&mut line, spec.dt_bias.len());
    line.append("/expected=");
    push_decimal(&mut line, spec.dt_rank);
    line.append(" ssm_a=");
    push_decimal(&mut line, spec.ssm_a.len());
    line.append("/expected=");
    push_decimal(&mut line, spec.dt_rank);
    line.append(" ssm_norm=");
    push_decimal(&mut line, spec.ssm_norm.len());
    line.append("/expected=");
    push_optional(&mut line, head_v_dim);
    line.append(" post_norm=");
    push_decimal(&mut line, spec.post_attn_norm_w.len());
    line.append("/expected=");
    push_decimal(&mut line, spec.hidden_dim);
    line.append(" qkv=");
    line.append(qwen_prefill_chain_gdn_weight_trace(&spec.qkv_weight).as_str());
    line.append(" gate=");
    line.append(qwen_prefill_chain_gdn_weight_trace(&spec.gate_weight).as_str());
    line.append(" alpha=");
    line.append(qwen_prefill_chain_gdn_weight_trace(&spec.alpha_weight).as_str());
    line.append(" beta=");
    line.append(qwen_prefill_chain_gdn_weight_trace(&spec.beta_weight).as_str());
    line.append(" ssm_out=");
    line.append(qwen_prefill_chain_gdn_weight_trace(&spec.ssm_out_weight).as_str());
    line
}

/// The bytes of an expert's weight in that format, where a kernel takes it.
pub open spec fn expert_bytes(format: GGMLType, input_dim: usize, output_dim: usize) -> Option<int> {
    match moe_quant(format) {
        Some(quant) => moe_weight_bytes(quant, input_dim as int, output_dim as int),
        None => None,
    }
}

fn find_expert_bytes(format: GGMLType, input_dim: usize, output_dim: usize) -> (bytes: Option<usize>)
    ensures
        whole(bytes) == expert_bytes(format, input_dim, output_dim),
{
    match qwen_prefill_chain_moe_quant(format) {
        Some(quant) => qwen_prefill_chain_moe_weight_bytes(quant, input_dim, output_dim),
        None => None,
    }
}

/// The line of experts that the device cannot take.
pub open spec fn moe_text(
    layer_idx: usize,
    seq_len: usize,
    hidden_dim: usize,
    spec: MetalQwenMoePrefillWeights<'_>,
) -> Seq<char> {
    let gate = expert_bytes(spec.sparse_quant.gate, spec.hidden_dim, spec.ffn_dim);
    let up = expert_bytes(spec.sparse_quant.up, spec.hidden_dim, spec.ffn_dim);
    let down = expert_bytes(spec.sparse_quant.down, spec.ffn_dim, spec.hidden_dim);
    "RNB_METAL_QWEN_PREFILL_CHAIN reject layer="@ + decimal(layer_idx as nat)
        + " stage=moe seq="@ + decimal(seq_len as nat) + " hidden="@
        + decimal(spec.hidden_dim as nat) + "/chain_hidden="@ + decimal(hidden_dim as nat)
        + " ffn="@ + decimal(spec.ffn_dim as nat) + " experts="@
        + decimal(spec.route.n_expert as nat) + "/used="@
        + decimal(spec.route.n_expert_used as nat) + " norms="@
        + decimal(spec.ffn_norm_w@.len() as nat) + "/expected="@
        + decimal(spec.hidden_dim as nat) + " router="@ + decimal(spec.router_w@.len() as nat)
        + "/expected="@ + optional_text(word(spec.route.n_expert * spec.hidden_dim))
        + " shared_scale="@ + decimal(spec.shared_input_scale@.len() as nat) + "/expected="@
        + decimal(spec.hidden_dim as nat) + " sparse="@ + spec.sparse_quant.gate.spec_label()
        + "/"@ + spec.sparse_quant.up.spec_label() + "/"@ + spec.sparse_quant.down.spec_label()
        + " bytes_per="@ + decimal(spec.gate_expert_bytes as nat) + "/"@
        + decimal(spec.up_expert_bytes as nat) + "/"@ + decimal(spec.down_expert_bytes as nat)
        + " expected="@ + optional_text(gate) + "/"@ + optional_text(up) + "/"@
        + optional_text(down) + " arenas="@ + decimal(spec.gate_all@.len() as nat) + "/"@
        + decimal(spec.up_all@.len() as nat) + "/"@ + decimal(spec.down_all@.len() as nat)
        + " expected="@ + optional_text(times(gate, spec.route.n_expert)) + "/"@
        + optional_text(times(up, spec.route.n_expert)) + "/"@
        + optional_text(times(down, spec.route.n_expert)) + " shared="@
        + spec.shared_quant.gate.spec_label() + "/"@ + spec.shared_quant.up.spec_label() + "/"@
        + spec.shared_quant.down.spec_label() + " bytes="@
        + decimal(spec.shared_gate@.len() as nat) + "/"@ + decimal(spec.shared_up@.len() as nat)
        + "/"@ + decimal(spec.shared_down@.len() as nat) + " expected="@
        + optional_text(expert_bytes(spec.shared_quant.gate, spec.hidden_dim, spec.ffn_dim))
        + "/"@
        + optional_text(expert_bytes(spec.shared_quant.up, spec.hidden_dim, spec.ffn_dim))
        + "/"@
        + optional_text(expert_bytes(spec.shared_quant.down, spec.ffn_dim, spec.hidden_dim))
}

/// Builds that line.
pub fn qwen_prefill_chain_trace_moe_reject(
    layer_idx: usize,
    seq_len: usize,
    hidden_dim: usize,
    spec: &MetalQwenMoePrefillWeights<'_>,
) -> (line: String)
    ensures
        line@ == moe_text(layer_idx, seq_len, hidden_dim, *spec),
{
    let gate = find_expert_bytes(spec.sparse_quant.gate, spec.hidden_dim, spec.ffn_dim);
    let up = find_expert_bytes(spec.sparse_quant.up, spec.hidden_dim, spec.ffn_dim);
    let down = find_expert_bytes(spec.sparse_quant.down, spec.ffn_dim, spec.hidden_dim);
    let mut line = String::from_str("RNB_METAL_QWEN_PREFILL_CHAIN reject layer=");
    push_decimal(&mut line, layer_idx);
    line.append(" stage=moe seq=");
    push_decimal(&mut line, seq_len);
    line.append(" hidden=");
    push_decimal(&mut line, spec.hidden_dim);
    line.append("/chain_hidden=");
    push_decimal(&mut line, hidden_dim);
    line.append(" ffn=");
    push_decimal(&mut line, spec.ffn_dim);
    line.append(" experts=");
    push_decimal(&mut line, spec.route.n_expert);
    line.append("/used=");
    push_decimal(&mut line, spec.route.n_expert_used);
    line.append(" norms=");
    push_decimal(&mut line, spec.ffn_norm_w.len());
    line.append("/expected=");
    push_decimal(&mut line, spec.hidden_dim);
    line.append(" router=");
    push_decimal(&mut line, spec.router_w.len());
    line.append("/expected=");
    push_optional(&mut line, spec.route.n_expert.checked_mul(spec.hidden_dim));
    line.append(" shared_scale=");
    push_decimal(&mut line, spec.shared_input_scale.len());
    line.append("/expected=");
    push_decimal(&mut line, spec.hidden_dim);
    line.append(" sparse=");
    line.append(spec.sparse_quant.gate.label());
    line.append("/");
    line.append(spec.sparse_quant.up.label());
    line.append("/");
    line.append(spec.sparse_quant.down.label());
    line.append(" bytes_per=");
    push_decimal(&mut line, spec.gate_expert_bytes);
    line.append("/");
    push_decimal(&mut line, spec.up_expert_bytes);
    line.append("/");
    push_decimal(&mut line, spec.down_expert_bytes);
    line.append(" expected=");
    push_optional(&mut line, gate);
    line.append("/");
    push_optional(&mut line, up);
    line.append("/");
    push_optional(&mut line, down);
    line.append(" arenas=");
    push_decimal(&mut line, spec.gate_all.len());
    line.append("/");
    push_decimal(&mut line, spec.up_all.len());
    line.append("/");
    push_decimal(&mut line, spec.down_all.len());
    line.append(" expected=");
    push_optional(&mut line, multiply(gate, spec.route.n_expert));
    line.append("/");
    push_optional(&mut line, multiply(up, spec.route.n_expert));
    line.append("/");
    push_optional(&mut line, multiply(down, spec.route.n_expert));
    line.append(" shared=");
    line.append(spec.shared_quant.gate.label());
    line.append("/");
    line.append(spec.shared_quant.up.label());
    line.append("/");
    line.append(spec.shared_quant.down.label());
    line.append(" bytes=");
    push_decimal(&mut line, spec.shared_gate.len());
    line.append("/");
    push_decimal(&mut line, spec.shared_up.len());
    line.append("/");
    push_decimal(&mut line, spec.shared_down.len());
    line.append(" expected=");
    push_optional(
        &mut line,
        find_expert_bytes(spec.shared_quant.gate, spec.hidden_dim, spec.ffn_dim),
    );
    line.append("/");
    push_optional(
        &mut line,
        find_expert_bytes(spec.shared_quant.up, spec.hidden_dim, spec.ffn_dim),
    );
    line.append("/");
    push_optional(
        &mut line,
        find_expert_bytes(spec.shared_quant.down, spec.ffn_dim, spec.hidden_dim),
    );
    line
}

/// The place of the first layer that has that index, from `from` on.
pub open spec fn place_of_layer(
    layers: Seq<MetalQwenPrefillChainLayer<'_>>,
    layer_idx: usize,
    from: int,
) -> Option<int>
    decreases layers.len() - from,
{
    if from < 0 || from >= layers.len() {
        None
    } else if layers[from].index() == layer_idx {
        Some(from)
    } else {
        place_of_layer(layers, layer_idx, from + 1)
    }
}

fn find_layer(layers: &[MetalQwenPrefillChainLayer<'_>], layer_idx: usize) -> (place: Option<usize>)
    ensures
        whole(place) == place_of_layer(layers@, layer_idx, 0),
        place matches Some(place) ==> place < layers@.len(),
{
    let mut i: usize = 0;
    while i < layers.len()
        invariant
            i <= layers@.len(),
            place_of_layer(layers@, layer_idx, 0) == place_of_layer(layers@, layer_idx, i as int),
        decreases layers@.len() - i,
    {
        let index: usize = match &layers[i] {
            MetalQwenPrefillChainLayer::Attention { layer_idx, .. } => *layer_idx,
            MetalQwenPrefillChainLayer::Gdn { layer_idx, .. } => *layer_idx,
        };
        if index == layer_idx {
            return Some(i);
        }
        i += 1;
    }
    None
}

fn shape_of(layer: &MetalQwenPrefillChainLayer<'_>) -> (shape: (usize, usize))
    ensures
        shape == layer.shape(),
{
    match layer {
        MetalQwenPrefillChainLayer::Attention { core, .. } => (
            core.core.seq_len,
            core.core.hidden_dim,
        ),
        MetalQwenPrefillChainLayer::Gdn { layer, .. } => (layer.seq_len, layer.hidden_dim),
    }
}

/// Why a layer does not follow the one before it.
pub open spec fn order_reason(layer_idx: usize, previous: usize) -> Seq<char> {
    "conversion_non_contiguous_layer previous="@ + optional_text(Some(previous as int))
        + " actual="@ + decimal(layer_idx as nat)
}

fn describe_order(layer_idx: usize, previous: usize) -> (line: String)
    ensures
        line@ == order_reason(layer_idx, previous),
{
    let mut line = String::from_str("conversion_non_contiguous_layer previous=");
    push_optional(&mut line, Some(previous));
    line.append(" actual=");
    push_decimal(&mut line, layer_idx);
    line
}

/// Why a layer's shape is not that of the chain.
pub open spec fn shape_reason(expected: (usize, usize), actual: (usize, usize)) -> Seq<char> {
    "conversion_chain_shape expected=("@ + decimal(expected.0 as nat) + ", "@
        + decimal(expected.1 as nat) + ") actual=("@ + decimal(actual.0 as nat) + ","@
        + decimal(actual.1 as nat) + ")"@
}

fn describe_shape(expected: (usize, usize), actual: (usize, usize)) -> (line: String)
    ensures
        line@ == shape_reason(expected, actual),
{
    let mut line = String::from_str("conversion_chain_shape expected=(");
    push_decimal(&mut line, expected.0);
    line.append(", ");
    push_decimal(&mut line, expected.1);
    line.append(") actual=(");
    push_decimal(&mut line, actual.0);
    line.append(",");
    push_decimal(&mut line, actual.1);
    line.append(")");
    line
}

/// Why a hidden state is not that of the first layer.
pub open spec fn length_reason(hidden_len: usize, shape: (usize, usize)) -> Seq<char> {
    "conversion_hidden_len actual="@ + decimal(hidden_len as nat) + " expected="@
        + optional_text(word(shape.0 * shape.1))
}

fn describe_length(hidden_len: usize, shape: (usize, usize)) -> (line: String)
    ensures
        line@ == length_reason(hidden_len, shape),
{
    let mut line = String::from_str("conversion_hidden_len actual=");
    push_decimal(&mut line, hidden_len);
    line.append(" expected=");
    push_optional(&mut line, shape.0.checked_mul(shape.1));
    line
}

/// The line of a chain that stops at `layer`.
pub open spec fn stopped_text(
    layers: Seq<MetalQwenPrefillChainLayer<'_>>,
    hidden_len: usize,
    layer: MetalQwenPrefillChainLayer<'_>,
    reject: ChainReject,
) -> Option<Seq<char>> {
    let layer_idx = layer.index();
    let shape = layer.shape();
    match (reject, layer) {
        (ChainReject::ChainShape { .. }, _) => Some(
            reason_text(Some(layer_idx), shape_reason(layers[0].shape(), shape)),
        ),
        (ChainReject::HiddenLength { .. }, _) => Some(
            reason_text(Some(layer_idx), length_reason(hidden_len, shape)),
        ),
        (
            ChainReject::Attention { .. },
            MetalQwenPrefillChainLayer::Attention { core, .. },
        ) => Some(attention_text(layer_idx, core)),
        (
            ChainReject::Gdn { .. },
            MetalQwenPrefillChainLayer::Gdn { layer, .. },
        ) => Some(gdn_text(layer_idx, layer)),
        (
            ChainReject::Moe { .. },
            MetalQwenPrefillChainLayer::Attention { moe, .. },
        ) => Some(moe_text(layer_idx, shape.0, shape.1, moe)),
        (
            ChainReject::Moe { .. },
            MetalQwenPrefillChainLayer::Gdn { moe, .. },
        ) => Some(moe_text(layer_idx, shape.0, shape.1, moe)),
        _ => None,
    }
}

/// The layer that a reason names, where it needs to be looked at.
pub open spec fn named_layer(reject: ChainReject) -> Option<usize> {
    match reject {
        ChainReject::ChainShape { layer_idx } => Some(layer_idx),
        ChainReject::HiddenLength { layer_idx } => Some(layer_idx),
        ChainReject::Attention { layer_idx } => Some(layer_idx),
        ChainReject::Gdn { layer_idx } => Some(layer_idx),
        ChainReject::Moe { layer_idx } => Some(layer_idx),
        _ => None,
    }
}

/// The line that says why a chain is not run, unless the reason names a layer that the
/// chain does not have.
pub open spec fn reject_text(
    layers: Seq<MetalQwenPrefillChainLayer<'_>>,
    hidden_len: usize,
    reject: ChainReject,
) -> Option<Seq<char>> {
    match reject {
        ChainReject::EmptyLayers => Some(reason_text(None, "conversion_empty_layers"@)),
        ChainReject::BackendReturnedNone => Some(reason_text(None, "backend_returned_none"@)),
        ChainReject::NonContiguousLayer { layer_idx, previous } => Some(
            reason_text(Some(layer_idx), order_reason(layer_idx, previous)),
        ),
        _ => match place_of_layer(layers, named_layer(reject)->0, 0) {
            Some(place) => stopped_text(layers, hidden_len, layers[place], reject),
            None => None,
        },
    }
}

fn stopped_line(
    layers: &[MetalQwenPrefillChainLayer<'_>],
    hidden_len: usize,
    layer_idx: usize,
    reject: ChainReject,
) -> (line: Option<String>)
    requires
        named_layer(reject) == Some(layer_idx),
    ensures
        match (line, reject_text(layers@, hidden_len, reject)) {
            (Some(line), Some(text)) => line@ == text,
            (None, None) => true,
            _ => false,
        },
{
    let place: usize = match find_layer(layers, layer_idx) {
        Some(place) => place,
        None => return None,
    };
    proof {
        lemma_place_has_the_index(layers@, layer_idx, 0);
    }
    let shape = shape_of(&layers[place]);
    match (reject, &layers[place]) {
        (ChainReject::ChainShape { .. }, _) => {
            let reason = describe_shape(shape_of(&layers[0]), shape);
            Some(qwen_prefill_chain_trace_reject(Some(layer_idx), reason.as_str()))
        },
        (ChainReject::HiddenLength { .. }, _) => {
            let reason = describe_length(hidden_len, shape);
            Some(qwen_prefill_chain_trace_reject(Some(layer_idx), reason.as_str()))
        },
        (
            ChainReject::Attention { .. },
            MetalQwenPrefillChainLayer::Attention { core, .. },
        ) => Some(qwen_prefill_chain_trace_attention_reject(layer_idx, core)),
        (ChainReject::Gdn { .. }, MetalQwenPrefillChainLayer::Gdn { layer, .. }) => Some(
            qwen_prefill_chain_trace_gdn_reject(layer_idx, layer),
        ),
        (ChainReject::Moe { .. }, MetalQwenPrefillChainLayer::Attention { moe, .. }) => Some(
            qwen_prefill_chain_trace_moe_reject(layer_idx, shape.0, shape.1, moe),
        ),
        (ChainReject::Moe { .. }, MetalQwenPrefillChainLayer::Gdn { moe, .. }) => Some(
            qwen_prefill_chain_trace_moe_reject(layer_idx, shape.0, shape.1, moe),
        ),
        _ => None,
    }
}

/// Says why a chain is not run.
pub fn chain_reject_line(
    layers: &[MetalQwenPrefillChainLayer<'_>],
    hidden_len: usize,
    reject: ChainReject,
) -> (line: Option<String>)
    ensures
        match (line, reject_text(layers@, hidden_len, reject)) {
            (Some(line), Some(text)) => line@ == text,
            (None, None) => true,
            _ => false,
        },
{
    match reject {
        ChainReject::EmptyLayers => Some(
            qwen_prefill_chain_trace_reject(None, "conversion_empty_layers"),
        ),
        ChainReject::BackendReturnedNone => Some(
            qwen_prefill_chain_trace_reject(None, "backend_returned_none"),
        ),
        ChainReject::NonContiguousLayer { layer_idx, previous } => {
            let reason = describe_order(layer_idx, previous);
            Some(qwen_prefill_chain_trace_reject(Some(layer_idx), reason.as_str()))
        },
        ChainReject::ChainShape { layer_idx } => stopped_line(
            layers,
            hidden_len,
            layer_idx,
            reject,
        ),
        ChainReject::HiddenLength { layer_idx } => stopped_line(
            layers,
            hidden_len,
            layer_idx,
            reject,
        ),
        ChainReject::Attention { layer_idx } => stopped_line(
            layers,
            hidden_len,
            layer_idx,
            reject,
        ),
        ChainReject::Gdn { layer_idx } => stopped_line(layers, hidden_len, layer_idx, reject),
        ChainReject::Moe { layer_idx } => stopped_line(layers, hidden_len, layer_idx, reject),
    }
}

proof fn lemma_place_has_the_index(
    layers: Seq<MetalQwenPrefillChainLayer<'_>>,
    layer_idx: usize,
    from: int,
)
    requires
        0 <= from,
    ensures
        place_of_layer(layers, layer_idx, from) matches Some(place) ==> from <= place < layers.len()
            && layers[place].index() == layer_idx,
    decreases layers.len() - from,
{
    if from < layers.len() && layers[from].index() != layer_idx {
        lemma_place_has_the_index(layers, layer_idx, from + 1);
    }
}

proof fn lemma_chain_counts_up(
    layers: Seq<MetalQwenPrefillChainLayer<'_>>,
    hidden_len: int,
    k: int,
)
    requires
        0 <= k < layers.len(),
        forall|j: int| 0 <= j < k ==> #[trigger] joins_chain(layers, j, hidden_len),
        k > 0 ==> follows(Some(layers[k - 1].index()), layers[k].index()),
    ensures
        forall|j: int| 0 <= j <= k ==> (#[trigger] layers[j]).index() == layers[0].index() + j,
    decreases k,
{
    if k > 0 {
        assert(joins_chain(layers, k - 1, hidden_len));
        lemma_chain_counts_up(layers, hidden_len, k - 1);
    }
}

proof fn lemma_counted_place(layers: Seq<MetalQwenPrefillChainLayer<'_>>, k: int, from: int)
    requires
        0 <= from <= k < layers.len(),
        forall|j: int| 0 <= j <= k ==> (#[trigger] layers[j]).index() == layers[0].index() + j,
    ensures
        place_of_layer(layers, layers[k].index(), from) == Some(k),
    decreases k - from,
{
    assert(layers[from].index() == layers[0].index() + from);
    assert(layers[k].index() == layers[0].index() + k);
    if from < k {
        lemma_counted_place(layers, k, from + 1);
    }
}

/// Every chain that is not run has a line that says why, and where that looks at a layer it
/// is the one that stopped the chain.
pub proof fn law_every_reject_has_its_line(
    layers: Seq<MetalQwenPrefillChainLayer<'_>>,
    hidden_len: usize,
    reject: ChainReject,
)
    requires
        reject == ChainReject::BackendReturnedNone || first_reject(
            layers,
            hidden_len as int,
            reject,
        ),
    ensures
        reject_text(layers, hidden_len, reject) is Some,
        named_layer(reject) matches Some(layer_idx) ==> {
            &&& place_of_layer(layers, layer_idx, 0) matches Some(k)
            &&& !joins_chain(layers, k, hidden_len as int)
            &&& forall|j: int|
                0 <= j < k ==> #[trigger] joins_chain(layers, j, hidden_len as int)
        },
{
    if named_layer(reject) is Some {
        let k = choose|k: int|
            {
                &&& 0 <= k < layers.len()
                &&& !(#[trigger] joins_chain(layers, k, hidden_len as int))
                &&& forall|j: int|
                    0 <= j < k ==> #[trigger] joins_chain(layers, j, hidden_len as int)
                &&& reject == join_reject(
                    layers,
                    k,
                    hidden_len as int,
                )
            };
        lemma_chain_counts_up(layers, hidden_len as int, k);
        lemma_counted_place(layers, k, 0);
    }
}

/// Numbers that a word holds are told as they are and any other as missing; a missing number
/// is named as such.
pub proof fn law_numbers_that_a_word_holds_are_told(
    number: int,
    other: Option<usize>,
    factor: usize,
)
    requires
        0 <= number,
    ensures
        number <= usize::MAX ==> word(number) == Some(number),
        number > usize::MAX ==> word(number) is None,
        times(None, factor) is None,
        number * factor <= usize::MAX ==> times(Some(number), factor) == Some(number * factor),
        number * factor > usize::MAX ==> times(Some(number), factor) is None,
        other is Some ==> whole(other) == Some(other->0 as int),
        other is None ==> whole(other) is None,
        optional_text(None) == "None"@,
        says(optional_text(Some(number)), "Some("@, decimal(number as nat)),
        optional_text(Some(number)).len() == "Some("@.len() + decimal(number as nat).len()
            + ")"@.len(),
{
    let open = "Some("@;
    let digits = decimal(number as nat);
    assert(Seq::<char>::empty() + open + digits =~= open + digits);
    lemma_says(Seq::empty(), open, digits);
    lemma_says_more(open + digits, open, digits, ")"@);
}

/// The line of a chain that is not run names the layer, where there is one, and the reason.
pub proof fn law_reasons_are_told_of_their_layer(layer_idx: Option<usize>, reason: Seq<char>)
    ensures
        says(
            reason_text(layer_idx, reason),
            "RNB_METAL_QWEN_PREFILL_CHAIN reject layer="@,
            if layer_idx is Some {
                decimal(layer_idx->0 as nat)
            } else {
                "none"@
            },
        ),
        says(reason_text(layer_idx, reason), " reason="@, reason),
{
    let start = "RNB_METAL_QWEN_PREFILL_CHAIN reject layer="@;
    let layer = layer_text(layer_idx);
    let line = start + layer;
    assert(Seq::<char>::empty() + start + layer =~= line);
    lemma_says(Seq::empty(), start, layer);
    lemma_says_more(line, start, layer, " reason="@);
    lemma_says_more(line + " reason="@, start, layer, reason);
    lemma_says(line, " reason="@, reason);
}

/// A weight is told by its format, its shape, the bytes that it has and those that it should
/// have.
pub proof fn law_weights_are_told_in_full(weight: MetalQuantWeightRef<'_>)
    ensures
        begins_with(weight_text(weight), weight.ggml_type.spec_label()),
        says(
            weight_text(weight),
            ":"@,
            decimal(weight.rows as nat) + "x"@ + decimal(weight.cols as nat),
        ),
        says(
            weight_text(weight),
            " bytes="@,
            decimal(weight.raw@.len()) + "/expected="@ + optional_text(weight.expected_bytes()),
        ),
{
    let line = weight_text(weight);
    let label = weight.ggml_type.spec_label();
    let rows = decimal(weight.rows as nat);
    let cols = decimal(weight.cols as nat);
    let bytes = decimal(weight.raw@.len());
    let due = optional_text(weight.expected_bytes());
    let shape = label + ":"@;
    let shaped = shape + rows + "x"@ + cols;
    let held = shaped + " bytes="@;
    lemma_joined(shape, rows, "x"@);
    lemma_joined(shape, rows + "x"@, cols);
    lemma_joined(held, bytes, "/expected="@);
    lemma_joined(held, bytes + "/expected="@, due);
    lemma_begins_with_itself(line);
    lemma_says_at_the_end(line, shaped, " bytes="@, bytes + "/expected="@ + due);
    lemma_says_at_the_end(line, label, ":"@, rows + "x"@ + cols);
}

/// So is a quantized weight of a delta net.
pub proof fn law_delta_net_weights_are_told_in_full(weight: MetalQuantWeightRef<'_>)
    ensures
        begins_with(
            gdn_weight_text(MetalGdnWeightRef::Quant(weight)),
            weight.ggml_type.spec_label(),
        ),
        says(
            gdn_weight_text(MetalGdnWeightRef::Quant(weight)),
            ":"@,
            decimal(weight.rows as nat) + "x"@ + decimal(weight.cols as nat),
        ),
        says(
            gdn_weight_text(MetalGdnWeightRef::Quant(weight)),
            ":bytes="@,
            decimal(weight.raw@.len()) + ":expected="@ + optional_text(weight.expected_bytes()),
        ),
{
    let line = gdn_weight_text(MetalGdnWeightRef::Quant(weight));
    let label = weight.ggml_type.spec_label();
    let rows = decimal(weight.rows as nat);
    let cols = decimal(weight.cols as nat);
    let bytes = decimal(weight.raw@.len());
    let due = optional_text(weight.expected_bytes());
    let shape = label + ":"@;
    let shaped = shape + rows + "x"@ + cols;
    let held = shaped + ":bytes="@;
    lemma_joined(shape, rows, "x"@);
    lemma_joined(shape, rows + "x"@, cols);
    lemma_joined(held, bytes, ":expected="@);
    lemma_joined(held, bytes + ":expected="@, due);
    lemma_begins_with_itself(line);
    lemma_says_at_the_end(line, shaped, ":bytes="@, bytes + ":expected="@ + due);
    lemma_says_at_the_end(line, label, ":"@, rows + "x"@ + cols);
}

/// Plain floats of a delta net are told by their shape and by how many there are.
pub proof fn law_plain_weights_are_told_in_full(values: &[u32], rows: usize, cols: usize)
    ensures
        gdn_weight_text(MetalGdnWeightRef::F32 { values, rows, cols }) == "F32:"@ + (decimal(
            rows as nat,
        ) + ("x"@ + (decimal(cols as nat) + (":values="@ + decimal(values@.len()))))),
{
    assert(gdn_weight_text(MetalGdnWeightRef::F32 { values, rows, cols }) =~= "F32:"@ + (decimal(
        rows as nat,
    ) + ("x"@ + (decimal(cols as nat) + (":values="@ + decimal(values@.len()))))));
}

/// The line of an attention part says each of its sizes, norms and weights behind its name,
/// beside what it should be.
#[verifier::rlimit(40)]
pub proof fn law_attention_lines_say_each_size(layer_idx: usize, spec: MetalPrefillAtnOTailSpec<'_>)
    ensures
        says(
            attention_text(layer_idx, spec),
            "RNB_METAL_QWEN_PREFILL_CHAIN reject layer="@,
            decimal(layer_idx as nat),
        ),
        says(
            attention_text(layer_idx, spec),
            " stage=attention seq="@,
            decimal(spec.core.seq_len as nat),
        ),
        says(attention_text(layer_idx, spec), " hidden="@, decimal(spec.core.hidden_dim as nat)),
        says(attention_text(layer_idx, spec), " heads="@, decimal(spec.core.num_heads as nat)),
        says(
            attention_text(layer_idx, spec),
            " kv_heads="@,
            decimal(spec.core.num_kv_heads as nat),
        ),
        says(attention_text(layer_idx, spec), " head_dim="@, decimal(spec.core.head_dim as nat)),
        says(attention_text(layer_idx, spec), " pos_start="@, decimal(spec.core.pos_start as nat)),
        says(attention_text(layer_idx, spec), " n_rot="@, decimal(spec.core.n_rot as nat)),
        says(
            attention_text(layer_idx, spec),
            " q_dim="@,
            decimal(spec.core.q_dim as nat) + "/expected="@
                + optional_text(word(spec.core.num_heads * spec.core.head_dim)),
        ),
        says(
            attention_text(layer_idx, spec),
            " kv_dim="@,
            decimal(spec.core.kv_dim as nat) + "/expected="@
                + optional_text(word(spec.core.num_kv_heads * spec.core.head_dim)),
        ),
        says(
            attention_text(layer_idx, spec),
            " norms="@,
            decimal(spec.core.attn_norm_w@.len() as nat) + "/"@
                + decimal(spec.core.q_norm_w@.len() as nat) + "/"@
                + decimal(spec.core.k_norm_w@.len() as nat),
        ),
        says(
            attention_text(layer_idx, spec),
            " expected="@,
            decimal(spec.core.hidden_dim as nat) + "/"@ + decimal(spec.core.head_dim as nat) + "/"@
                + decimal(spec.core.head_dim as nat),
        ),
        says(
            attention_text(layer_idx, spec),
            " q="@,
            spec.core.q_weight.ggml_type.spec_label() + ":"@
                + optional_text(times(word(spec.core.num_heads * spec.core.head_dim), 2)) + "x"@
                + decimal(spec.core.q_weight.cols as nat),
        ),
        says(
            attention_text(layer_idx, spec),
            " bytes="@,
            decimal(spec.core.q_weight.raw@.len() as nat) + "/expected="@
                + optional_text(spec.core.q_weight.expected_bytes()),
        ),
        says(attention_text(layer_idx, spec), " k="@, weight_text(spec.core.k_weight)),
        says(attention_text(layer_idx, spec), " v="@, weight_text(spec.core.v_weight)),
        says(attention_text(layer_idx, spec), " o="@, weight_text(spec.o_weight)),
{
    let head1 = "RNB_METAL_QWEN_PREFILL_CHAIN reject layer="@;
    let line1 = head1 + decimal(layer_idx as nat);
    let head2 = line1 + " stage=attention seq="@;
    let line2 = head2 + decimal(spec.core.seq_len as nat);
    let head3 = line2 + " hidden="@;
    let line3 = head3 + decimal(spec.core.hidden_dim as nat);
    let head4 = line3 + " heads="@;
    let line4 = head4 + decimal(spec.core.num_heads as nat);
    let head5 = line4 + " kv_heads="@;
    let line5 = head5 + decimal(spec.core.num_kv_heads as nat);
    let head6 = line5 + " head_dim="@;
    let line6 = head6 + decimal(spec.core.head_dim as nat);
    let head7 = line6 + " pos_start="@;
    let line7 = head7 + decimal(spec.core.pos_start as nat);
    let head8 = line7 + " n_rot="@;
    let line8 = head8 + decimal(spec.core.n_rot as nat);
    let head9 = line8 + " q_dim="@;
    let line9 = head9 + decimal(spec.core.q_dim as nat) + "/expected="@
        + optional_text(word(spec.core.num_heads * spec.core.head_dim));
    lemma_joined(head9, decimal(spec.core.q_dim as nat), "/expected="@);
    lemma_joined(
        head9,
        decimal(spec.core.q_dim as nat) + "/expected="@,
        optional_text(word(spec.core.num_heads * spec.core.head_dim)),
    );
    let head10 = line9 + " kv_dim="@;
    let line10 = head10 + decimal(spec.core.kv_dim as nat) + "/expected="@
        + optional_text(word(spec.core.num_kv_heads * spec.core.head_dim));
    lemma_joined(head10, decimal(spec.core.kv_dim as nat), "/expected="@);
    lemma_joined(
        head10,
        decimal(spec.core.kv_dim as nat) + "/expected="@,
        optional_text(word(spec.core.num_kv_heads * spec.core.head_dim)),
    );
    let head11 = line10 + " norms="@;
    let line11 = head11 + decimal(spec.core.attn_norm_w@.len() as nat) + "/"@
        + decimal(spec.core.q_norm_w@.len() as nat) + "/"@
        + decimal(spec.core.k_norm_w@.len() as nat);
    lemma_joined(head11, decimal(spec.core.attn_norm_w@.len() as nat), "/"@);
    lemma_joined(
        head11,
        decimal(spec.core.attn_norm_w@.len() as nat) + "/"@,
        decimal(spec.core.q_norm_w@.len() as nat),
    );
    lemma_joined(
        head11,
        decimal(spec.core.attn_norm_w@.len() as nat) + "/"@
            + decimal(spec.core.q_norm_w@.len() as nat),
        "/"@,
    );
    lemma_joined(
        head11,
        decimal(spec.core.attn_norm_w@.len() as nat) + "/"@
            + decimal(spec.core.q_norm_w@.len() as nat) + "/"@,
        decimal(spec.core.k_norm_w@.len() as nat),
    );
    let head12 = line11 + " expected="@;
    let line12 = head12 + decimal(spec.core.hidden_dim as nat) + "/"@
        + decimal(spec.core.head_dim as nat) + "/"@ + decimal(spec.core.head_dim as nat);
    lemma_joined(head12, decimal(spec.core.hidden_dim as nat), "/"@);
    lemma_joined(
        head12,
        decimal(spec.core.hidden_dim as nat) + "/"@,
        decimal(spec.core.head_dim as nat),
    );
    lemma_joined(
        head12,
        decimal(spec.core.hidden_dim as nat) + "/"@ + decimal(spec.core.head_dim as nat),
        "/"@,
    );
    lemma_joined(
        head12,
        decimal(spec.core.hidden_dim as nat) + "/"@ + decimal(spec.core.head_dim as nat) + "/"@,
        decimal(spec.core.head_dim as nat),
    );
    let head13 = line12 + " q="@;
    let line13 = head13 + spec.core.q_weight.ggml_type.spec_label() + ":"@
        + optional_text(times(word(spec.core.num_heads * spec.core.head_dim), 2)) + "x"@
        + decimal(spec.core.q_weight.cols as nat);
    lemma_joined(head13, spec.core.q_weight.ggml_type.spec_label(), ":"@);
    lemma_joined(
        head13,
        spec.core.q_weight.ggml_type.spec_label() + ":"@,
        optional_text(times(word(spec.core.num_heads * spec.core.head_dim), 2)),
    );
    lemma_joined(
        head13,
        spec.core.q_weight.ggml_type.spec_label() + ":"@
            + optional_text(times(word(spec.core.num_heads * spec.core.head_dim), 2)),
        "x"@,
    );
    lemma_joined(
        head13,
        spec.core.q_weight.ggml_type.spec_label() + ":"@
            + optional_text(times(word(spec.core.num_heads * spec.core.head_dim), 2)) + "x"@,
        decimal(spec.core.q_weight.cols as nat),
    );
    let head14 = line13 + " bytes="@;
    let line14 = head14 + decimal(spec.core.q_weight.raw@.len() as nat) + "/expected="@
        + optional_text(spec.core.q_weight.expected_bytes());
    lemma_joined(head14, decimal(spec.core.q_weight.raw@.len() as nat), "/expected="@);
    lemma_joined(
        head14,
        decimal(spec.core.q_weight.raw@.len() as nat) + "/expected="@,
        optional_text(spec.core.q_weight.expected_bytes()),
    );
    let head15 = line14 + " k="@;
    let line15 = head15 + weight_text(spec.core.k_weight);
    let head16 = line15 + " v="@;
    let line16 = head16 + weight_text(spec.core.v_weight);
    let head17 = line16 + " o="@;
    let line17 = head17 + weight_text(spec.o_weight);
    let line = attention_text(layer_idx, spec);
    lemma_begins_with_itself(line);
    lemma_says_at_the_end(line, line16, " o="@, weight_text(spec.o_weight));
    lemma_says_at_the_end(line, line15, " v="@, weight_text(spec.core.v_weight));
    lemma_says_at_the_end(line, line14, " k="@, weight_text(spec.core.k_weight));
    lemma_says_at_the_end(
        line,
        line13,
        " bytes="@,
        decimal(spec.core.q_weight.raw@.len() as nat) + "/expected="@
            + optional_text(spec.core.q_weight.expected_bytes()),
    );
    lemma_says_at_the_end(
        line,
        line12,
        " q="@,
        spec.core.q_weight.ggml_type.spec_label() + ":"@
            + optional_text(times(word(spec.core.num_heads * spec.core.head_dim), 2)) + "x"@
            + decimal(spec.core.q_weight.cols as nat),
    );
    lemma_says_at_the_end(
        line,
        line11,
        " expected="@,
        decimal(spec.core.hidden_dim as nat) + "/"@ + decimal(spec.core.head_dim as nat) + "/"@
            + decimal(spec.core.head_dim as nat),
    );
    lemma_says_at_the_end(
        line,
        line10,
        " norms="@,
        decimal(spec.core.attn_norm_w@.len() as nat) + "/"@
            + decimal(spec.core.q_norm_w@.len() as nat) + "/"@
            + decimal(spec.core.k_norm_w@.len() as nat),
    );
    lemma_says_at_the_end(
        line,
        line9,
        " kv_dim="@,
        decimal(spec.core.kv_dim as nat) + "/expected="@
            + optional_text(word(spec.core.num_kv_heads * spec.core.head_dim)),
    );
    lemma_says_at_the_end(
        line,
        line8,
        " q_dim="@,
        decimal(spec.core.q_dim as nat) + "/expected="@
            + optional_text(word(spec.core.num_heads * spec.core.head_dim)),
    );
    lemma_says_at_the_end(line, line7, " n_rot="@, decimal(spec.core.n_rot as nat));
    lemma_says_at_the_end(line, line6, " pos_start="@, decimal(spec.core.pos_start as nat));
    lemma_says_at_the_end(line, line5, " head_dim="@, decimal(spec.core.head_dim as nat));
    lemma_says_at_the_end(line, line4, " kv_heads="@, decimal(spec.core.num_kv_heads as nat));
    lemma_says_at_the_end(line, line3, " heads="@, decimal(spec.core.num_heads as nat));
    lemma_says_at_the_end(line, line2, " hidden="@, decimal(spec.core.hidden_dim as nat));
    lemma_says_at_the_end(line, line1, " stage=attention seq="@, decimal(spec.core.seq_len as nat));
    lemma_says_at_the_start(
        line,
        "RNB_METAL_QWEN_PREFILL_CHAIN reject layer="@,
        decimal(layer_idx as nat),
    );
}

/// The line of a delta net says each of its sizes, states, norms and weights behind its name,
/// beside what it should be.
#[verifier::rlimit(40)]
pub proof fn law_delta_net_lines_say_each_size(layer_idx: usize, spec: MetalQwenPrefillGdnSpec<'_>)
    ensures
        says(
            gdn_text(layer_idx, spec),
            "RNB_METAL_QWEN_PREFILL_CHAIN reject layer="@,
            decimal(layer_idx as nat),
        ),
        says(gdn_text(layer_idx, spec), " stage=gdn seq="@, decimal(spec.seq_len as nat)),
        says(gdn_text(layer_idx, spec), " hidden="@, decimal(spec.hidden_dim as nat)),
        says(gdn_text(layer_idx, spec), " d_inner="@, decimal(spec.d_inner as nat)),
        says(gdn_text(layer_idx, spec), " d_state="@, decimal(spec.d_state as nat)),
        says(gdn_text(layer_idx, spec), " n_group="@, decimal(spec.n_group as nat)),
        says(gdn_text(layer_idx, spec), " dt_rank="@, decimal(spec.dt_rank as nat)),
        says(gdn_text(layer_idx, spec), " kernel="@, decimal(spec.conv_kernel_size as nat)),
        says(
            gdn_text(layer_idx, spec),
            " conv_channels="@,
            optional_text(word(spec.conv_channels())),
        ),
        says(
            gdn_text(layer_idx, spec),
            " conv_state="@,
            decimal(spec.conv_state@.len() as nat) + "/expected="@
                + optional_text(conv_state_elements(spec)),
        ),
        says(
            gdn_text(layer_idx, spec),
            " conv_kernel="@,
            decimal(spec.conv_kernel@.len() as nat) + "/expected="@
                + optional_text(times(word(spec.conv_channels()), spec.conv_kernel_size)),
        ),
        says(
            gdn_text(layer_idx, spec),
            " delta_state="@,
            decimal(spec.delta_state@.len() as nat) + "/expected="@
                + optional_text(word(spec.d_inner * spec.d_state)),
        ),
        says(
            gdn_text(layer_idx, spec),
            " attn_norm="@,
            decimal(spec.attn_norm_w@.len() as nat) + "/expected="@
                + decimal(spec.hidden_dim as nat),
        ),
        says(
            gdn_text(layer_idx, spec),
            " dt_bias="@,
            decimal(spec.dt_bias@.len() as nat) + "/expected="@ + decimal(spec.dt_rank as nat),
        ),
        says(
            gdn_text(layer_idx, spec),
            " ssm_a="@,
            decimal(spec.ssm_a@.len() as nat) + "/expected="@ + decimal(spec.dt_rank as nat),
        ),
        says(
            gdn_text(layer_idx, spec),
            " ssm_norm="@,
            decimal(spec.ssm_norm@.len() as nat) + "/expected="@
                + optional_text(head_elements(spec)),
        ),
        says(
            gdn_text(layer_idx, spec),
            " post_norm="@,
            decimal(spec.post_attn_norm_w@.len() as nat) + "/expected="@
                + decimal(spec.hidden_dim as nat),
        ),
        says(gdn_text(layer_idx, spec), " qkv="@, gdn_weight_text(spec.qkv_weight)),
        says(gdn_text(layer_idx, spec), " gate="@, gdn_weight_text(spec.gate_weight)),
        says(gdn_text(layer_idx, spec), " alpha="@, gdn_weight_text(spec.alpha_weight)),
        says(gdn_text(layer_idx, spec), " beta="@, gdn_weight_text(spec.beta_weight)),
        says(gdn_text(layer_idx, spec), " ssm_out="@, gdn_weight_text(spec.ssm_out_weight)),
{
    let head1 = "RNB_METAL_QWEN_PREFILL_CHAIN reject layer="@;
    let line1 = head1 + decimal(layer_idx as nat);
    let head2 = line1 + " stage=gdn seq="@;
    let line2 = head2 + decimal(spec.seq_len as nat);
    let head3 = line2 + " hidden="@;
    let line3 = head3 + decimal(spec.hidden_dim as nat);
    let head4 = line3 + " d_inner="@;
    let line4 = head4 + decimal(spec.d_inner as nat);
    let head5 = line4 + " d_state="@;
    let line5 = head5 + decimal(spec.d_state as nat);
    let head6 = line5 + " n_group="@;
    let line6 = head6 + decimal(spec.n_group as nat);
    let head7 = line6 + " dt_rank="@;
    let line7 = head7 + decimal(spec.dt_rank as nat);
    let head8 = line7 + " kernel="@;
    let line8 = head8 + decimal(spec.conv_kernel_size as nat);
    let head9 = line8 + " conv_channels="@;
    let line9 = head9 + optional_text(word(spec.conv_channels()));
    let head10 = line9 + " conv_state="@;
    let line10 = head10 + decimal(spec.conv_state@.len() as nat) + "/expected="@
        + optional_text(conv_state_elements(spec));
    lemma_joined(head10, decimal(spec.conv_state@.len() as nat), "/expected="@);
    lemma_joined(
        head10,
        decimal(spec.conv_state@.len() as nat) + "/expected="@,
        optional_text(conv_state_elements(spec)),
    );
    let head11 = line10 + " conv_kernel="@;
    let line11 = head11 + decimal(spec.conv_kernel@.len() as nat) + "/expected="@
        + optional_text(times(word(spec.conv_channels()), spec.conv_kernel_size));
    lemma_joined(head11, decimal(spec.conv_kernel@.len() as nat), "/expected="@);
    lemma_joined(
        head11,
        decimal(spec.conv_kernel@.len() as nat) + "/expected="@,
        optional_text(times(word(spec.conv_channels()), spec.conv_kernel_size)),
    );
    let head12 = line11 + " delta_state="@;
    let line12 = head12 + decimal(spec.delta_state@.len() as nat) + "/expected="@
        + optional_text(word(spec.d_inner * spec.d_state));
    lemma_joined(head12, decimal(spec.delta_state@.len() as nat), "/expected="@);
    lemma_joined(
        head12,
        decimal(spec.delta_state@.len() as nat) + "/expected="@,
        optional_text(word(spec.d_inner * spec.d_state)),
    );
    let head13 = line12 + " attn_norm="@;
    let line13 = head13 + decimal(spec.attn_norm_w@.len() as nat) + "/expected="@
        + decimal(spec.hidden_dim as nat);
    lemma_joined(head13, decimal(spec.attn_norm_w@.len() as nat), "/expected="@);
    lemma_joined(
        head13,
        decimal(spec.attn_norm_w@.len() as nat) + "/expected="@,
        decimal(spec.hidden_dim as nat),
    );
    let head14 = line13 + " dt_bias="@;
    let line14 = head14 + decimal(spec.dt_bias@.len() as nat) + "/expected="@
        + decimal(spec.dt_rank as nat);
    lemma_joined(head14, decimal(spec.dt_bias@.len() as nat), "/expected="@);
    lemma_joined(
        head14,
        decimal(spec.dt_bias@.len() as nat) + "/expected="@,
        decimal(spec.dt_rank as nat),
    );
    let head15 = line14 + " ssm_a="@;
    let line15 = head15 + decimal(spec.ssm_a@.len() as nat) + "/expected="@
        + decimal(spec.dt_rank as nat);
    lemma_joined(head15, decimal(spec.ssm_a@.len() as nat), "/expected="@);
    lemma_joined(
        head15,
        decimal(spec.ssm_a@.len() as nat) + "/expected="@,
        decimal(spec.dt_rank as nat),
    );
    let head16 = line15 + " ssm_norm="@;
    let line16 = head16 + decimal(spec.ssm_norm@.len() as nat) + "/expected="@
        + optional_text(head_elements(spec));
    lemma_joined(head16, decimal(spec.ssm_norm@.len() as nat), "/expected="@);
    lemma_joined(
        head16,
        decimal(spec.ssm_norm@.len() as nat) + "/expected="@,
        optional_text(head_elements(spec)),
    );
    let head17 = line16 + " post_norm="@;
    let line17 = head17 + decimal(spec.post_attn_norm_w@.len() as nat) + "/expected="@
        + decimal(spec.hidden_dim as nat);
    lemma_joined(head17, decimal(spec.post_attn_norm_w@.len() as nat), "/expected="@);
    lemma_joined(
        head17,
        decimal(spec.post_attn_norm_w@.len() as nat) + "/expected="@,
        decimal(spec.hidden_dim as nat),
    );
    let head18 = line17 + " qkv="@;
    let line18 = head18 + gdn_weight_text(spec.qkv_weight);
    let head19 = line18 + " gate="@;
    let line19 = head19 + gdn_weight_text(spec.gate_weight);
    let head20 = line19 + " alpha="@;
    let line20 = head20 + gdn_weight_text(spec.alpha_weight);
    let head21 = line20 + " beta="@;
    let line21 = head21 + gdn_weight_text(spec.beta_weight);
    let head22 = line21 + " ssm_out="@;
    let line22 = head22 + gdn_weight_text(spec.ssm_out_weight);
    let line = gdn_text(layer_idx, spec);
    lemma_begins_with_itself(line);
    lemma_says_at_the_end(line, line21, " ssm_out="@, gdn_weight_text(spec.ssm_out_weight));
    lemma_says_at_the_end(line, line20, " beta="@, gdn_weight_text(spec.beta_weight));
    lemma_says_at_the_end(line, line19, " alpha="@, gdn_weight_text(spec.alpha_weight));
    lemma_says_at_the_end(line, line18, " gate="@, gdn_weight_text(spec.gate_weight));
    lemma_says_at_the_end(line, line17, " qkv="@, gdn_weight_text(spec.qkv_weight));
    lemma_says_at_the_end(
        line,
        line16,
        " post_norm="@,
        decimal(spec.post_attn_norm_w@.len() as nat) + "/expected="@
            + decimal(spec.hidden_dim as nat),
    );
    lemma_says_at_the_end(
        line,
        line15,
        " ssm_norm="@,
        decimal(spec.ssm_norm@.len() as nat) + "/expected="@ + optional_text(head_elements(spec)),
    );
    lemma_says_at_the_end(
        line,
        line14,
        " ssm_a="@,
        decimal(spec.ssm_a@.len() as nat) + "/expected="@ + decimal(spec.dt_rank as nat),
    );
    lemma_says_at_the_end(
        line,
        line13,
        " dt_bias="@,
        decimal(spec.dt_bias@.len() as nat) + "/expected="@ + decimal(spec.dt_rank as nat),
    );
    lemma_says_at_the_end(
        line,
        line12,
        " attn_norm="@,
        decimal(spec.attn_norm_w@.len() as nat) + "/expected="@ + decimal(spec.hidden_dim as nat),
    );
    lemma_says_at_the_end(
        line,
        line11,
        " delta_state="@,
        decimal(spec.delta_state@.len() as nat) + "/expected="@
            + optional_text(word(spec.d_inner * spec.d_state)),
    );
    lemma_says_at_the_end(
        line,
        line10,
        " conv_kernel="@,
        decimal(spec.conv_kernel@.len() as nat) + "/expected="@
            + optional_text(times(word(spec.conv_channels()), spec.conv_kernel_size)),
    );
    lemma_says_at_the_end(
        line,
        line9,
        " conv_state="@,
        decimal(spec.conv_state@.len() as nat) + "/expected="@
            + optional_text(conv_state_elements(spec)),
    );
    lemma_says_at_the_end(
        line,
        line8,
        " conv_channels="@,
        optional_text(word(spec.conv_channels())),
    );
    lemma_says_at_the_end(line, line7, " kernel="@, decimal(spec.conv_kernel_size as nat));
    lemma_says_at_the_end(line, line6, " dt_rank="@, decimal(spec.dt_rank as nat));
    lemma_says_at_the_end(line, line5, " n_group="@, decimal(spec.n_group as nat));
    lemma_says_at_the_end(line, line4, " d_state="@, decimal(spec.d_state as nat));
    lemma_says_at_the_end(line, line3, " d_inner="@, decimal(spec.d_inner as nat));
    lemma_says_at_the_end(line, line2, " hidden="@, decimal(spec.hidden_dim as nat));
    lemma_says_at_the_end(line, line1, " stage=gdn seq="@, decimal(spec.seq_len as nat));
    lemma_says_at_the_start(
        line,
        "RNB_METAL_QWEN_PREFILL_CHAIN reject layer="@,
        decimal(layer_idx as nat),
    );
}

/// The line of experts says each of their sizes, formats and lengths behind its name, beside
/// what it should be.
#[verifier::rlimit(40)]
pub proof fn law_expert_lines_say_each_size(
    layer_idx: usize,
    seq_len: usize,
    hidden_dim: usize,
    spec: MetalQwenMoePrefillWeights<'_>,
)
    ensures
        says(
            moe_text(layer_idx, seq_len, hidden_dim, spec),
            "RNB_METAL_QWEN_PREFILL_CHAIN reject layer="@,
            decimal(layer_idx as nat),
        ),
        says(
            moe_text(layer_idx, seq_len, hidden_dim, spec),
            " stage=moe seq="@,
            decimal(seq_len as nat),
        ),
        says(
            moe_text(layer_idx, seq_len, hidden_dim, spec),
            " hidden="@,
            decimal(spec.hidden_dim as nat) + "/chain_hidden="@ + decimal(hidden_dim as nat),
        ),
        says(
            moe_text(layer_idx, seq_len, hidden_dim, spec),
            " ffn="@,
            decimal(spec.ffn_dim as nat),
        ),
        says(
            moe_text(layer_idx, seq_len, hidden_dim, spec),
            " experts="@,
            decimal(spec.route.n_expert as nat) + "/used="@
                + decimal(spec.route.n_expert_used as nat),
        ),
        says(
            moe_text(layer_idx, seq_len, hidden_dim, spec),
            " norms="@,
            decimal(spec.ffn_norm_w@.len() as nat) + "/expected="@
                + decimal(spec.hidden_dim as nat),
        ),
        says(
            moe_text(layer_idx, seq_len, hidden_dim, spec),
            " router="@,
            decimal(spec.router_w@.len() as nat) + "/expected="@
                + optional_text(word(spec.route.n_expert * spec.hidden_dim)),
        ),
        says(
            moe_text(layer_idx, seq_len, hidden_dim, spec),
            " shared_scale="@,
            decimal(spec.shared_input_scale@.len() as nat) + "/expected="@
                + decimal(spec.hidden_dim as nat),
        ),
        says(
            moe_text(layer_idx, seq_len, hidden_dim, spec),
            " sparse="@,
            spec.sparse_quant.gate.spec_label() + "/"@ + spec.sparse_quant.up.spec_label() + "/"@
                + spec.sparse_quant.down.spec_label(),
        ),
        says(
            moe_text(layer_idx, seq_len, hidden_dim, spec),
            " bytes_per="@,
            decimal(spec.gate_expert_bytes as nat) + "/"@ + decimal(spec.up_expert_bytes as nat)
                + "/"@ + decimal(spec.down_expert_bytes as nat),
        ),
        says(
            moe_text(layer_idx, seq_len, hidden_dim, spec),
            " expected="@,
            optional_text(expert_bytes(spec.sparse_quant.gate, spec.hidden_dim, spec.ffn_dim))
                + "/"@
                + optional_text(expert_bytes(spec.sparse_quant.up, spec.hidden_dim, spec.ffn_dim))
                + "/"@
                + optional_text(expert_bytes(spec.sparse_quant.down, spec.ffn_dim, spec.hidden_dim)),
        ),
        says(
            moe_text(layer_idx, seq_len, hidden_dim, spec),
            " arenas="@,
            decimal(spec.gate_all@.len() as nat) + "/"@ + decimal(spec.up_all@.len() as nat) + "/"@
                + decimal(spec.down_all@.len() as nat),
        ),
        says(
            moe_text(layer_idx, seq_len, hidden_dim, spec),
            " expected="@,
            optional_text(times(expert_bytes(spec.sparse_quant.gate, spec.hidden_dim, spec.ffn_dim), spec.route.n_expert))
                + "/"@
                + optional_text(times(expert_bytes(spec.sparse_quant.up, spec.hidden_dim, spec.ffn_dim), spec.route.n_expert))
                + "/"@
                + optional_text(times(expert_bytes(spec.sparse_quant.down, spec.ffn_dim, spec.hidden_dim), spec.route.n_expert)),
        ),
        says(
            moe_text(layer_idx, seq_len, hidden_dim, spec),
            " shared="@,
            spec.shared_quant.gate.spec_label() + "/"@ + spec.shared_quant.up.spec_label() + "/"@
                + spec.shared_quant.down.spec_label(),
        ),
        says(
            moe_text(layer_idx, seq_len, hidden_dim, spec),
            " bytes="@,
            decimal(spec.shared_gate@.len() as nat) + "/"@ + decimal(spec.shared_up@.len() as nat)
                + "/"@ + decimal(spec.shared_down@.len() as nat),
        ),
        says(
            moe_text(layer_idx, seq_len, hidden_dim, spec),
            " expected="@,
            optional_text(expert_bytes(spec.shared_quant.gate, spec.hidden_dim, spec.ffn_dim))
                + "/"@
                + optional_text(expert_bytes(spec.shared_quant.up, spec.hidden_dim, spec.ffn_dim))
                + "/"@
                + optional_text(expert_bytes(spec.shared_quant.down, spec.ffn_dim, spec.hidden_dim)),
        ),
{
    let head1 = "RNB_METAL_QWEN_PREFILL_CHAIN reject layer="@;
    let line1 = head1 + decimal(layer_idx as nat);
    let head2 = line1 + " stage=moe seq="@;
    let line2 = head2 + decimal(seq_len as nat);
    let head3 = line2 + " hidden="@;
    let line3 = head3 + decimal(spec.hidden_dim as nat) + "/chain_hidden="@
        + decimal(hidden_dim as nat);
    lemma_joined(head3, decimal(spec.hidden_dim as nat), "/chain_hidden="@);
    lemma_joined(
        head3,
        decimal(spec.hidden_dim as nat) + "/chain_hidden="@,
        decimal(hidden_dim as nat),
    );
    let head4 = line3 + " ffn="@;
    let line4 = head4 + decimal(spec.ffn_dim as nat);
    let head5 = line4 + " experts="@;
    let line5 = head5 + decimal(spec.route.n_expert as nat) + "/used="@
        + decimal(spec.route.n_expert_used as nat);
    lemma_joined(head5, decimal(spec.route.n_expert as nat), "/used="@);
    lemma_joined(
        head5,
        decimal(spec.route.n_expert as nat) + "/used="@,
        decimal(spec.route.n_expert_used as nat),
    );
    let head6 = line5 + " norms="@;
    let line6 = head6 + decimal(spec.ffn_norm_w@.len() as nat) + "/expected="@
        + decimal(spec.hidden_dim as nat);
    lemma_joined(head6, decimal(spec.ffn_norm_w@.len() as nat), "/expected="@);
    lemma_joined(
        head6,
        decimal(spec.ffn_norm_w@.len() as nat) + "/expected="@,
        decimal(spec.hidden_dim as nat),
    );
    let head7 = line6 + " router="@;
    let line7 = head7 + decimal(spec.router_w@.len() as nat) + "/expected="@
        + optional_text(word(spec.route.n_expert * spec.hidden_dim));
    lemma_joined(head7, decimal(spec.router_w@.len() as nat), "/expected="@);
    lemma_joined(
        head7,
        decimal(spec.router_w@.len() as nat) + "/expected="@,
        optional_text(word(spec.route.n_expert * spec.hidden_dim)),
    );
    let head8 = line7 + " shared_scale="@;
    let line8 = head8 + decimal(spec.shared_input_scale@.len() as nat) + "/expected="@
        + decimal(spec.hidden_dim as nat);
    lemma_joined(head8, decimal(spec.shared_input_scale@.len() as nat), "/expected="@);
    lemma_joined(
        head8,
        decimal(spec.shared_input_scale@.len() as nat) + "/expected="@,
        decimal(spec.hidden_dim as nat),
    );
    let head9 = line8 + " sparse="@;
    let line9 = head9 + spec.sparse_quant.gate.spec_label() + "/"@
        + spec.sparse_quant.up.spec_label() + "/"@ + spec.sparse_quant.down.spec_label();
    lemma_joined(head9, spec.sparse_quant.gate.spec_label(), "/"@);
    lemma_joined(
        head9,
        spec.sparse_quant.gate.spec_label() + "/"@,
        spec.sparse_quant.up.spec_label(),
    );
    lemma_joined(
        head9,
        spec.sparse_quant.gate.spec_label() + "/"@ + spec.sparse_quant.up.spec_label(),
        "/"@,
    );
    lemma_joined(
        head9,
        spec.sparse_quant.gate.spec_label() + "/"@ + spec.sparse_quant.up.spec_label() + "/"@,
        spec.sparse_quant.down.spec_label(),
    );
    let head10 = line9 + " bytes_per="@;
    let line10 = head10 + decimal(spec.gate_expert_bytes as nat) + "/"@
        + decimal(spec.up_expert_bytes as nat) + "/"@ + decimal(spec.down_expert_bytes as nat);
    lemma_joined(head10, decimal(spec.gate_expert_bytes as nat), "/"@);
    lemma_joined(
        head10,
        decimal(spec.gate_expert_bytes as nat) + "/"@,
        decimal(spec.up_expert_bytes as nat),
    );
    lemma_joined(
        head10,
        decimal(spec.gate_expert_bytes as nat) + "/"@ + decimal(spec.up_expert_bytes as nat),
        "/"@,
    );
    lemma_joined(
        head10,
        decimal(spec.gate_expert_bytes as nat) + "/"@ + decimal(spec.up_expert_bytes as nat) + "/"@,
        decimal(spec.down_expert_bytes as nat),
    );
    let head11 = line10 + " expected="@;
    let line11 = head11
        + optional_text(expert_bytes(spec.sparse_quant.gate, spec.hidden_dim, spec.ffn_dim)) + "/"@
        + optional_text(expert_bytes(spec.sparse_quant.up, spec.hidden_dim, spec.ffn_dim)) + "/"@
        + optional_text(expert_bytes(spec.sparse_quant.down, spec.ffn_dim, spec.hidden_dim));
    lemma_joined(
        head11,
        optional_text(expert_bytes(spec.sparse_quant.gate, spec.hidden_dim, spec.ffn_dim)),
        "/"@,
    );
    lemma_joined(
        head11,
        optional_text(expert_bytes(spec.sparse_quant.gate, spec.hidden_dim, spec.ffn_dim)) + "/"@,
        optional_text(expert_bytes(spec.sparse_quant.up, spec.hidden_dim, spec.ffn_dim)),
    );
    lemma_joined(
        head11,
        optional_text(expert_bytes(spec.sparse_quant.gate, spec.hidden_dim, spec.ffn_dim)) + "/"@
            + optional_text(expert_bytes(spec.sparse_quant.up, spec.hidden_dim, spec.ffn_dim)),
        "/"@,
    );
    lemma_joined(
        head11,
        optional_text(expert_bytes(spec.sparse_quant.gate, spec.hidden_dim, spec.ffn_dim)) + "/"@
            + optional_text(expert_bytes(spec.sparse_quant.up, spec.hidden_dim, spec.ffn_dim))
            + "/"@,
        optional_text(expert_bytes(spec.sparse_quant.down, spec.ffn_dim, spec.hidden_dim)),
    );
    let head12 = line11 + " arenas="@;
    let line12 = head12 + decimal(spec.gate_all@.len() as nat) + "/"@
        + decimal(spec.up_all@.len() as nat) + "/"@ + decimal(spec.down_all@.len() as nat);
    lemma_joined(head12, decimal(spec.gate_all@.len() as nat), "/"@);
    lemma_joined(
        head12,
        decimal(spec.gate_all@.len() as nat) + "/"@,
        decimal(spec.up_all@.len() as nat),
    );
    lemma_joined(
        head12,
        decimal(spec.gate_all@.len() as nat) + "/"@ + decimal(spec.up_all@.len() as nat),
        "/"@,
    );
    lemma_joined(
        head12,
        decimal(spec.gate_all@.len() as nat) + "/"@ + decimal(spec.up_all@.len() as nat) + "/"@,
        decimal(spec.down_all@.len() as nat),
    );
    let head13 = line12 + " expected="@;
    let line13 = head13
        + optional_text(times(expert_bytes(spec.sparse_quant.gate, spec.hidden_dim, spec.ffn_dim), spec.route.n_expert))
        + "/"@
        + optional_text(times(expert_bytes(spec.sparse_quant.up, spec.hidden_dim, spec.ffn_dim), spec.route.n_expert))
        + "/"@
        + optional_text(times(expert_bytes(spec.sparse_quant.down, spec.ffn_dim, spec.hidden_dim), spec.route.n_expert));
    lemma_joined(
        head13,
        optional_text(
            times(
                expert_bytes(spec.sparse_quant.gate, spec.hidden_dim, spec.ffn_dim),
                spec.route.n_expert,
            ),
        ),
        "/"@,
    );
    lemma_joined(
        head13,
        optional_text(times(expert_bytes(spec.sparse_quant.gate, spec.hidden_dim, spec.ffn_dim), spec.route.n_expert))
            + "/"@,
        optional_text(
            times(
                expert_bytes(spec.sparse_quant.up, spec.hidden_dim, spec.ffn_dim),
                spec.route.n_expert,
            ),
        ),
    );
    lemma_joined(
        head13,
        optional_text(times(expert_bytes(spec.sparse_quant.gate, spec.hidden_dim, spec.ffn_dim), spec.route.n_expert))
            + "/"@
            + optional_text(times(expert_bytes(spec.sparse_quant.up, spec.hidden_dim, spec.ffn_dim), spec.route.n_expert)),
        "/"@,
    );
    lemma_joined(
        head13,
        optional_text(times(expert_bytes(spec.sparse_quant.gate, spec.hidden_dim, spec.ffn_dim), spec.route.n_expert))
            + "/"@
            + optional_text(times(expert_bytes(spec.sparse_quant.up, spec.hidden_dim, spec.ffn_dim), spec.route.n_expert))
            + "/"@,
        optional_text(
            times(
                expert_bytes(spec.sparse_quant.down, spec.ffn_dim, spec.hidden_dim),
                spec.route.n_expert,
            ),
        ),
    );
    let head14 = line13 + " shared="@;
    let line14 = head14 + spec.shared_quant.gate.spec_label() + "/"@
        + spec.shared_quant.up.spec_label() + "/"@ + spec.shared_quant.down.spec_label();
    lemma_joined(head14, spec.shared_quant.gate.spec_label(), "/"@);
    lemma_joined(
        head14,
        spec.shared_quant.gate.spec_label() + "/"@,
        spec.shared_quant.up.spec_label(),
    );
    lemma_joined(
        head14,
        spec.shared_quant.gate.spec_label() + "/"@ + spec.shared_quant.up.spec_label(),
        "/"@,
    );
    lemma_joined(
        head14,
        spec.shared_quant.gate.spec_label() + "/"@ + spec.shared_quant.up.spec_label() + "/"@,
        spec.shared_quant.down.spec_label(),
    );
    let head15 = line14 + " bytes="@;
    let line15 = head15 + decimal(spec.shared_gate@.len() as nat) + "/"@
        + decimal(spec.shared_up@.len() as nat) + "/"@ + decimal(spec.shared_down@.len() as nat);
    lemma_joined(head15, decimal(spec.shared_gate@.len() as nat), "/"@);
    lemma_joined(
        head15,
        decimal(spec.shared_gate@.len() as nat) + "/"@,
        decimal(spec.shared_up@.len() as nat),
    );
    lemma_joined(
        head15,
        decimal(spec.shared_gate@.len() as nat) + "/"@ + decimal(spec.shared_up@.len() as nat),
        "/"@,
    );
    lemma_joined(
        head15,
        decimal(spec.shared_gate@.len() as nat) + "/"@ + decimal(spec.shared_up@.len() as nat)
            + "/"@,
        decimal(spec.shared_down@.len() as nat),
    );
    let head16 = line15 + " expected="@;
    let line16 = head16
        + optional_text(expert_bytes(spec.shared_quant.gate, spec.hidden_dim, spec.ffn_dim)) + "/"@
        + optional_text(expert_bytes(spec.shared_quant.up, spec.hidden_dim, spec.ffn_dim)) + "/"@
        + optional_text(expert_bytes(spec.shared_quant.down, spec.ffn_dim, spec.hidden_dim));
    lemma_joined(
        head16,
        optional_text(expert_bytes(spec.shared_quant.gate, spec.hidden_dim, spec.ffn_dim)),
        "/"@,
    );
    lemma_joined(
        head16,
        optional_text(expert_bytes(spec.shared_quant.gate, spec.hidden_dim, spec.ffn_dim)) + "/"@,
        optional_text(expert_bytes(spec.shared_quant.up, spec.hidden_dim, spec.ffn_dim)),
    );
    lemma_joined(
        head16,
        optional_text(expert_bytes(spec.shared_quant.gate, spec.hidden_dim, spec.ffn_dim)) + "/"@
            + optional_text(expert_bytes(spec.shared_quant.up, spec.hidden_dim, spec.ffn_dim)),
        "/"@,
    );
    lemma_joined(
        head16,
        optional_text(expert_bytes(spec.shared_quant.gate, spec.hidden_dim, spec.ffn_dim)) + "/"@
            + optional_text(expert_bytes(spec.shared_quant.up, spec.hidden_dim, spec.ffn_dim))
            + "/"@,
        optional_text(expert_bytes(spec.shared_quant.down, spec.ffn_dim, spec.hidden_dim)),
    );
    let line = moe_text(layer_idx, seq_len, hidden_dim, spec);
    lemma_begins_with_itself(line);
    lemma_says_at_the_end(
        line,
        line15,
        " expected="@,
        optional_text(expert_bytes(spec.shared_quant.gate, spec.hidden_dim, spec.ffn_dim)) + "/"@
            + optional_text(expert_bytes(spec.shared_quant.up, spec.hidden_dim, spec.ffn_dim))
            + "/"@
            + optional_text(expert_bytes(spec.shared_quant.down, spec.ffn_dim, spec.hidden_dim)),
    );
    lemma_says_at_the_end(
        line,
        line14,
        " bytes="@,
        decimal(spec.shared_gate@.len() as nat) + "/"@ + decimal(spec.shared_up@.len() as nat)
            + "/"@ + decimal(spec.shared_down@.len() as nat),
    );
    lemma_says_at_the_end(
        line,
        line13,
        " shared="@,
        spec.shared_quant.gate.spec_label() + "/"@ + spec.shared_quant.up.spec_label() + "/"@
            + spec.shared_quant.down.spec_label(),
    );
    lemma_says_at_the_end(
        line,
        line12,
        " expected="@,
        optional_text(times(expert_bytes(spec.sparse_quant.gate, spec.hidden_dim, spec.ffn_dim), spec.route.n_expert))
            + "/"@
            + optional_text(times(expert_bytes(spec.sparse_quant.up, spec.hidden_dim, spec.ffn_dim), spec.route.n_expert))
            + "/"@
            + optional_text(times(expert_bytes(spec.sparse_quant.down, spec.ffn_dim, spec.hidden_dim), spec.route.n_expert)),
    );
    lemma_says_at_the_end(
        line,
        line11,
        " arenas="@,
        decimal(spec.gate_all@.len() as nat) + "/"@ + decimal(spec.up_all@.len() as nat) + "/"@
            + decimal(spec.down_all@.len() as nat),
    );
    lemma_says_at_the_end(
        line,
        line10,
        " expected="@,
        optional_text(expert_bytes(spec.sparse_quant.gate, spec.hidden_dim, spec.ffn_dim)) + "/"@
            + optional_text(expert_bytes(spec.sparse_quant.up, spec.hidden_dim, spec.ffn_dim))
            + "/"@
            + optional_text(expert_bytes(spec.sparse_quant.down, spec.ffn_dim, spec.hidden_dim)),
    );
    lemma_says_at_the_end(
        line,
        line9,
        " bytes_per="@,
        decimal(spec.gate_expert_bytes as nat) + "/"@ + decimal(spec.up_expert_bytes as nat) + "/"@
            + decimal(spec.down_expert_bytes as nat),
    );
    lemma_says_at_the_end(
        line,
        line8,
        " sparse="@,
        spec.sparse_quant.gate.spec_label() + "/"@ + spec.sparse_quant.up.spec_label() + "/"@
            + spec.sparse_quant.down.spec_label(),
    );
    lemma_says_at_the_end(
        line,
        line7,
        " shared_scale="@,
        decimal(spec.shared_input_scale@.len() as nat) + "/expected="@
            + decimal(spec.hidden_dim as nat),
    );
    lemma_says_at_the_end(
        line,
        line6,
        " router="@,
        decimal(spec.router_w@.len() as nat) + "/expected="@
            + optional_text(word(spec.route.n_expert * spec.hidden_dim)),
    );
    lemma_says_at_the_end(
        line,
        line5,
        " norms="@,
        decimal(spec.ffn_norm_w@.len() as nat) + "/expected="@ + decimal(spec.hidden_dim as nat),
    );
    lemma_says_at_the_end(
        line,
        line4,
        " experts="@,
        decimal(spec.route.n_expert as nat) + "/used="@ + decimal(spec.route.n_expert_used as nat),
    );
    lemma_says_at_the_end(line, line3, " ffn="@, decimal(spec.ffn_dim as nat));
    lemma_says_at_the_end(
        line,
        line2,
        " hidden="@,
        decimal(spec.hidden_dim as nat) + "/chain_hidden="@ + decimal(hidden_dim as nat),
    );
    lemma_says_at_the_end(line, line1, " stage=moe seq="@, decimal(seq_len as nat));
    lemma_says_at_the_start(
        line,
        "RNB_METAL_QWEN_PREFILL_CHAIN reject layer="@,
        decimal(layer_idx as nat),
    );
}

/// What a convolution keeps is one value less than its kernel for each channel, and a normed
/// head is an equal share of the inner width; without a kernel, or without heads, there is
/// nothing to expect.
pub proof fn law_what_a_delta_net_should_hold(spec: MetalQwenPrefillGdnSpec<'_>)
    ensures
        spec.conv_kernel_size == 0 ==> conv_state_elements(spec) is None,
        spec.conv_kernel_size > 0 ==> conv_state_elements(spec) == times(
            word(spec.d_inner + 2 * (spec.n_group * spec.d_state)),
            (spec.conv_kernel_size - 1) as usize,
        ),
        spec.dt_rank == 0 ==> head_elements(spec) is None,
        spec.dt_rank > 0 ==> head_elements(spec) is Some && head_elements(spec)->0 * spec.dt_rank
            <= spec.d_inner < (head_elements(spec)->0 + 1) * spec.dt_rank,
{
    assert(spec.n_group * spec.d_state * 2 == 2 * (spec.n_group * spec.d_state))
        by (nonlinear_arith);
    assert(2 * spec.n_group * spec.d_state == 2 * (spec.n_group * spec.d_state))
        by (nonlinear_arith);
    if spec.dt_rank > 0 {
        let share = spec.d_inner as int / spec.dt_rank as int;
        vstd::arithmetic::div_mod::lemma_fundamental_div_mod(
            spec.d_inner as int,
            spec.dt_rank as int,
        );
        vstd::arithmetic::div_mod::lemma_mod_bound(spec.d_inner as int, spec.dt_rank as int);
        assert(spec.dt_rank * share == share * spec.dt_rank) by (nonlinear_arith);
        assert((share + 1) * spec.dt_rank == share * spec.dt_rank + spec.dt_rank)
            by (nonlinear_arith);
    }
}

/// A reason is told of the first layer that has the index that it names.
pub proof fn law_the_first_layer_of_an_index_is_found(
    layers: Seq<MetalQwenPrefillChainLayer<'_>>,
    layer_idx: usize,
    k: int,
    from: int,
)
    requires
        0 <= from <= k < layers.len(),
        layers[k].index() == layer_idx,
        forall|j: int| from <= j < k ==> (#[trigger] layers[j]).index() != layer_idx,
    ensures
        place_of_layer(layers, layer_idx, from) == Some(k),
    decreases k - from,
{
    if from < k {
        assert(layers[from].index() != layer_idx);
        law_the_first_layer_of_an_index_is_found(layers, layer_idx, k, from + 1);
    }
}

/// What is said of the order, the shape and the length: the layer before and the one that
/// came, the shape of the chain and that of the layer, and the length that there is beside
/// the product of the shape.
pub proof fn law_reasons_say_both_sides(
    layer_idx: usize,
    previous: usize,
    expected: (usize, usize),
    actual: (usize, usize),
    hidden_len: usize,
)
    ensures
        order_reason(layer_idx, previous) == "conversion_non_contiguous_layer previous="@ + (
        optional_text(Some(previous as int)) + (" actual="@ + decimal(layer_idx as nat))),
        shape_reason(expected, actual) == "conversion_chain_shape expected=("@ + (decimal(
            expected.0 as nat,
        ) + (", "@
            + (decimal(expected.1 as nat) + (") actual=("@ + (decimal(actual.0 as nat) + (","@
            + (decimal(actual.1 as nat) + ")"@))))))),
        length_reason(hidden_len, expected) == "conversion_hidden_len actual="@ + (decimal(
            hidden_len as nat,
        ) + (" expected="@ + optional_text(word(expected.0 * expected.1)))),
{
    assert(order_reason(layer_idx, previous) =~= "conversion_non_contiguous_layer previous="@ + (
    optional_text(Some(previous as int)) + (" actual="@ + decimal(layer_idx as nat))));
    assert(shape_reason(expected, actual) =~= "conversion_chain_shape expected=("@ + (decimal(
        expected.0 as nat,
    ) + (", "@
        + (decimal(expected.1 as nat) + (") actual=("@ + (decimal(actual.0 as nat) + (","@ + (
    decimal(actual.1 as nat) + ")"@))))))));
    assert(length_reason(hidden_len, expected) =~= "conversion_hidden_len actual="@ + (decimal(
        hidden_len as nat,
    ) + (" expected="@ + optional_text(word(expected.0 * expected.1)))));
}

/// Whether `line` is what is told.
pub open spec fn is_told(told: Option<Seq<char>>, line: Seq<char>) -> bool {
    told == Some(line)
}

/// Which line is told for which reason: of the whole chain where no layer is named, of the
/// layer's order, shape or length, or of the part of it that the device cannot take.
#[verifier::rlimit(60)]
pub proof fn law_each_reason_has_its_own_line(
    layers: Seq<MetalQwenPrefillChainLayer<'_>>,
    hidden_len: usize,
    layer_idx: usize,
    previous: usize,
    k: int,
)
    requires
        0 <= k < layers.len(),
        layers[k].index() == layer_idx,
        forall|j: int| 0 <= j < k ==> (#[trigger] layers[j]).index() != layer_idx,
    ensures
        is_told(
            reject_text(layers, hidden_len, ChainReject::EmptyLayers),
            reason_text(None, "conversion_empty_layers"@),
        ),
        is_told(
            reject_text(layers, hidden_len, ChainReject::BackendReturnedNone),
            reason_text(None, "backend_returned_none"@),
        ),
        is_told(
            reject_text(
                layers,
                hidden_len,
                ChainReject::NonContiguousLayer { layer_idx, previous },
            ),
            reason_text(Some(layer_idx), order_reason(layer_idx, previous)),
        ),
        is_told(
            reject_text(layers, hidden_len, ChainReject::ChainShape { layer_idx }),
            reason_text(
                Some(layer_idx),
                shape_reason(layers[0].shape(), layers[k].shape()),
            ),
        ),
        is_told(
            reject_text(layers, hidden_len, ChainReject::HiddenLength { layer_idx }),
            reason_text(Some(layer_idx), length_reason(hidden_len, layers[k].shape())),
        ),
        layers[k] matches MetalQwenPrefillChainLayer::Attention { core, moe, .. } ==> {
            &&& is_told(
                reject_text(layers, hidden_len, ChainReject::Attention { layer_idx }),
                attention_text(layer_idx, core),
            )
            &&& is_told(
                reject_text(layers, hidden_len, ChainReject::Moe { layer_idx }),
                moe_text(layer_idx, core.core.seq_len, core.core.hidden_dim, moe),
            )
        },
        layers[k] matches MetalQwenPrefillChainLayer::Gdn { layer, moe, .. } ==> {
            &&& is_told(
                reject_text(layers, hidden_len, ChainReject::Gdn { layer_idx }),
                gdn_text(layer_idx, layer),
            )
            &&& is_told(
                reject_text(layers, hidden_len, ChainReject::Moe { layer_idx }),
                moe_text(layer_idx, layer.seq_len, layer.hidden_dim, moe),
            )
        },
{
    law_the_first_layer_of_an_index_is_found(layers, layer_idx, k, 0);
}

} // verus!
