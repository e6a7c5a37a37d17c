//! The switches of the Metal paths.
//!
//! Each function takes the value of the environment variable that it is about.

use crate::policy::{
    env_falsey, env_is, env_truthy, env_unless_falsey, is_falsey, set_to, switched_off,
    switched_on, unless_falsey,
};
use vstd::prelude::*;

verus! {

/// `RNB_METAL_PREFILL_GDN_FULL_FFN`: on unless falsey.
pub fn metal_prefill_gdn_full_ffn_enabled(value: Option<&str>) -> (enabled: bool)
    ensures
        enabled == unless_falsey(value, true),
{
    env_unless_falsey(value, true)
}

/// `RNB_METAL_PREFILL_ATN_FULL_LAYER`: on unless falsey.
pub fn metal_prefill_atn_full_layer_requested(value: Option<&str>) -> (requested: bool)
    ensures
        requested == !switched_off(value),
{
    !env_falsey(value)
}

/// `RNB_METAL_PREFILL_ATN_O_TAIL`: on for `1` only.
pub fn metal_prefill_atn_o_tail_requested(value: Option<&str>) -> (requested: bool)
    ensures
        requested == set_to(value, "1"@),
{
    env_is(value, "1")
}

/// `RNB_METAL_PREFILL_ATN_FULL_TIME`: on for `1` only.
pub fn metal_prefill_atn_full_timing_enabled(value: Option<&str>) -> (enabled: bool)
    ensures
        enabled == set_to(value, "1"@),
{
    env_is(value, "1")
}

/// `RNB_METAL_PREFILL_ATN_O_TAIL_TIME`, or `RNB_METAL_PREFILL_ATN_FULL_TIME`.
pub fn metal_prefill_atn_o_tail_timing_enabled(
    o_tail_time: Option<&str>,
    full_time: Option<&str>,
) -> (enabled: bool)
    ensures
        enabled == (set_to(o_tail_time, "1"@) || set_to(full_time, "1"@)),
{
    env_is(o_tail_time, "1") || metal_prefill_atn_full_timing_enabled(full_time)
}

/// A switch that decides where it is set, and is on from `threshold` up where it
/// is not.
pub open spec fn set_or_at_least(value: Option<&str>, size: usize, threshold: int) -> bool {
    match value {
        Some(text) => !is_falsey(text@),
        None => size >= threshold,
    }
}

/// `RNB_METAL_QWEN35_MOE_EXPERT_BATCH`: where not set, groups of 16 tokens and more.
pub fn metal_qwen_moe_expert_batch_enabled(value: Option<&str>, group_len: usize) -> (enabled: bool)
    ensures
        enabled == set_or_at_least(value, group_len, 16),
{
    env_unless_falsey(value, group_len >= 16)
}

/// `RNB_METAL_QWEN35_PREFILL_ROUTER`: on unless falsey.
pub fn metal_qwen_moe_prefill_router_requested(value: Option<&str>) -> (requested: bool)
    ensures
        requested == unless_falsey(value, true),
{
    env_unless_falsey(value, true)
}

/// `RNB_METAL_QWEN35_PREFILL_ROUTE_TOPK`: on where set and not falsey.
pub fn metal_qwen_moe_prefill_route_topk_requested(value: Option<&str>) -> (requested: bool)
    ensures
        requested == unless_falsey(value, false),
{
    env_unless_falsey(value, false)
}

/// `RNB_METAL_QWEN35_MOE_PREFILL_ACCUM`: where not set, prompts of 1024 tokens and
/// more.
pub fn metal_qwen_moe_prefill_accum_enabled(value: Option<&str>, seq_len: usize) -> (enabled: bool)
    ensures
        enabled == set_or_at_least(value, seq_len, 1024),
{
    env_unless_falsey(value, seq_len >= 1024)
}

/// `RNB_METAL_QWEN35_MOE_PREFILL_ACCUM_TRACE`: on where set and not falsey.
pub fn metal_qwen_moe_prefill_accum_trace_enabled(value: Option<&str>) -> (enabled: bool)
    ensures
        enabled == unless_falsey(value, false),
{
    env_unless_falsey(value, false)
}

/// `RNB_METAL_QWEN35_MOE_PREFILL_SHARED_ACCUM`: on unless falsey, where the
/// accumulator is on.
pub fn metal_qwen_moe_prefill_shared_accum_enabled(
    accum: Option<&str>,
    shared_accum: Option<&str>,
    seq_len: usize,
) -> (enabled: bool)
    ensures
        enabled == (set_or_at_least(accum, seq_len, 1024) && unless_falsey(shared_accum, true)),
{
    if !metal_qwen_moe_prefill_accum_enabled(accum, seq_len) {
        return false;
    }
    env_unless_falsey(shared_accum, true)
}

/// `RNB_METAL_QWEN35_MOE_LLAMA_ID`: on unless falsey.
pub fn metal_qwen_moe_llama_id_requested(value: Option<&str>) -> (requested: bool)
    ensures
        requested == !switched_off(value),
{
    !env_falsey(value)
}

/// A matrix path is asked for where its own switch is truthy, unless the id path's
/// (`RNB_METAL_QWEN35_MOE_LLAMA_ID`) is set to ask for that one.
pub open spec fn mulmmid_asked(value: Option<&str>, llama_id: Option<&str>) -> bool {
    switched_on(value) && !unless_falsey(llama_id, false)
}

/// `RNB_METAL_QWEN35_MOE_PREFILL_MULMMID_V3`: on where truthy, unless the id path
/// is asked for by name.
pub fn metal_qwen_moe_prefill_mulmmid_v3_requested(
    value: Option<&str>,
    llama_id: Option<&str>,
) -> (requested: bool)
    ensures
        requested == mulmmid_asked(value, llama_id),
{
    env_truthy(value) && !env_unless_falsey(llama_id, false)
}

/// `RNB_METAL_QWEN35_MOE_PREFILL_MULMMID_V4`: on where truthy, unless the id path
/// is asked for by name.
pub fn metal_qwen_moe_prefill_mulmmid_v4_requested(
    value: Option<&str>,
    llama_id: Option<&str>,
) -> (requested: bool)
    ensures
        requested == mulmmid_asked(value, llama_id),
{
    env_truthy(value) && !env_unless_falsey(llama_id, false)
}

/// The id path comes first: where its switch is set and not falsey, it is asked for
/// and no matrix path is, whatever their switches say.
pub proof fn law_id_path_comes_first(value: Option<&str>, llama_id: Option<&str>)
    requires
        unless_falsey(llama_id, false),
    ensures
        !switched_off(llama_id),
        !mulmmid_asked(value, llama_id),
{
}

/// Switching the accumulator off switches the shared accumulator off too.
pub proof fn law_accum_opt_out_covers_shared_accum(
    accum: Option<&str>,
    shared_accum: Option<&str>,
    seq_len: usize,
)
    requires
        switched_off(accum),
    ensures
        !(set_or_at_least(accum, seq_len, 1024) && unless_falsey(shared_accum, true)),
{
}

/// No word is both truthy and falsey.
pub proof fn law_no_word_is_truthy_and_falsey(value: Option<&str>)
    ensures
        !(switched_on(value) && switched_off(value)),
{
    reveal_strlit("0");
    reveal_strlit("false");
    reveal_strlit("off");
    reveal_strlit("no");
    reveal_strlit("1");
    reveal_strlit("true");
    reveal_strlit("on");
    reveal_strlit("yes");
    if switched_on(value) && switched_off(value) {
        let word = crate::text::lowered(value->0@);
        assert(word.len() <= 5);
        assert("0"@[0] != "1"@[0]);
        assert("no"@[0] != "on"@[0]);
        assert("off"@[0] != "yes"@[0]);
        assert("true"@.len() != "false"@.len());
    }
}

/// A switch that is set decides whatever the size; one that is not set is on from the
/// threshold up, and so for every larger size.
pub proof fn law_a_set_switch_overrides_the_size(
    text: &str,
    size: usize,
    other: usize,
    threshold: int,
)
    ensures
        set_or_at_least(Some(text), size, threshold) == set_or_at_least(
            Some(text),
            other,
            threshold,
        ),
        set_or_at_least(Some(text), size, threshold) == !switched_off(Some(text)),
        set_or_at_least(None, size, threshold) <==> size >= threshold,
        size <= other && set_or_at_least(None, size, threshold) ==> set_or_at_least(
            None,
            other,
            threshold,
        ),
{
}

/// A matrix path is asked for exactly if its own switch is truthy and the id path is either
/// left alone or switched off.
pub proof fn law_when_a_matrix_path_is_asked_for(value: Option<&str>, llama_id: Option<&str>)
    ensures
        mulmmid_asked(value, llama_id) <==> switched_on(value) && (llama_id is None
            || switched_off(llama_id)),
        mulmmid_asked(value, None) <==> switched_on(value),
        !mulmmid_asked(None, llama_id),
{
}

} // verus!
