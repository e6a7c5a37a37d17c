//! Counters of what the Metal paths took and why they did not.

use crate::text::{
    decimal, lemma_begins_with_itself, lemma_says_at_the_end, push_decimal, push_decimal_u64,
    same_text, says,
};
use vstd::prelude::*;

verus! {

fn push_count(line: &mut String, label: &str, count: usize)
    ensures
        final(line)@ == old(line)@ + label@ + decimal(count as nat),
{
    line.append(label);
    push_decimal(line, count);
}

/// Dense attention layers on the full-layer path.
#[derive(Debug, Clone, Copy, PartialEq, Eq, Structural)]
pub struct AtnFullCounters {
    pub expected_dense_atn_layers: usize,
    pub core_hit: usize,
    pub full_layer_hit: usize,
    pub fallback: usize,
    pub opt_out: usize,
    pub skip_by_reason: usize,
    pub backend_err: usize,
}

impl AtnFullCounters {
    pub open spec fn spec_zero() -> Self {
        AtnFullCounters {
            expected_dense_atn_layers: 0,
            core_hit: 0,
            full_layer_hit: 0,
            fallback: 0,
            opt_out: 0,
            skip_by_reason: 0,
            backend_err: 0,
        }
    }
}

impl Default for AtnFullCounters {
    fn default() -> (counters: Self)
        ensures
            counters == AtnFullCounters::spec_zero(),
    {
        AtnFullCounters {
            expected_dense_atn_layers: 0,
            core_hit: 0,
            full_layer_hit: 0,
            fallback: 0,
            opt_out: 0,
            skip_by_reason: 0,
            backend_err: 0,
        }
    }
}

/// A dense attention layer came up.
pub fn metal_prefill_atn_full_expected_dense_layer(counters: &mut AtnFullCounters)
    requires
        old(counters).expected_dense_atn_layers < usize::MAX,
    ensures
        *final(counters) == (AtnFullCounters {
            expected_dense_atn_layers: (old(counters).expected_dense_atn_layers + 1) as usize,
            ..*old(counters)
        }),
{
    counters.expected_dense_atn_layers += 1;
}

/// The device ran the core of a layer.
pub fn metal_prefill_atn_full_record_core_hit(counters: &mut AtnFullCounters)
    requires
        old(counters).core_hit < usize::MAX,
    ensures
        *final(counters) == (AtnFullCounters {
            core_hit: (old(counters).core_hit + 1) as usize,
            ..*old(counters)
        }),
{
    counters.core_hit += 1;
}

/// The device ran a whole layer.
pub fn metal_prefill_atn_full_record_full_layer_hit(counters: &mut AtnFullCounters)
    requires
        old(counters).full_layer_hit < usize::MAX,
    ensures
        *final(counters) == (AtnFullCounters {
            full_layer_hit: (old(counters).full_layer_hit + 1) as usize,
            ..*old(counters)
        }),
{
    counters.full_layer_hit += 1;
}

/// A layer fell back because the device could not take it.
pub fn metal_prefill_atn_full_record_skip(counters: &mut AtnFullCounters)
    requires
        old(counters).fallback < usize::MAX,
        old(counters).skip_by_reason < usize::MAX,
    ensures
        *final(counters) == (AtnFullCounters {
            fallback: (old(counters).fallback + 1) as usize,
            skip_by_reason: (old(counters).skip_by_reason + 1) as usize,
            ..*old(counters)
        }),
{
    counters.fallback += 1;
    counters.skip_by_reason += 1;
}

/// A layer was not offered to the device at all.
pub fn metal_prefill_atn_full_record_opt_out(counters: &mut AtnFullCounters)
    requires
        old(counters).opt_out < usize::MAX,
    ensures
        *final(counters) == (AtnFullCounters {
            opt_out: (old(counters).opt_out + 1) as usize,
            ..*old(counters)
        }),
{
    counters.opt_out += 1;
}

/// The adapter kept a layer back: a fallback where the path was asked for, else an
/// opt-out.
pub fn metal_prefill_atn_full_record_adapter_reject(counters: &mut AtnFullCounters, requested: bool)
    requires
        requested ==> old(counters).fallback < usize::MAX && old(counters).skip_by_reason
            < usize::MAX,
        !requested ==> old(counters).opt_out < usize::MAX,
    ensures
        *final(counters) == (if requested {
            AtnFullCounters {
                fallback: (old(counters).fallback + 1) as usize,
                skip_by_reason: (old(counters).skip_by_reason + 1) as usize,
                ..*old(counters)
            }
        } else {
            AtnFullCounters { opt_out: (old(counters).opt_out + 1) as usize, ..*old(counters) }
        }),
{
    if requested {
        counters.fallback += 1;
        counters.skip_by_reason += 1;
    } else {
        counters.opt_out += 1;
    }
}

/// The device failed on a layer.
pub fn metal_prefill_atn_full_record_backend_err(counters: &mut AtnFullCounters)
    requires
        old(counters).fallback < usize::MAX,
        old(counters).backend_err < usize::MAX,
    ensures
        *final(counters) == (AtnFullCounters {
            fallback: (old(counters).fallback + 1) as usize,
            backend_err: (old(counters).backend_err + 1) as usize,
            ..*old(counters)
        }),
{
    counters.fallback += 1;
    counters.backend_err += 1;
}

pub fn metal_prefill_atn_full_counters_reset(counters: &mut AtnFullCounters)
    ensures
        *final(counters) == AtnFullCounters::spec_zero(),
{
    *counters = AtnFullCounters::default();
}

/// The report of the full-layer counters.
pub open spec fn atn_full_line(counters: AtnFullCounters, label: Seq<char>) -> Seq<char> {
    "[prefill-atn-full] "@ + label + " expected_dense_atn_layers="@ + decimal(
        counters.expected_dense_atn_layers as nat,
    ) + " core_hit="@ + decimal(
        counters.core_hit as nat,
    ) + " full_layer_hit="@ + decimal(
        counters.full_layer_hit as nat,
    ) + " fallback="@ + decimal(
        counters.fallback as nat,
    ) + " opt_out="@ + decimal(
        counters.opt_out as nat,
    ) + " skip_by_reason="@ + decimal(
        counters.skip_by_reason as nat,
    ) + " backend_err="@ + decimal(
        counters.backend_err as nat,
    )
}

/// The line that reports the counters under `label`, while timing is on.
pub fn metal_prefill_atn_full_counters_report(
    counters: &AtnFullCounters,
    label: &str,
    timing_enabled: bool,
) -> (line: Option<String>)
    ensures
        timing_enabled == line is Some,
        line matches Some(text) ==> text@ == atn_full_line(*counters, label@),
{
    if !timing_enabled {
        return None;
    }
    let mut line = String::from_str("[prefill-atn-full] ");
    line.append(label);
    push_count(&mut line, " expected_dense_atn_layers=", counters.expected_dense_atn_layers);
    push_count(&mut line, " core_hit=", counters.core_hit);
    push_count(&mut line, " full_layer_hit=", counters.full_layer_hit);
    push_count(&mut line, " fallback=", counters.fallback);
    push_count(&mut line, " opt_out=", counters.opt_out);
    push_count(&mut line, " skip_by_reason=", counters.skip_by_reason);
    push_count(&mut line, " backend_err=", counters.backend_err);
    Some(line)
}

/// Dense attention layers on the path that ends with the output projection.
#[derive(Debug, Clone, Copy, PartialEq, Eq, Structural)]
pub struct AtnOTailCounters {
    pub expected_dense_atn_layers: usize,
    pub o_tail_hit: usize,
    pub fallback: usize,
    pub opt_out: usize,
    pub skip_by_reason: usize,
    pub backend_err: usize,
}

impl AtnOTailCounters {
    pub open spec fn spec_zero() -> Self {
        AtnOTailCounters {
            expected_dense_atn_layers: 0,
            o_tail_hit: 0,
            fallback: 0,
            opt_out: 0,
            skip_by_reason: 0,
            backend_err: 0,
        }
    }
}

impl Default for AtnOTailCounters {
    fn default() -> (counters: Self)
        ensures
            counters == AtnOTailCounters::spec_zero(),
    {
        AtnOTailCounters {
            expected_dense_atn_layers: 0,
            o_tail_hit: 0,
            fallback: 0,
            opt_out: 0,
            skip_by_reason: 0,
            backend_err: 0,
        }
    }
}

/// A dense attention layer came up.
pub fn metal_prefill_atn_o_tail_expected_dense_layer(counters: &mut AtnOTailCounters)
    requires
        old(counters).expected_dense_atn_layers < usize::MAX,
    ensures
        *final(counters) == (AtnOTailCounters {
            expected_dense_atn_layers: (old(counters).expected_dense_atn_layers + 1) as usize,
            ..*old(counters)
        }),
{
    counters.expected_dense_atn_layers += 1;
}

/// The device ran a layer up to its output projection.
pub fn metal_prefill_atn_o_tail_record_hit(counters: &mut AtnOTailCounters)
    requires
        old(counters).o_tail_hit < usize::MAX,
    ensures
        *final(counters) == (AtnOTailCounters {
            o_tail_hit: (old(counters).o_tail_hit + 1) as usize,
            ..*old(counters)
        }),
{
    counters.o_tail_hit += 1;
}

/// A layer fell back because the device could not take it.
pub fn metal_prefill_atn_o_tail_record_skip(counters: &mut AtnOTailCounters)
    requires
        old(counters).fallback < usize::MAX,
        old(counters).skip_by_reason < usize::MAX,
    ensures
        *final(counters) == (AtnOTailCounters {
            fallback: (old(counters).fallback + 1) as usize,
            skip_by_reason: (old(counters).skip_by_reason + 1) as usize,
            ..*old(counters)
        }),
{
    counters.fallback += 1;
    counters.skip_by_reason += 1;
}

/// A layer was not offered to the device at all.
pub fn metal_prefill_atn_o_tail_record_opt_out(counters: &mut AtnOTailCounters)
    requires
        old(counters).opt_out < usize::MAX,
    ensures
        *final(counters) == (AtnOTailCounters {
            opt_out: (old(counters).opt_out + 1) as usize,
            ..*old(counters)
        }),
{
    counters.opt_out += 1;
}

/// The adapter kept a layer back: a fallback where the path was asked for, else an
/// opt-out.
pub fn metal_prefill_atn_o_tail_record_adapter_reject(counters: &mut AtnOTailCounters, requested: bool)
    requires
        requested ==> old(counters).fallback < usize::MAX && old(counters).skip_by_reason
            < usize::MAX,
        !requested ==> old(counters).opt_out < usize::MAX,
    ensures
        *final(counters) == (if requested {
            AtnOTailCounters {
                fallback: (old(counters).fallback + 1) as usize,
                skip_by_reason: (old(counters).skip_by_reason + 1) as usize,
                ..*old(counters)
            }
        } else {
            AtnOTailCounters { opt_out: (old(counters).opt_out + 1) as usize, ..*old(counters) }
        }),
{
    if requested {
        counters.fallback += 1;
        counters.skip_by_reason += 1;
    } else {
        counters.opt_out += 1;
    }
}

/// The device failed on a layer.
pub fn metal_prefill_atn_o_tail_record_backend_err(counters: &mut AtnOTailCounters)
    requires
        old(counters).fallback < usize::MAX,
        old(counters).backend_err < usize::MAX,
    ensures
        *final(counters) == (AtnOTailCounters {
            fallback: (old(counters).fallback + 1) as usize,
            backend_err: (old(counters).backend_err + 1) as usize,
            ..*old(counters)
        }),
{
    counters.fallback += 1;
    counters.backend_err += 1;
}

pub fn metal_prefill_atn_o_tail_counters_reset(counters: &mut AtnOTailCounters)
    ensures
        *final(counters) == AtnOTailCounters::spec_zero(),
{
    *counters = AtnOTailCounters::default();
}

/// The report of the output-projection counters.
pub open spec fn atn_o_tail_line(counters: AtnOTailCounters, label: Seq<char>) -> Seq<char> {
    "[prefill-atn-o-tail] "@ + label + " expected_dense_atn_layers="@ + decimal(
        counters.expected_dense_atn_layers as nat,
    ) + " o_tail_hit="@ + decimal(
        counters.o_tail_hit as nat,
    ) + " fallback="@ + decimal(
        counters.fallback as nat,
    ) + " opt_out="@ + decimal(
        counters.opt_out as nat,
    ) + " skip_by_reason="@ + decimal(
        counters.skip_by_reason as nat,
    ) + " backend_err="@ + decimal(
        counters.backend_err as nat,
    )
}

/// The line that reports the counters under `label`, while timing is on.
pub fn metal_prefill_atn_o_tail_counters_report(
    counters: &AtnOTailCounters,
    label: &str,
    timing_enabled: bool,
) -> (line: Option<String>)
    ensures
        timing_enabled == line is Some,
        line matches Some(text) ==> text@ == atn_o_tail_line(*counters, label@),
{
    if !timing_enabled {
        return None;
    }
    let mut line = String::from_str("[prefill-atn-o-tail] ");
    line.append(label);
    push_count(&mut line, " expected_dense_atn_layers=", counters.expected_dense_atn_layers);
    push_count(&mut line, " o_tail_hit=", counters.o_tail_hit);
    push_count(&mut line, " fallback=", counters.fallback);
    push_count(&mut line, " opt_out=", counters.opt_out);
    push_count(&mut line, " skip_by_reason=", counters.skip_by_reason);
    push_count(&mut line, " backend_err=", counters.backend_err);
    Some(line)
}

/// What the device did for an output token.
#[derive(Debug, Clone, Copy, PartialEq, Eq)]
pub struct MetalOutputArgmaxReport {
    pub attempted: bool,
    pub did_run: bool,
    pub token_id: Option<u32>,
    pub cmd_buffers: usize,
    pub wait_us: u64,
    pub readback_bytes: usize,
    pub fallback_reason: Option<&'static str>,
}

impl MetalOutputArgmaxReport {
    pub open spec fn spec_none() -> Self {
        MetalOutputArgmaxReport {
            attempted: false,
            did_run: false,
            token_id: None,
            cmd_buffers: 0,
            wait_us: 0,
            readback_bytes: 0,
            fallback_reason: None,
        }
    }

    /// An attempt that did not run, for `reason`.
    pub fn fallback(reason: &'static str) -> (report: Self)
        ensures
            report == (MetalOutputArgmaxReport {
                attempted: true,
                fallback_reason: Some(reason),
                ..MetalOutputArgmaxReport::spec_none()
            }),
    {
        MetalOutputArgmaxReport {
            attempted: true,
            did_run: false,
            token_id: None,
            cmd_buffers: 0,
            wait_us: 0,
            readback_bytes: 0,
            fallback_reason: Some(reason),
        }
    }
}

impl Default for MetalOutputArgmaxReport {
    fn default() -> (report: Self)
        ensures
            report == MetalOutputArgmaxReport::spec_none(),
    {
        MetalOutputArgmaxReport {
            attempted: false,
            did_run: false,
            token_id: None,
            cmd_buffers: 0,
            wait_us: 0,
            readback_bytes: 0,
            fallback_reason: None,
        }
    }
}

/// What the device did for one decoded token.
#[derive(Debug, Clone, Copy, PartialEq, Eq)]
pub struct MetalDecodeChainReport {
    pub did_run: bool,
    pub pm51_extension_hit: bool,
    pub legacy_chain_hit: bool,
    pub qwen_moe_layers: usize,
    pub fallback_reason: Option<&'static str>,
    pub cmd_buffers: usize,
    pub wait_us: u64,
    pub upload_bytes: usize,
    pub readback_bytes: usize,
    pub state_syncs: usize,
    pub output_argmax: MetalOutputArgmaxReport,
}

impl MetalDecodeChainReport {
    pub open spec fn spec_none() -> Self {
        MetalDecodeChainReport {
            did_run: false,
            pm51_extension_hit: false,
            legacy_chain_hit: false,
            qwen_moe_layers: 0,
            fallback_reason: None,
            cmd_buffers: 0,
            wait_us: 0,
            upload_bytes: 0,
            readback_bytes: 0,
            state_syncs: 0,
            output_argmax: MetalOutputArgmaxReport::spec_none(),
        }
    }

    /// Whether this reports that the device failed.
    pub open spec fn is_backend_error(self) -> bool {
        self.fallback_reason matches Some(reason) && reason@ == "backend error"@
    }

    /// A token that the chain did not run: for `reason`, unless the device failed.
    pub fn fallback(reason: &'static str, backend_err: bool) -> (report: Self)
        ensures
            report.fallback_reason is Some,
            report.fallback_reason->0@ == (if backend_err {
                "backend error"@
            } else {
                reason@
            }),
            report == (MetalDecodeChainReport {
                fallback_reason: report.fallback_reason,
                ..MetalDecodeChainReport::spec_none()
            }),
    {
        MetalDecodeChainReport {
            fallback_reason: Some(
                if backend_err {
                    "backend error"
                } else {
                    reason
                },
            ),
            ..MetalDecodeChainReport::default()
        }
    }
}

impl Default for MetalDecodeChainReport {
    fn default() -> (report: Self)
        ensures
            report == MetalDecodeChainReport::spec_none(),
    {
        MetalDecodeChainReport {
            did_run: false,
            pm51_extension_hit: false,
            legacy_chain_hit: false,
            qwen_moe_layers: 0,
            fallback_reason: None,
            cmd_buffers: 0,
            wait_us: 0,
            upload_bytes: 0,
            readback_bytes: 0,
            state_syncs: 0,
            output_argmax: MetalOutputArgmaxReport::default(),
        }
    }
}

/// What the decode chain did for all tokens so far.
#[derive(Debug, Clone, Copy, PartialEq, Eq, Structural)]
pub struct MetalDecodeParityCounters {
    pub expected_decode_tokens: usize,
    pub chain_hit_tokens: usize,
    pub fallback_tokens: usize,
    pub opt_out_tokens: usize,
    pub backend_err: usize,
    pub cmd_buffers: usize,
    pub wait_us: u64,
    pub upload_bytes: usize,
    pub readback_bytes: usize,
    pub argmax_device_hits: usize,
    pub state_syncs: usize,
}

impl MetalDecodeParityCounters {
    pub open spec fn spec_zero() -> Self {
        MetalDecodeParityCounters {
            expected_decode_tokens: 0,
            chain_hit_tokens: 0,
            fallback_tokens: 0,
            opt_out_tokens: 0,
            backend_err: 0,
            cmd_buffers: 0,
            wait_us: 0,
            upload_bytes: 0,
            readback_bytes: 0,
            argmax_device_hits: 0,
            state_syncs: 0,
        }
    }
}

impl Default for MetalDecodeParityCounters {
    fn default() -> (counters: Self)
        ensures
            counters == MetalDecodeParityCounters::spec_zero(),
    {
        MetalDecodeParityCounters {
            expected_decode_tokens: 0,
            chain_hit_tokens: 0,
            fallback_tokens: 0,
            opt_out_tokens: 0,
            backend_err: 0,
            cmd_buffers: 0,
            wait_us: 0,
            upload_bytes: 0,
            readback_bytes: 0,
            argmax_device_hits: 0,
            state_syncs: 0,
        }
    }
}

pub fn metal_decode_parity_counters_reset(counters: &mut MetalDecodeParityCounters)
    ensures
        *final(counters) == MetalDecodeParityCounters::spec_zero(),
{
    *counters = MetalDecodeParityCounters::default();
}

pub fn metal_decode_parity_counters_snapshot(counters: &MetalDecodeParityCounters) -> (snapshot: MetalDecodeParityCounters)
    ensures
        snapshot == *counters,
{
    *counters
}

/// A token came up for decoding.
pub fn metal_decode_parity_record_expected_token(counters: &mut MetalDecodeParityCounters)
    requires
        old(counters).expected_decode_tokens < usize::MAX,
    ensures
        *final(counters) == (MetalDecodeParityCounters {
            expected_decode_tokens: (old(counters).expected_decode_tokens + 1) as usize,
            ..*old(counters)
        }),
{
    counters.expected_decode_tokens += 1;
}

/// A token was not offered to the chain.
pub fn metal_decode_parity_record_opt_out(counters: &mut MetalDecodeParityCounters)
    requires
        old(counters).opt_out_tokens < usize::MAX,
    ensures
        *final(counters) == (MetalDecodeParityCounters {
            opt_out_tokens: (old(counters).opt_out_tokens + 1) as usize,
            ..*old(counters)
        }),
{
    counters.opt_out_tokens += 1;
}

impl MetalDecodeParityCounters {
    /// What the counters hold after `report`: each token hits or falls back, and a
    /// device failure is a fallback that is counted apart.
    pub open spec fn after_chain(self, report: MetalDecodeChainReport) -> Self {
        let argmax = report.output_argmax;
        MetalDecodeParityCounters {
            chain_hit_tokens: (self.chain_hit_tokens + if report.did_run {
                1int
            } else {
                0
            }) as usize,
            fallback_tokens: (self.fallback_tokens + if report.did_run {
                0int
            } else {
                1
            }) as usize,
            backend_err: (self.backend_err + if !report.did_run && report.is_backend_error() {
                1int
            } else {
                0
            }) as usize,
            cmd_buffers: (self.cmd_buffers + report.cmd_buffers + argmax.cmd_buffers) as usize,
            wait_us: (self.wait_us + report.wait_us + argmax.wait_us) as u64,
            upload_bytes: (self.upload_bytes + report.upload_bytes) as usize,
            readback_bytes: (self.readback_bytes + report.readback_bytes
                + argmax.readback_bytes) as usize,
            argmax_device_hits: (self.argmax_device_hits + if argmax.did_run {
                1int
            } else {
                0
            }) as usize,
            state_syncs: (self.state_syncs + report.state_syncs) as usize,
            ..self
        }
    }

    /// None of the counters overflows on `report`.
    pub open spec fn room_for(self, report: MetalDecodeChainReport) -> bool {
        let argmax = report.output_argmax;
        &&& report.did_run ==> self.chain_hit_tokens < usize::MAX
        &&& !report.did_run ==> self.fallback_tokens < usize::MAX
        &&& !report.did_run && report.is_backend_error() ==> self.backend_err < usize::MAX
        &&& argmax.did_run ==> self.argmax_device_hits < usize::MAX
        &&& self.cmd_buffers + report.cmd_buffers + argmax.cmd_buffers <= usize::MAX
        &&& self.wait_us + report.wait_us + argmax.wait_us <= u64::MAX
        &&& self.upload_bytes + report.upload_bytes <= usize::MAX
        &&& self.readback_bytes + report.readback_bytes + argmax.readback_bytes <= usize::MAX
        &&& self.state_syncs + report.state_syncs <= usize::MAX
    }
}

/// Counts what the chain did for a token.
pub fn metal_decode_parity_record_chain_report(
    counters: &mut MetalDecodeParityCounters,
    report: MetalDecodeChainReport,
)
    requires
        old(counters).room_for(report),
    ensures
        *final(counters) == old(counters).after_chain(report),
{
    if report.did_run {
        counters.chain_hit_tokens += 1;
    } else {
        counters.fallback_tokens += 1;
        if let Some(reason) = report.fallback_reason {
            if same_text(reason, "backend error") {
                counters.backend_err += 1;
            }
        }
    }
    counters.cmd_buffers += report.cmd_buffers + report.output_argmax.cmd_buffers;
    counters.wait_us += report.wait_us + report.output_argmax.wait_us;
    counters.upload_bytes += report.upload_bytes;
    counters.readback_bytes += report.readback_bytes + report.output_argmax.readback_bytes;
    if report.output_argmax.did_run {
        counters.argmax_device_hits += 1;
    }
    counters.state_syncs += report.state_syncs;
}

impl MetalDecodeParityCounters {
    /// What the counters hold after the device looked for an output token.
    pub open spec fn after_argmax(self, report: MetalOutputArgmaxReport) -> Self {
        MetalDecodeParityCounters {
            cmd_buffers: (self.cmd_buffers + report.cmd_buffers) as usize,
            wait_us: (self.wait_us + report.wait_us) as u64,
            readback_bytes: (self.readback_bytes + report.readback_bytes) as usize,
            argmax_device_hits: (self.argmax_device_hits + if report.did_run {
                1int
            } else {
                0
            }) as usize,
            ..self
        }
    }

    /// None of the counters overflows on `report`.
    pub open spec fn room_for_argmax(self, report: MetalOutputArgmaxReport) -> bool {
        &&& self.cmd_buffers + report.cmd_buffers <= usize::MAX
        &&& self.wait_us + report.wait_us <= u64::MAX
        &&& self.readback_bytes + report.readback_bytes <= usize::MAX
        &&& report.did_run ==> self.argmax_device_hits < usize::MAX
    }
}

/// Counts what the device did for an output token outside of the chain.
pub fn metal_decode_parity_record_output_argmax(
    counters: &mut MetalDecodeParityCounters,
    report: MetalOutputArgmaxReport,
)
    requires
        old(counters).room_for_argmax(report),
    ensures
        *final(counters) == old(counters).after_argmax(report),
{
    counters.cmd_buffers += report.cmd_buffers;
    counters.wait_us += report.wait_us;
    counters.readback_bytes += report.readback_bytes;
    if report.did_run {
        counters.argmax_device_hits += 1;
    }
}

/// The report of the decode-chain counters, with the wait in milliseconds already
/// written out to three decimals.
pub open spec fn parity_line(
    c: MetalDecodeParityCounters,
    label: Seq<char>,
    wait_ms: Seq<char>,
) -> Seq<char> {
    "[metal-decode-parity] "@ + label + " expected_decode_tokens="@ + decimal(
        c.expected_decode_tokens as nat,
    ) + " chain_hit_tokens="@ + decimal(c.chain_hit_tokens as nat) + " fallback_tokens="@ + decimal(
        c.fallback_tokens as nat,
    ) + " opt_out_tokens="@ + decimal(c.opt_out_tokens as nat) + " backend_err="@ + decimal(
        c.backend_err as nat,
    ) + " cmd_buffers="@ + decimal(c.cmd_buffers as nat) + " wait_us="@ + decimal(c.wait_us as nat)
        + " wait_ms="@ + wait_ms + " upload_bytes="@ + decimal(c.upload_bytes as nat)
        + " readback_bytes="@ + decimal(c.readback_bytes as nat) + " argmax_device_hits="@
        + decimal(c.argmax_device_hits as nat) + " state_syncs="@ + decimal(c.state_syncs as nat)
}

/// The line that reports the counters under `label`, while timing is on.
pub fn metal_decode_parity_counters_report(
    counters: &MetalDecodeParityCounters,
    label: &str,
    wait_ms: &str,
    timing_enabled: bool,
) -> (line: Option<String>)
    ensures
        timing_enabled == line is Some,
        line matches Some(text) ==> text@ == parity_line(*counters, label@, wait_ms@),
{
    if !timing_enabled {
        return None;
    }
    let mut line = String::from_str("[metal-decode-parity] ");
    line.append(label);
    push_count(&mut line, " expected_decode_tokens=", counters.expected_decode_tokens);
    push_count(&mut line, " chain_hit_tokens=", counters.chain_hit_tokens);
    push_count(&mut line, " fallback_tokens=", counters.fallback_tokens);
    push_count(&mut line, " opt_out_tokens=", counters.opt_out_tokens);
    push_count(&mut line, " backend_err=", counters.backend_err);
    push_count(&mut line, " cmd_buffers=", counters.cmd_buffers);
    line.append(" wait_us=");
    push_decimal_u64(&mut line, counters.wait_us);
    line.append(" wait_ms=");
    line.append(wait_ms);
    push_count(&mut line, " upload_bytes=", counters.upload_bytes);
    push_count(&mut line, " readback_bytes=", counters.readback_bytes);
    push_count(&mut line, " argmax_device_hits=", counters.argmax_device_hits);
    push_count(&mut line, " state_syncs=", counters.state_syncs);
    Some(line)
}

/// Every reported token is counted once, as a hit or as a fallback, and a device
/// failure only ever as a fallback.
pub proof fn law_tokens_hit_or_fall_back(
    counters: MetalDecodeParityCounters,
    report: MetalDecodeChainReport,
)
    requires
        counters.room_for(report),
    ensures
        counters.after_chain(report).chain_hit_tokens + counters.after_chain(
            report,
        ).fallback_tokens == counters.chain_hit_tokens + counters.fallback_tokens + 1,
        counters.after_chain(report).backend_err - counters.backend_err <= counters.after_chain(
            report,
        ).fallback_tokens - counters.fallback_tokens,
        counters.after_chain(report).expected_decode_tokens == counters.expected_decode_tokens,
{
}

/// A token that the device ran is a hit and one that it did not run a fallback, a failure of
/// the device beside that; buffers, waiting and read-back bytes add up over the chain and
/// its output token, uploads and state syncs are the chain's alone.
pub proof fn law_chains_add_up(c: MetalDecodeParityCounters, report: MetalDecodeChainReport)
    requires
        c.room_for(report),
    ensures
        report.did_run ==> c.after_chain(report).chain_hit_tokens == c.chain_hit_tokens + 1
            && c.after_chain(report).fallback_tokens == c.fallback_tokens,
        !report.did_run ==> c.after_chain(report).fallback_tokens == c.fallback_tokens + 1
            && c.after_chain(report).chain_hit_tokens == c.chain_hit_tokens,
        c.after_chain(report).backend_err == c.backend_err + 1 <==> !report.did_run
            && report.fallback_reason is Some && report.fallback_reason->0@ == "backend error"@,
        c.after_chain(report).backend_err != c.backend_err + 1 ==> c.after_chain(report).backend_err
            == c.backend_err,
        c.after_chain(report).cmd_buffers == c.cmd_buffers + report.cmd_buffers
            + report.output_argmax.cmd_buffers,
        c.after_chain(report).wait_us == c.wait_us + report.wait_us + report.output_argmax.wait_us,
        c.after_chain(report).upload_bytes == c.upload_bytes + report.upload_bytes,
        c.after_chain(report).readback_bytes == c.readback_bytes + report.readback_bytes
            + report.output_argmax.readback_bytes,
        c.after_chain(report).state_syncs == c.state_syncs + report.state_syncs,
        report.output_argmax.did_run ==> c.after_chain(report).argmax_device_hits
            == c.argmax_device_hits + 1,
        !report.output_argmax.did_run ==> c.after_chain(report).argmax_device_hits
            == c.argmax_device_hits,
        c.after_chain(report).opt_out_tokens == c.opt_out_tokens,
        c.after_chain(report).expected_decode_tokens == c.expected_decode_tokens,
{
}

/// An output token outside of a chain counts its buffers, its waiting, what was read back
/// and, where the device found it, a hit; it counts for no token of the chain.
pub proof fn law_output_tokens_add_up(
    c: MetalDecodeParityCounters,
    report: MetalOutputArgmaxReport,
)
    requires
        c.room_for_argmax(report),
    ensures
        c.after_argmax(report).cmd_buffers == c.cmd_buffers + report.cmd_buffers,
        c.after_argmax(report).wait_us == c.wait_us + report.wait_us,
        c.after_argmax(report).readback_bytes == c.readback_bytes + report.readback_bytes,
        report.did_run ==> c.after_argmax(report).argmax_device_hits == c.argmax_device_hits + 1,
        !report.did_run ==> c.after_argmax(report).argmax_device_hits == c.argmax_device_hits,
        c.after_argmax(report).chain_hit_tokens == c.chain_hit_tokens,
        c.after_argmax(report).fallback_tokens == c.fallback_tokens,
        c.after_argmax(report).opt_out_tokens == c.opt_out_tokens,
        c.after_argmax(report).backend_err == c.backend_err,
        c.after_argmax(report).upload_bytes == c.upload_bytes,
        c.after_argmax(report).state_syncs == c.state_syncs,
        c.after_argmax(report).expected_decode_tokens == c.expected_decode_tokens,
{
}

/// A report whose every part is empty changes no count but that of the fallbacks.
pub proof fn law_an_empty_report_is_a_fallback(c: MetalDecodeParityCounters)
    requires
        c.fallback_tokens < usize::MAX,
    ensures
        c.room_for(MetalDecodeChainReport::spec_none()),
        c.after_chain(MetalDecodeChainReport::spec_none()) == (MetalDecodeParityCounters {
            fallback_tokens: (c.fallback_tokens + 1) as usize,
            ..c
        }),
{
}

/// The line of the full-layer counters says each count behind its name.
pub proof fn law_full_layer_lines_say_each_count(c: AtnFullCounters, label: Seq<char>)
    ensures
        says(
            atn_full_line(c, label),
            " expected_dense_atn_layers="@,
            decimal(c.expected_dense_atn_layers as nat),
        ),
        says(atn_full_line(c, label), " core_hit="@, decimal(c.core_hit as nat)),
        says(atn_full_line(c, label), " full_layer_hit="@, decimal(c.full_layer_hit as nat)),
        says(atn_full_line(c, label), " fallback="@, decimal(c.fallback as nat)),
        says(atn_full_line(c, label), " opt_out="@, decimal(c.opt_out as nat)),
        says(atn_full_line(c, label), " skip_by_reason="@, decimal(c.skip_by_reason as nat)),
        says(atn_full_line(c, label), " backend_err="@, decimal(c.backend_err as nat)),
{
    let line0 = "[prefill-atn-full] "@ + label;
    let line1 = line0 + " expected_dense_atn_layers="@
        + decimal(c.expected_dense_atn_layers as nat);
    let line2 = line1 + " core_hit="@ + decimal(c.core_hit as nat);
    let line3 = line2 + " full_layer_hit="@ + decimal(c.full_layer_hit as nat);
    let line4 = line3 + " fallback="@ + decimal(c.fallback as nat);
    let line5 = line4 + " opt_out="@ + decimal(c.opt_out as nat);
    let line6 = line5 + " skip_by_reason="@ + decimal(c.skip_by_reason as nat);
    let line7 = line6 + " backend_err="@ + decimal(c.backend_err as nat);
    let line = atn_full_line(c, label);
    lemma_begins_with_itself(line);
    lemma_says_at_the_end(line, line6, " backend_err="@, decimal(c.backend_err as nat));
    lemma_says_at_the_end(line, line5, " skip_by_reason="@, decimal(c.skip_by_reason as nat));
    lemma_says_at_the_end(line, line4, " opt_out="@, decimal(c.opt_out as nat));
    lemma_says_at_the_end(line, line3, " fallback="@, decimal(c.fallback as nat));
    lemma_says_at_the_end(line, line2, " full_layer_hit="@, decimal(c.full_layer_hit as nat));
    lemma_says_at_the_end(line, line1, " core_hit="@, decimal(c.core_hit as nat));
    lemma_says_at_the_end(
        line,
        line0,
        " expected_dense_atn_layers="@,
        decimal(c.expected_dense_atn_layers as nat),
    );
}

/// The line of the output-projection counters says each count behind its name.
pub proof fn law_o_tail_lines_say_each_count(c: AtnOTailCounters, label: Seq<char>)
    ensures
        says(
            atn_o_tail_line(c, label),
            " expected_dense_atn_layers="@,
            decimal(c.expected_dense_atn_layers as nat),
        ),
        says(atn_o_tail_line(c, label), " o_tail_hit="@, decimal(c.o_tail_hit as nat)),
        says(atn_o_tail_line(c, label), " fallback="@, decimal(c.fallback as nat)),
        says(atn_o_tail_line(c, label), " opt_out="@, decimal(c.opt_out as nat)),
        says(atn_o_tail_line(c, label), " skip_by_reason="@, decimal(c.skip_by_reason as nat)),
        says(atn_o_tail_line(c, label), " backend_err="@, decimal(c.backend_err as nat)),
{
    let line0 = "[prefill-atn-o-tail] "@ + label;
    let line1 = line0 + " expected_dense_atn_layers="@
        + decimal(c.expected_dense_atn_layers as nat);
    let line2 = line1 + " o_tail_hit="@ + decimal(c.o_tail_hit as nat);
    let line3 = line2 + " fallback="@ + decimal(c.fallback as nat);
    let line4 = line3 + " opt_out="@ + decimal(c.opt_out as nat);
    let line5 = line4 + " skip_by_reason="@ + decimal(c.skip_by_reason as nat);
    let line6 = line5 + " backend_err="@ + decimal(c.backend_err as nat);
    let line = atn_o_tail_line(c, label);
    lemma_begins_with_itself(line);
    lemma_says_at_the_end(line, line5, " backend_err="@, decimal(c.backend_err as nat));
    lemma_says_at_the_end(line, line4, " skip_by_reason="@, decimal(c.skip_by_reason as nat));
    lemma_says_at_the_end(line, line3, " opt_out="@, decimal(c.opt_out as nat));
    lemma_says_at_the_end(line, line2, " fallback="@, decimal(c.fallback as nat));
    lemma_says_at_the_end(line, line1, " o_tail_hit="@, decimal(c.o_tail_hit as nat));
    lemma_says_at_the_end(
        line,
        line0,
        " expected_dense_atn_layers="@,
        decimal(c.expected_dense_atn_layers as nat),
    );
}

/// The line of the decode-chain counters says each count, and the wait, behind its name.
pub proof fn law_parity_lines_say_each_count(
    c: MetalDecodeParityCounters,
    label: Seq<char>,
    wait_ms: Seq<char>,
)
    ensures
        says(
            parity_line(c, label, wait_ms),
            " expected_decode_tokens="@,
            decimal(c.expected_decode_tokens as nat),
        ),
        says(
            parity_line(c, label, wait_ms),
            " chain_hit_tokens="@,
            decimal(c.chain_hit_tokens as nat),
        ),
        says(
            parity_line(c, label, wait_ms),
            " fallback_tokens="@,
            decimal(c.fallback_tokens as nat),
        ),
        says(parity_line(c, label, wait_ms), " opt_out_tokens="@, decimal(c.opt_out_tokens as nat)),
        says(parity_line(c, label, wait_ms), " backend_err="@, decimal(c.backend_err as nat)),
        says(parity_line(c, label, wait_ms), " cmd_buffers="@, decimal(c.cmd_buffers as nat)),
        says(parity_line(c, label, wait_ms), " wait_us="@, decimal(c.wait_us as nat)),
        says(parity_line(c, label, wait_ms), " wait_ms="@, wait_ms),
        says(parity_line(c, label, wait_ms), " upload_bytes="@, decimal(c.upload_bytes as nat)),
        says(parity_line(c, label, wait_ms), " readback_bytes="@, decimal(c.readback_bytes as nat)),
        says(
            parity_line(c, label, wait_ms),
            " argmax_device_hits="@,
            decimal(c.argmax_device_hits as nat),
        ),
        says(parity_line(c, label, wait_ms), " state_syncs="@, decimal(c.state_syncs as nat)),
{
    let line0 = "[metal-decode-parity] "@ + label;
    let line1 = line0 + " expected_decode_tokens="@ + decimal(c.expected_decode_tokens as nat);
    let line2 = line1 + " chain_hit_tokens="@ + decimal(c.chain_hit_tokens as nat);
    let line3 = line2 + " fallback_tokens="@ + decimal(c.fallback_tokens as nat);
    let line4 = line3 + " opt_out_tokens="@ + decimal(c.opt_out_tokens as nat);
    let line5 = line4 + " backend_err="@ + decimal(c.backend_err as nat);
    let line6 = line5 + " cmd_buffers="@ + decimal(c.cmd_buffers as nat);
    let line7 = line6 + " wait_us="@ + decimal(c.wait_us as nat);
    let line8 = line7 + " wait_ms="@ + wait_ms;
    let line9 = line8 + " upload_bytes="@ + decimal(c.upload_bytes as nat);
    let line10 = line9 + " readback_bytes="@ + decimal(c.readback_bytes as nat);
    let line11 = line10 + " argmax_device_hits="@ + decimal(c.argmax_device_hits as nat);
    let line12 = line11 + " state_syncs="@ + decimal(c.state_syncs as nat);
    let line = parity_line(c, label, wait_ms);
    lemma_begins_with_itself(line);
    lemma_says_at_the_end(line, line11, " state_syncs="@, decimal(c.state_syncs as nat));
    lemma_says_at_the_end(
        line,
        line10,
        " argmax_device_hits="@,
        decimal(c.argmax_device_hits as nat),
    );
    lemma_says_at_the_end(line, line9, " readback_bytes="@, decimal(c.readback_bytes as nat));
    lemma_says_at_the_end(line, line8, " upload_bytes="@, decimal(c.upload_bytes as nat));
    lemma_says_at_the_end(line, line7, " wait_ms="@, wait_ms);
    lemma_says_at_the_end(line, line6, " wait_us="@, decimal(c.wait_us as nat));
    lemma_says_at_the_end(line, line5, " cmd_buffers="@, decimal(c.cmd_buffers as nat));
    lemma_says_at_the_end(line, line4, " backend_err="@, decimal(c.backend_err as nat));
    lemma_says_at_the_end(line, line3, " opt_out_tokens="@, decimal(c.opt_out_tokens as nat));
    lemma_says_at_the_end(line, line2, " fallback_tokens="@, decimal(c.fallback_tokens as nat));
    lemma_says_at_the_end(line, line1, " chain_hit_tokens="@, decimal(c.chain_hit_tokens as nat));
    lemma_says_at_the_end(
        line,
        line0,
        " expected_decode_tokens="@,
        decimal(c.expected_decode_tokens as nat),
    );
}

/// Counters that are set back count nothing.
pub proof fn law_counters_start_at_zero()
    ensures
        AtnFullCounters::spec_zero().expected_dense_atn_layers == 0,
        AtnFullCounters::spec_zero().core_hit == 0,
        AtnFullCounters::spec_zero().full_layer_hit == 0,
        AtnFullCounters::spec_zero().fallback == 0,
        AtnFullCounters::spec_zero().opt_out == 0,
        AtnFullCounters::spec_zero().skip_by_reason == 0,
        AtnFullCounters::spec_zero().backend_err == 0,
        AtnOTailCounters::spec_zero().expected_dense_atn_layers == 0,
        AtnOTailCounters::spec_zero().o_tail_hit == 0,
        AtnOTailCounters::spec_zero().fallback == 0,
        AtnOTailCounters::spec_zero().opt_out == 0,
        AtnOTailCounters::spec_zero().skip_by_reason == 0,
        AtnOTailCounters::spec_zero().backend_err == 0,
        MetalDecodeParityCounters::spec_zero().expected_decode_tokens == 0,
        MetalDecodeParityCounters::spec_zero().chain_hit_tokens == 0,
        MetalDecodeParityCounters::spec_zero().fallback_tokens == 0,
        MetalDecodeParityCounters::spec_zero().opt_out_tokens == 0,
        MetalDecodeParityCounters::spec_zero().backend_err == 0,
        MetalDecodeParityCounters::spec_zero().cmd_buffers == 0,
        MetalDecodeParityCounters::spec_zero().wait_us == 0,
        MetalDecodeParityCounters::spec_zero().upload_bytes == 0,
        MetalDecodeParityCounters::spec_zero().readback_bytes == 0,
        MetalDecodeParityCounters::spec_zero().argmax_device_hits == 0,
        MetalDecodeParityCounters::spec_zero().state_syncs == 0,
        !MetalOutputArgmaxReport::spec_none().attempted,
        !MetalOutputArgmaxReport::spec_none().did_run,
        MetalOutputArgmaxReport::spec_none().token_id is None,
        MetalOutputArgmaxReport::spec_none().fallback_reason is None,
        !MetalDecodeChainReport::spec_none().did_run,
        !MetalDecodeChainReport::spec_none().pm51_extension_hit,
        !MetalDecodeChainReport::spec_none().legacy_chain_hit,
        MetalDecodeChainReport::spec_none().fallback_reason is None,
{
}

} // verus!
