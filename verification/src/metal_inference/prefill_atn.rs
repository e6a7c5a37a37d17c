//! Attention layers of a prompt, in three sizes: the core, the core with its output
//! projection, and the whole layer with its dense feed-forward block. Floats are their
//! bits.

use crate::metal_inference::counters::{
    metal_prefill_atn_full_record_backend_err, metal_prefill_atn_full_record_core_hit,
    metal_prefill_atn_full_record_full_layer_hit, metal_prefill_atn_full_record_opt_out,
    metal_prefill_atn_full_record_skip, metal_prefill_atn_o_tail_record_backend_err,
    metal_prefill_atn_o_tail_record_hit, metal_prefill_atn_o_tail_record_opt_out,
    metal_prefill_atn_o_tail_record_skip, AtnFullCounters, AtnOTailCounters,
};
use crate::metal_inference::prefill_chain::PrefillAtnCoreWeightView;
use crate::metal_inference::switches::{
    metal_prefill_atn_full_layer_requested, metal_prefill_atn_o_tail_requested,
};
use crate::policy::{set_to, switched_off};
use crate::quant::{tensorops_quant, tensorops_quant_from_ggml, GGMLType};
use vstd::prelude::*;

verus! {

/// A weight as the device takes it, if there is a kernel for its format.
pub open spec fn weight_view<'a>(
    ggml_type: GGMLType,
    raw: &'a [u8],
    rows: usize,
    cols: usize,
) -> Option<PrefillAtnCoreWeightView<'a>> {
    match tensorops_quant(ggml_type) {
        Some(quant) => Some(PrefillAtnCoreWeightView { raw, quant, rows, cols }),
        None => None,
    }
}

fn view_weight<'a>(ggml_type: GGMLType, raw: &'a [u8], rows: usize, cols: usize) -> (view: Option<
    PrefillAtnCoreWeightView<'a>,
>)
    ensures
        view == weight_view(ggml_type, raw, rows, cols),
{
    let quant = tensorops_quant_from_ggml(ggml_type)?;
    Some(PrefillAtnCoreWeightView { raw, quant, rows, cols })
}

/// The core of an attention layer.
#[derive(Debug, Clone, Copy)]
pub struct MetalPrefillAtnCoreRequest<'a> {
    pub hidden: &'a [u32],
    pub attn_norm_w: &'a [u32],
    pub q_norm_w: &'a [u32],
    pub k_norm_w: &'a [u32],
    pub q_weight_ggml: GGMLType,
    pub q_weight_raw: &'a [u8],
    pub q_weight_rows: usize,
    pub q_weight_cols: usize,
    pub k_weight_ggml: GGMLType,
    pub k_weight_raw: &'a [u8],
    pub k_weight_rows: usize,
    pub k_weight_cols: usize,
    pub v_weight_ggml: GGMLType,
    pub v_weight_raw: &'a [u8],
    pub v_weight_rows: usize,
    pub v_weight_cols: usize,
    pub seq_len: usize,
    pub num_heads: usize,
    pub num_kv_heads: usize,
    pub head_dim: usize,
    pub hidden_dim: usize,
    pub q_dim: usize,
    pub kv_dim: usize,
    pub n_rot: usize,
    pub rope_theta: u32,
    pub scale: u32,
    pub norm_eps: u32,
    pub pos_start: usize,
}

/// What comes of an attention's core: its output, and the keys and values in half
/// precision.
#[derive(Debug, PartialEq, Eq)]
pub struct MetalPrefillAtnCoreOut {
    pub attn_out: Vec<u32>,
    pub k_bits: Vec<u16>,
    pub v_bits: Vec<u16>,
}

/// The core of an attention layer as the device takes it.
#[derive(Debug, Clone, Copy)]
pub struct PrefillAtnCoreBackendRequest<'a> {
    pub hidden: &'a [u32],
    pub attn_norm_w: &'a [u32],
    pub q_norm_w: &'a [u32],
    pub k_norm_w: &'a [u32],
    pub q_weight: PrefillAtnCoreWeightView<'a>,
    pub k_weight: PrefillAtnCoreWeightView<'a>,
    pub v_weight: PrefillAtnCoreWeightView<'a>,
    pub seq_len: usize,
    pub num_heads: usize,
    pub num_kv_heads: usize,
    pub head_dim: usize,
    pub hidden_dim: usize,
    pub q_dim: usize,
    pub kv_dim: usize,
    pub n_rot: usize,
    pub rope_theta: u32,
    pub scale: u32,
    pub norm_eps: u32,
    pub pos_start: usize,
}

impl<'a> MetalPrefillAtnCoreRequest<'a> {
    /// The core as the device takes it, if it can read all three projections.
    pub open spec fn as_backend(self) -> Option<PrefillAtnCoreBackendRequest<'a>> {
        let q = weight_view(
            self.q_weight_ggml,
            self.q_weight_raw,
            self.q_weight_rows,
            self.q_weight_cols,
        );
        let k = weight_view(
            self.k_weight_ggml,
            self.k_weight_raw,
            self.k_weight_rows,
            self.k_weight_cols,
        );
        let v = weight_view(
            self.v_weight_ggml,
            self.v_weight_raw,
            self.v_weight_rows,
            self.v_weight_cols,
        );
        if q is Some && k is Some && v is Some {
            Some(
                PrefillAtnCoreBackendRequest {
                    hidden: self.hidden,
                    attn_norm_w: self.attn_norm_w,
                    q_norm_w: self.q_norm_w,
                    k_norm_w: self.k_norm_w,
                    q_weight: q->0,
                    k_weight: k->0,
                    v_weight: v->0,
                    seq_len: self.seq_len,
                    num_heads: self.num_heads,
                    num_kv_heads: self.num_kv_heads,
                    head_dim: self.head_dim,
                    hidden_dim: self.hidden_dim,
                    q_dim: self.q_dim,
                    kv_dim: self.kv_dim,
                    n_rot: self.n_rot,
                    rope_theta: self.rope_theta,
                    scale: self.scale,
                    norm_eps: self.norm_eps,
                    pos_start: self.pos_start,
                },
            )
        } else {
            None
        }
    }

    fn find_backend(self) -> (asked: Option<PrefillAtnCoreBackendRequest<'a>>)
        ensures
            asked == self.as_backend(),
    {
        Some(
            PrefillAtnCoreBackendRequest {
                hidden: self.hidden,
                attn_norm_w: self.attn_norm_w,
                q_norm_w: self.q_norm_w,
                k_norm_w: self.k_norm_w,
                q_weight: view_weight(
                    self.q_weight_ggml,
                    self.q_weight_raw,
                    self.q_weight_rows,
                    self.q_weight_cols,
                )?,
                k_weight: view_weight(
                    self.k_weight_ggml,
                    self.k_weight_raw,
                    self.k_weight_rows,
                    self.k_weight_cols,
                )?,
                v_weight: view_weight(
                    self.v_weight_ggml,
                    self.v_weight_raw,
                    self.v_weight_rows,
                    self.v_weight_cols,
                )?,
                seq_len: self.seq_len,
                num_heads: self.num_heads,
                num_kv_heads: self.num_kv_heads,
                head_dim: self.head_dim,
                hidden_dim: self.hidden_dim,
                q_dim: self.q_dim,
                kv_dim: self.kv_dim,
                n_rot: self.n_rot,
                rope_theta: self.rope_theta,
                scale: self.scale,
                norm_eps: self.norm_eps,
                pos_start: self.pos_start,
            },
        )
    }
}

/// What the device gives of a layer: its values, and the keys and values in half
/// precision.
pub type AtnReply = (Vec<u32>, Vec<u16>, Vec<u16>);

impl AtnFullCounters {
    pub open spec fn after_opt_out(self) -> Self {
        AtnFullCounters { opt_out: (self.opt_out + 1) as usize, ..self }
    }

    pub open spec fn after_skip(self) -> Self {
        AtnFullCounters {
            fallback: (self.fallback + 1) as usize,
            skip_by_reason: (self.skip_by_reason + 1) as usize,
            ..self
        }
    }

    pub open spec fn after_backend_err(self) -> Self {
        AtnFullCounters {
            fallback: (self.fallback + 1) as usize,
            backend_err: (self.backend_err + 1) as usize,
            ..self
        }
    }

    /// No counter is at its end.
    pub open spec fn has_room(self) -> bool {
        &&& self.core_hit < usize::MAX
        &&& self.full_layer_hit < usize::MAX
        &&& self.fallback < usize::MAX
        &&& self.opt_out < usize::MAX
        &&& self.skip_by_reason < usize::MAX
        &&& self.backend_err < usize::MAX
    }
}

impl AtnOTailCounters {
    pub open spec fn after_opt_out(self) -> Self {
        AtnOTailCounters { opt_out: (self.opt_out + 1) as usize, ..self }
    }

    pub open spec fn after_skip(self) -> Self {
        AtnOTailCounters {
            fallback: (self.fallback + 1) as usize,
            skip_by_reason: (self.skip_by_reason + 1) as usize,
            ..self
        }
    }

    pub open spec fn after_backend_err(self) -> Self {
        AtnOTailCounters {
            fallback: (self.fallback + 1) as usize,
            backend_err: (self.backend_err + 1) as usize,
            ..self
        }
    }

    /// No counter is at its end.
    pub open spec fn has_room(self) -> bool {
        &&& self.o_tail_hit < usize::MAX
        &&& self.fallback < usize::MAX
        &&& self.opt_out < usize::MAX
        &&& self.skip_by_reason < usize::MAX
        &&& self.backend_err < usize::MAX
    }
}

/// Whether an attention's core that is offered to the device comes to `output` and
/// leaves `after` in the counters: what is not wanted, what the device cannot read and
/// what it does not take are counted apart from its failures.
pub open spec fn core_answers<
    'a,
    D: FnOnce(PrefillAtnCoreBackendRequest<'a>) -> Result<Option<AtnReply>, String>,
>(
    wanted: bool,
    request: MetalPrefillAtnCoreRequest<'a>,
    device: D,
    before: AtnFullCounters,
    after: AtnFullCounters,
    output: Result<Option<MetalPrefillAtnCoreOut>, String>,
) -> bool {
    if !wanted {
        output matches Ok(None) && after == before.after_opt_out()
    } else {
        match request.as_backend() {
            None => output matches Ok(None) && after == before.after_skip(),
            Some(asked) => exists|reply: Result<Option<AtnReply>, String>| #[trigger]
                call_ensures(device, (asked,), reply) && match reply {
                    Ok(Some((attn_out, k_bits, v_bits))) => {
                        &&& output == Ok::<Option<MetalPrefillAtnCoreOut>, String>(
                            Some(MetalPrefillAtnCoreOut { attn_out, k_bits, v_bits }),
                        )
                        &&& after == (AtnFullCounters {
                            core_hit: (before.core_hit + 1) as usize,
                            ..before
                        })
                    },
                    Ok(None) => output matches Ok(None) && after == before.after_skip(),
                    Err(cause) => {
                        &&& output == Err::<Option<MetalPrefillAtnCoreOut>, String>(cause)
                        &&& after == before.after_backend_err()
                    },
                },
        }
    }
}

/// Runs an attention's core on the device: unless `RNB_METAL_PREFILL_ATN_FULL_LAYER` is
/// falsey, and if it can read the projections.
pub fn metal_prefill_atn_core_if_supported<
    'a,
    D: FnOnce(PrefillAtnCoreBackendRequest<'a>) -> Result<Option<AtnReply>, String>,
>(
    counters: &mut AtnFullCounters,
    full_layer: Option<&str>,
    request: MetalPrefillAtnCoreRequest<'a>,
    device: D,
) -> (output: Result<Option<MetalPrefillAtnCoreOut>, String>)
    requires
        old(counters).has_room(),
        forall|asked: PrefillAtnCoreBackendRequest<'a>| call_requires(device, (asked,)),
    ensures
        core_answers(
            !switched_off(full_layer),
            request,
            device,
            *old(counters),
            *final(counters),
            output,
        ),
{
    if !metal_prefill_atn_full_layer_requested(full_layer) {
        metal_prefill_atn_full_record_opt_out(counters);
        return Ok(None);
    }
    let asked = match request.find_backend() {
        Some(asked) => asked,
        None => {
            metal_prefill_atn_full_record_skip(counters);
            return Ok(None);
        },
    };
    let reply = device(asked);
    match reply {
        Ok(Some((attn_out, k_bits, v_bits))) => {
            metal_prefill_atn_full_record_core_hit(counters);
            Ok(Some(MetalPrefillAtnCoreOut { attn_out, k_bits, v_bits }))
        },
        Ok(None) => {
            metal_prefill_atn_full_record_skip(counters);
            Ok(None)
        },
        Err(cause) => {
            metal_prefill_atn_full_record_backend_err(counters);
            Err(cause)
        },
    }
}

/// An attention layer up to its output projection.
#[derive(Debug, Clone, Copy)]
pub struct MetalPrefillAtnOTailRequest<'a> {
    pub core: MetalPrefillAtnCoreRequest<'a>,
    pub o_weight_ggml: GGMLType,
    pub o_weight_raw: &'a [u8],
    pub o_weight_rows: usize,
    pub o_weight_cols: usize,
}

/// What comes of an attention layer up to its output projection.
#[derive(Debug, PartialEq, Eq)]
pub struct MetalPrefillAtnOTailOut {
    pub hidden: Vec<u32>,
    pub k_bits: Vec<u16>,
    pub v_bits: Vec<u16>,
}

/// An attention layer up to its output projection as the device takes it.
#[derive(Debug, Clone, Copy)]
pub struct PrefillAtnOTailBackendRequest<'a> {
    pub core: PrefillAtnCoreBackendRequest<'a>,
    pub o_weight: PrefillAtnCoreWeightView<'a>,
}

impl<'a> MetalPrefillAtnOTailRequest<'a> {
    /// The layer as the device takes it, if it can read all four projections.
    pub open spec fn as_backend(self) -> Option<PrefillAtnOTailBackendRequest<'a>> {
        let o = weight_view(
            self.o_weight_ggml,
            self.o_weight_raw,
            self.o_weight_rows,
            self.o_weight_cols,
        );
        if self.core.as_backend() is Some && o is Some {
            Some(PrefillAtnOTailBackendRequest { core: self.core.as_backend()->0, o_weight: o->0 })
        } else {
            None
        }
    }

    fn find_backend(self) -> (asked: Option<PrefillAtnOTailBackendRequest<'a>>)
        ensures
            asked == self.as_backend(),
    {
        Some(
            PrefillAtnOTailBackendRequest {
                core: self.core.find_backend()?,
                o_weight: view_weight(
                    self.o_weight_ggml,
                    self.o_weight_raw,
                    self.o_weight_rows,
                    self.o_weight_cols,
                )?,
            },
        )
    }
}

/// Whether an attention up to its output projection that is offered to the device comes
/// to `output` and leaves `after` in the counters.
pub open spec fn o_tail_answers<
    'a,
    D: FnOnce(PrefillAtnOTailBackendRequest<'a>) -> Result<Option<AtnReply>, String>,
>(
    wanted: bool,
    request: MetalPrefillAtnOTailRequest<'a>,
    device: D,
    before: AtnOTailCounters,
    after: AtnOTailCounters,
    output: Result<Option<MetalPrefillAtnOTailOut>, String>,
) -> bool {
    if !wanted {
        output matches Ok(None) && after == before.after_opt_out()
    } else {
        match request.as_backend() {
            None => output matches Ok(None) && after == before.after_skip(),
            Some(asked) => exists|reply: Result<Option<AtnReply>, String>| #[trigger]
                call_ensures(device, (asked,), reply) && match reply {
                    Ok(Some((hidden, k_bits, v_bits))) => {
                        &&& output == Ok::<Option<MetalPrefillAtnOTailOut>, String>(
                            Some(MetalPrefillAtnOTailOut { hidden, k_bits, v_bits }),
                        )
                        &&& after == (AtnOTailCounters {
                            o_tail_hit: (before.o_tail_hit + 1) as usize,
                            ..before
                        })
                    },
                    Ok(None) => output matches Ok(None) && after == before.after_skip(),
                    Err(cause) => {
                        &&& output == Err::<Option<MetalPrefillAtnOTailOut>, String>(cause)
                        &&& after == before.after_backend_err()
                    },
                },
        }
    }
}

/// Runs an attention up to its output projection on the device: with
/// `RNB_METAL_PREFILL_ATN_O_TAIL=1`, and if it can read the projections.
pub fn metal_prefill_atn_o_tail_if_supported<
    'a,
    D: FnOnce(PrefillAtnOTailBackendRequest<'a>) -> Result<Option<AtnReply>, String>,
>(
    counters: &mut AtnOTailCounters,
    o_tail: Option<&str>,
    request: MetalPrefillAtnOTailRequest<'a>,
    device: D,
) -> (output: Result<Option<MetalPrefillAtnOTailOut>, String>)
    requires
        old(counters).has_room(),
        forall|asked: PrefillAtnOTailBackendRequest<'a>| call_requires(device, (asked,)),
    ensures
        o_tail_answers(
            set_to(o_tail, "1"@),
            request,
            device,
            *old(counters),
            *final(counters),
            output,
        ),
{
    if !metal_prefill_atn_o_tail_requested(o_tail) {
        metal_prefill_atn_o_tail_record_opt_out(counters);
        return Ok(None);
    }
    let asked = match request.find_backend() {
        Some(asked) => asked,
        None => {
            metal_prefill_atn_o_tail_record_skip(counters);
            return Ok(None);
        },
    };
    let reply = device(asked);
    match reply {
        Ok(Some((hidden, k_bits, v_bits))) => {
            metal_prefill_atn_o_tail_record_hit(counters);
            Ok(Some(MetalPrefillAtnOTailOut { hidden, k_bits, v_bits }))
        },
        Ok(None) => {
            metal_prefill_atn_o_tail_record_skip(counters);
            Ok(None)
        },
        Err(cause) => {
            metal_prefill_atn_o_tail_record_backend_err(counters);
            Err(cause)
        },
    }
}

/// A whole attention layer with a dense feed-forward block.
#[derive(Debug, Clone, Copy)]
pub struct MetalPrefillAtnFullLayerRequest<'a> {
    pub core: MetalPrefillAtnCoreRequest<'a>,
    pub o_weight_ggml: GGMLType,
    pub o_weight_raw: &'a [u8],
    pub o_weight_rows: usize,
    pub o_weight_cols: usize,
    pub ffn_norm_w: &'a [u32],
    pub ffn_gate_weight_ggml: GGMLType,
    pub ffn_gate_weight_raw: &'a [u8],
    pub ffn_gate_weight_rows: usize,
    pub ffn_gate_weight_cols: usize,
    pub ffn_up_weight_ggml: GGMLType,
    pub ffn_up_weight_raw: &'a [u8],
    pub ffn_up_weight_rows: usize,
    pub ffn_up_weight_cols: usize,
    pub ffn_down_weight_ggml: GGMLType,
    pub ffn_down_weight_raw: &'a [u8],
    pub ffn_down_weight_rows: usize,
    pub ffn_down_weight_cols: usize,
    pub ffn_dim: usize,
}

/// What comes of a whole attention layer.
#[derive(Debug, PartialEq, Eq)]
pub struct MetalPrefillAtnFullLayerOut {
    pub hidden: Vec<u32>,
    pub k_bits: Vec<u16>,
    pub v_bits: Vec<u16>,
}

/// A whole attention layer as the device takes it.
#[derive(Debug, Clone, Copy)]
pub struct PrefillAtnFullLayerBackendRequest<'a> {
    pub core: PrefillAtnCoreBackendRequest<'a>,
    pub o_weight: PrefillAtnCoreWeightView<'a>,
    pub ffn_norm_w: &'a [u32],
    pub ffn_gate_weight: PrefillAtnCoreWeightView<'a>,
    pub ffn_up_weight: PrefillAtnCoreWeightView<'a>,
    pub ffn_down_weight: PrefillAtnCoreWeightView<'a>,
    pub ffn_dim: usize,
}

impl<'a> MetalPrefillAtnFullLayerRequest<'a> {
    /// The layer as the device takes it, if it can read every weight.
    pub open spec fn as_backend(self) -> Option<PrefillAtnFullLayerBackendRequest<'a>> {
        let o = weight_view(
            self.o_weight_ggml,
            self.o_weight_raw,
            self.o_weight_rows,
            self.o_weight_cols,
        );
        let gate = weight_view(
            self.ffn_gate_weight_ggml,
            self.ffn_gate_weight_raw,
            self.ffn_gate_weight_rows,
            self.ffn_gate_weight_cols,
        );
        let up = weight_view(
            self.ffn_up_weight_ggml,
            self.ffn_up_weight_raw,
            self.ffn_up_weight_rows,
            self.ffn_up_weight_cols,
        );
        let down = weight_view(
            self.ffn_down_weight_ggml,
            self.ffn_down_weight_raw,
            self.ffn_down_weight_rows,
            self.ffn_down_weight_cols,
        );
        if self.core.as_backend() is Some && o is Some && gate is Some && up is Some
            && down is Some {
            Some(
                PrefillAtnFullLayerBackendRequest {
                    core: self.core.as_backend()->0,
                    o_weight: o->0,
                    ffn_norm_w: self.ffn_norm_w,
                    ffn_gate_weight: gate->0,
                    ffn_up_weight: up->0,
                    ffn_down_weight: down->0,
                    ffn_dim: self.ffn_dim,
                },
            )
        } else {
            None
        }
    }

    fn find_backend(self) -> (asked: Option<PrefillAtnFullLayerBackendRequest<'a>>)
        ensures
            asked == self.as_backend(),
    {
        Some(
            PrefillAtnFullLayerBackendRequest {
                core: self.core.find_backend()?,
                o_weight: view_weight(
                    self.o_weight_ggml,
                    self.o_weight_raw,
                    self.o_weight_rows,
                    self.o_weight_cols,
                )?,
                ffn_norm_w: self.ffn_norm_w,
                ffn_gate_weight: view_weight(
                    self.ffn_gate_weight_ggml,
                    self.ffn_gate_weight_raw,
                    self.ffn_gate_weight_rows,
                    self.ffn_gate_weight_cols,
                )?,
                ffn_up_weight: view_weight(
                    self.ffn_up_weight_ggml,
                    self.ffn_up_weight_raw,
                    self.ffn_up_weight_rows,
                    self.ffn_up_weight_cols,
                )?,
                ffn_down_weight: view_weight(
                    self.ffn_down_weight_ggml,
                    self.ffn_down_weight_raw,
                    self.ffn_down_weight_rows,
                    self.ffn_down_weight_cols,
                )?,
                ffn_dim: self.ffn_dim,
            },
        )
    }
}

/// Whether a whole attention layer that is offered to the device comes to `output` and
/// leaves `after` in the counters.
pub open spec fn full_layer_answers<
    'a,
    D: FnOnce(PrefillAtnFullLayerBackendRequest<'a>) -> Result<Option<AtnReply>, String>,
>(
    wanted: bool,
    request: MetalPrefillAtnFullLayerRequest<'a>,
    device: D,
    before: AtnFullCounters,
    after: AtnFullCounters,
    output: Result<Option<MetalPrefillAtnFullLayerOut>, String>,
) -> bool {
    if !wanted {
        output matches Ok(None) && after == before.after_opt_out()
    } else {
        match request.as_backend() {
            None => output matches Ok(None) && after == before.after_skip(),
            Some(asked) => exists|reply: Result<Option<AtnReply>, String>| #[trigger]
                call_ensures(device, (asked,), reply) && match reply {
                    Ok(Some((hidden, k_bits, v_bits))) => {
                        &&& output == Ok::<Option<MetalPrefillAtnFullLayerOut>, String>(
                            Some(MetalPrefillAtnFullLayerOut { hidden, k_bits, v_bits }),
                        )
                        &&& after == (AtnFullCounters {
                            full_layer_hit: (before.full_layer_hit + 1) as usize,
                            ..before
                        })
                    },
                    Ok(None) => output matches Ok(None) && after == before.after_skip(),
                    Err(cause) => {
                        &&& output == Err::<Option<MetalPrefillAtnFullLayerOut>, String>(cause)
                        &&& after == before.after_backend_err()
                    },
                },
        }
    }
}

/// Runs a whole attention layer on the device: unless
/// `RNB_METAL_PREFILL_ATN_FULL_LAYER` is falsey, and if it can read every weight.
pub fn metal_prefill_atn_full_layer_if_supported<
    'a,
    D: FnOnce(PrefillAtnFullLayerBackendRequest<'a>) -> Result<Option<AtnReply>, String>,
>(
    counters: &mut AtnFullCounters,
    full_layer: Option<&str>,
    request: MetalPrefillAtnFullLayerRequest<'a>,
    device: D,
) -> (output: Result<Option<MetalPrefillAtnFullLayerOut>, String>)
    requires
        old(counters).has_room(),
        forall|asked: PrefillAtnFullLayerBackendRequest<'a>| call_requires(device, (asked,)),
    ensures
        full_layer_answers(
            !switched_off(full_layer),
            request,
            device,
            *old(counters),
            *final(counters),
            output,
        ),
{
    if !metal_prefill_atn_full_layer_requested(full_layer) {
        metal_prefill_atn_full_record_opt_out(counters);
        return Ok(None);
    }
    let asked = match request.find_backend() {
        Some(asked) => asked,
        None => {
            metal_prefill_atn_full_record_skip(counters);
            return Ok(None);
        },
    };
    let reply = device(asked);
    match reply {
        Ok(Some((hidden, k_bits, v_bits))) => {
            metal_prefill_atn_full_record_full_layer_hit(counters);
            Ok(Some(MetalPrefillAtnFullLayerOut { hidden, k_bits, v_bits }))
        },
        Ok(None) => {
            metal_prefill_atn_full_record_skip(counters);
            Ok(None)
        },
        Err(cause) => {
            metal_prefill_atn_full_record_backend_err(counters);
            Err(cause)
        },
    }
}

impl AtnFullCounters {
    /// How many layers were decided: run, fallen back, or not offered.
    pub open spec fn decided(self) -> int {
        self.core_hit + self.full_layer_hit + self.fallback + self.opt_out
    }
}

impl AtnOTailCounters {
    /// How many layers were decided: run, fallen back, or not offered.
    pub open spec fn decided(self) -> int {
        self.o_tail_hit + self.fallback + self.opt_out
    }
}

/// Each core is counted once, whatever becomes of it, and as a hit exactly if there is an
/// output.
pub proof fn law_each_core_is_counted_once<
    'a,
    D: FnOnce(PrefillAtnCoreBackendRequest<'a>) -> Result<Option<AtnReply>, String>,
>(
    wanted: bool,
    request: MetalPrefillAtnCoreRequest<'a>,
    device: D,
    before: AtnFullCounters,
    after: AtnFullCounters,
    output: Result<Option<MetalPrefillAtnCoreOut>, String>,
)
    requires
        before.has_room(),
        core_answers(wanted, request, device, before, after, output),
    ensures
        after.decided() == before.decided() + 1,
        (after.core_hit != before.core_hit) == (output matches Ok(Some(_))),
        (after.opt_out != before.opt_out) == !wanted,
        (after.backend_err != before.backend_err) == (output is Err),
{
}

/// Each layer up to its output projection is counted once, whatever becomes of it, and as
/// a hit exactly if there is an output.
pub proof fn law_each_o_tail_is_counted_once<
    'a,
    D: FnOnce(PrefillAtnOTailBackendRequest<'a>) -> Result<Option<AtnReply>, String>,
>(
    wanted: bool,
    request: MetalPrefillAtnOTailRequest<'a>,
    device: D,
    before: AtnOTailCounters,
    after: AtnOTailCounters,
    output: Result<Option<MetalPrefillAtnOTailOut>, String>,
)
    requires
        before.has_room(),
        o_tail_answers(wanted, request, device, before, after, output),
    ensures
        after.decided() == before.decided() + 1,
        (after.o_tail_hit != before.o_tail_hit) == (output matches Ok(Some(_))),
        (after.opt_out != before.opt_out) == !wanted,
        (after.backend_err != before.backend_err) == (output is Err),
{
}

/// Each whole layer is counted once, whatever becomes of it, and as a hit exactly if there
/// is an output.
pub proof fn law_each_full_layer_is_counted_once<
    'a,
    D: FnOnce(PrefillAtnFullLayerBackendRequest<'a>) -> Result<Option<AtnReply>, String>,
>(
    wanted: bool,
    request: MetalPrefillAtnFullLayerRequest<'a>,
    device: D,
    before: AtnFullCounters,
    after: AtnFullCounters,
    output: Result<Option<MetalPrefillAtnFullLayerOut>, String>,
)
    requires
        before.has_room(),
        full_layer_answers(wanted, request, device, before, after, output),
    ensures
        after.decided() == before.decided() + 1,
        (after.full_layer_hit != before.full_layer_hit) == (output matches Ok(Some(_))),
        (after.opt_out != before.opt_out) == !wanted,
        (after.backend_err != before.backend_err) == (output is Err),
{
}

/// Whether `view` is the weight of `raw` itself: its bytes and its shape, read in its own
/// format.
pub open spec fn is_weight(
    view: PrefillAtnCoreWeightView<'_>,
    ggml_type: GGMLType,
    raw: &[u8],
    rows: usize,
    cols: usize,
) -> bool {
    &&& view.raw@ == raw@
    &&& view.rows == rows
    &&& view.cols == cols
    &&& view.quant is Q4K <==> ggml_type is Q4_K
    &&& view.quant is Q5K <==> ggml_type is Q5_K
    &&& view.quant is Q6K <==> ggml_type is Q6_K
}

/// Whether the device has a kernel for a format.
pub open spec fn is_read(ggml_type: GGMLType) -> bool {
    ggml_type is Q4_K || ggml_type is Q5_K || ggml_type is Q6_K
}

/// Whether `asked` is the core of `request` itself: every norm, weight, size and float in
/// the place that it was given in.
pub open spec fn is_core_of(
    asked: PrefillAtnCoreBackendRequest<'_>,
    request: MetalPrefillAtnCoreRequest<'_>,
) -> bool {
    &&& asked.hidden@ == request.hidden@
    &&& asked.attn_norm_w@ == request.attn_norm_w@
    &&& asked.q_norm_w@ == request.q_norm_w@
    &&& asked.k_norm_w@ == request.k_norm_w@
    &&& is_weight(
        asked.q_weight,
        request.q_weight_ggml,
        request.q_weight_raw,
        request.q_weight_rows,
        request.q_weight_cols,
    )
    &&& is_weight(
        asked.k_weight,
        request.k_weight_ggml,
        request.k_weight_raw,
        request.k_weight_rows,
        request.k_weight_cols,
    )
    &&& is_weight(
        asked.v_weight,
        request.v_weight_ggml,
        request.v_weight_raw,
        request.v_weight_rows,
        request.v_weight_cols,
    )
    &&& asked.seq_len == request.seq_len
    &&& asked.num_heads == request.num_heads
    &&& asked.num_kv_heads == request.num_kv_heads
    &&& asked.head_dim == request.head_dim
    &&& asked.hidden_dim == request.hidden_dim
    &&& asked.q_dim == request.q_dim
    &&& asked.kv_dim == request.kv_dim
    &&& asked.n_rot == request.n_rot
    &&& asked.rope_theta == request.rope_theta
    &&& asked.scale == request.scale
    &&& asked.norm_eps == request.norm_eps
    &&& asked.pos_start == request.pos_start
}

/// The device is asked for the core of a layer as it was given, exactly if it has a kernel
/// for the format of each of the three projections.
pub proof fn law_cores_are_handed_over_by_role(request: MetalPrefillAtnCoreRequest<'_>)
    ensures
        request.as_backend() is Some <==> is_read(request.q_weight_ggml) && is_read(
            request.k_weight_ggml,
        ) && is_read(request.v_weight_ggml),
        request.as_backend() matches Some(asked) ==> is_core_of(asked, request),
{
}

/// The device is asked for a layer up to its output projection as it was given, exactly if
/// it has a kernel for the format of each of the four projections.
pub proof fn law_o_tails_are_handed_over_by_role(request: MetalPrefillAtnOTailRequest<'_>)
    ensures
        request.as_backend() is Some <==> is_read(request.core.q_weight_ggml) && is_read(
            request.core.k_weight_ggml,
        ) && is_read(request.core.v_weight_ggml) && is_read(request.o_weight_ggml),
        request.as_backend() matches Some(asked) ==> {
            &&& is_core_of(asked.core, request.core)
            &&& is_weight(
                asked.o_weight,
                request.o_weight_ggml,
                request.o_weight_raw,
                request.o_weight_rows,
                request.o_weight_cols,
            )
        },
{
}

/// The device is asked for a whole layer as it was given, exactly if it has a kernel for the
/// format of each of its weights.
pub proof fn law_full_layers_are_handed_over_by_role(request: MetalPrefillAtnFullLayerRequest<'_>)
    ensures
        request.as_backend() is Some <==> is_read(request.core.q_weight_ggml) && is_read(
            request.core.k_weight_ggml,
        ) && is_read(request.core.v_weight_ggml) && is_read(request.o_weight_ggml) && is_read(
            request.ffn_gate_weight_ggml,
        ) && is_read(request.ffn_up_weight_ggml) && is_read(request.ffn_down_weight_ggml),
        request.as_backend() matches Some(asked) ==> {
            &&& is_core_of(asked.core, request.core)
            &&& is_weight(
                asked.o_weight,
                request.o_weight_ggml,
                request.o_weight_raw,
                request.o_weight_rows,
                request.o_weight_cols,
            )
            &&& asked.ffn_norm_w@ == request.ffn_norm_w@
            &&& asked.ffn_dim == request.ffn_dim
            &&& is_weight(
                asked.ffn_gate_weight,
                request.ffn_gate_weight_ggml,
                request.ffn_gate_weight_raw,
                request.ffn_gate_weight_rows,
                request.ffn_gate_weight_cols,
            )
            &&& is_weight(
                asked.ffn_up_weight,
                request.ffn_up_weight_ggml,
                request.ffn_up_weight_raw,
                request.ffn_up_weight_rows,
                request.ffn_up_weight_cols,
            )
            &&& is_weight(
                asked.ffn_down_weight,
                request.ffn_down_weight_ggml,
                request.ffn_down_weight_raw,
                request.ffn_down_weight_rows,
                request.ffn_down_weight_cols,
            )
        },
{
}

/// The core of a layer that is not wanted is only counted as left out; one that is wanted and read
/// gives what the device gives, part for part, and is counted as a hit, as skipped or as
/// failed by the device's reply.
pub proof fn law_core_answers_are_the_devices<
    'a,
    D: FnOnce(PrefillAtnCoreBackendRequest<'a>) -> Result<Option<AtnReply>, String>,
>(
    wanted: bool,
    request: MetalPrefillAtnCoreRequest<'a>,
    device: D,
    before: AtnFullCounters,
    after: AtnFullCounters,
    output: Result<Option<MetalPrefillAtnCoreOut>, String>,
)
    requires
        before.core_hit < usize::MAX && before.fallback < usize::MAX && before.opt_out < usize::MAX,
        before.skip_by_reason < usize::MAX && before.backend_err < usize::MAX,
        core_answers(wanted, request, device, before, after, output),
    ensures
        !wanted ==> output == Ok::<Option<MetalPrefillAtnCoreOut>, String>(None) && {
            &&& after.expected_dense_atn_layers == before.expected_dense_atn_layers
            &&& after.full_layer_hit == before.full_layer_hit
            &&& after.core_hit == before.core_hit
            &&& after.fallback == before.fallback
            &&& after.opt_out == before.opt_out + 1
            &&& after.skip_by_reason == before.skip_by_reason
            &&& after.backend_err == before.backend_err
        },
        wanted && request.as_backend() is None ==> output == Ok::<
            Option<MetalPrefillAtnCoreOut>,
            String,
        >(None) && {
            &&& after.expected_dense_atn_layers == before.expected_dense_atn_layers
            &&& after.full_layer_hit == before.full_layer_hit
            &&& after.core_hit == before.core_hit
            &&& after.fallback == before.fallback + 1
            &&& after.opt_out == before.opt_out
            &&& after.skip_by_reason == before.skip_by_reason + 1
            &&& after.backend_err == before.backend_err
        },
        wanted && request.as_backend() is Some ==> exists|reply: Result<Option<AtnReply>, String>|
            #[trigger] call_ensures(device, (request.as_backend()->0,), reply) && match reply {
                Ok(Some(parts)) => output matches Ok(Some(out)) && out.attn_out == parts.0
                    && out.k_bits == parts.1 && out.v_bits == parts.2,
                Ok(None) => output matches Ok(None),
                Err(cause) => output matches Err(told) && told == cause,
            },
        output matches Ok(Some(_)) ==> {
            &&& after.expected_dense_atn_layers == before.expected_dense_atn_layers
            &&& after.full_layer_hit == before.full_layer_hit
            &&& after.core_hit == before.core_hit + 1
            &&& after.fallback == before.fallback
            &&& after.opt_out == before.opt_out
            &&& after.skip_by_reason == before.skip_by_reason
            &&& after.backend_err == before.backend_err
        },
        wanted && (output matches Ok(None)) ==> {
            &&& after.expected_dense_atn_layers == before.expected_dense_atn_layers
            &&& after.full_layer_hit == before.full_layer_hit
            &&& after.core_hit == before.core_hit
            &&& after.fallback == before.fallback + 1
            &&& after.opt_out == before.opt_out
            &&& after.skip_by_reason == before.skip_by_reason + 1
            &&& after.backend_err == before.backend_err
        },
        output is Err ==> {
            &&& after.expected_dense_atn_layers == before.expected_dense_atn_layers
            &&& after.full_layer_hit == before.full_layer_hit
            &&& after.core_hit == before.core_hit
            &&& after.fallback == before.fallback + 1
            &&& after.opt_out == before.opt_out
            &&& after.skip_by_reason == before.skip_by_reason
            &&& after.backend_err == before.backend_err + 1
        },
{
}

/// A layer up to its output projection that is not wanted is only counted as left out; one that is wanted and read
/// gives what the device gives, part for part, and is counted as a hit, as skipped or as
/// failed by the device's reply.
pub proof fn law_o_tail_answers_are_the_devices<
    'a,
    D: FnOnce(PrefillAtnOTailBackendRequest<'a>) -> Result<Option<AtnReply>, String>,
>(
    wanted: bool,
    request: MetalPrefillAtnOTailRequest<'a>,
    device: D,
    before: AtnOTailCounters,
    after: AtnOTailCounters,
    output: Result<Option<MetalPrefillAtnOTailOut>, String>,
)
    requires
        before.o_tail_hit < usize::MAX && before.fallback < usize::MAX && before.opt_out < usize::MAX,
        before.skip_by_reason < usize::MAX && before.backend_err < usize::MAX,
        o_tail_answers(wanted, request, device, before, after, output),
    ensures
        !wanted ==> output == Ok::<Option<MetalPrefillAtnOTailOut>, String>(None) && {
            &&& after.expected_dense_atn_layers == before.expected_dense_atn_layers
            &&& after.o_tail_hit == before.o_tail_hit
            &&& after.fallback == before.fallback
            &&& after.opt_out == before.opt_out + 1
            &&& after.skip_by_reason == before.skip_by_reason
            &&& after.backend_err == before.backend_err
        },
        wanted && request.as_backend() is None ==> output == Ok::<
            Option<MetalPrefillAtnOTailOut>,
            String,
        >(None) && {
            &&& after.expected_dense_atn_layers == before.expected_dense_atn_layers
            &&& after.o_tail_hit == before.o_tail_hit
            &&& after.fallback == before.fallback + 1
            &&& after.opt_out == before.opt_out
            &&& after.skip_by_reason == before.skip_by_reason + 1
            &&& after.backend_err == before.backend_err
        },
        wanted && request.as_backend() is Some ==> exists|reply: Result<Option<AtnReply>, String>|
            #[trigger] call_ensures(device, (request.as_backend()->0,), reply) && match reply {
                Ok(Some(parts)) => output matches Ok(Some(out)) && out.hidden == parts.0
                    && out.k_bits == parts.1 && out.v_bits == parts.2,
                Ok(None) => output matches Ok(None),
                Err(cause) => output matches Err(told) && told == cause,
            },
        output matches Ok(Some(_)) ==> {
            &&& after.expected_dense_atn_layers == before.expected_dense_atn_layers
            &&& after.o_tail_hit == before.o_tail_hit + 1
            &&& after.fallback == before.fallback
            &&& after.opt_out == before.opt_out
            &&& after.skip_by_reason == before.skip_by_reason
            &&& after.backend_err == before.backend_err
        },
        wanted && (output matches Ok(None)) ==> {
            &&& after.expected_dense_atn_layers == before.expected_dense_atn_layers
            &&& after.o_tail_hit == before.o_tail_hit
            &&& after.fallback == before.fallback + 1
            &&& after.opt_out == before.opt_out
            &&& after.skip_by_reason == before.skip_by_reason + 1
            &&& after.backend_err == before.backend_err
        },
        output is Err ==> {
            &&& after.expected_dense_atn_layers == before.expected_dense_atn_layers
            &&& after.o_tail_hit == before.o_tail_hit
            &&& after.fallback == before.fallback + 1
            &&& after.opt_out == before.opt_out
            &&& after.skip_by_reason == before.skip_by_reason
            &&& after.backend_err == before.backend_err + 1
        },
{
}

/// A whole layer that is not wanted is only counted as left out; one that is wanted and read
/// gives what the device gives, part for part, and is counted as a hit, as skipped or as
/// failed by the device's reply.
pub proof fn law_full_layer_answers_are_the_devices<
    'a,
    D: FnOnce(PrefillAtnFullLayerBackendRequest<'a>) -> Result<Option<AtnReply>, String>,
>(
    wanted: bool,
    request: MetalPrefillAtnFullLayerRequest<'a>,
    device: D,
    before: AtnFullCounters,
    after: AtnFullCounters,
    output: Result<Option<MetalPrefillAtnFullLayerOut>, String>,
)
    requires
        before.full_layer_hit < usize::MAX && before.fallback < usize::MAX && before.opt_out < usize::MAX,
        before.skip_by_reason < usize::MAX && before.backend_err < usize::MAX,
        full_layer_answers(wanted, request, device, before, after, output),
    ensures
        !wanted ==> output == Ok::<Option<MetalPrefillAtnFullLayerOut>, String>(None) && {
            &&& after.expected_dense_atn_layers == before.expected_dense_atn_layers
            &&& after.core_hit == before.core_hit
            &&& after.full_layer_hit == before.full_layer_hit
            &&& after.fallback == before.fallback
            &&& after.opt_out == before.opt_out + 1
            &&& after.skip_by_reason == before.skip_by_reason
            &&& after.backend_err == before.backend_err
        },
        wanted && request.as_backend() is None ==> output == Ok::<
            Option<MetalPrefillAtnFullLayerOut>,
            String,
        >(None) && {
            &&& after.expected_dense_atn_layers == before.expected_dense_atn_layers
            &&& after.core_hit == before.core_hit
            &&& after.full_layer_hit == before.full_layer_hit
            &&& after.fallback == before.fallback + 1
            &&& after.opt_out == before.opt_out
            &&& after.skip_by_reason == before.skip_by_reason + 1
            &&& after.backend_err == before.backend_err
        },
        wanted && request.as_backend() is Some ==> exists|reply: Result<Option<AtnReply>, String>|
            #[trigger] call_ensures(device, (request.as_backend()->0,), reply) && match reply {
                Ok(Some(parts)) => output matches Ok(Some(out)) && out.hidden == parts.0
                    && out.k_bits == parts.1 && out.v_bits == parts.2,
                Ok(None) => output matches Ok(None),
                Err(cause) => output matches Err(told) && told == cause,
            },
        output matches Ok(Some(_)) ==> {
            &&& after.expected_dense_atn_layers == before.expected_dense_atn_layers
            &&& after.core_hit == before.core_hit
            &&& after.full_layer_hit == before.full_layer_hit + 1
            &&& after.fallback == before.fallback
            &&& after.opt_out == before.opt_out
            &&& after.skip_by_reason == before.skip_by_reason
            &&& after.backend_err == before.backend_err
        },
        wanted && (output matches Ok(None)) ==> {
            &&& after.expected_dense_atn_layers == before.expected_dense_atn_layers
            &&& after.core_hit == before.core_hit
            &&& after.full_layer_hit == before.full_layer_hit
            &&& after.fallback == before.fallback + 1
            &&& after.opt_out == before.opt_out
            &&& after.skip_by_reason == before.skip_by_reason + 1
            &&& after.backend_err == before.backend_err
        },
        output is Err ==> {
            &&& after.expected_dense_atn_layers == before.expected_dense_atn_layers
            &&& after.core_hit == before.core_hit
            &&& after.full_layer_hit == before.full_layer_hit
            &&& after.fallback == before.fallback + 1
            &&& after.opt_out == before.opt_out
            &&& after.skip_by_reason == before.skip_by_reason
            &&& after.backend_err == before.backend_err + 1
        },
{
}

} // verus!
