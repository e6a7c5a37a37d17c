//! When the device takes a mixture of experts, how it reads it, and what it is handed.
//! Floats are their bits.

use crate::arith::is_product;
use crate::cuda_inference::glm_moe::FileBackedRegion;
use crate::metal_inference::device::{fill_over, fill_where, filled, filled_where, fills, fills_where};
use crate::metal_inference::decode_chain::{
    moe_down_code, qwen_moe_decode_down_quant_code,
};
use crate::metal_inference::gates::{FfnFormats, FfnWeights};
use crate::metal_inference::switches::{
    metal_qwen_moe_prefill_accum_enabled, metal_qwen_moe_prefill_mulmmid_v3_requested,
    metal_qwen_moe_prefill_mulmmid_v4_requested, metal_qwen_moe_prefill_shared_accum_enabled,
    mulmmid_asked, set_or_at_least,
};
use crate::policy::{env_falsey, env_is, set_to, switched_off, unless_falsey};
use crate::quant::{
    is_q6k_of_q4k_or_q6k, q4k_or_q6k, GGMLType, QwenMoeLlamaIdQuant, QwenMoeLlamaIdQuantSet,
};
use vstd::prelude::*;

verus! {

/// A prompt's experts that are offered to the id path. Floats are their bits.
#[derive(Debug, Clone, Copy)]
pub struct MetalQwenMoeLlamaIdPrefillRequest<'a> {
    pub gate_all: &'a [u8],
    pub up_all: &'a [u8],
    pub down_all: &'a [u8],
    pub gate_expert_bytes: usize,
    pub up_expert_bytes: usize,
    pub down_expert_bytes: usize,
    pub selected_experts: &'a [u32],
    pub route_weights: &'a [u32],
    pub shared_gate: &'a [u8],
    pub shared_up: &'a [u8],
    pub shared_down: &'a [u8],
    pub shared_route_weights: &'a [u32],
    pub gate_quant: GGMLType,
    pub up_quant: GGMLType,
    pub down_quant: GGMLType,
    pub shared_gate_quant: GGMLType,
    pub shared_up_quant: GGMLType,
    pub shared_down_quant: GGMLType,
    pub norm_all: &'a [u32],
    pub seq_len: usize,
    pub hidden_dim: usize,
    pub ffn_dim: usize,
    pub layer_idx: usize,
}

/// A prompt's experts as the id path takes them.
#[derive(Debug, Clone, Copy)]
pub struct QwenMoeLlamaIdPrefillRequest<'a> {
    pub gate_all: &'a [u8],
    pub up_all: &'a [u8],
    pub down_all: &'a [u8],
    pub gate_expert_bytes: usize,
    pub up_expert_bytes: usize,
    pub down_expert_bytes: usize,
    pub selected_experts: &'a [u32],
    pub route_weights: &'a [u32],
    pub shared_gate: &'a [u8],
    pub shared_up: &'a [u8],
    pub shared_down: &'a [u8],
    pub shared_route_weights: &'a [u32],
    pub sparse_quant: QwenMoeLlamaIdQuantSet,
    pub shared_quant: QwenMoeLlamaIdQuantSet,
    pub norm_all: &'a [u32],
    pub seq_len: usize,
    pub hidden_dim: usize,
    pub ffn_dim: usize,
    pub layer_idx: usize,
}

/// How the id kernels read the sparse and the shared experts: sparse ones in Q4_K
/// with a Q4_K, Q5_K or Q6_K down projection; the shared one all in Q8_0, or in Q4_K
/// with a Q4_K or Q6_K down projection.
pub open spec fn llama_id_quants(request: MetalQwenMoeLlamaIdPrefillRequest<'_>) -> Option<
    (QwenMoeLlamaIdQuantSet, QwenMoeLlamaIdQuantSet),
> {
    let sparse_down = match request.down_quant {
        GGMLType::Q4_K => Some(QwenMoeLlamaIdQuant::Q4K),
        GGMLType::Q5_K => Some(QwenMoeLlamaIdQuant::Q5K),
        GGMLType::Q6_K => Some(QwenMoeLlamaIdQuant::Q6K),
        _ => None,
    };
    let shared = match (
        request.shared_gate_quant,
        request.shared_up_quant,
        request.shared_down_quant,
    ) {
        (GGMLType::Q8_0, GGMLType::Q8_0, GGMLType::Q8_0) => Some(
            QwenMoeLlamaIdQuantSet {
                gate: QwenMoeLlamaIdQuant::Q8Zero,
                up: QwenMoeLlamaIdQuant::Q8Zero,
                down: QwenMoeLlamaIdQuant::Q8Zero,
            },
        ),
        (GGMLType::Q4_K, GGMLType::Q4_K, GGMLType::Q4_K) => Some(
            QwenMoeLlamaIdQuantSet {
                gate: QwenMoeLlamaIdQuant::Q4K,
                up: QwenMoeLlamaIdQuant::Q4K,
                down: QwenMoeLlamaIdQuant::Q4K,
            },
        ),
        (GGMLType::Q4_K, GGMLType::Q4_K, GGMLType::Q6_K) => Some(
            QwenMoeLlamaIdQuantSet {
                gate: QwenMoeLlamaIdQuant::Q4K,
                up: QwenMoeLlamaIdQuant::Q4K,
                down: QwenMoeLlamaIdQuant::Q6K,
            },
        ),
        _ => None,
    };
    if sparse_down is Some && request.gate_quant == GGMLType::Q4_K && request.up_quant
        == GGMLType::Q4_K && shared is Some {
        Some(
            (
                QwenMoeLlamaIdQuantSet {
                    gate: QwenMoeLlamaIdQuant::Q4K,
                    up: QwenMoeLlamaIdQuant::Q4K,
                    down: sparse_down->0,
                },
                shared->0,
            ),
        )
    } else {
        None
    }
}

pub fn qwen_moe_llama_id_quant_sets(request: &MetalQwenMoeLlamaIdPrefillRequest<'_>) -> (sets:
    Option<(QwenMoeLlamaIdQuantSet, QwenMoeLlamaIdQuantSet)>)
    ensures
        sets == llama_id_quants(*request),
{
    let sparse_down = match request.down_quant {
        GGMLType::Q4_K => QwenMoeLlamaIdQuant::Q4K,
        GGMLType::Q5_K => QwenMoeLlamaIdQuant::Q5K,
        GGMLType::Q6_K => QwenMoeLlamaIdQuant::Q6K,
        _ => return None,
    };
    if request.gate_quant != GGMLType::Q4_K || request.up_quant != GGMLType::Q4_K {
        return None;
    }
    let shared = match (
        request.shared_gate_quant,
        request.shared_up_quant,
        request.shared_down_quant,
    ) {
        (GGMLType::Q8_0, GGMLType::Q8_0, GGMLType::Q8_0) => QwenMoeLlamaIdQuantSet {
            gate: QwenMoeLlamaIdQuant::Q8Zero,
            up: QwenMoeLlamaIdQuant::Q8Zero,
            down: QwenMoeLlamaIdQuant::Q8Zero,
        },
        (GGMLType::Q4_K, GGMLType::Q4_K, GGMLType::Q4_K) => QwenMoeLlamaIdQuantSet {
            gate: QwenMoeLlamaIdQuant::Q4K,
            up: QwenMoeLlamaIdQuant::Q4K,
            down: QwenMoeLlamaIdQuant::Q4K,
        },
        (GGMLType::Q4_K, GGMLType::Q4_K, GGMLType::Q6_K) => QwenMoeLlamaIdQuantSet {
            gate: QwenMoeLlamaIdQuant::Q4K,
            up: QwenMoeLlamaIdQuant::Q4K,
            down: QwenMoeLlamaIdQuant::Q6K,
        },
        _ => return None,
    };
    Some(
        (
            QwenMoeLlamaIdQuantSet {
                gate: QwenMoeLlamaIdQuant::Q4K,
                up: QwenMoeLlamaIdQuant::Q4K,
                down: sparse_down,
            },
            shared,
        ),
    )
}

/// The experts as the id path takes them, if it can read them.
pub open spec fn llama_id_request<'a>(request: MetalQwenMoeLlamaIdPrefillRequest<'a>) -> Option<
    QwenMoeLlamaIdPrefillRequest<'a>,
> {
    match llama_id_quants(request) {
        Some((sparse_quant, shared_quant)) => Some(
            QwenMoeLlamaIdPrefillRequest {
                gate_all: request.gate_all,
                up_all: request.up_all,
                down_all: request.down_all,
                gate_expert_bytes: request.gate_expert_bytes,
                up_expert_bytes: request.up_expert_bytes,
                down_expert_bytes: request.down_expert_bytes,
                selected_experts: request.selected_experts,
                route_weights: request.route_weights,
                shared_gate: request.shared_gate,
                shared_up: request.shared_up,
                shared_down: request.shared_down,
                shared_route_weights: request.shared_route_weights,
                sparse_quant,
                shared_quant,
                norm_all: request.norm_all,
                seq_len: request.seq_len,
                hidden_dim: request.hidden_dim,
                ffn_dim: request.ffn_dim,
                layer_idx: request.layer_idx,
            },
        ),
        None => None,
    }
}

/// Runs a prompt's experts on the id path, if the device can read them; whether it does
/// run them is its own decision.
pub fn metal_qwen_moe_llama_id_prefill<
    'a,
    T,
    D: FnOnce(QwenMoeLlamaIdPrefillRequest<'a>) -> Result<Option<T>, String>,
>(request: MetalQwenMoeLlamaIdPrefillRequest<'a>, device: D) -> (output: Result<Option<T>, String>)
    requires
        forall|asked: QwenMoeLlamaIdPrefillRequest<'a>| call_requires(device, (asked,)),
    ensures
        match llama_id_request(request) {
            Some(asked) => call_ensures(device, (asked,), output),
            None => output == Ok::<Option<T>, String>(None),
        },
{
    let (sparse_quant, shared_quant) = match qwen_moe_llama_id_quant_sets(&request) {
        Some(sets) => sets,
        None => return Ok(None),
    };
    device(
        QwenMoeLlamaIdPrefillRequest {
            gate_all: request.gate_all,
            up_all: request.up_all,
            down_all: request.down_all,
            gate_expert_bytes: request.gate_expert_bytes,
            up_expert_bytes: request.up_expert_bytes,
            down_expert_bytes: request.down_expert_bytes,
            selected_experts: request.selected_experts,
            route_weights: request.route_weights,
            shared_gate: request.shared_gate,
            shared_up: request.shared_up,
            shared_down: request.shared_down,
            shared_route_weights: request.shared_route_weights,
            sparse_quant,
            shared_quant,
            norm_all: request.norm_all,
            seq_len: request.seq_len,
            hidden_dim: request.hidden_dim,
            ffn_dim: request.ffn_dim,
            layer_idx: request.layer_idx,
        },
    )
}

/// Why an accumulating path leaves a prompt's experts to another one.
#[derive(Debug, Clone, Copy, PartialEq, Eq, Structural)]
pub enum AccumSkip {
    Policy,
    GateUpQuant,
    DownQuant,
    Shape,
    BackendUnsupported,
}

/// The sparse experts of a prompt and their routes.
#[derive(Debug, Clone, Copy, PartialEq, Eq)]
pub struct SparseExperts<'a> {
    pub formats: FfnFormats,
    pub gate_all: &'a [u8],
    pub up_all: &'a [u8],
    pub down_all: &'a [u8],
    pub gate_expert_bytes: usize,
    pub up_expert_bytes: usize,
    pub down_expert_bytes: usize,
    pub expert_ids: &'a [u32],
    pub route_weights: &'a [u32],
    pub token_ids: &'a [u32],
    pub seq_len: usize,
    pub hidden_dim: usize,
    pub ffn_dim: usize,
    pub norm_all: &'a [u32],
}

impl<'a> SparseExperts<'a> {
    /// One weight and one token for each route, of which there is at least one, and
    /// an activation for each token.
    pub open spec fn consistent(self) -> bool {
        &&& self.expert_ids@.len() != 0
        &&& self.expert_ids@.len() == self.route_weights@.len()
        &&& self.expert_ids@.len() == self.token_ids@.len()
        &&& self.norm_all@.len() == self.seq_len * self.hidden_dim
    }

    fn is_consistent(&self) -> (yes: bool)
        ensures
            yes == self.consistent(),
    {
        self.expert_ids.len() != 0 && self.expert_ids.len() == self.route_weights.len()
            && self.expert_ids.len() == self.token_ids.len() && is_product(
            self.norm_all.len(),
            self.seq_len,
            self.hidden_dim,
        )
    }
}

/// Whether `output` is what comes of a prompt's experts that are ready to be
/// accumulated, with a Q6_K down projection or without, or that are skipped. Of experts
/// that are ready the device says itself whether it takes them.
pub open spec fn accumulated<Q, T, S: FnOnce(bool) -> bool, D: FnOnce(bool, Q) -> T>(
    ready: Result<bool, AccumSkip>,
    request: Q,
    supports: S,
    device: D,
    output: Result<T, AccumSkip>,
) -> bool {
    match ready {
        Err(skip) => output == Err::<T, AccumSkip>(skip),
        Ok(is_q6k) => exists|supported: bool| #[trigger]
            call_ensures(supports, (is_q6k,), supported) && if supported {
                output matches Ok(reply) && call_ensures(device, (is_q6k, request), reply)
            } else {
                output == Err::<T, AccumSkip>(AccumSkip::BackendUnsupported)
            },
    }
}

fn accumulate<Q, T, S: FnOnce(bool) -> bool, D: FnOnce(bool, Q) -> T>(
    ready: Result<bool, AccumSkip>,
    request: Q,
    supports: S,
    device: D,
) -> (output: Result<T, AccumSkip>)
    requires
        forall|is_q6k: bool| call_requires(supports, (is_q6k,)),
        forall|is_q6k: bool| call_requires(device, (is_q6k, request)),
    ensures
        accumulated(ready, request, supports, device, output),
{
    match ready {
        Err(skip) => Err(skip),
        Ok(is_q6k) => {
            let supported: bool = supports(is_q6k);
            if !supported {
                return Err(AccumSkip::BackendUnsupported);
            }
            Ok(device(is_q6k, request))
        },
    }
}

/// Whether a prompt's sparse experts are ready to be accumulated: the switch comes
/// first, then the formats, then the lengths.
pub open spec fn sparse_ready(accum: Option<&str>, sparse: SparseExperts<'_>) -> Result<
    bool,
    AccumSkip,
> {
    if !set_or_at_least(accum, sparse.seq_len, 1024) {
        Err(AccumSkip::Policy)
    } else if sparse.formats.gate != GGMLType::Q4_K || sparse.formats.up != GGMLType::Q4_K {
        Err(AccumSkip::GateUpQuant)
    } else {
        match q4k_or_q6k(sparse.formats.down) {
            None => Err(AccumSkip::DownQuant),
            Some(is_q6k) => if sparse.consistent() {
                Ok(is_q6k)
            } else {
                Err(AccumSkip::Shape)
            },
        }
    }
}

fn find_sparse_ready(accum: Option<&str>, sparse: &SparseExperts<'_>) -> (ready: Result<
    bool,
    AccumSkip,
>)
    ensures
        ready == sparse_ready(accum, *sparse),
{
    if !metal_qwen_moe_prefill_accum_enabled(accum, sparse.seq_len) {
        return Err(AccumSkip::Policy);
    }
    if sparse.formats.gate != GGMLType::Q4_K || sparse.formats.up != GGMLType::Q4_K {
        return Err(AccumSkip::GateUpQuant);
    }
    match is_q6k_of_q4k_or_q6k(sparse.formats.down) {
        None => Err(AccumSkip::DownQuant),
        Some(is_q6k) => if sparse.is_consistent() {
            Ok(is_q6k)
        } else {
            Err(AccumSkip::Shape)
        },
    }
}

/// Accumulates the sparse experts of a prompt on the device.
pub fn metal_qwen_moe_prefill_sparse_accum_if_supported<
    'a,
    T,
    S: FnOnce(bool) -> bool,
    D: FnOnce(bool, SparseExperts<'a>) -> T,
>(accum: Option<&str>, sparse: SparseExperts<'a>, supports: S, device: D) -> (output: Result<
    T,
    AccumSkip,
>)
    requires
        forall|is_q6k: bool| call_requires(supports, (is_q6k,)),
        forall|is_q6k: bool| call_requires(device, (is_q6k, sparse)),
    ensures
        accumulated(sparse_ready(accum, sparse), sparse, supports, device, output),
{
    accumulate(find_sparse_ready(accum, &sparse), sparse, supports, device)
}

/// The shared expert of a prompt and its routes.
#[derive(Debug, Clone, Copy, PartialEq, Eq)]
pub struct SharedExpert<'a> {
    pub weights: FfnWeights<'a>,
    pub route_weights: &'a [u32],
    pub token_ids: &'a [u32],
}

impl<'a> SharedExpert<'a> {
    /// All but the down projections in Q4_K, and these two alike.
    pub open spec fn formats_fit(self, sparse: FfnFormats) -> bool {
        &&& self.weights.formats.gate == GGMLType::Q4_K
        &&& self.weights.formats.up == GGMLType::Q4_K
        &&& sparse.gate == GGMLType::Q4_K
        &&& sparse.up == GGMLType::Q4_K
        &&& self.weights.formats.down == sparse.down
    }

    /// The shared expert has a weight for each token too.
    pub open spec fn consistent(self, sparse: SparseExperts<'_>) -> bool {
        &&& sparse.consistent()
        &&& self.route_weights@.len() == sparse.seq_len
        &&& self.token_ids@.len() == sparse.seq_len
    }

    fn fits(&self, sparse: FfnFormats) -> (yes: bool)
        ensures
            yes == self.formats_fit(sparse),
    {
        let formats = self.weights.formats;
        formats.gate == GGMLType::Q4_K && formats.up == GGMLType::Q4_K && sparse.gate
            == GGMLType::Q4_K && sparse.up == GGMLType::Q4_K && formats.down == sparse.down
    }

    fn is_consistent(&self, sparse: &SparseExperts<'_>) -> (yes: bool)
        ensures
            yes == self.consistent(*sparse),
    {
        sparse.is_consistent() && self.route_weights.len() == sparse.seq_len
            && self.token_ids.len() == sparse.seq_len
    }
}

/// Whether a prompt's shared and sparse experts are ready to be accumulated.
pub open spec fn shared_ready(
    accum: Option<&str>,
    shared_accum: Option<&str>,
    shared: SharedExpert<'_>,
    sparse: SparseExperts<'_>,
) -> Result<bool, AccumSkip> {
    if !(set_or_at_least(accum, sparse.seq_len, 1024) && unless_falsey(shared_accum, true)) {
        Err(AccumSkip::Policy)
    } else if !shared.formats_fit(sparse.formats) {
        Err(AccumSkip::GateUpQuant)
    } else {
        match q4k_or_q6k(sparse.formats.down) {
            None => Err(AccumSkip::DownQuant),
            Some(is_q6k) => if shared.consistent(sparse) {
                Ok(is_q6k)
            } else {
                Err(AccumSkip::Shape)
            },
        }
    }
}

fn find_shared_ready(
    accum: Option<&str>,
    shared_accum: Option<&str>,
    shared: &SharedExpert<'_>,
    sparse: &SparseExperts<'_>,
) -> (ready: Result<bool, AccumSkip>)
    ensures
        ready == shared_ready(accum, shared_accum, *shared, *sparse),
{
    if !metal_qwen_moe_prefill_shared_accum_enabled(accum, shared_accum, sparse.seq_len) {
        return Err(AccumSkip::Policy);
    }
    if !shared.fits(sparse.formats) {
        return Err(AccumSkip::GateUpQuant);
    }
    match is_q6k_of_q4k_or_q6k(sparse.formats.down) {
        None => Err(AccumSkip::DownQuant),
        Some(is_q6k) => if shared.is_consistent(sparse) {
            Ok(is_q6k)
        } else {
            Err(AccumSkip::Shape)
        },
    }
}

/// Accumulates the shared and the sparse experts of a prompt on the device.
pub fn metal_qwen_moe_prefill_shared_sparse_accum_if_supported<
    'a,
    T,
    S: FnOnce(bool) -> bool,
    D: FnOnce(bool, (SharedExpert<'a>, SparseExperts<'a>)) -> T,
>(
    accum: Option<&str>,
    shared_accum: Option<&str>,
    shared: SharedExpert<'a>,
    sparse: SparseExperts<'a>,
    supports: S,
    device: D,
) -> (output: Result<T, AccumSkip>)
    requires
        forall|is_q6k: bool| call_requires(supports, (is_q6k,)),
        forall|is_q6k: bool| call_requires(device, (is_q6k, (shared, sparse))),
    ensures
        accumulated(
            shared_ready(accum, shared_accum, shared, sparse),
            (shared, sparse),
            supports,
            device,
            output,
        ),
{
    let ready = find_shared_ready(accum, shared_accum, &shared, &sparse);
    accumulate(ready, (shared, sparse), supports, device)
}

/// Whether a prompt's experts are ready for a matrix path, once that is asked for: the
/// down projection comes first, then the other formats, then the lengths.
pub open spec fn selected_base_ready(
    requested: bool,
    shared: SharedExpert<'_>,
    sparse: SparseExperts<'_>,
) -> Result<bool, AccumSkip> {
    if !requested {
        Err(AccumSkip::Policy)
    } else {
        match q4k_or_q6k(sparse.formats.down) {
            None => Err(AccumSkip::DownQuant),
            Some(is_q6k) => if !shared.formats_fit(sparse.formats) {
                Err(AccumSkip::GateUpQuant)
            } else if shared.consistent(sparse) {
                Ok(is_q6k)
            } else {
                Err(AccumSkip::Shape)
            },
        }
    }
}

fn find_selected_base_ready(
    requested: bool,
    shared: &SharedExpert<'_>,
    sparse: &SparseExperts<'_>,
) -> (ready: Result<bool, AccumSkip>)
    ensures
        ready == selected_base_ready(requested, *shared, *sparse),
{
    if !requested {
        return Err(AccumSkip::Policy);
    }
    let down_is_q6k = match is_q6k_of_q4k_or_q6k(sparse.formats.down) {
        Some(is_q6k) => is_q6k,
        None => return Err(AccumSkip::DownQuant),
    };
    if !shared.fits(sparse.formats) {
        return Err(AccumSkip::GateUpQuant);
    }
    if !shared.is_consistent(sparse) {
        return Err(AccumSkip::Shape);
    }
    Ok(down_is_q6k)
}

/// The fourth matrix path.
pub fn metal_qwen_moe_prefill_shared_sparse_selected_base_v4_if_supported<
    'a,
    T,
    S: FnOnce(bool) -> bool,
    D: FnOnce(bool, (SharedExpert<'a>, SparseExperts<'a>)) -> T,
>(
    mulmmid_v4: Option<&str>,
    llama_id: Option<&str>,
    shared: SharedExpert<'a>,
    sparse: SparseExperts<'a>,
    supports: S,
    device: D,
) -> (output: Result<T, AccumSkip>)
    requires
        forall|is_q6k: bool| call_requires(supports, (is_q6k,)),
        forall|is_q6k: bool| call_requires(device, (is_q6k, (shared, sparse))),
    ensures
        accumulated(
            selected_base_ready(mulmmid_asked(mulmmid_v4, llama_id), shared, sparse),
            (shared, sparse),
            supports,
            device,
            output,
        ),
{
    let requested: bool = metal_qwen_moe_prefill_mulmmid_v4_requested(mulmmid_v4, llama_id);
    let ready = find_selected_base_ready(requested, &shared, &sparse);
    accumulate(ready, (shared, sparse), supports, device)
}

/// The third matrix path.
pub fn metal_qwen_moe_prefill_shared_sparse_selected_base_v3_if_supported<
    'a,
    T,
    S: FnOnce(bool) -> bool,
    D: FnOnce(bool, (SharedExpert<'a>, SparseExperts<'a>)) -> T,
>(
    mulmmid_v3: Option<&str>,
    llama_id: Option<&str>,
    shared: SharedExpert<'a>,
    sparse: SparseExperts<'a>,
    supports: S,
    device: D,
) -> (output: Result<T, AccumSkip>)
    requires
        forall|is_q6k: bool| call_requires(supports, (is_q6k,)),
        forall|is_q6k: bool| call_requires(device, (is_q6k, (shared, sparse))),
    ensures
        accumulated(
            selected_base_ready(mulmmid_asked(mulmmid_v3, llama_id), shared, sparse),
            (shared, sparse),
            supports,
            device,
            output,
        ),
{
    let requested: bool = metal_qwen_moe_prefill_mulmmid_v3_requested(mulmmid_v3, llama_id);
    let ready = find_selected_base_ready(requested, &shared, &sparse);
    accumulate(ready, (shared, sparse), supports, device)
}

/// The experts of a token on the id path.
#[derive(Debug, Clone, Copy, PartialEq, Eq)]
pub struct DecodeExpertsById<'a> {
    pub gate_all: &'a [u8],
    pub up_all: &'a [u8],
    pub down_all: &'a [u8],
    pub gate_expert_bytes: usize,
    pub up_expert_bytes: usize,
    pub down_expert_bytes: usize,
    pub shared_gate: &'a [u8],
    pub shared_up: &'a [u8],
    pub shared_down: &'a [u8],
    pub expert_ids: &'a [u32],
    pub route_weights: &'a [u32],
    pub shared_expert_id: u32,
    pub down_ggml: GGMLType,
    pub n_ff: usize,
    pub n_embd: usize,
    pub input: &'a [u32],
}

impl<'a> DecodeExpertsById<'a> {
    /// Every expert has bytes, every route a weight, and in and out are one state each.
    pub open spec fn consistent(self, out: Seq<u32>) -> bool {
        &&& self.gate_all@.len() != 0 && self.up_all@.len() != 0 && self.down_all@.len() != 0
        &&& self.shared_gate@.len() != 0 && self.shared_up@.len() != 0
            && self.shared_down@.len() != 0
        &&& self.expert_ids@.len() != 0
        &&& self.expert_ids@.len() == self.route_weights@.len()
        &&& self.input@.len() == self.n_embd
        &&& out.len() == self.n_embd
    }
}

/// How the device reads this step, if it takes it.
pub open spec fn qwen_moe_decode_sparse_experts_id_reading(
    decode_batch: Option<&str>,
    decode_id: Option<&str>,
    experts: DecodeExpertsById<'_>,
    out: Seq<u32>,
) -> Option<u8> {
    if set_to(decode_batch, "1"@) && !switched_off(decode_id) && experts.consistent(out) && (
    experts.down_ggml == GGMLType::Q5_K || experts.down_ggml == GGMLType::Q6_K) {
        moe_down_code(experts.down_ggml)
    } else {
        None
    }
}

fn reads_qwen_moe_decode_sparse_experts_id(
    decode_batch: Option<&str>,
    decode_id: Option<&str>,
    experts: &DecodeExpertsById<'_>,
    out: &Vec<u32>,
) -> (down_quant: Option<u8>)
    ensures
        down_quant == qwen_moe_decode_sparse_experts_id_reading(
            decode_batch,
            decode_id,
            *experts,
            out@,
        ),
{
    if !env_is(decode_batch, "1") {
        return None;
    }
    if env_falsey(decode_id) {
        return None;
    }
    let e = experts;
    if e.gate_all.len() == 0 || e.up_all.len() == 0 || e.down_all.len() == 0
        || e.shared_gate.len() == 0 || e.shared_up.len() == 0 || e.shared_down.len() == 0
        || e.expert_ids.len() == 0 || e.expert_ids.len() != e.route_weights.len() || e.input.len()
        != e.n_embd || out.len() != e.n_embd {
        return None;
    }
    match e.down_ggml {
        GGMLType::Q5_K => Some(1),
        GGMLType::Q6_K => Some(2),
        _ => None,
    }
}

/// Runs a token's experts by id: with `RNB_METAL_QWEN35_MOE_DECODE_BATCH=1`, unless
/// `RNB_METAL_QWEN35_MOE_DECODE_ID` is falsey, for a Q5_K (1) or Q6_K (2) down
/// projection.
pub fn metal_qwen_moe_decode_sparse_experts_id_into_if_supported<
    'a,
    D: FnOnce(u8, DecodeExpertsById<'a>) -> Vec<u32>,
>(
    decode_batch: Option<&str>,
    decode_id: Option<&str>,
    experts: DecodeExpertsById<'a>,
    out: &mut Vec<u32>,
    device: D,
) -> (done: bool)
    requires
        fills(
            qwen_moe_decode_sparse_experts_id_reading(decode_batch, decode_id, experts, old(out)@),
            experts,
            device,
            *old(out),
        ),
    ensures
        filled(
            qwen_moe_decode_sparse_experts_id_reading(decode_batch, decode_id, experts, old(out)@),
            experts,
            device,
            *old(out),
            *final(out),
            done,
        ),
{
    let reads: Option<u8> = reads_qwen_moe_decode_sparse_experts_id(
        decode_batch,
        decode_id,
        &experts,
        &*out,
    );
    fill_over(reads, experts, out, device)
}

/// The experts of a token by their weights.
#[derive(Debug, Clone, Copy, PartialEq, Eq)]
pub struct DecodeExperts<'a> {
    pub gate: &'a [&'a [u8]],
    pub up: &'a [&'a [u8]],
    pub down: &'a [&'a [u8]],
    pub route_weights: &'a [u32],
    pub n_ff: usize,
    pub n_embd: usize,
    pub input: &'a [u32],
}

impl<'a> DecodeExperts<'a> {
    /// Every expert has its three weights and a route weight, and in and out are one
    /// state each.
    pub open spec fn consistent(self, out: Seq<u32>) -> bool {
        &&& self.gate@.len() != 0
        &&& self.gate@.len() == self.up@.len()
        &&& self.gate@.len() == self.down@.len()
        &&& self.gate@.len() == self.route_weights@.len()
        &&& self.input@.len() == self.n_embd
        &&& out.len() == self.n_embd
    }

    fn is_consistent(&self, out: &Vec<u32>) -> (yes: bool)
        ensures
            yes == self.consistent(out@),
    {
        self.gate.len() != 0 && self.gate.len() == self.up.len() && self.gate.len()
            == self.down.len() && self.gate.len() == self.route_weights.len() && self.input.len()
            == self.n_embd && out.len() == self.n_embd
    }
}

/// How the device reads this step, if it takes it.
pub open spec fn qwen_moe_decode_sparse_experts_reading(
    decode_batch: Option<&str>,
    experts: DecodeExperts<'_>,
    down_ggml: GGMLType,
    out: Seq<u32>,
) -> Option<u8> {
    if set_to(decode_batch, "1"@) && experts.consistent(out) {
        moe_down_code(down_ggml)
    } else {
        None
    }
}

fn reads_qwen_moe_decode_sparse_experts(
    decode_batch: Option<&str>,
    experts: &DecodeExperts<'_>,
    down_ggml: GGMLType,
    out: &Vec<u32>,
) -> (down_quant: Option<u8>)
    ensures
        down_quant == qwen_moe_decode_sparse_experts_reading(
            decode_batch,
            *experts,
            down_ggml,
            out@,
        ),
{
    if !env_is(decode_batch, "1") {
        return None;
    }
    if !experts.is_consistent(out) {
        return None;
    }
    qwen_moe_decode_down_quant_code(down_ggml)
}

/// Runs a token's experts: with `RNB_METAL_QWEN35_MOE_DECODE_BATCH=1`, for a Q4_K (0),
/// Q5_K (1) or Q6_K (2) down projection.
pub fn metal_qwen_moe_decode_sparse_experts_into_if_supported<
    'a,
    D: FnOnce(u8, DecodeExperts<'a>) -> Vec<u32>,
>(
    decode_batch: Option<&str>,
    experts: DecodeExperts<'a>,
    down_ggml: GGMLType,
    out: &mut Vec<u32>,
    device: D,
) -> (done: bool)
    requires
        fills(
            qwen_moe_decode_sparse_experts_reading(decode_batch, experts, down_ggml, old(out)@),
            experts,
            device,
            *old(out),
        ),
    ensures
        filled(
            qwen_moe_decode_sparse_experts_reading(decode_batch, experts, down_ggml, old(out)@),
            experts,
            device,
            *old(out),
            *final(out),
            done,
        ),
{
    let reads: Option<u8> = reads_qwen_moe_decode_sparse_experts(
        decode_batch,
        &experts,
        down_ggml,
        &*out,
    );
    fill_over(reads, experts, out, device)
}

/// Which of two formats each part of GLM's experts has.
#[derive(Debug, Clone, Copy, PartialEq, Eq, Structural)]
pub struct GlmMoeQuantSelect {
    pub gate_up_iq2s: bool,
    pub down_iq4xs: bool,
    pub shared_gate_up_q6k: bool,
    pub shared_down_q8_0: bool,
}

/// The GLM experts of a token, with the shared one.
#[derive(Debug, Clone, Copy, PartialEq, Eq)]
pub struct GlmDecodeExperts<'a> {
    pub sparse: DecodeExperts<'a>,
    pub shared_gate: &'a [u8],
    pub shared_up: &'a [u8],
    pub shared_down: &'a [u8],
    pub shared_route_weight: u32,
    pub quants: GlmMoeQuantSelect,
}

/// Whether the device takes a token's GLM experts: up to eight of them, with a shared one,
/// in whole blocks of 256.
pub open spec fn glm_moe_decode_taken(
    glm_moe_decode: Option<&str>,
    experts: GlmDecodeExperts<'_>,
    out: Seq<u32>,
) -> bool {
    let sparse = experts.sparse;
    &&& !switched_off(glm_moe_decode)
    &&& sparse.consistent(out)
    &&& sparse.gate@.len() <= 8
    &&& experts.shared_gate@.len() != 0
    &&& experts.shared_up@.len() != 0
    &&& experts.shared_down@.len() != 0
    &&& sparse.n_ff != 0 && sparse.n_ff % 256 == 0
    &&& sparse.n_embd != 0 && sparse.n_embd % 256 == 0
}

/// Runs a token's GLM experts, unless `RNB_METAL_GLM_MOE_DECODE` is falsey.
pub fn metal_glm_moe_decode_iq2xxs_iq3xxs_into_if_supported<
    'a,
    D: FnOnce(GlmDecodeExperts<'a>) -> Vec<u32>,
>(
    glm_moe_decode: Option<&str>,
    experts: GlmDecodeExperts<'a>,
    out: &mut Vec<u32>,
    device: D,
) -> (done: bool)
    requires
        fills_where(
            glm_moe_decode_taken(glm_moe_decode, experts, old(out)@),
            experts,
            device,
            *old(out),
        ),
    ensures
        filled_where(
            glm_moe_decode_taken(glm_moe_decode, experts, old(out)@),
            experts,
            device,
            *old(out),
            *final(out),
            done,
        ),
{
    let sparse = experts.sparse;
    let runs: bool = !env_falsey(glm_moe_decode) && sparse.is_consistent(&*out)
        && sparse.gate.len() <= 8 && experts.shared_gate.len() != 0 && experts.shared_up.len() != 0
        && experts.shared_down.len() != 0 && sparse.n_ff != 0 && sparse.n_embd != 0 && sparse.n_ff
        % 256 == 0 && sparse.n_embd % 256 == 0;
    fill_where(runs, experts, out, device)
}

/// A region of a file and where the host has it mapped. A path is whatever the host names
/// files by.
#[derive(Debug, Clone, Copy)]
pub struct MappedRegion<P> {
    pub region: FileBackedRegion<P>,
    pub host_address: usize,
}

/// The regions of the three weights of GLM's experts, for a device that loads them itself.
#[derive(Debug)]
pub struct GlmPrefillDirectFile<'a, P> {
    pub paths: [&'a P; 3],
    pub base_offsets: [u64; 3],
    pub base_addrs: [usize; 3],
    pub lens: [usize; 3],
}

/// Whether `direct` names the regions that there are, each in its place.
pub open spec fn direct_file_of<P>(
    regions: Option<&[MappedRegion<P>; 3]>,
    direct: Option<GlmPrefillDirectFile<'_, P>>,
) -> bool {
    match (regions, direct) {
        (None, None) => true,
        (Some(regions), Some(direct)) => forall|i: int|
            0 <= i < 3 ==> {
                &&& *(#[trigger] direct.paths@[i]) == regions@[i].region.path
                &&& direct.base_offsets@[i] == regions@[i].region.file_offset
                &&& direct.base_addrs@[i] == regions@[i].host_address
                &&& direct.lens@[i] == regions@[i].region.len
            },
        _ => false,
    }
}

fn name_direct_file<'a, P>(regions: Option<&'a [MappedRegion<P>; 3]>) -> (direct: Option<
    GlmPrefillDirectFile<'a, P>,
>)
    ensures
        direct_file_of(regions, direct),
{
    match regions {
        None => None,
        Some(regions) => Some(
            GlmPrefillDirectFile {
                paths: [
                    &regions[0].region.path,
                    &regions[1].region.path,
                    &regions[2].region.path,
                ],
                base_offsets: [
                    regions[0].region.file_offset,
                    regions[1].region.file_offset,
                    regions[2].region.file_offset,
                ],
                base_addrs: [
                    regions[0].host_address,
                    regions[1].host_address,
                    regions[2].host_address,
                ],
                lens: [regions[0].region.len, regions[1].region.len, regions[2].region.len],
            },
        ),
    }
}

/// The GLM experts of a prompt: one slot for each sparse expert of a token and one for the
/// shared expert.
#[derive(Debug, Clone, Copy, PartialEq, Eq)]
pub struct GlmPrefillBatch<'a> {
    pub gate: &'a [&'a [u8]],
    pub up: &'a [&'a [u8]],
    pub down: &'a [&'a [u8]],
    pub route_weights: &'a [u32],
    pub seq_len: usize,
    pub sparse_slots: usize,
    pub n_ff: usize,
    pub n_embd: usize,
    pub input_all: &'a [u32],
    pub quants: GlmMoeQuantSelect,
}

impl<'a> GlmPrefillBatch<'a> {
    /// A weight of each kind and a route weight for every slot, whole blocks of 256, and a
    /// state for each token going in and out.
    pub open spec fn consistent(self, out: Seq<u32>) -> bool {
        let slots = self.seq_len * (self.sparse_slots + 1);
        &&& self.seq_len != 0
        &&& 1 <= self.sparse_slots <= 8
        &&& self.gate@.len() == slots
        &&& self.up@.len() == slots
        &&& self.down@.len() == slots
        &&& self.route_weights@.len() == slots
        &&& self.n_ff != 0 && self.n_ff % 256 == 0
        &&& self.n_embd != 0 && self.n_embd % 256 == 0
        &&& self.input_all@.len() == self.seq_len * self.n_embd
        &&& out.len() == self.seq_len * self.n_embd
    }
}

/// Whether the device takes this step.
pub open spec fn glm_moe_prefill_iq_batch_taken(
    prefill_batch: Option<&str>,
    glm_moe_decode: Option<&str>,
    batch: GlmPrefillBatch<'_>,
    out: Seq<u32>,
) -> bool {
    !switched_off(prefill_batch) && !switched_off(glm_moe_decode) && batch.consistent(out)
}

fn takes_glm_moe_prefill_iq_batch(
    prefill_batch: Option<&str>,
    glm_moe_decode: Option<&str>,
    batch: &GlmPrefillBatch<'_>,
    out: &Vec<u32>,
) -> (runs: bool)
    ensures
        runs == glm_moe_prefill_iq_batch_taken(prefill_batch, glm_moe_decode, *batch, out@),
{
    if env_falsey(prefill_batch) || env_falsey(glm_moe_decode) {
        return false;
    }
    let b = batch;
    if b.seq_len == 0 || b.sparse_slots == 0 || b.sparse_slots > 8 {
        return false;
    }
    let slots: usize = b.sparse_slots + 1;
    is_product(b.gate.len(), b.seq_len, slots) && is_product(b.up.len(), b.seq_len, slots)
        && is_product(b.down.len(), b.seq_len, slots) && is_product(
        b.route_weights.len(),
        b.seq_len,
        slots,
    ) && b.n_ff != 0 && b.n_embd != 0 && b.n_ff % 256 == 0 && b.n_embd % 256 == 0 && is_product(
        b.input_all.len(),
        b.seq_len,
        b.n_embd,
    ) && is_product(out.len(), b.seq_len, b.n_embd)
}

/// Runs a prompt's GLM experts, unless `RNB_METAL_GLM_MOE_PREFILL_BATCH` or
/// `RNB_METAL_GLM_MOE_DECODE` is falsey. Of weights that are mapped the device is told the
/// regions.
pub fn metal_glm_moe_prefill_iq_batch_into_if_supported<
    'a,
    P,
    D: FnOnce((GlmPrefillBatch<'a>, Option<GlmPrefillDirectFile<'a, P>>)) -> Vec<u32>,
>(
    prefill_batch: Option<&str>,
    glm_moe_decode: Option<&str>,
    batch: GlmPrefillBatch<'a>,
    file_regions: Option<&'a [MappedRegion<P>; 3]>,
    out: &mut Vec<u32>,
    device: D,
) -> (done: bool)
    requires
        forall|direct: Option<GlmPrefillDirectFile<'a, P>>| #[trigger]
            direct_file_of(file_regions, direct) ==> fills_where(
                glm_moe_prefill_iq_batch_taken(
                    prefill_batch,
                    glm_moe_decode,
                    batch,
                    old(out)@,
                ),
                (batch, direct),
                device,
                *old(out),
            ),
    ensures
        exists|direct: Option<GlmPrefillDirectFile<'a, P>>| #[trigger]
            direct_file_of(file_regions, direct) && filled_where(
                glm_moe_prefill_iq_batch_taken(
                    prefill_batch,
                    glm_moe_decode,
                    batch,
                    old(out)@,
                ),
                (batch, direct),
                device,
                *old(out),
                *final(out),
                done,
            ),
{
    let runs: bool = takes_glm_moe_prefill_iq_batch(prefill_batch, glm_moe_decode, &batch, &*out);
    let direct = name_direct_file(file_regions);
    fill_where(runs, (batch, direct), out, device)
}

/// Which experts the id kernels read, and that each weight is read in its own format.
pub proof fn law_id_kernels_read_each_format_as_itself(
    request: MetalQwenMoeLlamaIdPrefillRequest<'_>,
)
    ensures
        llama_id_quants(request) is Some <==> {
            &&& request.gate_quant is Q4_K && request.up_quant is Q4_K
            &&& request.down_quant is Q4_K || request.down_quant is Q5_K || request.down_quant is Q6_K
            &&& request.shared_gate_quant == request.shared_up_quant
            &&& request.shared_gate_quant is Q8_0 && request.shared_down_quant is Q8_0
                || request.shared_gate_quant is Q4_K && (request.shared_down_quant is Q4_K
                || request.shared_down_quant is Q6_K)
        },
        llama_id_quants(request) matches Some(sets) ==> {
            &&& reads_id_format(sets.0.gate, request.gate_quant)
            &&& reads_id_format(sets.0.up, request.up_quant)
            &&& reads_id_format(sets.0.down, request.down_quant)
            &&& reads_id_format(sets.1.gate, request.shared_gate_quant)
            &&& reads_id_format(sets.1.up, request.shared_up_quant)
            &&& reads_id_format(sets.1.down, request.shared_down_quant)
        },
{
}

/// Whether a kernel of the id path reads weights of a format.
pub open spec fn reads_id_format(quant: QwenMoeLlamaIdQuant, t: GGMLType) -> bool {
    match quant {
        QwenMoeLlamaIdQuant::Q4K => t is Q4_K,
        QwenMoeLlamaIdQuant::Q5K => t is Q5_K,
        QwenMoeLlamaIdQuant::Q6K => t is Q6_K,
        QwenMoeLlamaIdQuant::Q8Zero => t is Q8_0,
    }
}

/// The id path is handed the experts as they were given, each weight in its own place.
pub proof fn law_id_experts_are_handed_over_by_role(request: MetalQwenMoeLlamaIdPrefillRequest<'_>)
    ensures
        llama_id_request(request) is Some <==> llama_id_quants(request) is Some,
        llama_id_request(request) matches Some(asked) ==> {
            &&& asked.gate_all@ == request.gate_all@
            &&& asked.up_all@ == request.up_all@
            &&& asked.down_all@ == request.down_all@
            &&& asked.selected_experts@ == request.selected_experts@
            &&& asked.route_weights@ == request.route_weights@
            &&& asked.shared_gate@ == request.shared_gate@
            &&& asked.shared_up@ == request.shared_up@
            &&& asked.shared_down@ == request.shared_down@
            &&& asked.shared_route_weights@ == request.shared_route_weights@
            &&& asked.norm_all@ == request.norm_all@
            &&& asked.gate_expert_bytes == request.gate_expert_bytes
            &&& asked.up_expert_bytes == request.up_expert_bytes
            &&& asked.down_expert_bytes == request.down_expert_bytes
            &&& asked.seq_len == request.seq_len
            &&& asked.hidden_dim == request.hidden_dim
            &&& asked.ffn_dim == request.ffn_dim
            &&& asked.layer_idx == request.layer_idx
            &&& reads_id_format(asked.sparse_quant.gate, request.gate_quant)
            &&& reads_id_format(asked.sparse_quant.up, request.up_quant)
            &&& reads_id_format(asked.sparse_quant.down, request.down_quant)
            &&& reads_id_format(asked.shared_quant.gate, request.shared_gate_quant)
            &&& reads_id_format(asked.shared_quant.up, request.shared_up_quant)
            &&& reads_id_format(asked.shared_quant.down, request.shared_down_quant)
        },
{
}

/// Whether the routes of sparse experts are told in full: an expert, a weight and a token
/// for each, at least one of them, and an activation for each token.
pub open spec fn has_all_routes(sparse: SparseExperts<'_>) -> bool {
    &&& sparse.expert_ids@.len() > 0
    &&& sparse.route_weights@.len() == sparse.expert_ids@.len()
    &&& sparse.token_ids@.len() == sparse.expert_ids@.len()
    &&& sparse.norm_all@.len() == sparse.seq_len * sparse.hidden_dim
}

/// Which sparse experts are accumulated, and why others are skipped: for the switch before
/// the gates, the gates before the down projection, and that before the lengths.
pub proof fn law_which_sparse_experts_are_ready(accum: Option<&str>, sparse: SparseExperts<'_>)
    ensures
        ({
            let wanted = accum is Some && !switched_off(accum) || accum is None && sparse.seq_len
                >= 1024;
            let gates = sparse.formats.gate is Q4_K && sparse.formats.up is Q4_K;
            let down = sparse.formats.down is Q4_K || sparse.formats.down is Q6_K;
            &&& sparse_ready(accum, sparse) is Ok <==> wanted && gates && down && has_all_routes(sparse)
            &&& sparse_ready(accum, sparse) matches Ok(is_q6k) ==> is_q6k
                == (sparse.formats.down is Q6_K)
            &&& !wanted ==> sparse_ready(accum, sparse) == Err::<bool, AccumSkip>(AccumSkip::Policy)
            &&& wanted && !gates ==> sparse_ready(accum, sparse) == Err::<bool, AccumSkip>(
                AccumSkip::GateUpQuant,
            )
            &&& wanted && gates && !down ==> sparse_ready(accum, sparse) == Err::<bool, AccumSkip>(
                AccumSkip::DownQuant,
            )
            &&& wanted && gates && down && !has_all_routes(sparse) ==> sparse_ready(accum, sparse)
                == Err::<bool, AccumSkip>(AccumSkip::Shape)
        }),
{
}

/// Which shared and sparse experts are accumulated together, and why others are skipped.
/// A matrix path tells of the down projection before the gates.
pub proof fn law_which_shared_experts_are_ready(
    accum: Option<&str>,
    shared_accum: Option<&str>,
    requested: bool,
    shared: SharedExpert<'_>,
    sparse: SparseExperts<'_>,
)
    ensures
        ({
            let wanted = (accum is Some && !switched_off(accum) || accum is None && sparse.seq_len
                >= 1024) && !switched_off(shared_accum);
            let alike = shared.weights.formats.gate is Q4_K && shared.weights.formats.up is Q4_K
                && sparse.formats.gate is Q4_K && sparse.formats.up is Q4_K
                && shared.weights.formats.down == sparse.formats.down;
            let down = sparse.formats.down is Q4_K || sparse.formats.down is Q6_K;
            let routed = has_all_routes(sparse) && shared.route_weights@.len() == sparse.seq_len
                && shared.token_ids@.len() == sparse.seq_len;
            let ready = shared_ready(accum, shared_accum, shared, sparse);
            let base = selected_base_ready(requested, shared, sparse);
            &&& ready is Ok <==> wanted && alike && down && routed
            &&& ready matches Ok(is_q6k) ==> is_q6k == (sparse.formats.down is Q6_K)
            &&& !wanted ==> ready == Err::<bool, AccumSkip>(AccumSkip::Policy)
            &&& wanted && !alike ==> ready == Err::<bool, AccumSkip>(AccumSkip::GateUpQuant)
            &&& wanted && alike && !down ==> ready == Err::<bool, AccumSkip>(AccumSkip::DownQuant)
            &&& wanted && alike && down && !routed ==> ready == Err::<bool, AccumSkip>(
                AccumSkip::Shape,
            )
            &&& base is Ok <==> requested && alike && down && routed
            &&& base matches Ok(is_q6k) ==> is_q6k == (sparse.formats.down is Q6_K)
            &&& !requested ==> base == Err::<bool, AccumSkip>(AccumSkip::Policy)
            &&& requested && !down ==> base == Err::<bool, AccumSkip>(AccumSkip::DownQuant)
            &&& requested && down && !alike ==> base == Err::<bool, AccumSkip>(
                AccumSkip::GateUpQuant,
            )
            &&& requested && down && alike && !routed ==> base == Err::<bool, AccumSkip>(
                AccumSkip::Shape,
            )
        }),
{
}

/// Experts that are skipped are not shown to the device; of the others it is asked once
/// whether it takes them, and it runs them only then.
pub proof fn law_skipped_experts_are_not_run<Q, T, S: FnOnce(bool) -> bool, D: FnOnce(bool, Q) -> T>(
    ready: Result<bool, AccumSkip>,
    request: Q,
    supports: S,
    device: D,
    output: Result<T, AccumSkip>,
)
    requires
        accumulated(ready, request, supports, device, output),
    ensures
        ready matches Err(skip) ==> (output matches Err(told) && told == skip),
        output matches Ok(reply) ==> {
            &&& ready is Ok
            &&& call_ensures(supports, (ready->Ok_0,), true)
            &&& call_ensures(device, (ready->Ok_0, request), reply)
        },
        ready is Ok && output is Err ==> output->Err_0 is BackendUnsupported && call_ensures(
            supports,
            (ready->Ok_0,),
            false,
        ),
{
}

/// Which of a token's experts the device takes by id: in batches only where asked for, with
/// a Q5_K (1) or Q6_K (2) down projection, none of the weights empty, a weight for each of
/// the experts, and a whole state in and out.
pub proof fn law_which_experts_are_taken_by_id(
    decode_batch: Option<&str>,
    decode_id: Option<&str>,
    e: DecodeExpertsById<'_>,
    out: Seq<u32>,
)
    ensures
        ({
            let reading = qwen_moe_decode_sparse_experts_id_reading(decode_batch, decode_id, e, out);
            &&& reading is Some <==> {
                &&& decode_batch is Some && decode_batch->0@ == "1"@
                &&& !switched_off(decode_id)
                &&& e.down_ggml is Q5_K || e.down_ggml is Q6_K
                &&& e.gate_all@.len() > 0 && e.up_all@.len() > 0 && e.down_all@.len() > 0
                &&& e.shared_gate@.len() > 0 && e.shared_up@.len() > 0 && e.shared_down@.len() > 0
                &&& e.expert_ids@.len() > 0 && e.route_weights@.len() == e.expert_ids@.len()
                &&& e.input@.len() == e.n_embd && out.len() == e.n_embd
            }
            &&& reading is Some ==> reading == Some(
                if e.down_ggml is Q5_K {
                    1u8
                } else {
                    2u8
                },
            )
        }),
{
}

/// Whether a token's experts are told in full: as many gates as ups, downs and route
/// weights, at least one, and a whole state in and out.
pub open spec fn has_all_experts(e: DecodeExperts<'_>, out: Seq<u32>) -> bool {
    &&& e.gate@.len() > 0
    &&& e.up@.len() == e.gate@.len()
    &&& e.down@.len() == e.gate@.len()
    &&& e.route_weights@.len() == e.gate@.len()
    &&& e.input@.len() == e.n_embd && out.len() == e.n_embd
}

/// Which of a token's experts the device takes by their weights.
pub proof fn law_which_experts_are_taken_by_weight(
    decode_batch: Option<&str>,
    glm_moe_decode: Option<&str>,
    e: DecodeExperts<'_>,
    down_ggml: GGMLType,
    g: GlmDecodeExperts<'_>,
    out: Seq<u32>,
)
    ensures
        ({
            let reading = qwen_moe_decode_sparse_experts_reading(decode_batch, e, down_ggml, out);
            &&& reading is Some <==> {
                &&& decode_batch is Some && decode_batch->0@ == "1"@
                &&& has_all_experts(e, out)
                &&& down_ggml is Q4_K || down_ggml is Q5_K || down_ggml is Q6_K
            }
            &&& reading is Some ==> reading == Some(
                if down_ggml is Q4_K {
                    0u8
                } else if down_ggml is Q5_K {
                    1u8
                } else {
                    2u8
                },
            )
        }),
        glm_moe_decode_taken(glm_moe_decode, g, out) <==> {
            &&& !switched_off(glm_moe_decode)
            &&& has_all_experts(g.sparse, out)
            &&& g.sparse.gate@.len() <= 8
            &&& g.shared_gate@.len() > 0 && g.shared_up@.len() > 0 && g.shared_down@.len() > 0
            &&& g.sparse.n_ff > 0 && g.sparse.n_ff % 256 == 0
            &&& g.sparse.n_embd > 0 && g.sparse.n_embd % 256 == 0
        },
{
}

/// Which prompts the device takes with GLM's experts: up to eight sparse experts a token
/// and the shared one, a weight of each kind for every one of them, and whole states.
pub proof fn law_which_glm_prompts_are_taken(
    prefill_batch: Option<&str>,
    glm_moe_decode: Option<&str>,
    b: GlmPrefillBatch<'_>,
    out: Seq<u32>,
)
    ensures
        glm_moe_prefill_iq_batch_taken(prefill_batch, glm_moe_decode, b, out) <==> {
            &&& !switched_off(prefill_batch) && !switched_off(glm_moe_decode)
            &&& b.seq_len > 0 && 1 <= b.sparse_slots <= 8
            &&& b.gate@.len() == b.seq_len * (b.sparse_slots + 1)
            &&& b.up@.len() == b.gate@.len() && b.down@.len() == b.gate@.len()
            &&& b.route_weights@.len() == b.gate@.len()
            &&& b.n_ff > 0 && b.n_ff % 256 == 0 && b.n_embd > 0 && b.n_embd % 256 == 0
            &&& b.input_all@.len() == b.seq_len * b.n_embd
            &&& out.len() == b.input_all@.len()
        },
{
}

/// The regions are told in the order of the weights, each with its own path, offset,
/// address and length; without regions none are told.
pub proof fn law_regions_are_told_in_order<P>(
    regions: Option<&[MappedRegion<P>; 3]>,
    direct: Option<GlmPrefillDirectFile<'_, P>>,
    i: int,
)
    requires
        direct_file_of(regions, direct),
        0 <= i < 3,
    ensures
        direct is Some <==> regions is Some,
        direct is Some ==> {
            &&& *direct->0.paths@[i] == regions->0@[i].region.path
            &&& direct->0.base_offsets@[i] == regions->0@[i].region.file_offset
            &&& direct->0.base_addrs@[i] == regions->0@[i].host_address
            &&& direct->0.lens@[i] == regions->0@[i].region.len
        },
{
}

} // verus!
