//! Qwen's experts on the device.

use crate::arith::is_product;
use crate::backend_api::{DeviceTensorDesc, DeviceTensorId};
use crate::cuda_inference::device::{answers, ask};
use crate::cuda_inference::routes::MoeRouteSlot;
use crate::quant::{dequant_type, expansion, holds_weights, DequantType, GGMLType};
use vstd::prelude::*;

verus! {

/// The routes of a prompt as the device makes them: experts, weights as their bits, and
/// tokens.
#[derive(Debug)]
pub struct RouteArrays {
    pub expert_ids: Vec<u32>,
    pub route_weights: Vec<u32>,
    pub token_ids: Vec<u32>,
}

impl RouteArrays {
    /// The arrays are of one length.
    pub open spec fn aligned(self) -> bool {
        &&& self.expert_ids@.len() == self.route_weights@.len()
        &&& self.expert_ids@.len() == self.token_ids@.len()
    }

    /// The routes one by one.
    pub open spec fn slots(self) -> Seq<MoeRouteSlot> {
        Seq::new(
            self.expert_ids@.len(),
            |i: int|
                MoeRouteSlot {
                    expert: self.expert_ids@[i] as usize,
                    token: self.token_ids@[i],
                    weight: self.route_weights@[i],
                },
        )
    }
}

/// A router that runs on the device; floats are their bits.
#[derive(Debug, Clone, Copy, PartialEq, Eq)]
pub struct DeviceRouter<'a> {
    pub router_w: &'a [u32],
    pub n_expert: usize,
    pub hidden_dim: usize,
    pub n_expert_used: usize,
}

/// A prompt to route on the device.
#[derive(Debug, Clone, Copy, PartialEq, Eq)]
pub struct UnroutedPrompt<'a> {
    pub router: DeviceRouter<'a>,
    pub norm_all: &'a [u32],
    pub seq_len: usize,
}

/// Whether `output` is what comes of routing on the device: arrays of different lengths
/// are refused.
pub open spec fn route_arrays_answer<
    'a,
    D: FnOnce(UnroutedPrompt<'a>) -> Result<RouteArrays, String>,
>(
    device: D,
    request: UnroutedPrompt<'a>,
    output: Result<RouteArrays, String>,
) -> bool {
    exists|reply: Result<RouteArrays, String>| #[trigger]
        answers(
            device,
            request,
            "CUDA prefill MoE device top-k route failed: "@,
            reply,
        ) && match reply {
            Ok(arrays) => if arrays.aligned() {
                output == reply
            } else {
                output matches Err(message) && message@
                    == "CUDA prefill MoE device top-k returned mismatched arrays"@
            },
            Err(_) => output == reply,
        }
}

/// Routes a prompt on the device.
pub fn qwen_moe_prefill_sparse_route_arrays_device_topk<
    'a,
    D: FnOnce(UnroutedPrompt<'a>) -> Result<RouteArrays, String>,
>(request: UnroutedPrompt<'a>, device: D) -> (output: Result<RouteArrays, String>)
    requires
        call_requires(device, (request,)),
    ensures
        route_arrays_answer(device, request, output),
        output matches Ok(arrays) ==> arrays.aligned(),
{
    let reply = ask(device, request, "CUDA prefill MoE device top-k route failed: ");
    match reply {
        Ok(arrays) => {
            if arrays.expert_ids.len() != arrays.route_weights.len() || arrays.expert_ids.len()
                != arrays.token_ids.len() {
                assert(!arrays.aligned());
                return Err(
                    String::from_str("CUDA prefill MoE device top-k returned mismatched arrays"),
                );
            }
            Ok(arrays)
        },
        Err(message) => Err(message),
    }
}

/// Routes a prompt on the device, route by route.
pub fn qwen_moe_prefill_sparse_slots_device_topk<
    'a,
    D: FnOnce(UnroutedPrompt<'a>) -> Result<RouteArrays, String>,
>(request: UnroutedPrompt<'a>, device: D) -> (output: Result<Vec<MoeRouteSlot>, String>)
    requires
        call_requires(device, (request,)),
    ensures
        exists|routed: Result<RouteArrays, String>| #[trigger]
            route_arrays_answer(device, request, routed) && match (routed, output) {
                (Ok(arrays), Ok(slots)) => slots@ == arrays.slots(),
                (Err(message), Err(kept)) => message == kept,
                _ => false,
            },
{
    let routed = qwen_moe_prefill_sparse_route_arrays_device_topk(request, device);
    match &routed {
        Ok(arrays) => {
            let mut slots: Vec<MoeRouteSlot> = Vec::new();
            let mut i: usize = 0;
            while i < arrays.expert_ids.len()
                invariant
                    i <= arrays.expert_ids@.len(),
                    arrays.aligned(),
                    slots@ == arrays.slots().take(i as int),
                decreases arrays.expert_ids@.len() - i,
            {
                slots.push(
                    MoeRouteSlot::new(
                        arrays.expert_ids[i] as usize,
                        arrays.token_ids[i],
                        arrays.route_weights[i],
                    ),
                );
                i += 1;
                assert(slots@ =~= arrays.slots().take(i as int));
            }
            assert(slots@ =~= arrays.slots());
            Ok(slots)
        },
        Err(message) => Err(message.clone()),
    }
}

/// The weights of chosen experts, one slice for each.
#[derive(Debug, Clone, Copy, PartialEq, Eq)]
pub struct ChosenExperts<'a> {
    pub gate: &'a [&'a [u8]],
    pub up: &'a [&'a [u8]],
    pub down: &'a [&'a [u8]],
}

/// The weights of all experts of a layer.
#[derive(Debug, Clone, Copy, PartialEq, Eq)]
pub struct LayerExperts<'a> {
    pub gate_all: &'a [u8],
    pub up_all: &'a [u8],
    pub down_all: &'a [u8],
}

/// The routes of a prompt; weights are their bits.
#[derive(Debug, Clone, Copy, PartialEq, Eq)]
pub struct PromptRoutes<'a> {
    pub expert_ids: &'a [u32],
    pub route_weights: &'a [u32],
    pub token_ids: &'a [u32],
}

/// A shared expert as it is stored.
#[derive(Debug, Clone, Copy, PartialEq, Eq)]
pub struct SharedExpert<'a> {
    pub gate: &'a [u8],
    pub gate_quant: GGMLType,
    pub up: &'a [u8],
    pub up_quant: GGMLType,
    pub down: &'a [u8],
    pub down_quant: GGMLType,
}

/// An expanded shared expert; floats are their bits.
#[derive(Debug)]
pub struct SharedExpertFloats {
    pub gate: Vec<u32>,
    pub up: Vec<u32>,
    pub down: Vec<u32>,
}

impl SharedExpertFloats {
    /// The three have as many floats as they should.
    pub open spec fn fit(self, n_ff: usize, n_embd: usize) -> bool {
        &&& self.gate@.len() == n_ff * n_embd
        &&& self.up@.len() == n_ff * n_embd
        &&& self.down@.len() == n_ff * n_embd
    }

    /// Whether these come of expanding `shared`.
    pub open spec fn expanded_from<X: Fn(&[u8], DequantType) -> Vec<u32>>(
        self,
        shared: SharedExpert<'_>,
        expand: X,
    ) -> bool {
        &&& call_ensures(expand, (shared.gate, expansion(shared.gate_quant)), self.gate)
        &&& call_ensures(expand, (shared.up, expansion(shared.up_quant)), self.up)
        &&& call_ensures(expand, (shared.down, expansion(shared.down_quant)), self.down)
    }
}

impl<'a> SharedExpert<'a> {
    /// All three can be expanded.
    pub open spec fn expandable(self) -> bool {
        holds_weights(self.gate_quant) && holds_weights(self.up_quant) && holds_weights(
            self.down_quant,
        )
    }

    /// The shared expert can run as it is: gate and up projections in Q4_K, the down
    /// projection in Q4_K or Q6_K.
    pub open spec fn runs_quantized(self) -> bool {
        &&& self.gate_quant == GGMLType::Q4_K
        &&& self.up_quant == GGMLType::Q4_K
        &&& self.down_quant == GGMLType::Q4_K || self.down_quant == GGMLType::Q6_K
    }

    /// The down projection is plain or in Q4_K or Q6_K.
    pub open spec fn down_taken(self) -> bool {
        self.down_quant is F32 || self.down_quant is Q4_K || self.down_quant is Q6_K
    }

    fn can_run_quantized(&self) -> (yes: bool)
        ensures
            yes == self.runs_quantized(),
    {
        self.gate_quant == GGMLType::Q4_K && self.up_quant == GGMLType::Q4_K && (self.down_quant
            == GGMLType::Q4_K || self.down_quant == GGMLType::Q6_K)
    }

    fn expanded<X: Fn(&[u8], DequantType) -> Vec<u32>>(&self, expand: &X) -> (floats:
        SharedExpertFloats)
        requires
            self.expandable(),
            forall|raw: &[u8], dequant: DequantType| call_requires(*expand, (raw, dequant)),
        ensures
            floats.expanded_from(*self, *expand),
    {
        SharedExpertFloats {
            gate: (*expand)(self.gate, dequant_type(self.gate_quant)),
            up: (*expand)(self.up, dequant_type(self.up_quant)),
            down: (*expand)(self.down, dequant_type(self.down_quant)),
        }
    }
}

/// A prompt's sparse experts, each on its own slice.
#[derive(Debug, Clone, Copy, PartialEq, Eq)]
pub struct SparsePrompt<'a> {
    pub experts: ChosenExperts<'a>,
    pub route_weights: &'a [u32],
    pub token_ids: &'a [u32],
    pub seq_len: usize,
    pub down_quant: GGMLType,
    pub n_ff: usize,
    pub n_embd: usize,
    pub norm_all: &'a [u32],
}

/// A prompt's shared expert: its weights as sparse experts, and as they are stored.
#[derive(Debug, Clone, Copy, PartialEq, Eq)]
pub struct SharedPrompt<'a> {
    pub experts: ChosenExperts<'a>,
    pub route_weights: &'a [u32],
    pub token_ids: &'a [u32],
    pub seq_len: usize,
    pub shared: SharedExpert<'a>,
    pub n_ff: usize,
    pub n_embd: usize,
    pub norm_all: &'a [u32],
}

impl<'a> SharedPrompt<'a> {
    /// The shared expert as sparse experts.
    pub open spec fn as_sparse(self) -> SparsePrompt<'a> {
        SparsePrompt {
            experts: self.experts,
            route_weights: self.route_weights,
            token_ids: self.token_ids,
            seq_len: self.seq_len,
            down_quant: self.shared.down_quant,
            n_ff: self.n_ff,
            n_embd: self.n_embd,
            norm_all: self.norm_all,
        }
    }

    /// The shared expert with expanded weights.
    pub open spec fn as_expanded(self, weights: SharedExpertFloats) -> ExpandedShared<'a> {
        ExpandedShared {
            weights,
            route_weights: self.route_weights,
            n_ff: self.n_ff,
            n_embd: self.n_embd,
            norm_all: self.norm_all,
        }
    }
}

/// A prompt's shared expert with expanded weights.
#[derive(Debug)]
pub struct ExpandedShared<'a> {
    pub weights: SharedExpertFloats,
    pub route_weights: &'a [u32],
    pub n_ff: usize,
    pub n_embd: usize,
    pub norm_all: &'a [u32],
}

/// A prompt's shared expert as the device is asked for it.
#[derive(Debug)]
pub enum SharedExpertCall<'a> {
    Expanded(ExpandedShared<'a>),
    Sparse(SparsePrompt<'a>),
}

/// Runs a prompt's shared expert: expanded where that is switched on and the expanded
/// weights have the right lengths, else as sparse experts.
pub fn qwen_moe_prefill_shared_expert_batch<
    'a,
    T,
    X: Fn(&[u8], DequantType) -> Vec<u32>,
    D: FnOnce(SharedExpertCall<'a>) -> Result<T, String>,
>(shared_f32_enabled: bool, request: SharedPrompt<'a>, expand: &X, device: D) -> (output: Result<
    T,
    String,
>)
    requires
        shared_f32_enabled ==> request.shared.expandable(),
        forall|raw: &[u8], dequant: DequantType| call_requires(*expand, (raw, dequant)),
        forall|call: SharedExpertCall<'a>| call_requires(device, (call,)),
    ensures
        if shared_f32_enabled {
            exists|floats: SharedExpertFloats| #[trigger]
                floats.expanded_from(request.shared, *expand) && (if floats.fit(
                    request.n_ff,
                    request.n_embd,
                ) {
                    answers(
                        device,
                        SharedExpertCall::Expanded(request.as_expanded(floats)),
                        "CUDA prefill MoE shared expert batch failed: "@,
                        output,
                    )
                } else {
                    output matches Err(message) && message@
                        == "CUDA shared f32 MoE dequant shape mismatch"@
                })
        } else {
            answers(
                device,
                SharedExpertCall::Sparse(request.as_sparse()),
                "CUDA prefill MoE shared expert batch failed: "@,
                output,
            )
        },
{
    let call = if shared_f32_enabled {
        let weights = request.shared.expanded(expand);
        if !is_product(weights.gate.len(), request.n_ff, request.n_embd) || !is_product(
            weights.up.len(),
            request.n_ff,
            request.n_embd,
        ) || !is_product(weights.down.len(), request.n_ff, request.n_embd) {
            assert(!weights.fit(request.n_ff, request.n_embd));
            return Err(String::from_str("CUDA shared f32 MoE dequant shape mismatch"));
        }
        assert(weights.fit(request.n_ff, request.n_embd));
        SharedExpertCall::Expanded(
            ExpandedShared {
                weights,
                route_weights: request.route_weights,
                n_ff: request.n_ff,
                n_embd: request.n_embd,
                norm_all: request.norm_all,
            },
        )
    } else {
        SharedExpertCall::Sparse(
            SparsePrompt {
                experts: request.experts,
                route_weights: request.route_weights,
                token_ids: request.token_ids,
                seq_len: request.seq_len,
                down_quant: request.shared.down_quant,
                n_ff: request.n_ff,
                n_embd: request.n_embd,
                norm_all: request.norm_all,
            },
        )
    };
    ask(device, call, "CUDA prefill MoE shared expert batch failed: ")
}

/// A prompt's sparse experts beside the shared one: `E` says where their weights are,
/// `R` how the prompt is routed.
#[derive(Debug, Clone, Copy, PartialEq, Eq)]
pub struct CombinedPrompt<'a, E, R> {
    pub experts: E,
    pub routes: R,
    pub shared_route_weights: &'a [u32],
    pub seq_len: usize,
    pub down_quant: GGMLType,
    pub n_ff: usize,
    pub n_embd: usize,
    pub norm_all: &'a [u32],
}

/// Whether `output` is what comes of a prompt's shared and sparse experts: a shared
/// expert that can run as it is is first offered so, which may give the output, decline
/// or fail, and is expanded only if that declines.
pub open spec fn combined_answers<
    'a,
    Q,
    T,
    X: Fn(&[u8], DequantType) -> Vec<u32>,
    H: FnOnce((SharedExpert<'a>, Q)) -> Result<Option<T>, String>,
    D: FnOnce((SharedExpertFloats, Q)) -> Result<T, String>,
>(
    shared: SharedExpert<'a>,
    request: Q,
    cached_context: Seq<char>,
    context: Seq<char>,
    expand: X,
    cached: H,
    device: D,
    output: Result<T, String>,
) -> bool {
    if shared.runs_quantized() {
        exists|reply: Result<Option<T>, String>| #[trigger]
            call_ensures(cached, ((shared, request),), reply) && match reply {
                Ok(Some(value)) => output == Ok::<T, String>(value),
                Ok(None) => expanded_answers(shared, request, context, expand, device, output),
                Err(cause) => output matches Err(message) && message@ == cached_context + cause@,
            }
    } else {
        expanded_answers(shared, request, context, expand, device, output)
    }
}

/// Whether `output` is what comes of a prompt's sparse experts and an expanded shared
/// one.
pub open spec fn expanded_answers<
    'a,
    Q,
    T,
    X: Fn(&[u8], DequantType) -> Vec<u32>,
    D: FnOnce((SharedExpertFloats, Q)) -> Result<T, String>,
>(
    shared: SharedExpert<'a>,
    request: Q,
    context: Seq<char>,
    expand: X,
    device: D,
    output: Result<T, String>,
) -> bool {
    exists|floats: SharedExpertFloats| #[trigger]
        floats.expanded_from(shared, expand) && answers(device, (floats, request), context, output)
}

fn run_combined<
    'a,
    Q: Copy,
    T,
    X: Fn(&[u8], DequantType) -> Vec<u32>,
    H: FnOnce((SharedExpert<'a>, Q)) -> Result<Option<T>, String>,
    D: FnOnce((SharedExpertFloats, Q)) -> Result<T, String>,
>(
    shared: SharedExpert<'a>,
    request: Q,
    cached_context: &str,
    context: &str,
    expand: &X,
    cached: H,
    device: D,
) -> (output: Result<T, String>)
    requires
        shared.expandable(),
        forall|raw: &[u8], dequant: DequantType| call_requires(*expand, (raw, dequant)),
        call_requires(cached, ((shared, request),)),
        forall|floats: SharedExpertFloats| call_requires(device, ((floats, request),)),
    ensures
        combined_answers(
            shared,
            request,
            cached_context@,
            context@,
            *expand,
            cached,
            device,
            output,
        ),
{
    if shared.can_run_quantized() {
        let reply = cached((shared, request));
        match reply {
            Ok(Some(value)) => return Ok(value),
            Ok(None) => {},
            Err(cause) => {
                let mut message = String::from_str(cached_context);
                message.append(cause.as_str());
                return Err(message);
            },
        }
    }
    let floats = shared.expanded(expand);
    ask(device, (floats, request), context)
}

/// Runs a prompt's shared and sparse experts.
pub fn qwen_moe_prefill_combined_f32_shared_sparse_by_token<
    'a,
    T,
    X: Fn(&[u8], DequantType) -> Vec<u32>,
    H: FnOnce(
        (SharedExpert<'a>, CombinedPrompt<'a, ChosenExperts<'a>, PromptRoutes<'a>>),
    ) -> Result<Option<T>, String>,
    D: FnOnce(
        (SharedExpertFloats, CombinedPrompt<'a, ChosenExperts<'a>, PromptRoutes<'a>>),
    ) -> Result<T, String>,
>(
    shared: SharedExpert<'a>,
    request: CombinedPrompt<'a, ChosenExperts<'a>, PromptRoutes<'a>>,
    expand: &X,
    cached: H,
    device: D,
) -> (output: Result<T, String>)
    requires
        shared.expandable(),
        forall|raw: &[u8], dequant: DequantType| call_requires(*expand, (raw, dequant)),
        call_requires(cached, ((shared, request),)),
        forall|floats: SharedExpertFloats| call_requires(device, ((floats, request),)),
    ensures
        combined_answers(
            shared,
            request,
            "CUDA prefill MoE cached Q4 shared+sparse failed: "@,
            "CUDA prefill MoE combined shared+sparse failed: "@,
            *expand,
            cached,
            device,
            output,
        ),
{
    run_combined(
        shared,
        request,
        "CUDA prefill MoE cached Q4 shared+sparse failed: ",
        "CUDA prefill MoE combined shared+sparse failed: ",
        expand,
        cached,
        device,
    )
}

/// Runs a prompt's shared and sparse experts, these out of all.
pub fn qwen_moe_prefill_combined_f32_shared_sparse_selected_base_by_token<
    'a,
    T,
    X: Fn(&[u8], DequantType) -> Vec<u32>,
    H: FnOnce(
        (SharedExpert<'a>, CombinedPrompt<'a, LayerExperts<'a>, PromptRoutes<'a>>),
    ) -> Result<Option<T>, String>,
    D: FnOnce(
        (SharedExpertFloats, CombinedPrompt<'a, LayerExperts<'a>, PromptRoutes<'a>>),
    ) -> Result<T, String>,
>(
    shared: SharedExpert<'a>,
    request: CombinedPrompt<'a, LayerExperts<'a>, PromptRoutes<'a>>,
    expand: &X,
    cached: H,
    device: D,
) -> (output: Result<T, String>)
    requires
        shared.expandable(),
        forall|raw: &[u8], dequant: DequantType| call_requires(*expand, (raw, dequant)),
        call_requires(cached, ((shared, request),)),
        forall|floats: SharedExpertFloats| call_requires(device, ((floats, request),)),
    ensures
        combined_answers(
            shared,
            request,
            "CUDA prefill MoE cached selected-base Q4 shared+sparse failed: "@,
            "CUDA prefill MoE selected-base combined shared+sparse failed: "@,
            *expand,
            cached,
            device,
            output,
        ),
{
    run_combined(
        shared,
        request,
        "CUDA prefill MoE cached selected-base Q4 shared+sparse failed: ",
        "CUDA prefill MoE selected-base combined shared+sparse failed: ",
        expand,
        cached,
        device,
    )
}

/// Runs a prompt's shared and sparse experts, routed on the device.
pub fn qwen_moe_prefill_combined_f32_shared_sparse_device_topk_selected_base_by_token<
    'a,
    T,
    X: Fn(&[u8], DequantType) -> Vec<u32>,
    H: FnOnce(
        (SharedExpert<'a>, CombinedPrompt<'a, LayerExperts<'a>, DeviceRouter<'a>>),
    ) -> Result<Option<T>, String>,
    D: FnOnce(
        (SharedExpertFloats, CombinedPrompt<'a, LayerExperts<'a>, DeviceRouter<'a>>),
    ) -> Result<T, String>,
>(
    shared: SharedExpert<'a>,
    request: CombinedPrompt<'a, LayerExperts<'a>, DeviceRouter<'a>>,
    expand: &X,
    cached: H,
    device: D,
) -> (output: Result<T, String>)
    requires
        shared.expandable(),
        forall|raw: &[u8], dequant: DequantType| call_requires(*expand, (raw, dequant)),
        call_requires(cached, ((shared, request),)),
        forall|floats: SharedExpertFloats| call_requires(device, ((floats, request),)),
    ensures
        combined_answers(
            shared,
            request,
            "CUDA prefill MoE cached device-topk selected-base Q4 shared+sparse failed: "@,
            "CUDA prefill MoE device-topk selected-base combined shared+sparse failed: "@,
            *expand,
            cached,
            device,
            output,
        ),
{
    run_combined(
        shared,
        request,
        "CUDA prefill MoE cached device-topk selected-base Q4 shared+sparse failed: ",
        "CUDA prefill MoE device-topk selected-base combined shared+sparse failed: ",
        expand,
        cached,
        device,
    )
}

/// Runs a prompt's shared and sparse experts with a whole layer resident.
pub fn qwen_moe_prefill_combined_f32_shared_sparse_full_layer_by_token<
    'a,
    T,
    X: Fn(&[u8], DequantType) -> Vec<u32>,
    H: FnOnce(
        (SharedExpert<'a>, CombinedPrompt<'a, LayerExperts<'a>, PromptRoutes<'a>>),
    ) -> Result<Option<T>, String>,
    D: FnOnce(
        (SharedExpertFloats, CombinedPrompt<'a, LayerExperts<'a>, PromptRoutes<'a>>),
    ) -> Result<T, String>,
>(
    shared: SharedExpert<'a>,
    request: CombinedPrompt<'a, LayerExperts<'a>, PromptRoutes<'a>>,
    expand: &X,
    cached: H,
    device: D,
) -> (output: Result<T, String>)
    requires
        shared.expandable(),
        forall|raw: &[u8], dequant: DequantType| call_requires(*expand, (raw, dequant)),
        call_requires(cached, ((shared, request),)),
        forall|floats: SharedExpertFloats| call_requires(device, ((floats, request),)),
    ensures
        combined_answers(
            shared,
            request,
            "CUDA prefill MoE cached full-layer Q4 shared+sparse failed: "@,
            "CUDA prefill MoE full-layer combined shared+sparse failed: "@,
            *expand,
            cached,
            device,
            output,
        ),
{
    run_combined(
        shared,
        request,
        "CUDA prefill MoE cached full-layer Q4 shared+sparse failed: ",
        "CUDA prefill MoE full-layer combined shared+sparse failed: ",
        expand,
        cached,
        device,
    )
}

/// The output of a prompt's experts on the device.
#[derive(Debug, Clone, Copy, PartialEq, Eq, Structural)]
pub struct QwenMoeDeviceInputOutput {
    pub output_id: DeviceTensorId,
    pub output_desc: DeviceTensorDesc,
}

/// A prompt's sparse experts on device tensors.
#[derive(Debug, Clone, Copy, PartialEq, Eq)]
pub struct DeviceInputPrompt<'a> {
    pub shared_input_scale: &'a [u32],
    pub experts: LayerExperts<'a>,
    pub router: DeviceRouter<'a>,
    pub input_id: DeviceTensorId,
    pub input_desc: DeviceTensorDesc,
    pub residual_id: DeviceTensorId,
    pub residual_desc: DeviceTensorDesc,
    pub seq_len: usize,
    pub down_quant: GGMLType,
    pub n_ff: usize,
    pub n_embd: usize,
}

/// A prompt's experts on device tensors as the device is asked for them.
#[derive(Debug)]
pub struct DeviceInputCall<'a> {
    pub shared: SharedExpertFloats,
    pub request: DeviceInputPrompt<'a>,
    /// The output takes the place of the residual.
    pub reuse_residual_output: bool,
}

/// Whether `output` is what comes of a prompt's experts on device tensors: a shared
/// expert whose down projection is neither plain nor in Q4_K or Q6_K is not taken.
pub open spec fn device_input_answers<
    'a,
    X: Fn(&[u8], DequantType) -> Vec<u32>,
    D: FnOnce(DeviceInputCall<'a>) -> Result<Option<QwenMoeDeviceInputOutput>, String>,
>(
    shared: SharedExpert<'a>,
    request: DeviceInputPrompt<'a>,
    reuse_residual_output: bool,
    expand: X,
    device: D,
    output: Result<Option<QwenMoeDeviceInputOutput>, String>,
) -> bool {
    if shared.down_taken() {
        exists|floats: SharedExpertFloats| #[trigger]
            floats.expanded_from(shared, expand) && answers(
                device,
                DeviceInputCall { shared: floats, request, reuse_residual_output },
                "CUDA prefill MoE device-input selected-base combined shared+sparse failed: "@,
                output,
            )
    } else {
        output == Ok::<Option<QwenMoeDeviceInputOutput>, String>(None)
    }
}

fn qwen_moe_prefill_combined_f32_shared_sparse_device_topk_selected_base_device_input_impl<
    'a,
    X: Fn(&[u8], DequantType) -> Vec<u32>,
    D: FnOnce(DeviceInputCall<'a>) -> Result<Option<QwenMoeDeviceInputOutput>, String>,
>(
    shared: SharedExpert<'a>,
    request: DeviceInputPrompt<'a>,
    reuse_residual_output: bool,
    expand: &X,
    device: D,
) -> (output: Result<Option<QwenMoeDeviceInputOutput>, String>)
    requires
        shared.down_taken() ==> shared.expandable(),
        forall|raw: &[u8], dequant: DequantType| call_requires(*expand, (raw, dequant)),
        forall|call: DeviceInputCall<'a>| call_requires(device, (call,)),
    ensures
        device_input_answers(shared, request, reuse_residual_output, *expand, device, output),
{
    let taken: bool = match shared.down_quant {
        GGMLType::F32 | GGMLType::Q4_K | GGMLType::Q6_K => true,
        _ => false,
    };
    if !taken {
        return Ok(None);
    }
    let floats = shared.expanded(expand);
    ask(
        device,
        DeviceInputCall { shared: floats, request, reuse_residual_output },
        "CUDA prefill MoE device-input selected-base combined shared+sparse failed: ",
    )
}

/// Runs a prompt's experts on device tensors, routed there.
pub fn qwen_moe_prefill_combined_f32_shared_sparse_device_topk_selected_base_device_input<
    'a,
    X: Fn(&[u8], DequantType) -> Vec<u32>,
    D: FnOnce(DeviceInputCall<'a>) -> Result<Option<QwenMoeDeviceInputOutput>, String>,
>(shared: SharedExpert<'a>, request: DeviceInputPrompt<'a>, expand: &X, device: D) -> (output:
    Result<Option<QwenMoeDeviceInputOutput>, String>)
    requires
        shared.down_taken() ==> shared.expandable(),
        forall|raw: &[u8], dequant: DequantType| call_requires(*expand, (raw, dequant)),
        forall|call: DeviceInputCall<'a>| call_requires(device, (call,)),
    ensures
        device_input_answers(shared, request, false, *expand, device, output),
{
    qwen_moe_prefill_combined_f32_shared_sparse_device_topk_selected_base_device_input_impl(
        shared,
        request,
        false,
        expand,
        device,
    )
}

/// Runs a prompt's experts on device tensors, routed there, in place of the residual.
pub fn qwen_moe_prefill_combined_f32_shared_sparse_device_topk_selected_base_device_input_reuse_residual<
    'a,
    X: Fn(&[u8], DequantType) -> Vec<u32>,
    D: FnOnce(DeviceInputCall<'a>) -> Result<Option<QwenMoeDeviceInputOutput>, String>,
>(shared: SharedExpert<'a>, request: DeviceInputPrompt<'a>, expand: &X, device: D) -> (output:
    Result<Option<QwenMoeDeviceInputOutput>, String>)
    requires
        shared.down_taken() ==> shared.expandable(),
        forall|raw: &[u8], dequant: DequantType| call_requires(*expand, (raw, dequant)),
        forall|call: DeviceInputCall<'a>| call_requires(device, (call,)),
    ensures
        device_input_answers(shared, request, true, *expand, device, output),
{
    qwen_moe_prefill_combined_f32_shared_sparse_device_topk_selected_base_device_input_impl(
        shared,
        request,
        true,
        expand,
        device,
    )
}

/// One expert for one token.
#[derive(Debug, Clone, Copy, PartialEq, Eq)]
pub struct OneExpert<'a> {
    pub gate: &'a [u8],
    pub up: &'a [u8],
    pub down: &'a [u8],
    pub down_quant: GGMLType,
    pub n_ff: usize,
    pub n_embd: usize,
    pub input: &'a [u32],
}

/// Runs one expert for one token, if that is switched on; a failure gives none.
pub fn qwen_moe_decode_expert<'a, T, D: FnOnce(OneExpert<'a>) -> Result<T, String>>(
    gate_up_enabled: bool,
    request: OneExpert<'a>,
    device: D,
) -> (output: Option<T>)
    requires
        call_requires(device, (request,)),
    ensures
        if gate_up_enabled {
            exists|reply: Result<T, String>| #[trigger]
                call_ensures(device, (request,), reply) && output == (match reply {
                    Ok(value) => Some(value),
                    Err(_) => None,
                })
        } else {
            output is None
        },
{
    if !gate_up_enabled {
        return None;
    }
    let reply = device(request);
    match reply {
        Ok(value) => Some(value),
        Err(_) => None,
    }
}

/// Multiplies one expert's gate and up weights in Q4_K, if that is switched on; a failure
/// of either gives none, and one of the first leaves the second alone.
pub fn qwen_moe_decode_gate_up<
    'a,
    T,
    D: Fn(&'a [u8], usize, usize, &'a [u32]) -> Result<T, String>,
>(
    gate_up_enabled: bool,
    gate: &'a [u8],
    up: &'a [u8],
    n_ff: usize,
    n_embd: usize,
    input: &'a [u32],
    device: &D,
) -> (output: Option<(T, T)>)
    requires
        call_requires(*device, (gate, n_ff, n_embd, input)),
        call_requires(*device, (up, n_ff, n_embd, input)),
    ensures
        if gate_up_enabled {
            exists|first: Result<T, String>| #[trigger]
                call_ensures(*device, (gate, n_ff, n_embd, input), first) && match first {
                    Ok(gated) => exists|second: Result<T, String>| #[trigger]
                        call_ensures(*device, (up, n_ff, n_embd, input), second) && output == (
                        match second {
                            Ok(raised) => Some((gated, raised)),
                            Err(_) => None,
                        }),
                    Err(_) => output is None,
                }
        } else {
            output is None
        },
{
    if !gate_up_enabled {
        return None;
    }
    let first = (*device)(gate, n_ff, n_embd, input);
    match first {
        Ok(gated) => {
            let second = (*device)(up, n_ff, n_embd, input);
            match second {
                Ok(raised) => Some((gated, raised)),
                Err(_) => None,
            }
        },
        Err(_) => None,
    }
}

/// The formats of a down projection that have a kernel.
pub open spec fn down_has_kernel(down_quant: GGMLType) -> bool {
    down_quant is Q4_K || down_quant is Q5_K || down_quant is Q6_K
}

/// Runs the down projection of one expert, if that is switched on and its format has a
/// kernel; a failure gives none.
pub fn qwen_moe_decode_down<
    'a,
    T,
    D: FnOnce(GGMLType, &'a [u8], usize, usize, &'a [u32]) -> Result<T, String>,
>(
    gate_up_enabled: bool,
    down_quant: GGMLType,
    down: &'a [u8],
    n_embd: usize,
    n_ff: usize,
    input: &'a [u32],
    device: D,
) -> (output: Option<T>)
    requires
        call_requires(device, (down_quant, down, n_embd, n_ff, input)),
    ensures
        if gate_up_enabled && down_has_kernel(down_quant) {
            exists|reply: Result<T, String>| #[trigger]
                call_ensures(device, (down_quant, down, n_embd, n_ff, input), reply) && output == (
                match reply {
                    Ok(value) => Some(value),
                    Err(_) => None,
                })
        } else {
            output is None
        },
{
    if !gate_up_enabled || !qwen_moe_device_roundtrip_supports_quant(down_quant) {
        return None;
    }
    let reply = device(down_quant, down, n_embd, n_ff, input);
    match reply {
        Ok(value) => Some(value),
        Err(_) => None,
    }
}

/// Whether experts with this down projection can stay on the device.
pub fn qwen_moe_device_roundtrip_supports_quant(down_quant: GGMLType) -> (supported: bool)
    ensures
        supported == down_has_kernel(down_quant),
{
    match down_quant {
        GGMLType::Q4_K | GGMLType::Q5_K | GGMLType::Q6_K => true,
        _ => false,
    }
}

/// The paths of a token's sparse experts.
#[derive(Debug, Clone, Copy, PartialEq, Eq, Structural)]
pub enum SparseExpertsPath {
    DeviceRoundtrip,
    Plain,
}

pub open spec fn sparse_experts_path(
    device_decode_enabled: bool,
    down_quant: GGMLType,
) -> SparseExpertsPath {
    if device_decode_enabled && down_has_kernel(down_quant) {
        SparseExpertsPath::DeviceRoundtrip
    } else {
        SparseExpertsPath::Plain
    }
}

/// A token's sparse experts.
#[derive(Debug, Clone, Copy, PartialEq, Eq)]
pub struct SparseToken<'a> {
    pub experts: ChosenExperts<'a>,
    pub route_weights: &'a [u32],
    pub layer_idx: Option<usize>,
    pub selected_expert_ids: &'a [usize],
    pub down_quant: GGMLType,
    pub n_ff: usize,
    pub n_embd: usize,
    pub input: &'a [u32],
}

/// Runs a token's sparse experts, on the device throughout where that is switched on
/// and there is a kernel. `receipt` notes what the device saw of the experts.
pub fn qwen_moe_decode_sparse_experts<
    'a,
    O,
    T,
    D: FnOnce((SparseExpertsPath, SparseToken<'a>, O)) -> Result<T, String>,
>(device_decode_enabled: bool, request: SparseToken<'a>, receipt: O, device: D) -> (output: Result<
    T,
    String,
>)
    requires
        forall|path: SparseExpertsPath| call_requires(device, ((path, request, receipt),)),
    ensures
        call_ensures(
            device,
            ((sparse_experts_path(device_decode_enabled, request.down_quant), request, receipt),),
            output,
        ),
{
    let path = if device_decode_enabled && qwen_moe_device_roundtrip_supports_quant(
        request.down_quant,
    ) {
        SparseExpertsPath::DeviceRoundtrip
    } else {
        SparseExpertsPath::Plain
    };
    device((path, request, receipt))
}

/// A prompt in front of a router; floats are their bits.
#[derive(Debug, Clone, Copy, PartialEq, Eq)]
pub struct RouterPrompt<'a> {
    pub router_w: &'a [u32],
    pub n_expert: usize,
    pub hidden_dim: usize,
    pub norm_all: &'a [u32],
}

/// Makes a router's logits.
pub fn qwen_moe_prefill_router_logits<
    'a,
    T,
    D: FnOnce(RouterPrompt<'a>) -> Result<T, String>,
>(
    request: RouterPrompt<'a>,
    device: D,
) -> (output: Result<T, String>)
    requires
        call_requires(device, (request,)),
    ensures
        answers(device, request, "CUDA prefill MoE router failed: "@, output),
{
    ask(device, request, "CUDA prefill MoE router failed: ")
}

/// A layer of experts to register.
#[derive(Debug, Clone, Copy, PartialEq, Eq)]
pub struct ExpertLayer<'a> {
    pub experts: LayerExperts<'a>,
    pub down_quant: GGMLType,
    pub n_ff: usize,
    pub n_embd: usize,
}

/// Registers a layer of experts.
pub fn qwen_moe_register_layer<
    'a,
    D: FnOnce(ExpertLayer<'a>) -> Result<bool, String>,
>(
    request: ExpertLayer<'a>,
    device: D,
) -> (output: Result<bool, String>)
    requires
        call_requires(device, (request,)),
    ensures
        answers(device, request, "CUDA MoE layer registration failed: "@, output),
{
    ask(device, request, "CUDA MoE layer registration failed: ")
}

/// Runs a prompt's sparse experts.
pub fn qwen_moe_prefill_sparse_experts_by_token<
    'a,
    T,
    D: FnOnce(SparsePrompt<'a>) -> Result<T, String>,
>(
    request: SparsePrompt<'a>,
    device: D,
) -> (output: Result<T, String>)
    requires
        call_requires(device, (request,)),
    ensures
        answers(device, request, "CUDA prefill MoE sparse batch failed: "@, output),
{
    ask(device, request, "CUDA prefill MoE sparse batch failed: ")
}

/// A prompt's sparse experts, out of all of a layer.
#[derive(Debug, Clone, Copy, PartialEq, Eq)]
pub struct SelectedPrompt<'a> {
    pub experts: LayerExperts<'a>,
    pub routes: PromptRoutes<'a>,
    pub seq_len: usize,
    pub down_quant: GGMLType,
    pub n_ff: usize,
    pub n_embd: usize,
    pub norm_all: &'a [u32],
}

/// Runs a prompt's sparse experts out of all.
pub fn qwen_moe_prefill_sparse_experts_selected_base_by_token<
    'a,
    T,
    D: FnOnce(SelectedPrompt<'a>) -> Result<T, String>,
>(
    request: SelectedPrompt<'a>,
    device: D,
) -> (output: Result<T, String>)
    requires
        call_requires(device, (request,)),
    ensures
        answers(device, request, "CUDA prefill MoE selected-base sparse batch failed: "@, output),
{
    ask(device, request, "CUDA prefill MoE selected-base sparse batch failed: ")
}

/// Copies the chosen experts to the device; the answer says which are there.
pub fn qwen_moe_prepare_selected_bundle_residency<
    Q,
    T,
    D: FnOnce(Q) -> Result<T, String>,
>(
    request: Q,
    device: D,
) -> (output: Result<T, String>)
    requires
        call_requires(device, (request,)),
    ensures
        call_ensures(device, (request,), output),
{
    device(request)
}

/// Runs resident experts, slot by slot.
pub fn qwen_moe_decode_sparse_experts_per_slot_resident<
    Q,
    T,
    D: FnOnce(Q) -> Result<T, String>,
>(
    request: Q,
    device: D,
) -> (output: Result<T, String>)
    requires
        call_requires(device, (request,)),
    ensures
        call_ensures(device, (request,), output),
{
    device(request)
}

/// Runs a token's sparse experts into an output.
pub fn qwen_moe_decode_sparse_experts_into<
    Q,
    D: FnOnce(Q) -> Result<(), String>,
>(
    request: Q,
    device: D,
) -> (output: Result<(), String>)
    requires
        call_requires(device, (request,)),
    ensures
        call_ensures(device, (request,), output),
{
    device(request)
}

/// Runs a token's IQ4_XS experts into an output.
pub fn qwen_moe_decode_sparse_experts_iq4xs_into<
    Q,
    D: FnOnce(Q) -> Result<(), String>,
>(
    request: Q,
    device: D,
) -> (output: Result<(), String>)
    requires
        call_requires(device, (request,)),
    ensures
        call_ensures(device, (request,), output),
{
    device(request)
}

/// Runs a token's sparse experts onto the residual.
pub fn qwen_moe_decode_sparse_experts_add_residual_into<
    Q,
    D: FnOnce(Q) -> Result<(), String>,
>(
    request: Q,
    device: D,
) -> (output: Result<(), String>)
    requires
        call_requires(device, (request,)),
    ensures
        call_ensures(device, (request,), output),
{
    device(request)
}

/// Runs a token's IQ4_XS experts onto the residual.
pub fn qwen_moe_decode_sparse_experts_iq4xs_add_residual_into<
    Q,
    D: FnOnce(Q) -> Result<(), String>,
>(
    request: Q,
    device: D,
) -> (output: Result<(), String>)
    requires
        call_requires(device, (request,)),
    ensures
        call_ensures(device, (request,), output),
{
    device(request)
}

/// Runs a token's shared and sparse experts into an output.
pub fn qwen_moe_decode_shared_sparse_experts_into<
    Q,
    D: FnOnce(Q) -> Result<(), String>,
>(
    request: Q,
    device: D,
) -> (output: Result<(), String>)
    requires
        call_requires(device, (request,)),
    ensures
        call_ensures(device, (request,), output),
{
    device(request)
}

/// Runs a token's IQ4_XS experts.
pub fn qwen_moe_decode_sparse_experts_iq4xs<
    Q,
    T,
    D: FnOnce(Q) -> Result<T, String>,
>(
    request: Q,
    device: D,
) -> (output: Result<T, String>)
    requires
        call_requires(device, (request,)),
    ensures
        call_ensures(device, (request,), output),
{
    device(request)
}
/// The routes that the device makes are read across its three arrays, place by place.
pub proof fn law_routes_are_read_across_the_arrays(arrays: RouteArrays, i: int)
    requires
        0 <= i < arrays.expert_ids@.len(),
    ensures
        arrays.aligned() <==> arrays.route_weights@.len() == arrays.expert_ids@.len()
            && arrays.token_ids@.len() == arrays.expert_ids@.len(),
        arrays.slots().len() == arrays.expert_ids@.len(),
        arrays.slots()[i].expert == arrays.expert_ids@[i],
        arrays.slots()[i].token == arrays.token_ids@[i],
        arrays.slots()[i].weight == arrays.route_weights@[i],
{
}

/// Routes that the device gives are handed on as they are, if the arrays are of one length;
/// else they are refused, and a failure is told in its context.
pub proof fn law_only_aligned_routes_are_handed_on<
    'a,
    D: FnOnce(UnroutedPrompt<'a>) -> Result<RouteArrays, String>,
>(device: D, request: UnroutedPrompt<'a>, output: Result<RouteArrays, String>)
    requires
        route_arrays_answer(device, request, output),
    ensures
        output matches Ok(arrays) ==> {
            &&& call_ensures(device, (request,), Ok::<RouteArrays, String>(arrays))
            &&& arrays.route_weights@.len() == arrays.expert_ids@.len()
            &&& arrays.token_ids@.len() == arrays.expert_ids@.len()
        },
        output matches Err(message) ==> {
            ||| message@ == "CUDA prefill MoE device top-k returned mismatched arrays"@ && exists|
                arrays: RouteArrays,
            |
                #![trigger call_ensures(device, (request,), Ok::<RouteArrays, String>(arrays))]
                call_ensures(device, (request,), Ok::<RouteArrays, String>(arrays)) && !(
                arrays.route_weights@.len() == arrays.expert_ids@.len() && arrays.token_ids@.len()
                    == arrays.expert_ids@.len())
            ||| exists|cause: String|
                #![trigger call_ensures(device, (request,), Err::<RouteArrays, String>(cause))]
                call_ensures(device, (request,), Err::<RouteArrays, String>(cause)) && message@
                    == "CUDA prefill MoE device top-k route failed: "@ + cause@
        },
{
}

/// Each weight of a shared expert is expanded from its own bytes in its own format, and the
/// three fit with a float for each row and column.
pub proof fn law_shared_experts_are_expanded_part_by_part<X: Fn(&[u8], DequantType) -> Vec<u32>>(
    floats: SharedExpertFloats,
    shared: SharedExpert<'_>,
    expand: X,
    n_ff: usize,
    n_embd: usize,
)
    ensures
        floats.fit(n_ff, n_embd) <==> floats.gate@.len() == n_ff * n_embd && floats.up@.len() == n_ff
            * n_embd && floats.down@.len() == n_ff * n_embd,
        floats.expanded_from(shared, expand) ==> {
            &&& call_ensures(expand, (shared.gate, expansion(shared.gate_quant)), floats.gate)
            &&& call_ensures(expand, (shared.up, expansion(shared.up_quant)), floats.up)
            &&& call_ensures(expand, (shared.down, expansion(shared.down_quant)), floats.down)
        },
        shared.expandable() <==> holds_weights(shared.gate_quant) && holds_weights(shared.up_quant)
            && holds_weights(shared.down_quant),
{
}

/// A shared expert runs as it is with a gate and an up projection in Q4_K and a down
/// projection in Q4_K or Q6_K; on device tensors it is taken by its down projection alone,
/// and any that runs as it is is among those.
pub proof fn law_which_shared_experts_run_as_they_are(shared: SharedExpert<'_>, t: GGMLType)
    ensures
        shared.runs_quantized() <==> shared.gate_quant is Q4_K && shared.up_quant is Q4_K && (
        shared.down_quant is Q4_K || shared.down_quant is Q6_K),
        shared.down_taken() <==> shared.down_quant is F32 || shared.down_quant is Q4_K
            || shared.down_quant is Q6_K,
        shared.runs_quantized() ==> shared.down_taken() && shared.expandable(),
        down_has_kernel(t) <==> t is Q4_K || t is Q5_K || t is Q6_K,
        sparse_experts_path(true, t) is DeviceRoundtrip <==> t is Q4_K || t is Q5_K || t is Q6_K,
        sparse_experts_path(false, t) is Plain,
{
}

/// A prompt's shared expert keeps its routes, tokens, sizes and activations, whether it runs
/// as sparse experts or expanded.
pub proof fn law_shared_prompts_keep_their_parts(
    prompt: SharedPrompt<'_>,
    weights: SharedExpertFloats,
)
    ensures
        prompt.as_sparse().experts == prompt.experts,
        prompt.as_sparse().route_weights@ == prompt.route_weights@,
        prompt.as_sparse().token_ids@ == prompt.token_ids@,
        prompt.as_sparse().seq_len == prompt.seq_len,
        prompt.as_sparse().down_quant == prompt.shared.down_quant,
        prompt.as_sparse().n_ff == prompt.n_ff,
        prompt.as_sparse().n_embd == prompt.n_embd,
        prompt.as_sparse().norm_all@ == prompt.norm_all@,
        prompt.as_expanded(weights).weights == weights,
        prompt.as_expanded(weights).route_weights@ == prompt.route_weights@,
        prompt.as_expanded(weights).n_ff == prompt.n_ff,
        prompt.as_expanded(weights).n_embd == prompt.n_embd,
        prompt.as_expanded(weights).norm_all@ == prompt.norm_all@,
{
}

/// Shared and sparse experts run expanded unless the shared one can run as it is and is
/// taken so; it is offered as it is only if it can run so, and a failure there is told in
/// its own context.
pub proof fn law_when_shared_experts_are_expanded<
    'a,
    Q,
    T,
    X: Fn(&[u8], DequantType) -> Vec<u32>,
    H: FnOnce((SharedExpert<'a>, Q)) -> Result<Option<T>, String>,
    D: FnOnce((SharedExpertFloats, Q)) -> Result<T, String>,
>(
    shared: SharedExpert<'a>,
    request: Q,
    cached_context: Seq<char>,
    context: Seq<char>,
    expand: X,
    cached: H,
    device: D,
    output: Result<T, String>,
)
    requires
        combined_answers(
            shared,
            request,
            cached_context,
            context,
            expand,
            cached,
            device,
            output,
        ),
    ensures
        ({
            let as_it_is = shared.gate_quant is Q4_K && shared.up_quant is Q4_K && (
            shared.down_quant is Q4_K || shared.down_quant is Q6_K);
            let expanded = exists|floats: SharedExpertFloats|
                {
                    &&& #[trigger] floats.expanded_from(shared, expand)
                    &&& answers(device, (floats, request), context, output)
                };
            &&& !as_it_is ==> expanded
            &&& as_it_is ==> {
                ||| expanded && call_ensures(
                    cached,
                    ((shared, request),),
                    Ok::<Option<T>, String>(None),
                )
                ||| output is Ok && call_ensures(
                    cached,
                    ((shared, request),),
                    Ok::<Option<T>, String>(Some(output->Ok_0)),
                )
                ||| output is Err && exists|cause: String|
                    #![trigger call_ensures(cached, ((shared, request),), Err::<Option<T>, String>(cause))]
                    call_ensures(cached, ((shared, request),), Err::<Option<T>, String>(cause))
                        && output->Err_0@ == cached_context + cause@
            }
        }),
{
}

/// Experts on device tensors are asked for with the expanded shared expert, the request and
/// the place of the output that were given, and only with a down projection that is taken.
pub proof fn law_device_inputs_are_asked_for_as_given<
    'a,
    X: Fn(&[u8], DequantType) -> Vec<u32>,
    D: FnOnce(DeviceInputCall<'a>) -> Result<Option<QwenMoeDeviceInputOutput>, String>,
>(
    shared: SharedExpert<'a>,
    request: DeviceInputPrompt<'a>,
    reuse_residual_output: bool,
    expand: X,
    device: D,
    output: Result<Option<QwenMoeDeviceInputOutput>, String>,
)
    requires
        device_input_answers(shared, request, reuse_residual_output, expand, device, output),
    ensures
        ({
            let taken = shared.down_quant is F32 || shared.down_quant is Q4_K
                || shared.down_quant is Q6_K;
            &&& !taken ==> output == Ok::<Option<QwenMoeDeviceInputOutput>, String>(None)
            &&& taken ==> exists|call: DeviceInputCall<'a>|
                {
                    &&& #[trigger] answers(
                        device,
                        call,
                        "CUDA prefill MoE device-input selected-base combined shared+sparse failed: "@,
                        output,
                    )
                    &&& call.shared.expanded_from(shared, expand)
                    &&& call.request == request
                    &&& call.reuse_residual_output == reuse_residual_output
                }
        }),
{
}

} // verus!
