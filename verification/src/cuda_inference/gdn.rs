//! Delta nets and Mamba layers on the device.

use crate::backend_api::{in_context, with_context, DeviceTensorDesc, DeviceTensorId};
use crate::cuda_inference::device::{answers, answers_some, ask, ask_some};
use crate::cuda_inference::products::WeightMatrix;
use crate::device_prefill::{NemotronPrefillWorkspaceDecision, NemotronPrefillWorkspacePlan};
use crate::quant::{
    dequant_type, expansion, holds_weights, quant_format, DequantType, GGMLType,
};
use crate::text::{
    begins_with, decimal, lemma_says, lemma_says_more, push_decimal, same_text, says,
};
use vstd::prelude::*;

verus! {

/// The sizes of a workspace as the device is asked for it.
#[derive(Debug, Clone, Copy, PartialEq, Eq, Structural)]
pub struct NemotronPrefillWorkspaceConfig {
    pub hidden_bytes: usize,
    pub normalized_bytes: usize,
    pub router_logits_bytes: usize,
    pub route_bytes: usize,
    pub moe_shared_mid_bytes: usize,
    pub moe_sparse_mid_bytes: usize,
    pub required_workspace_bytes: usize,
    pub enabled: bool,
}

/// Bytes of the sparse experts' middle values: one row for each route, and at least
/// one.
pub open spec fn sparse_mid_bytes(plan: NemotronPrefillWorkspacePlan) -> int {
    (if plan.route_slots == 0 {
        1
    } else {
        plan.route_slots as int
    }) * plan.n_ff * 4
}

/// Bytes of the shared expert's middle values: one row for each token of a chunk.
pub open spec fn shared_mid_bytes(plan: NemotronPrefillWorkspacePlan) -> int {
    plan.chunk_len * plan.shared_ff * 4
}

/// The workspace that a plan asks for. A plan that falls back leaves it disabled.
pub open spec fn workspace_config(plan: NemotronPrefillWorkspacePlan) -> NemotronPrefillWorkspaceConfig {
    NemotronPrefillWorkspaceConfig {
        hidden_bytes: plan.hidden_bytes,
        normalized_bytes: plan.normalized_bytes,
        router_logits_bytes: plan.router_logits_bytes,
        route_bytes: plan.route_bytes,
        moe_shared_mid_bytes: shared_mid_bytes(plan) as usize,
        moe_sparse_mid_bytes: sparse_mid_bytes(plan) as usize,
        required_workspace_bytes: plan.required_workspace_bytes,
        enabled: plan.decision != NemotronPrefillWorkspaceDecision::Fallback,
    }
}

fn bytes_of_floats(rows: usize, width: usize) -> (bytes: Option<usize>)
    ensures
        match bytes {
            Some(count) => count == rows * width * 4,
            None => rows * width * 4 > usize::MAX,
        },
{
    proof {
        assert(rows * width >= 0) by (nonlinear_arith);
    }
    let elements = rows.checked_mul(width)?;
    elements.checked_mul(4)
}

/// Sets the workspace of a prompt up.
pub fn begin_nemotron_prefill_workspace<
    T,
    D: FnOnce(NemotronPrefillWorkspaceConfig) -> Result<T, String>,
>(plan: &NemotronPrefillWorkspacePlan, device: D) -> (output: Result<T, String>)
    requires
        forall|config: NemotronPrefillWorkspaceConfig| call_requires(device, (config,)),
    ensures
        if sparse_mid_bytes(*plan) > usize::MAX {
            output matches Err(message) && message@
                == "Nemotron workspace sparse mid byte overflow"@
        } else if shared_mid_bytes(*plan) > usize::MAX {
            output matches Err(message) && message@
                == "Nemotron workspace shared mid byte overflow"@
        } else {
            answers(
                device,
                workspace_config(*plan),
                "CUDA Nemotron prefill workspace begin failed: "@,
                output,
            )
        },
{
    let sparse_slots: usize = if plan.route_slots == 0 {
        1
    } else {
        plan.route_slots
    };
    let moe_sparse_mid_bytes: usize = match bytes_of_floats(sparse_slots, plan.n_ff) {
        Some(bytes) => bytes,
        None => return Err(String::from_str("Nemotron workspace sparse mid byte overflow")),
    };
    let moe_shared_mid_bytes: usize = match bytes_of_floats(plan.chunk_len, plan.shared_ff) {
        Some(bytes) => bytes,
        None => return Err(String::from_str("Nemotron workspace shared mid byte overflow")),
    };
    let enabled: bool = match plan.decision {
        NemotronPrefillWorkspaceDecision::Fallback => false,
        _ => true,
    };
    let config = NemotronPrefillWorkspaceConfig {
        hidden_bytes: plan.hidden_bytes,
        normalized_bytes: plan.normalized_bytes,
        router_logits_bytes: plan.router_logits_bytes,
        route_bytes: plan.route_bytes,
        moe_shared_mid_bytes,
        moe_sparse_mid_bytes,
        required_workspace_bytes: plan.required_workspace_bytes,
        enabled,
    };
    ask(device, config, "CUDA Nemotron prefill workspace begin failed: ")
}

/// Gives the workspace of a prompt back.
pub fn end_nemotron_prefill_workspace<T, D: FnOnce() -> Result<T, String>>(device: D) -> (output:
    Result<T, String>)
    requires
        call_requires(device, ()),
    ensures
        exists|reply: Result<T, String>| #[trigger]
            call_ensures(device, (), reply) && in_context(
                reply,
                "CUDA Nemotron prefill workspace end failed: "@,
                output,
            ),
{
    let reply: Result<T, String> = device();
    with_context(reply, "CUDA Nemotron prefill workspace end failed: ")
}

/// The formats that are multiplied as they are, several vectors at a time.
pub open spec fn batches(ggml_type: GGMLType) -> bool {
    ggml_type is Q5_0 || ggml_type is Q5_1 || ggml_type is Q4_K || ggml_type is Q5_K
        || ggml_type is Q6_K || ggml_type is IQ4_XS
}

pub fn gdn_prefill_batch_quant_supported(ggml_type: GGMLType) -> (supported: bool)
    ensures
        supported == batches(ggml_type),
{
    match ggml_type {
        GGMLType::Q5_0
        | GGMLType::Q5_1
        | GGMLType::Q4_K
        | GGMLType::Q5_K
        | GGMLType::Q6_K
        | GGMLType::IQ4_XS => true,
        _ => false,
    }
}

/// Whether the tuning's mode is single precision.
pub open spec fn is_f32_mode(mode: Option<String>) -> bool {
    mode matches Some(text) && text@ == "f32"@
}

/// The mode of a projection: as requested, but one or two tokens are not worth
/// expanding weights for that can be multiplied as they are.
pub open spec fn effective_mode(
    ggml_type: GGMLType,
    seq_len: usize,
    requested: Seq<char>,
) -> Seq<char> {
    if batches(ggml_type) && seq_len <= 2 && requested == "f32"@ {
        "q"@
    } else {
        requested
    }
}

pub fn gdn_prefill_effective_gemv_mode(
    ggml_type: GGMLType,
    seq_len: usize,
    requested_mode: &str,
) -> (mode: String)
    ensures
        mode@ == effective_mode(ggml_type, seq_len, requested_mode@),
{
    if gdn_prefill_batch_quant_supported(ggml_type) && seq_len <= 2 && same_text(
        requested_mode,
        "f32",
    ) {
        String::from_str("q")
    } else {
        String::from_str(requested_mode)
    }
}

/// A projection as the device is asked for it.
#[derive(Debug, Clone, Copy, PartialEq, Eq, Structural)]
pub enum ProjectionCall {
    /// With weights of this format as they are.
    Quantized(GGMLType),
    /// With expanded weights.
    Expanded(DequantType),
}

/// What a failed projection is reported with.
pub open spec fn projection_context(
    start: Seq<char>,
    ggml_type: GGMLType,
    rows: usize,
    cols: usize,
) -> Seq<char> {
    start + ggml_type.spec_label() + " ["@ + decimal(rows as nat) + "x"@ + decimal(cols as nat)
        + "]: "@
}

fn projection_context_text(start: &str, ggml_type: GGMLType, rows: usize, cols: usize) -> (context:
    String)
    ensures
        context@ == projection_context(start@, ggml_type, rows, cols),
{
    let mut context = String::from_str(start);
    context.append(ggml_type.label());
    context.append(" [");
    push_decimal(&mut context, rows);
    context.append("x");
    push_decimal(&mut context, cols);
    context.append("]: ");
    context
}

/// Whether `output` is what comes of a projection in the given mode. Expanded Q4_K and
/// Q8_0 weights may be cached, and the cache may give the output, decline or fail.
pub open spec fn projection_answers<
    'a,
    T,
    C: FnOnce((WeightMatrix<'a>, &'a [u32])) -> Result<Option<T>, String>,
    D: FnOnce((ProjectionCall, WeightMatrix<'a>, &'a [u32])) -> Result<T, String>,
>(
    matrix: WeightMatrix<'a>,
    input: &'a [u32],
    mode: Seq<char>,
    q8_0_batch: bool,
    cached: C,
    device: D,
    output: Result<Option<T>, String>,
) -> bool {
    let ggml_type = matrix.ggml_type;
    let context = projection_context(
        "CUDA GDN prefill GEMV failed for "@,
        ggml_type,
        matrix.rows,
        matrix.cols,
    );
    if mode != "f32"@ {
        if batches(ggml_type) || (ggml_type == GGMLType::Q8_0 && q8_0_batch) {
            answers_some(
                device,
                (ProjectionCall::Quantized(ggml_type), matrix, input),
                context,
                output,
            )
        } else {
            output == Ok::<Option<T>, String>(None)
        }
    } else if ggml_type == GGMLType::Q4_K || ggml_type == GGMLType::Q8_0 {
        exists|reply: Result<Option<T>, String>| #[trigger]
            call_ensures(cached, ((matrix, input),), reply) && match reply {
                Ok(None) => answers_some(
                    device,
                    (ProjectionCall::Expanded(expansion(ggml_type)), matrix, input),
                    context,
                    output,
                ),
                _ => output == reply,
            }
    } else {
        answers_some(
            device,
            (ProjectionCall::Expanded(expansion(ggml_type)), matrix, input),
            context,
            output,
        )
    }
}

/// The number of vectors that `input` holds for a matrix.
pub open spec fn token_count(matrix: WeightMatrix<'_>, input: Seq<u32>) -> usize {
    (input.len() / (matrix.cols as nat)) as usize
}

/// Projects a delta net's input, in the mode that the tuning has for the number of
/// tokens, if it has one.
pub fn gdn_prefill_quantized_projection<
    'a,
    T,
    M: FnOnce(usize) -> Option<String>,
    C: FnOnce((WeightMatrix<'a>, &'a [u32])) -> Result<Option<T>, String>,
    D: FnOnce((ProjectionCall, WeightMatrix<'a>, &'a [u32])) -> Result<T, String>,
>(
    matrix: WeightMatrix<'a>,
    input: &'a [u32],
    mode_for_seq: M,
    q8_0_batch: bool,
    cached: C,
    device: D,
) -> (output: Result<Option<T>, String>)
    requires
        forall|seq_len: usize| call_requires(mode_for_seq, (seq_len,)),
        holds_weights(matrix.ggml_type) || matrix.cols == 0 || forall|mode: Option<String>|
         #[trigger]
            call_ensures(mode_for_seq, (token_count(matrix, input@),), mode) ==> !is_f32_mode(
                mode,
            ),
        call_requires(cached, ((matrix, input),)),
        forall|call: ProjectionCall| call_requires(device, ((call, matrix, input),)),
    ensures
        matrix.cols == 0 ==> output == Ok::<Option<T>, String>(None),
        matrix.cols != 0 ==> exists|mode: Option<String>| #[trigger]
            call_ensures(mode_for_seq, (token_count(matrix, input@),), mode) && match mode {
                None => output == Ok::<Option<T>, String>(None),
                Some(requested) => projection_answers(
                    matrix,
                    input,
                    effective_mode(
                        matrix.ggml_type,
                        token_count(matrix, input@),
                        requested@,
                    ),
                    q8_0_batch,
                    cached,
                    device,
                    output,
                ),
            },
{
    let ggml_type: GGMLType = matrix.ggml_type;
    if matrix.cols == 0 {
        return Ok(None);
    }
    let seq_len: usize = input.len() / matrix.cols;
    assert(seq_len == token_count(matrix, input@));
    let requested: String = match mode_for_seq(seq_len) {
        Some(requested) => requested,
        None => return Ok(None),
    };
    let mode: String = gdn_prefill_effective_gemv_mode(ggml_type, seq_len, requested.as_str());
    let context: String = projection_context_text(
        "CUDA GDN prefill GEMV failed for ",
        ggml_type,
        matrix.rows,
        matrix.cols,
    );
    if same_text(mode.as_str(), "f32") {
        if ggml_type == GGMLType::Q4_K || ggml_type == GGMLType::Q8_0 {
            match cached((matrix, input)) {
                Ok(None) => {},
                reply => return reply,
            }
        }
        let dequant: DequantType = dequant_type(ggml_type);
        return ask_some(
            device,
            (ProjectionCall::Expanded(dequant), matrix, input),
            context.as_str(),
        );
    }
    if !gdn_prefill_batch_quant_supported(ggml_type) && !(ggml_type == GGMLType::Q8_0
        && q8_0_batch) {
        return Ok(None);
    }
    ask_some(device, (ProjectionCall::Quantized(ggml_type), matrix, input), context.as_str())
}

/// Projects a delta net's input with weights as they are.
pub fn gdn_prefill_quantized_projection_q<
    'a,
    T,
    D: FnOnce((WeightMatrix<'a>, &'a [u32])) -> Result<T, String>,
>(
    matrix: WeightMatrix<'a>,
    input: &'a [u32],
    device: D,
) -> (output: Result<Option<T>, String>)
    requires
        call_requires(device, ((matrix, input),)),
    ensures
        if matrix.cols != 0 && batches(matrix.ggml_type) {
            answers_some(
                device,
                (matrix, input),
                projection_context(
                    "CUDA GDN prefill quant GEMV failed for "@,
                    matrix.ggml_type,
                    matrix.rows,
                    matrix.cols,
                ),
                output,
            )
        } else {
            output == Ok::<Option<T>, String>(None)
        },
{
    if matrix.cols == 0 {
        return Ok(None);
    }
    if !gdn_prefill_batch_quant_supported(matrix.ggml_type) {
        return Ok(None);
    }
    let context: String = projection_context_text(
        "CUDA GDN prefill quant GEMV failed for ",
        matrix.ggml_type,
        matrix.rows,
        matrix.cols,
    );
    ask_some(device, (matrix, input), context.as_str())
}

/// Refuses a chunk of a delta net's prompt where the device's own path is switched on:
/// it has none, and says so.
pub fn ensure_gdn_prefill_chunk_supported<D: FnOnce((usize, usize)) -> String>(
    gdn_prefill_enabled: bool,
    seq_len: usize,
    hidden_dim: usize,
    refusal: D,
) -> (output: Result<(), String>)
    requires
        call_requires(refusal, ((seq_len, hidden_dim),)),
    ensures
        match output {
            Ok(()) => !gdn_prefill_enabled,
            Err(message) => gdn_prefill_enabled && call_ensures(
                refusal,
                ((seq_len, hidden_dim),),
                message,
            ),
        },
{
    if !gdn_prefill_enabled {
        return Ok(());
    }
    Err(refusal((seq_len, hidden_dim)))
}

/// The shape of a delta net's layer.
#[derive(Debug, Clone, Copy, PartialEq, Eq, Structural)]
pub struct GdnPrefillChainShape {
    pub seq_len: usize,
    pub hidden_dim: usize,
    pub d_inner: usize,
    pub d_state: usize,
    pub n_group: usize,
    pub dt_rank: usize,
    pub conv_kernel: usize,
    pub conv_state_len: usize,
    pub delta_state_len: usize,
}

/// What the device plans for a delta net's layer.
#[derive(Debug, Clone, Copy, PartialEq, Eq, Structural)]
pub enum GdnPrefillChainPlan {
    Disabled,
    Q4KDeviceChain,
}

/// A delta net's layer runs as one chain.
#[derive(Debug, Clone, Copy, PartialEq, Eq, Structural)]
pub struct GdnPrefillChainOutput;

/// Asks whether a delta net's layer runs as one chain.
pub fn gdn_prefill_chain<D: FnOnce(GdnPrefillChainShape) -> Result<GdnPrefillChainPlan, String>>(
    shape: &GdnPrefillChainShape,
    plan: D,
) -> (output: Result<Option<GdnPrefillChainOutput>, String>)
    requires
        call_requires(plan, (*shape,)),
    ensures
        exists|planned: Result<GdnPrefillChainPlan, String>| #[trigger]
            answers(plan, *shape, "CUDA GDN prefill chain failed: "@, planned) && output == (
            match planned {
                Ok(GdnPrefillChainPlan::Disabled) => Ok(None),
                Ok(GdnPrefillChainPlan::Q4KDeviceChain) => Ok(Some(GdnPrefillChainOutput)),
                Err(message) => Err(message),
            }),
{
    let planned = ask(plan, *shape, "CUDA GDN prefill chain failed: ");
    match planned {
        Ok(GdnPrefillChainPlan::Disabled) => Ok(None),
        Ok(GdnPrefillChainPlan::Q4KDeviceChain) => Ok(Some(GdnPrefillChainOutput)),
        Err(message) => Err(message),
    }
}

/// A delta net's layer that is to run as one chain. Floats are their bits; `S` holds the
/// convolution's and the net's states, which the device updates.
#[derive(Debug)]
pub struct GdnPrefillChainQ4KRequest<'a, S> {
    pub shape: GdnPrefillChainShape,
    pub hidden: &'a [u32],
    pub hidden_device: Option<DeviceTensor>,
    pub attn_norm: &'a [u32],
    pub qkv_q4k: &'a [u8],
    pub qkv_quant: GGMLType,
    pub gate_q4k: &'a [u8],
    pub gate_quant: GGMLType,
    pub alpha_q4k: &'a [u8],
    pub alpha_f32: &'a [u32],
    pub alpha_quant: GGMLType,
    pub beta_q4k: &'a [u8],
    pub beta_f32: &'a [u32],
    pub beta_quant: GGMLType,
    pub conv_kernel: &'a [u32],
    pub dt_bias: &'a [u32],
    pub ssm_a: &'a [u32],
    pub ssm_norm: &'a [u32],
    pub ssm_out_q4k: &'a [u8],
    pub ssm_out_quant: GGMLType,
    pub ssm_out_rows: usize,
    pub ssm_out_cols: usize,
    pub norm_eps: u32,
    pub keep_host_output: bool,
    pub post_attn_norm: Option<&'a [u32]>,
    pub states: S,
}

/// What the tuning keeps on the device of a chain.
#[derive(Debug, Clone, Copy, PartialEq, Eq, Structural)]
pub struct GdnChainTuning {
    pub keep_device_output: bool,
    pub keep_device_moe_input: bool,
}

/// A chain as the device is asked for it. A gate that was expanded first takes the place
/// of the plain one in the request.
#[derive(Debug)]
pub struct GdnChainCall<'a, S> {
    pub request: GdnPrefillChainQ4KRequest<'a, S>,
    pub expanded_alpha: Option<Vec<u32>>,
    pub expanded_beta: Option<Vec<u32>>,
    pub tuning: GdnChainTuning,
}

/// The floats of a gate: those it was expanded to, else its plain ones.
pub open spec fn gate_floats(expanded: Option<Vec<u32>>, plain: Seq<u32>) -> Seq<u32> {
    match expanded {
        Some(floats) => floats@,
        None => plain,
    }
}

impl<'a, S> GdnChainCall<'a, S> {
    /// The floats of the first gate.
    pub fn alpha_floats(&self) -> (floats: &[u32])
        ensures
            floats@ == gate_floats(self.expanded_alpha, self.request.alpha_f32@),
    {
        match &self.expanded_alpha {
            Some(floats) => floats.as_slice(),
            None => self.request.alpha_f32,
        }
    }

    /// The floats of the second gate.
    pub fn beta_floats(&self) -> (floats: &[u32])
        ensures
            floats@ == gate_floats(self.expanded_beta, self.request.beta_f32@),
    {
        match &self.expanded_beta {
            Some(floats) => floats.as_slice(),
            None => self.request.beta_f32,
        }
    }
}

/// Whether `values` are the floats of an expanded gate. Gates are expanded where
/// projections run in single precision, unless they hold plain floats already.
pub open spec fn gate_expansion<X: Fn(&[u8], DequantType) -> Vec<u32>>(
    f32_mode: bool,
    raw: &[u8],
    quant: GGMLType,
    expand: X,
    values: Option<Vec<u32>>,
) -> bool {
    if f32_mode && quant != GGMLType::F32 {
        values matches Some(floats) && call_ensures(expand, (raw, expansion(quant)), floats)
    } else {
        values is None
    }
}

fn expand_gate<X: Fn(&[u8], DequantType) -> Vec<u32>>(
    f32_mode: bool,
    raw: &[u8],
    quant: GGMLType,
    expand: &X,
) -> (values: Option<Vec<u32>>)
    requires
        f32_mode ==> holds_weights(quant),
        forall|dequant: DequantType| call_requires(*expand, (raw, dequant)),
    ensures
        gate_expansion(f32_mode, raw, quant, *expand, values),
{
    if f32_mode && quant != GGMLType::F32 {
        let dequant: DequantType = dequant_type(quant);
        Some((*expand)(raw, dequant))
    } else {
        None
    }
}

/// Whether `call` asks for the chain of `request` in the given mode.
pub open spec fn chain_asked<'a, S, X: Fn(&[u8], DequantType) -> Vec<u32>>(
    request: GdnPrefillChainQ4KRequest<'a, S>,
    mode: Option<String>,
    tuning: GdnChainTuning,
    expand: X,
    call: GdnChainCall<'a, S>,
) -> bool {
    let f32_mode = is_f32_mode(mode);
    &&& call.request == request
    &&& call.tuning == tuning
    &&& gate_expansion(
        f32_mode,
        request.alpha_q4k,
        request.alpha_quant,
        expand,
        call.expanded_alpha,
    )
    &&& gate_expansion(
        f32_mode,
        request.beta_q4k,
        request.beta_quant,
        expand,
        call.expanded_beta,
    )
}

/// Runs a delta net's layer as one chain, if that is planned.
pub fn gdn_prefill_chain_q4k<
    'a,
    S,
    T,
    P: FnOnce(GdnPrefillChainShape) -> Result<GdnPrefillChainPlan, String>,
    M: FnOnce(usize) -> Option<String>,
    X: Fn(&[u8], DequantType) -> Vec<u32>,
    D: FnOnce(GdnChainCall<'a, S>) -> Result<T, String>,
>(
    request: GdnPrefillChainQ4KRequest<'a, S>,
    tuning: GdnChainTuning,
    plan: P,
    mode_for_seq: M,
    expand: &X,
    device: D,
) -> (output: Result<Option<T>, String>)
    requires
        call_requires(plan, (request.shape,)),
        call_requires(mode_for_seq, (request.shape.seq_len,)),
        (holds_weights(request.alpha_quant) && holds_weights(request.beta_quant)) || forall|
            mode: Option<String>,
        | #[trigger]
            call_ensures(mode_for_seq, (request.shape.seq_len,), mode) ==> !is_f32_mode(mode),
        forall|raw: &[u8], dequant: DequantType| call_requires(*expand, (raw, dequant)),
        forall|call: GdnChainCall<'a, S>| call_requires(device, (call,)),
    ensures
        exists|planned: Result<GdnPrefillChainPlan, String>| #[trigger]
            answers(plan, request.shape, "CUDA GDN prefill chain failed: "@, planned)
                && match planned {
                Err(message) => output == Err::<Option<T>, String>(message),
                Ok(GdnPrefillChainPlan::Disabled) => output == Ok::<Option<T>, String>(None),
                Ok(GdnPrefillChainPlan::Q4KDeviceChain) => exists|
                    mode: Option<String>,
                    call: GdnChainCall<'a, S>,
                | #[trigger]
                    call_ensures(mode_for_seq, (request.shape.seq_len,), mode) && #[trigger]
                    chain_asked(request, mode, tuning, *expand, call) && answers_some(
                        device,
                        call,
                        "CUDA GDN Q4K prefill chain failed: "@,
                        output,
                    ),
            },
{
    let planned = ask(plan, request.shape, "CUDA GDN prefill chain failed: ");
    match planned {
        Err(message) => Err(message),
        Ok(GdnPrefillChainPlan::Disabled) => Ok(None),
        Ok(GdnPrefillChainPlan::Q4KDeviceChain) => {
            let mode: Option<String> = mode_for_seq(request.shape.seq_len);
            let f32_mode: bool = match &mode {
                Some(text) => same_text(text.as_str(), "f32"),
                None => false,
            };
            let expanded_alpha = expand_gate(
                f32_mode,
                request.alpha_q4k,
                request.alpha_quant,
                expand,
            );
            let expanded_beta = expand_gate(
                f32_mode,
                request.beta_q4k,
                request.beta_quant,
                expand,
            );
            let call = GdnChainCall { request, expanded_alpha, expanded_beta, tuning };
            assert(chain_asked(request, mode, tuning, *expand, call));
            ask_some(device, call, "CUDA GDN Q4K prefill chain failed: ")
        },
    }
}

/// Convolves a prompt, if that is switched on.
pub fn ssm_prefill_conv1d_silu<Q, T, D: FnOnce(Q) -> Result<T, String>>(
    prefill_conv_enabled: bool,
    request: Q,
    device: D,
) -> (output: Result<Option<T>, String>)
    requires
        call_requires(device, (request,)),
    ensures
        if prefill_conv_enabled {
            answers_some(device, request, "CUDA prefill conv1d+silu failed: "@, output)
        } else {
            output == Ok::<Option<T>, String>(None)
        },
{
    if !prefill_conv_enabled {
        return Ok(None);
    }
    ask_some(device, request, "CUDA prefill conv1d+silu failed: ")
}

/// Scans a prompt with a delta net, if that is switched on.
pub fn ssm_prefill_delta_net<Q, T, D: FnOnce(Q) -> Result<T, String>>(
    prefill_delta_enabled: bool,
    request: Q,
    device: D,
) -> (output: Result<Option<T>, String>)
    requires
        call_requires(device, (request,)),
    ensures
        if prefill_delta_enabled {
            answers_some(device, request, "CUDA prefill delta-net failed: "@, output)
        } else {
            output == Ok::<Option<T>, String>(None)
        },
{
    if !prefill_delta_enabled {
        return Ok(None);
    }
    ask_some(device, request, "CUDA prefill delta-net failed: ")
}

/// Where a delta net's state is after a scan.
#[derive(Debug, Clone, Copy, PartialEq, Eq, Structural)]
pub enum DeltaState {
    /// On the host, up to date.
    Synced,
    /// On the device.
    Resident,
}

pub open spec fn delta_state(sync_each_step: bool) -> DeltaState {
    if sync_each_step {
        DeltaState::Synced
    } else {
        DeltaState::Resident
    }
}

fn delta_state_of(sync_each_step: bool) -> (state: DeltaState)
    ensures
        state == delta_state(sync_each_step),
{
    if sync_each_step {
        DeltaState::Synced
    } else {
        DeltaState::Resident
    }
}

/// Scans a prompt with a delta net whose state stays on the device, unless each step
/// is to be synced.
pub fn ssm_prefill_delta_net_resident<Q, T, D: FnOnce((DeltaState, Q)) -> Result<T, String>>(
    prefill_delta_enabled: bool,
    sync_each_step: bool,
    request: Q,
    device: D,
) -> (output: Result<Option<T>, String>)
    requires
        forall|state: DeltaState| call_requires(device, ((state, request),)),
    ensures
        if prefill_delta_enabled {
            answers_some(
                device,
                (delta_state(sync_each_step), request),
                "CUDA resident prefill delta-net failed: "@,
                output,
            )
        } else {
            output == Ok::<Option<T>, String>(None)
        },
{
    if !prefill_delta_enabled {
        return Ok(None);
    }
    let state = delta_state_of(sync_each_step);
    ask_some(device, (state, request), "CUDA resident prefill delta-net failed: ")
}

/// Steps a delta net whose state stays on the device, unless each step is to be synced.
pub fn try_delta_step_resident_if_supported<
    Q,
    T,
    D: FnOnce((DeltaState, Q)) -> Result<T, String>,
>(
    delta_net_enabled: bool,
    sync_each_step: bool,
    request: Q,
    device: D,
) -> (output: Option<Result<T, String>>)
    requires
        forall|state: DeltaState| call_requires(device, ((state, request),)),
    ensures
        match output {
            Some(reply) => delta_net_enabled && call_ensures(
                device,
                ((delta_state(sync_each_step), request),),
                reply,
            ),
            None => !delta_net_enabled,
        },
{
    if !delta_net_enabled {
        return None;
    }
    let state = delta_state_of(sync_each_step);
    Some(device((state, request)))
}

/// Copies a delta net's state back from the device; the answer says whether it was there.
pub fn sync_delta_state_cache<
    Q,
    D: FnOnce(Q) -> Result<bool, String>,
>(
    request: Q,
    device: D,
) -> (output: Result<bool, String>)
    requires
        call_requires(device, (request,)),
    ensures
        answers(device, request, "CUDA delta state sync failed: "@, output),
{
    ask(device, request, "CUDA delta state sync failed: ")
}

/// Scans a prompt and keeps the state after some tokens.
pub fn ssm_prefill_delta_net_resident_snapshot<
    Q,
    T,
    D: FnOnce(Q) -> Result<T, String>,
>(
    request: Q,
    device: D,
) -> (output: Result<T, String>)
    requires
        call_requires(device, (request,)),
    ensures
        answers(device, request, "CUDA resident prefill delta-net snapshot failed: "@, output),
{
    ask(device, request, "CUDA resident prefill delta-net snapshot failed: ")
}

/// Scans a prompt and keeps the states after several numbers of tokens.
pub fn ssm_prefill_delta_net_resident_snapshots<
    Q,
    T,
    D: FnOnce(Q) -> Result<T, String>,
>(
    request: Q,
    device: D,
) -> (output: Result<T, String>)
    requires
        call_requires(device, (request,)),
    ensures
        answers(device, request, "CUDA resident prefill delta-net snapshots failed: "@, output),
{
    ask(device, request, "CUDA resident prefill delta-net snapshots failed: ")
}

/// Keeps a delta net's state on the device.
pub fn snapshot_delta_state_cache<
    Q,
    T,
    D: FnOnce(Q) -> Result<T, String>,
>(
    request: Q,
    device: D,
) -> (output: Result<T, String>)
    requires
        call_requires(device, (request,)),
    ensures
        answers(device, request, "CUDA delta state snapshot failed: "@, output),
{
    ask(device, request, "CUDA delta state snapshot failed: ")
}

/// Puts a kept state back.
pub fn restore_delta_state_cache<
    Q,
    D: FnOnce(Q) -> Result<bool, String>,
>(
    request: Q,
    device: D,
) -> (output: Result<bool, String>)
    requires
        call_requires(device, (request,)),
    ensures
        answers(device, request, "CUDA delta state restore failed: "@, output),
{
    ask(device, request, "CUDA delta state restore failed: ")
}

/// Gives a kept state's memory back.
pub fn free_delta_state_snapshot<
    Q,
    D: FnOnce(Q) -> Result<(), String>,
>(
    request: Q,
    device: D,
) -> (output: Result<(), String>)
    requires
        call_requires(device, (request,)),
    ensures
        answers(device, request, "CUDA delta state snapshot free failed: "@, output),
{
    ask(device, request, "CUDA delta state snapshot free failed: ")
}

/// Scans one token with a Mamba layer.
pub fn nemotron_mamba2_decode_scan<Q, T, D: FnOnce(Q) -> Result<T, String>>(
    request: Q,
    device: D,
) -> (output: Result<Option<T>, String>)
    requires
        call_requires(device, (request,)),
    ensures
        answers_some(device, request, "CUDA Nemotron Mamba2 decode scan failed: "@, output),
{
    ask_some(device, request, "CUDA Nemotron Mamba2 decode scan failed: ")
}

/// Scans a prompt with a Mamba layer.
pub fn nemotron_mamba2_prefill_scan<Q, T, D: FnOnce(Q) -> Result<T, String>>(
    request: Q,
    device: D,
) -> (output: Result<Option<T>, String>)
    requires
        call_requires(device, (request,)),
    ensures
        answers_some(device, request, "CUDA Nemotron Mamba2 prefill scan failed: "@, output),
{
    ask_some(device, request, "CUDA Nemotron Mamba2 prefill scan failed: ")
}

/// A device tensor with its description.
#[derive(Debug, Clone, Copy, PartialEq, Eq, Structural)]
pub struct DeviceTensor {
    pub id: DeviceTensorId,
    pub desc: DeviceTensorDesc,
}

/// The output of a Mamba layer, and how many bytes of state came back to the host.
#[derive(Debug, Clone, Copy, PartialEq, Eq, Structural)]
pub struct NemotronMamba2DeviceOutput {
    pub output_id: DeviceTensorId,
    pub output_desc: DeviceTensorDesc,
    pub conv_state_d2h_bytes: usize,
    pub delta_state_d2h_bytes: usize,
}

/// A router's logits, and the normed state that they were made from.
#[derive(Debug, Clone, Copy, PartialEq, Eq, Structural)]
pub struct NemotronDeviceRouterLogitsOutput {
    pub normalized_id: DeviceTensorId,
    pub normalized_desc: DeviceTensorDesc,
    pub router_logits_id: DeviceTensorId,
    pub router_logits_desc: DeviceTensorDesc,
}

/// Makes a router's logits from a device tensor.
pub fn nemotron_router_logits_from_device_f32<
    Q,
    D: FnOnce((DeviceTensor, Q)) -> Result<(DeviceTensor, DeviceTensor), String>,
>(input: DeviceTensor, request: Q, device: D) -> (output: Result<
    NemotronDeviceRouterLogitsOutput,
    String,
>)
    requires
        call_requires(device, ((input, request),)),
    ensures
        exists|reply: Result<(DeviceTensor, DeviceTensor), String>| #[trigger]
            answers(
                device,
                (input, request),
                "CUDA Nemotron router logits from device failed: "@,
                reply,
            ) && output == (match reply {
                Ok((normalized, logits)) => Ok(
                    NemotronDeviceRouterLogitsOutput {
                        normalized_id: normalized.id,
                        normalized_desc: normalized.desc,
                        router_logits_id: logits.id,
                        router_logits_desc: logits.desc,
                    },
                ),
                Err(message) => Err(message),
            }),
{
    let reply = ask(
        device,
        (input, request),
        "CUDA Nemotron router logits from device failed: ",
    );
    match reply {
        Ok((normalized, logits)) => Ok(
            NemotronDeviceRouterLogitsOutput {
                normalized_id: normalized.id,
                normalized_desc: normalized.desc,
                router_logits_id: logits.id,
                router_logits_desc: logits.desc,
            },
        ),
        Err(message) => Err(message),
    }
}

/// What the device gives back of a Mamba layer.
#[derive(Debug, Clone, Copy, PartialEq, Eq, Structural)]
pub struct Mamba2Reply {
    pub output: DeviceTensor,
    pub conv_state_d2h_bytes: usize,
    pub delta_state_d2h_bytes: usize,
}

/// Runs a Mamba layer on a device tensor.
pub fn nemotron_mamba2_prefill_device<Q, D: FnOnce((DeviceTensor, Q)) -> Result<Mamba2Reply, String>>(
    input: DeviceTensor,
    request: Q,
    device: D,
) -> (output: Result<NemotronMamba2DeviceOutput, String>)
    requires
        call_requires(device, ((input, request),)),
    ensures
        exists|reply: Result<Mamba2Reply, String>| #[trigger]
            answers(
                device,
                (input, request),
                "CUDA Nemotron Mamba2 device prefill failed: "@,
                reply,
            ) && output == (match reply {
                Ok(given) => Ok(
                    NemotronMamba2DeviceOutput {
                        output_id: given.output.id,
                        output_desc: given.output.desc,
                        conv_state_d2h_bytes: given.conv_state_d2h_bytes,
                        delta_state_d2h_bytes: given.delta_state_d2h_bytes,
                    },
                ),
                Err(message) => Err(message),
            }),
{
    let reply = ask(device, (input, request), "CUDA Nemotron Mamba2 device prefill failed: ");
    match reply {
        Ok(given) => Ok(
            NemotronMamba2DeviceOutput {
                output_id: given.output.id,
                output_desc: given.output.desc,
                conv_state_d2h_bytes: given.conv_state_d2h_bytes,
                delta_state_d2h_bytes: given.delta_state_d2h_bytes,
            },
        ),
        Err(message) => Err(message),
    }
}

/// Routes that live on the device, as the device names them.
#[derive(Debug, Clone, Copy, PartialEq, Eq, Structural)]
pub struct BackendRoutePack {
    pub raw: u64,
    pub slots: usize,
    pub seq_len: usize,
    pub expert_used: usize,
}

/// Routes that live on the device.
#[derive(Debug)]
pub struct NemotronDeviceRoutePack {
    pub inner: BackendRoutePack,
}

impl NemotronDeviceRoutePack {
    pub fn slots(&self) -> (slots: usize)
        ensures
            slots == self.inner.slots,
    {
        self.inner.slots
    }

    pub fn seq_len(&self) -> (seq_len: usize)
        ensures
            seq_len == self.inner.seq_len,
    {
        self.inner.seq_len
    }

    pub fn expert_used(&self) -> (expert_used: usize)
        ensures
            expert_used == self.inner.expert_used,
    {
        self.inner.expert_used
    }
}

/// Whether `output` holds the routes that a call gave.
pub open spec fn route_pack_answers<C, D: FnOnce(C) -> Result<BackendRoutePack, String>>(
    device: D,
    call: C,
    context: Seq<char>,
    output: Result<NemotronDeviceRoutePack, String>,
) -> bool {
    exists|reply: Result<BackendRoutePack, String>| #[trigger]
        answers(device, call, context, reply) && match (reply, output) {
            (Ok(inner), Ok(pack)) => pack.inner == inner,
            (Err(message), Err(kept)) => message == kept,
            _ => false,
        }
}

fn ask_route_pack<C, D: FnOnce(C) -> Result<BackendRoutePack, String>>(
    device: D,
    call: C,
    context: &str,
) -> (output: Result<NemotronDeviceRoutePack, String>)
    requires
        call_requires(device, (call,)),
    ensures
        route_pack_answers(device, call, context@, output),
{
    let reply = ask(device, call, context);
    match reply {
        Ok(inner) => Ok(NemotronDeviceRoutePack { inner }),
        Err(message) => Err(message),
    }
}

/// Routes a prompt by logits on the device.
pub fn nemotron_device_route_pack_from_logits<
    Q,
    D: FnOnce((DeviceTensor, Q)) -> Result<BackendRoutePack, String>,
>(router_logits: DeviceTensor, request: Q, device: D) -> (output: Result<
    NemotronDeviceRoutePack,
    String,
>)
    requires
        call_requires(device, ((router_logits, request),)),
    ensures
        route_pack_answers(
            device,
            (router_logits, request),
            "CUDA Nemotron device route pack failed: "@,
            output,
        ),
{
    ask_route_pack(
        device,
        (router_logits, request),
        "CUDA Nemotron device route pack failed: ",
    )
}

/// Copies the experts of routes back from the device.
pub fn nemotron_device_route_pack_expert_ids<
    D: FnOnce(BackendRoutePack) -> Result<Vec<u32>, String>,
>(route: &NemotronDeviceRoutePack, device: D) -> (output: Result<Vec<u32>, String>)
    requires
        call_requires(device, (route.inner,)),
    ensures
        answers(
            device,
            route.inner,
            "CUDA Nemotron device route pack expert ids download failed: "@,
            output,
        ),
{
    ask(
        device,
        route.inner,
        "CUDA Nemotron device route pack expert ids download failed: ",
    )
}

/// Routes in another order.
pub fn nemotron_reorder_device_route_pack<
    'a,
    D: FnOnce((BackendRoutePack, &'a [u32])) -> Result<BackendRoutePack, String>,
>(route: &NemotronDeviceRoutePack, order_indices: &'a [u32], device: D) -> (output: Result<
    NemotronDeviceRoutePack,
    String,
>)
    requires
        call_requires(device, ((route.inner, order_indices),)),
    ensures
        route_pack_answers(
            device,
            (route.inner, order_indices),
            "CUDA Nemotron device route pack reorder failed: "@,
            output,
        ),
{
    ask_route_pack(
        device,
        (route.inner, order_indices),
        "CUDA Nemotron device route pack reorder failed: ",
    )
}

/// Gives the memory of routes back.
pub fn release_nemotron_device_route_pack<D: FnOnce(BackendRoutePack) -> Result<(), String>>(
    route: NemotronDeviceRoutePack,
    device: D,
) -> (output: Result<(), String>)
    requires
        call_requires(device, (route.inner,)),
    ensures
        answers(
            device,
            route.inner,
            "CUDA Nemotron device route pack release failed: "@,
            output,
        ),
{
    ask(device, route.inner, "CUDA Nemotron device route pack release failed: ")
}

/// Runs a prompt's experts by routes on the device.
pub fn nemotron_q8_shared_q5_sparse_prefill_moe_device_route_pack<
    Q,
    D: FnOnce((BackendRoutePack, Q)) -> Result<Option<DeviceTensorId>, String>,
>(route_pack: &NemotronDeviceRoutePack, request: Q, device: D) -> (output: Result<
    Option<DeviceTensorId>,
    String,
>)
    requires
        call_requires(device, ((route_pack.inner, request),)),
    ensures
        answers(
            device,
            (route_pack.inner, request),
            "CUDA Nemotron device route-pack Q8 shared + Q5 sparse prefill MoE failed: "@,
            output,
        ),
{
    ask(
        device,
        (route_pack.inner, request),
        "CUDA Nemotron device route-pack Q8 shared + Q5 sparse prefill MoE failed: ",
    )
}

/// What a gated norm works on.
#[derive(Debug, Clone, Copy, PartialEq, Eq)]
pub struct GatedNorm<'a> {
    pub output: &'a [u32],
    pub z: &'a [u32],
    pub norm: &'a [u32],
    pub rows: usize,
    pub cols: usize,
    pub norm_eps: u32,
}

/// A gated norm and the projection behind it.
#[derive(Debug, Clone, Copy, PartialEq, Eq)]
pub struct GatedNormProjection<'a> {
    pub gated: GatedNorm<'a>,
    pub seq_len: usize,
    pub head_dim: usize,
    pub weight_ggml_type: GGMLType,
    pub weight_bytes: Option<&'a [u8]>,
}

impl<'a> GatedNormProjection<'a> {
    /// More than one token and weights in a format that is expanded.
    pub open spec fn projects(self) -> bool {
        self.seq_len > 1 && (self.weight_ggml_type is Q4_K || self.weight_ggml_type is Q5_K
            || self.weight_ggml_type is Q6_K)
    }
}

/// Norms, gates and projects a prompt: with expanded weights in Q4_K, Q5_K or Q6_K,
/// from two tokens on, where the tuning has it for their number.
pub fn gdn_prefill_gated_norm_silu_project<
    'a,
    T,
    M: FnOnce(usize) -> bool,
    X: FnOnce(&'a [u8], DequantType) -> Vec<u32>,
    D: FnOnce((GatedNormProjection<'a>, Vec<u32>)) -> Result<T, String>,
>(
    request: GatedNormProjection<'a>,
    gemm_enabled_for_seq: M,
    expand: X,
    device: D,
) -> (output: Result<Option<T>, String>)
    requires
        call_requires(gemm_enabled_for_seq, (request.seq_len,)),
        forall|raw: &'a [u8], dequant: DequantType| call_requires(expand, (raw, dequant)),
        forall|floats: Vec<u32>| call_requires(device, ((request, floats),)),
    ensures
        exists|enabled: bool| #[trigger]
            call_ensures(gemm_enabled_for_seq, (request.seq_len,), enabled) && (if !enabled
                || !request.projects() {
                output == Ok::<Option<T>, String>(None)
            } else {
                match request.weight_bytes {
                    None => output matches Err(message) && message@
                        == "GDN ssm_out has no quantized bytes"@,
                    Some(bytes) => exists|floats: Vec<u32>| #[trigger]
                        call_ensures(expand, (bytes, expansion(request.weight_ggml_type)), floats)
                            && answers_some(
                            device,
                            (request, floats),
                            "CUDA GDN gated norm+silu+GEMM failed: "@,
                            output,
                        ),
                }
            }),
{
    let enabled: bool = gemm_enabled_for_seq(request.seq_len);
    let expandable: bool = match request.weight_ggml_type {
        GGMLType::Q4_K | GGMLType::Q5_K | GGMLType::Q6_K => true,
        _ => false,
    };
    if !enabled || request.seq_len <= 1 || !expandable {
        return Ok(None);
    }
    let bytes: &'a [u8] = match request.weight_bytes {
        Some(bytes) => bytes,
        None => return Err(String::from_str("GDN ssm_out has no quantized bytes")),
    };
    let dequant: DequantType = dequant_type(request.weight_ggml_type);
    let floats: Vec<u32> = expand(bytes, dequant);
    ask_some(device, (request, floats), "CUDA GDN gated norm+silu+GEMM failed: ")
}

/// Norms and gates a prompt, from two tokens on, if that is switched on.
pub fn gdn_prefill_gated_norm_silu<'a, T, D: FnOnce(GatedNorm<'a>) -> Result<T, String>>(
    gated_norm_enabled: bool,
    seq_len: usize,
    request: GatedNorm<'a>,
    device: D,
) -> (output: Result<Option<T>, String>)
    requires
        call_requires(device, (request,)),
    ensures
        if gated_norm_enabled && seq_len > 1 {
            answers_some(device, request, "CUDA GDN gated norm+silu failed: "@, output)
        } else {
            output == Ok::<Option<T>, String>(None)
        },
{
    if !gated_norm_enabled || seq_len <= 1 {
        return Ok(None);
    }
    ask_some(device, request, "CUDA GDN gated norm+silu failed: ")
}

/// One or two tokens are projected with weights as they are wherever those can be, and
/// longer prompts in the mode that was asked for.
pub proof fn law_short_windows_avoid_expansion(
    ggml_type: GGMLType,
    seq_len: usize,
    requested: Seq<char>,
)
    ensures
        batches(ggml_type) && seq_len <= 2 ==> effective_mode(ggml_type, seq_len, requested)
            != "f32"@,
        seq_len > 2 || !batches(ggml_type) ==> effective_mode(ggml_type, seq_len, requested)
            == requested,
{
    reveal_strlit("q");
    reveal_strlit("f32");
    assert("q"@.len() != "f32"@.len());
}

/// The workspace of a plan is asked for with the plan's own sizes: four bytes for each value
/// of a middle row, one row a token for the shared expert and one a route for the sparse
/// ones, of which there is room for at least one; and it is on unless the plan falls back.
pub proof fn law_a_workspace_holds_what_its_plan_counts(plan: NemotronPrefillWorkspacePlan)
    ensures
        plan.route_slots > 0 ==> sparse_mid_bytes(plan) == 4 * (plan.route_slots * plan.n_ff),
        plan.route_slots == 0 ==> sparse_mid_bytes(plan) == 4 * plan.n_ff,
        shared_mid_bytes(plan) == 4 * (plan.chunk_len * plan.shared_ff),
        workspace_config(plan).hidden_bytes == plan.hidden_bytes,
        workspace_config(plan).normalized_bytes == plan.normalized_bytes,
        workspace_config(plan).router_logits_bytes == plan.router_logits_bytes,
        workspace_config(plan).route_bytes == plan.route_bytes,
        workspace_config(plan).required_workspace_bytes == plan.required_workspace_bytes,
        workspace_config(plan).enabled <==> plan.decision is Fits || plan.decision is Chunk,
        4 * (plan.chunk_len * plan.shared_ff) <= usize::MAX ==> workspace_config(
            plan,
        ).moe_shared_mid_bytes == 4 * (plan.chunk_len * plan.shared_ff),
        plan.route_slots > 0 && 4 * (plan.route_slots * plan.n_ff) <= usize::MAX ==> workspace_config(
            plan,
        ).moe_sparse_mid_bytes == 4 * (plan.route_slots * plan.n_ff),
        plan.route_slots == 0 && 4 * plan.n_ff <= usize::MAX ==> workspace_config(
            plan,
        ).moe_sparse_mid_bytes == 4 * plan.n_ff,
{
    assert(plan.route_slots * plan.n_ff * 4 == 4 * (plan.route_slots * plan.n_ff))
        by (nonlinear_arith);
    assert(plan.chunk_len * plan.shared_ff * 4 == 4 * (plan.chunk_len * plan.shared_ff))
        by (nonlinear_arith);
    assert(plan.route_slots * plan.n_ff >= 0 && plan.chunk_len * plan.shared_ff >= 0)
        by (nonlinear_arith);
}

/// Of the weights that a tensor can hold, six formats are multiplied as they are, and each of
/// them has a kernel.
pub proof fn law_formats_that_batch_have_kernels(t: GGMLType)
    ensures
        batches(t) <==> t is Q5_0 || t is Q5_1 || t is Q4_K || t is Q5_K || t is Q6_K || t is IQ4_XS,
        batches(t) ==> quant_format(t) is Some && holds_weights(t),
{
}

/// Single precision is asked for by its name alone, and given up only for one or two tokens
/// of weights that batch, in favour of the weights as they are.
pub proof fn law_when_single_precision_is_given_up(
    mode: Option<String>,
    t: GGMLType,
    seq_len: usize,
    requested: Seq<char>,
)
    ensures
        is_f32_mode(mode) <==> mode is Some && mode->0@ == "f32"@,
        requested != "f32"@ ==> effective_mode(t, seq_len, requested) == requested,
        effective_mode(t, seq_len, "f32"@) == if seq_len <= 2 && (t is Q5_0 || t is Q5_1 || t is Q4_K
            || t is Q5_K || t is Q6_K || t is IQ4_XS) {
            "q"@
        } else {
            "f32"@
        },
{
}

/// A failed projection tells its format behind what failed, and its shape in brackets.
pub proof fn law_failed_projections_tell_their_shape(
    start: Seq<char>,
    t: GGMLType,
    rows: usize,
    cols: usize,
)
    ensures
        begins_with(projection_context(start, t, rows, cols), start),
        begins_with(
            projection_context(start, t, rows, cols).skip(start.len() as int),
            t.spec_label(),
        ),
        says(projection_context(start, t, rows, cols), " ["@, decimal(rows as nat)),
        says(projection_context(start, t, rows, cols), "x"@, decimal(cols as nat)),
{
    let label = t.spec_label();
    let r = decimal(rows as nat);
    let c = decimal(cols as nat);
    let whole = projection_context(start, t, rows, cols);
    let one = start + label + " ["@ + r;
    let two = one + "x"@ + c;
    lemma_says(start + label, " ["@, r);
    lemma_says_more(one, " ["@, r, "x"@);
    lemma_says_more(one + "x"@, " ["@, r, c);
    lemma_says_more(two, " ["@, r, "]: "@);
    lemma_says(one, "x"@, c);
    lemma_says_more(two, "x"@, c, "]: "@);
    assert(whole.take(start.len() as int) =~= start);
    assert(whole.skip(start.len() as int).take(label.len() as int) =~= label);
}

/// How a projection runs: weights as they are only in formats that batch, Q8_0 among them
/// where that is switched on; in single precision always expanded, but a Q4_K or Q8_0 matrix
/// first by the cache, whose output or failure stands. Each time it is the matrix and the
/// input that were given.
pub proof fn law_how_a_projection_runs<
    'a,
    T,
    C: FnOnce((WeightMatrix<'a>, &'a [u32])) -> Result<Option<T>, String>,
    D: FnOnce((ProjectionCall, WeightMatrix<'a>, &'a [u32])) -> Result<T, String>,
>(
    matrix: WeightMatrix<'a>,
    input: &'a [u32],
    mode: Seq<char>,
    q8_0_batch: bool,
    cached: C,
    device: D,
    output: Result<Option<T>, String>,
)
    requires
        projection_answers(matrix, input, mode, q8_0_batch, cached, device, output),
    ensures
        ({
            let t = matrix.ggml_type;
            let f32_mode = mode == "f32"@;
            let as_it_is = batches(t) || t is Q8_0 && q8_0_batch;
            let context = projection_context(
                "CUDA GDN prefill GEMV failed for "@,
                t,
                matrix.rows,
                matrix.cols,
            );
            let quantized = answers_some(
                device,
                (ProjectionCall::Quantized(t), matrix, input),
                context,
                output,
            );
            let expanded = answers_some(
                device,
                (ProjectionCall::Expanded(expansion(t)), matrix, input),
                context,
                output,
            );
            &&& !f32_mode && as_it_is ==> quantized
            &&& !f32_mode && !as_it_is ==> output == Ok::<Option<T>, String>(None)
            &&& f32_mode && !(t is Q4_K || t is Q8_0) ==> expanded
            &&& f32_mode && (t is Q4_K || t is Q8_0) ==> {
                ||| output != Ok::<Option<T>, String>(None) && call_ensures(
                    cached,
                    ((matrix, input),),
                    output,
                )
                ||| expanded && call_ensures(
                    cached,
                    ((matrix, input),),
                    Ok::<Option<T>, String>(None),
                )
            }
        }),
{
}

/// An input holds as many vectors as there are whole rows of the matrix's width in it.
pub proof fn law_an_input_holds_whole_vectors(matrix: WeightMatrix<'_>, input: &[u32], tokens: int)
    requires
        matrix.cols > 0,
        0 <= tokens,
        tokens * matrix.cols <= input@.len() < (tokens + 1) * matrix.cols,
    ensures
        token_count(matrix, input@) == tokens,
{
    assert(input.len() == input@.len());
    let rest = input@.len() - tokens * matrix.cols;
    assert(rest < matrix.cols) by (nonlinear_arith)
        requires
            rest == input@.len() - tokens * matrix.cols,
            input@.len() < (tokens + 1) * matrix.cols,
    ;
    assert(input@.len() as int == matrix.cols * tokens + rest) by (nonlinear_arith)
        requires
            rest == input@.len() - tokens * matrix.cols,
    ;
    vstd::arithmetic::div_mod::lemma_fundamental_div_mod_converse(
        input@.len() as int,
        matrix.cols as int,
        tokens,
        rest,
    );
    assert(tokens <= input@.len()) by (nonlinear_arith)
        requires
            tokens * matrix.cols <= input@.len(),
            matrix.cols >= 1,
            0 <= tokens,
    ;
}

/// A chain is asked for as it was requested and tuned; in single precision, and only then,
/// each gate that is not in plain floats is expanded from its own bytes and format, and what
/// it is expanded to stands for it.
pub proof fn law_gates_are_expanded_from_their_own_bytes<
    'a,
    S,
    X: Fn(&[u8], DequantType) -> Vec<u32>,
>(
    request: GdnPrefillChainQ4KRequest<'a, S>,
    mode: Option<String>,
    tuning: GdnChainTuning,
    expand: X,
    call: GdnChainCall<'a, S>,
)
    requires
        chain_asked(request, mode, tuning, expand, call),
    ensures
        call.request == request,
        call.tuning.keep_device_output == tuning.keep_device_output,
        call.tuning.keep_device_moe_input == tuning.keep_device_moe_input,
        ({
            let f32_mode = mode is Some && mode->0@ == "f32"@;
            &&& call.expanded_alpha is Some <==> f32_mode && !(request.alpha_quant is F32)
            &&& call.expanded_beta is Some <==> f32_mode && !(request.beta_quant is F32)
            &&& call.expanded_alpha is Some ==> call_ensures(
                expand,
                (request.alpha_q4k, expansion(request.alpha_quant)),
                call.expanded_alpha->0,
            )
            &&& call.expanded_beta is Some ==> call_ensures(
                expand,
                (request.beta_q4k, expansion(request.beta_quant)),
                call.expanded_beta->0,
            )
        }),
        call.expanded_alpha is None ==> gate_floats(call.expanded_alpha, request.alpha_f32@)
            == request.alpha_f32@,
        call.expanded_alpha is Some ==> gate_floats(call.expanded_alpha, request.alpha_f32@)
            == call.expanded_alpha->0@,
{
}

/// A state that is synced at each step is the host's; any other is the device's.
pub proof fn law_where_a_state_is_kept(sync_each_step: bool)
    ensures
        delta_state(sync_each_step) is Synced <==> sync_each_step,
        delta_state(sync_each_step) is Resident <==> !sync_each_step,
{
}

/// Routes on the device are those that the call gave, in number, tokens and experts, and a
/// failure is told as the call's.
pub proof fn law_route_packs_are_the_devices<C, D: FnOnce(C) -> Result<BackendRoutePack, String>>(
    device: D,
    call: C,
    context: Seq<char>,
    output: Result<NemotronDeviceRoutePack, String>,
)
    requires
        route_pack_answers(device, call, context, output),
    ensures
        exists|reply: Result<BackendRoutePack, String>|
            {
                &&& #[trigger] call_ensures(device, (call,), reply)
                &&& output is Ok <==> reply is Ok
                &&& reply matches Ok(given) ==> {
                    let kept = output->Ok_0.inner;
                    &&& kept.raw == given.raw && kept.slots == given.slots
                    &&& kept.seq_len == given.seq_len && kept.expert_used == given.expert_used
                }
                &&& reply matches Err(cause) ==> output->Err_0@ == context + cause@
            },
{
}

/// A gated norm's projection is expanded in three formats, from two tokens on.
pub proof fn law_which_gated_norms_project(request: GatedNormProjection<'_>)
    ensures
        request.projects() <==> request.seq_len >= 2 && (request.weight_ggml_type is Q4_K
            || request.weight_ggml_type is Q5_K || request.weight_ggml_type is Q6_K),
{
}

} // verus!
