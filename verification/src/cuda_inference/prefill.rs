//! When the device takes the attention of a prompt with its projections, and what it
//! is handed. Floats are their bits.

use crate::arith::{saturating_mul, saturating_product};
use crate::backend_api::{DeviceTensorDesc, DeviceTensorId, DeviceTensorRole, ScalarType};
use crate::cuda_inference::device::{answers, answers_in_place, ask, ask_in_place};
use crate::quant::GGMLType;
use crate::text::{decimal, lemma_says, lemma_says_more, push_decimal, says};
use vstd::prelude::*;

verus! {

/// The output of a layer that keeps its keys and values elsewhere.
#[derive(Debug, Clone, Copy, PartialEq, Eq, Structural)]
pub struct PrefillQ4kF16QDenseChainDeviceOutput {
    pub output_id: DeviceTensorId,
    pub output_desc: DeviceTensorDesc,
}

/// The output of a layer with its keys and values.
#[derive(Debug, Clone, PartialEq, Eq)]
pub struct PrefillQ4kF16QkvDenseChainDeviceOutput {
    pub k_bits: Vec<u16>,
    pub v_bits: Vec<u16>,
    pub output_id: DeviceTensorId,
    pub output_desc: DeviceTensorDesc,
}

/// What is asked about an expanded product: whether the format allows it, and its
/// sizes.
#[derive(Debug, Clone, Copy, PartialEq, Eq, Structural)]
pub struct GemmQuery {
    pub quant_supported: bool,
    pub seq_len: usize,
    pub rows: usize,
    pub cols: usize,
}

/// Whether `allowed` is what comes of asking the tuning: no where the switch is off,
/// else what it says of a format that allows it.
pub open spec fn gemm_allowed<G: Fn(GemmQuery) -> bool>(
    enabled: bool,
    tuning: G,
    seq_len: usize,
    rows: usize,
    cols: usize,
    allowed: bool,
) -> bool {
    if enabled {
        call_ensures(tuning, (GemmQuery { quant_supported: true, seq_len, rows, cols },), allowed)
    } else {
        !allowed
    }
}

/// Whether a prompt's Q4_K product runs in half precision.
pub fn prefill_q4k_f16_gemm_allowed<G: Fn(GemmQuery) -> bool>(
    enabled: bool,
    tuning: &G,
    seq_len: usize,
    rows: usize,
    cols: usize,
) -> (allowed: bool)
    requires
        forall|query: GemmQuery| call_requires(*tuning, (query,)),
    ensures
        gemm_allowed(enabled, *tuning, seq_len, rows, cols, allowed),
{
    enabled && (*tuning)(GemmQuery { quant_supported: true, seq_len, rows, cols })
}

/// The queries of a prompt's attention.
#[derive(Debug, Clone, Copy)]
pub struct PrefillQueries<'a> {
    pub q_weights: &'a [u8],
    pub q_rows: usize,
    pub cols: usize,
    pub q_norm: &'a [u32],
    pub num_heads: usize,
    pub num_kv_heads: usize,
    pub rope_theta: u32,
    pub pos_start: usize,
    pub norm_eps: u32,
    pub q_unit_offset: bool,
}

impl<'a> PrefillQueries<'a> {
    /// The queries make heads of `head_dim` in whole groups.
    pub open spec fn fit(self, head_dim: usize) -> bool {
        &&& self.q_rows == saturating_product(self.num_heads, head_dim)
        &&& self.num_kv_heads != 0
        &&& self.num_heads % self.num_kv_heads == 0
        &&& self.q_norm@.len() == head_dim
    }

    fn do_fit(&self, head_dim: usize) -> (yes: bool)
        ensures
            yes == self.fit(head_dim),
    {
        self.q_rows == saturating_mul(self.num_heads, head_dim) && self.num_kv_heads != 0
            && self.num_heads % self.num_kv_heads == 0 && self.q_norm.len() == head_dim
    }
}

/// The queries, keys and values of a prompt's attention.
#[derive(Debug, Clone, Copy)]
pub struct PrefillQkv<'a> {
    pub q: PrefillQueries<'a>,
    pub k_weights: &'a [u8],
    pub v_weights: &'a [u8],
    pub kv_rows: usize,
    pub k_norm: &'a [u32],
    pub k_unit_offset: bool,
    pub v_no_scale_norm: bool,
}

impl<'a> PrefillQkv<'a> {
    /// Queries, keys and values make heads of `head_dim`.
    pub open spec fn fit(self, head_dim: usize) -> bool {
        &&& self.q.fit(head_dim)
        &&& self.kv_rows == saturating_product(self.q.num_kv_heads, head_dim)
        &&& self.k_norm@.len() == head_dim
    }

    fn do_fit(&self, head_dim: usize) -> (yes: bool)
        ensures
            yes == self.fit(head_dim),
    {
        self.q.do_fit(head_dim) && self.kv_rows == saturating_mul(self.q.num_kv_heads, head_dim)
            && self.k_norm.len() == head_dim
    }
}

/// What is switched on of a prompt's attention.
#[derive(Debug, Clone, Copy, PartialEq, Eq, Structural)]
pub struct QkvTuning {
    /// Half-precision projections.
    pub qkv_gemm: bool,
    pub flash_attention: bool,
}

/// Whether `taken` is what comes of asking the tuning about a prompt: no where one of the
/// two is switched off, else whether it allows the product and the prompt is as long as
/// it asks at this head size.
pub open spec fn prompt_taken<G: Fn(GemmQuery) -> bool, M: Fn(usize) -> usize>(
    tuning: QkvTuning,
    gemm: G,
    min_seq: M,
    q: PrefillQueries<'_>,
    seq_len: usize,
    head_dim: usize,
    taken: bool,
) -> bool {
    if tuning.qkv_gemm && tuning.flash_attention {
        exists|allowed: bool, least: usize|
            {
                &&& #[trigger] gemm_allowed(true, gemm, seq_len, q.q_rows, q.cols, allowed)
                &&& #[trigger] call_ensures(min_seq, (head_dim,), least)
                &&& taken == (allowed && seq_len >= least)
            }
    } else {
        !taken
    }
}

fn takes_prompt<G: Fn(GemmQuery) -> bool, M: Fn(usize) -> usize>(
    tuning: QkvTuning,
    gemm: &G,
    min_seq: &M,
    q: &PrefillQueries<'_>,
    seq_len: usize,
    head_dim: usize,
) -> (taken: bool)
    requires
        forall|query: GemmQuery| call_requires(*gemm, (query,)),
        call_requires(*min_seq, (head_dim,)),
    ensures
        prompt_taken(tuning, *gemm, *min_seq, *q, seq_len, head_dim, taken),
{
    if !tuning.qkv_gemm || !tuning.flash_attention {
        return false;
    }
    let allowed: bool = prefill_q4k_f16_gemm_allowed(true, gemm, seq_len, q.q_rows, q.cols);
    let least: usize = (*min_seq)(head_dim);
    allowed && seq_len >= least
}

/// The projections of queries, keys and values, and what they are applied to.
#[derive(Debug, Clone, Copy)]
pub struct QkvGemmRequest<'a> {
    pub q_weights: &'a [u8],
    pub k_weights: &'a [u8],
    pub v_weights: &'a [u8],
    pub q_rows: usize,
    pub kv_rows: usize,
    pub cols: usize,
    pub input: &'a [u32],
}

/// Projects queries, keys and values in half precision, where that is allowed.
pub fn prefill_q4k_f16_qkv_gemm<
    'a,
    T,
    G: Fn(GemmQuery) -> bool,
    D: FnOnce(QkvGemmRequest<'a>) -> Result<Option<T>, String>,
>(
    qkv_gemm_enabled: bool,
    tuning: &G,
    seq_len: usize,
    request: QkvGemmRequest<'a>,
    device: D,
) -> (output: Result<Option<T>, String>)
    requires
        forall|query: GemmQuery| call_requires(*tuning, (query,)),
        call_requires(device, (request,)),
    ensures
        exists|allowed: bool| #[trigger]
            gemm_allowed(
                qkv_gemm_enabled,
                *tuning,
                seq_len,
                request.q_rows,
                request.cols,
                allowed,
            ) && (if allowed {
                answers(device, request, "CUDA prefill Q4_K F16 QKV GEMM failed: "@, output)
            } else {
                output == Ok::<Option<T>, String>(None)
            }),
{
    let allowed: bool = prefill_q4k_f16_gemm_allowed(
        qkv_gemm_enabled,
        tuning,
        seq_len,
        request.q_rows,
        request.cols,
    );
    if !allowed {
        return Ok(None);
    }
    ask(device, request, "CUDA prefill Q4_K F16 QKV GEMM failed: ")
}

/// What is wrong with an input that does not divide into rows of `cols`, if anything.
pub open spec fn input_fault(input_len: nat, cols: usize) -> Option<Seq<char>> {
    if cols == 0 {
        Some("CUDA prefill input cols must be non-zero"@)
    } else if input_len % (cols as nat) != 0 {
        Some(
            "CUDA prefill input length "@ + decimal(input_len)
                + " is not divisible by cols "@ + decimal(cols as nat),
        )
    } else {
        None
    }
}

/// The tokens of an input.
pub fn seq_len_from_input(input: &[u32], cols: usize) -> (seq_len: Result<usize, String>)
    ensures
        match input_fault(input@.len(), cols) {
            Some(fault) => seq_len matches Err(message) && message@ == fault,
            None => seq_len == Ok::<usize, String>((input@.len() / cols as nat) as usize),
        },
{
    if cols == 0 {
        return Err(String::from_str("CUDA prefill input cols must be non-zero"));
    }
    let input_len: usize = input.len();
    if input_len % cols != 0 {
        let mut message = String::from_str("CUDA prefill input length ");
        push_decimal(&mut message, input_len);
        message.append(" is not divisible by cols ");
        push_decimal(&mut message, cols);
        return Err(message);
    }
    Ok(input_len / cols)
}

/// What is wrong with an input that may be on the device, if anything.
pub open spec fn input_or_device_fault(
    input_len: nat,
    device: Option<DeviceTensorDesc>,
    cols: usize,
) -> Option<Seq<char>> {
    if cols == 0 || device is None {
        input_fault(input_len, cols)
    } else {
        None
    }
}

/// The tokens of an input that may be on the device; `None` for a device tensor of
/// another width or of other elements than floats.
pub open spec fn tokens_of(
    input_len: nat,
    device: Option<DeviceTensorDesc>,
    cols: usize,
) -> Option<usize> {
    match device {
        Some(desc) => if desc.cols == cols && desc.dtype == ScalarType::F32 {
            Some(desc.rows)
        } else {
            None
        },
        None => Some((input_len / cols as nat) as usize),
    }
}

/// The description of an input on the device, where it is there.
pub open spec fn desc_of(device: Option<(DeviceTensorId, DeviceTensorDesc)>) -> Option<
    DeviceTensorDesc,
> {
    match device {
        Some((_, desc)) => Some(desc),
        None => None,
    }
}

/// The tokens of an input that may be on the device.
pub fn seq_len_from_input_or_device(
    input: &[u32],
    device: Option<(DeviceTensorId, DeviceTensorDesc)>,
    cols: usize,
) -> (seq_len: Result<Option<usize>, String>)
    ensures
        match input_or_device_fault(input@.len(), desc_of(device), cols) {
            Some(fault) => seq_len matches Err(message) && message@ == fault,
            None => seq_len == Ok::<Option<usize>, String>(
                tokens_of(input@.len(), desc_of(device), cols),
            ),
        },
{
    if cols == 0 {
        return Err(String::from_str("CUDA prefill input cols must be non-zero"));
    }
    if let Some((_, desc)) = device {
        if desc.cols != cols || desc.dtype != ScalarType::F32 {
            return Ok(None);
        }
        return Ok(Some(desc.rows));
    }
    match seq_len_from_input(input, cols) {
        Ok(seq_len) => Ok(Some(seq_len)),
        Err(message) => Err(message),
    }
}

/// The rest of a prompt's layer: its norms, its output projection and its feed-forward
/// block.
#[derive(Debug, Clone, Copy)]
pub struct PrefillBlock<'a> {
    pub attn_norm_weight: &'a [u32],
    pub o: &'a [u8],
    pub gate: &'a [u8],
    pub up: &'a [u8],
    pub down: &'a [u8],
    pub down_quant: GGMLType,
    pub post_attn_norm_weight: Option<&'a [u32]>,
    pub ffn_norm_weight: &'a [u32],
    pub post_ffn_norm_weight: Option<&'a [u32]>,
    pub o_cols: usize,
    pub n_ff: usize,
    pub n_embd: usize,
    pub unit_offset_attn_norm: bool,
    pub unit_offset_post_attn_norm: bool,
    pub unit_offset_ffn_norm: bool,
    pub unit_offset_post_ffn_norm: bool,
}

impl<'a> PrefillBlock<'a> {
    /// A norm weight for each column, and a hidden state for each token in the buffer.
    pub open spec fn fits(self, seq_len: usize, cols: usize, hidden: Seq<u32>) -> bool {
        &&& self.attn_norm_weight@.len() == cols
        &&& hidden.len() == saturating_product(seq_len, self.n_embd)
    }

    fn does_fit(&self, seq_len: usize, cols: usize, hidden: &Vec<u32>) -> (yes: bool)
        ensures
            yes == self.fits(seq_len, cols, hidden@),
    {
        self.attn_norm_weight.len() == cols && hidden.len() == saturating_mul(seq_len, self.n_embd)
    }

    /// The description of the layer's output.
    pub open spec fn output_desc(self, seq_len: usize) -> DeviceTensorDesc {
        DeviceTensorDesc {
            rows: seq_len,
            cols: self.n_embd,
            dtype: ScalarType::F32,
            role: DeviceTensorRole::Hidden,
        }
    }

    fn describe_output(&self, seq_len: usize) -> (desc: DeviceTensorDesc)
        ensures
            desc == self.output_desc(seq_len),
    {
        DeviceTensorDesc::new(seq_len, self.n_embd, ScalarType::F32, DeviceTensorRole::Hidden)
    }
}

/// The embedding that some models mix into each layer.
#[derive(Debug, Clone, Copy)]
pub struct LayerEmbedding<'a> {
    pub ple_gate: Option<&'a [u8]>,
    pub ple_proj: Option<&'a [u8]>,
    pub ple_post_norm_weight: Option<&'a [u32]>,
    pub ple_input: Option<&'a [u32]>,
    pub ple_dim: usize,
}

/// What a layer needs besides, where its output stays on the device.
#[derive(Debug, Clone, Copy)]
pub struct DeviceLayer<'a> {
    pub hidden_input_device: Option<(DeviceTensorId, DeviceTensorDesc)>,
    pub embedding: LayerEmbedding<'a>,
    pub layer_out_scale: Option<&'a [u32]>,
}

/// An attention with heads of 512.
#[derive(Debug, Clone, Copy)]
pub struct Hd512Attention<'a> {
    pub qkv: PrefillQkv<'a>,
    pub freq_factors: Option<&'a [u32]>,
    pub scale: u32,
    pub input: &'a [u32],
}

/// A layer with heads of 512.
#[derive(Debug, Clone, Copy)]
pub struct Hd512Layer<'a> {
    pub qkv: PrefillQkv<'a>,
    pub freq_factors: Option<&'a [u32]>,
    pub scale: u32,
    pub hidden_input: &'a [u32],
    pub block: PrefillBlock<'a>,
}

/// A layer with heads of 512 over cached keys and values.
#[derive(Debug, Clone, Copy)]
pub struct Hd512CachedLayer<'a> {
    pub q: PrefillQueries<'a>,
    pub freq_factors: Option<&'a [u32]>,
    pub scale: u32,
    pub hidden_input: &'a [u32],
    pub cached_k_f16: &'a [u16],
    pub cached_v_f16: &'a [u16],
    pub seq_len: usize,
    pub kv_len: usize,
    pub block: PrefillBlock<'a>,
}

/// Queries, keys and values with heads of 256.
#[derive(Debug, Clone, Copy)]
pub struct Hd256Attention<'a> {
    pub qkv: PrefillQkv<'a>,
    pub input: &'a [u32],
}

/// A layer with heads of 256 and a window.
#[derive(Debug, Clone, Copy)]
pub struct Hd256WindowLayer<'a> {
    pub qkv: PrefillQkv<'a>,
    pub v_quant: GGMLType,
    pub scale: u32,
    pub window: usize,
    pub hidden_input: &'a [u32],
    pub block: PrefillBlock<'a>,
}

/// A layer with heads of 256 and a window over cached keys and values.
#[derive(Debug, Clone, Copy)]
pub struct Hd256CachedLayer<'a> {
    pub q: PrefillQueries<'a>,
    pub scale: u32,
    pub window: usize,
    pub hidden_input: &'a [u32],
    pub cached_k_f16: &'a [u16],
    pub cached_v_f16: &'a [u16],
    pub seq_len: usize,
    pub kv_len: usize,
    pub block: PrefillBlock<'a>,
}

impl<'a> Hd512Layer<'a> {
    /// The layer starts at the first token and fits its prompt.
    pub open spec fn fits(self, seq_len: usize, hidden: Seq<u32>) -> bool {
        &&& self.qkv.q.pos_start == 0
        &&& self.qkv.fit(512)
        &&& self.block.fits(seq_len, self.qkv.q.cols, hidden)
    }

    fn does_fit(&self, seq_len: usize, hidden: &Vec<u32>) -> (yes: bool)
        ensures
            yes == self.fits(seq_len, hidden@),
    {
        self.qkv.q.pos_start == 0 && self.qkv.do_fit(512) && self.block.does_fit(
            seq_len,
            self.qkv.q.cols,
            hidden,
        )
    }
}

impl<'a> Hd256WindowLayer<'a> {
    /// The layer starts at the first token, has a window and fits its prompt.
    pub open spec fn fits(self, seq_len: usize, hidden: Seq<u32>) -> bool {
        &&& self.qkv.q.pos_start == 0
        &&& self.window != 0
        &&& self.qkv.fit(256)
        &&& self.block.o_cols == self.qkv.q.q_rows
        &&& self.block.fits(seq_len, self.qkv.q.cols, hidden)
    }

    fn does_fit(&self, seq_len: usize, hidden: &Vec<u32>) -> (yes: bool)
        ensures
            yes == self.fits(seq_len, hidden@),
    {
        self.qkv.q.pos_start == 0 && self.window != 0 && self.qkv.do_fit(256) && self.block.o_cols
            == self.qkv.q.q_rows && self.block.does_fit(seq_len, self.qkv.q.cols, hidden)
    }
}

impl<'a> Hd512CachedLayer<'a> {
    /// The layer fits its prompt, its input aside.
    pub open spec fn fits(self, seq_len: usize, hidden: Seq<u32>) -> bool {
        &&& self.q.fit(512)
        &&& self.block.fits(seq_len, self.q.cols, hidden)
    }

    fn does_fit(&self, seq_len: usize, hidden: &Vec<u32>) -> (yes: bool)
        ensures
            yes == self.fits(seq_len, hidden@),
    {
        self.q.do_fit(512) && self.block.does_fit(seq_len, self.q.cols, hidden)
    }
}

impl<'a> Hd256CachedLayer<'a> {
    /// The layer has a window and fits its prompt, its input aside.
    pub open spec fn fits(self, seq_len: usize, hidden: Seq<u32>) -> bool {
        &&& self.window != 0
        &&& self.q.fit(256)
        &&& self.block.fits(seq_len, self.q.cols, hidden)
    }

    fn does_fit(&self, seq_len: usize, hidden: &Vec<u32>) -> (yes: bool)
        ensures
            yes == self.fits(seq_len, hidden@),
    {
        self.window != 0 && self.q.do_fit(256) && self.block.does_fit(seq_len, self.q.cols, hidden)
    }
}

/// Projects and attends with heads of 512.
pub fn prefill_q4k_f16_qkv_attention_hd512<
    'a,
    T,
    G: Fn(GemmQuery) -> bool,
    M: Fn(usize) -> usize,
    D: FnOnce(Hd512Attention<'a>) -> Result<Option<T>, String>,
>(
    tuning: QkvTuning,
    gemm: &G,
    min_seq: &M,
    request: Hd512Attention<'a>,
    device: D,
) -> (output: Result<Option<T>, String>)
    requires
        forall|query: GemmQuery| call_requires(*gemm, (query,)),
        call_requires(*min_seq, (512,)),
        call_requires(device, (request,)),
    ensures
        match input_fault(request.input@.len(), request.qkv.q.cols) {
            Some(fault) => output matches Err(message) && message@ == fault,
            None => exists|taken: bool| #[trigger]
                prompt_taken(
                    tuning,
                    *gemm,
                    *min_seq,
                    request.qkv.q,
                    (request.input@.len() / request.qkv.q.cols as nat) as usize,
                    512,
                    taken,
                ) && (if taken && request.qkv.fit(512) {
                    answers(device, request, "CUDA prefill Q4_K F16 QKV attention hd512 failed: "@, output)
                } else {
                    output == Ok::<Option<T>, String>(None)
                }),
        },
{
    let seq_len: usize = match seq_len_from_input(request.input, request.qkv.q.cols) {
        Ok(seq_len) => seq_len,
        Err(message) => return Err(message),
    };
    let taken: bool = takes_prompt(tuning, gemm, min_seq, &request.qkv.q, seq_len, 512);
    if !taken || !request.qkv.do_fit(512) {
        return Ok(None);
    }
    ask(device, request, "CUDA prefill Q4_K F16 QKV attention hd512 failed: ")
}

/// Runs a whole layer with heads of 512, from the first token.
pub fn prefill_q4k_f16_qkv_attention_hd512_dense_chain<
    'a,
    T,
    G: Fn(GemmQuery) -> bool,
    M: Fn(usize) -> usize,
    D: FnOnce(Hd512Layer<'a>, &Vec<u32>) -> (Result<Option<T>, String>, Vec<u32>),
>(
    tuning: QkvTuning,
    gemm: &G,
    min_seq: &M,
    request: Hd512Layer<'a>,
    hidden: &mut Vec<u32>,
    device: D,
) -> (output: Result<Option<T>, String>)
    requires
        forall|query: GemmQuery| call_requires(*gemm, (query,)),
        call_requires(*min_seq, (512,)),
        call_requires(device, (request, &*old(hidden))),
    ensures
        match input_fault(request.hidden_input@.len(), request.qkv.q.cols) {
            Some(fault) => {
                &&& output matches Err(message) && message@ == fault
                &&& *final(hidden) == *old(hidden)
            },
            None => {
                let seq_len = (request.hidden_input@.len() / request.qkv.q.cols as nat) as usize;
                exists|taken: bool| #[trigger]
                    prompt_taken(
                        tuning,
                        *gemm,
                        *min_seq,
                        request.qkv.q,
                        seq_len,
                        512,
                        taken,
                    ) && (if taken && request.fits(seq_len, old(hidden)@) {
                        answers_in_place(
                            device,
                            request,
                            "CUDA prefill Q4_K F16 QKV attention hd512 dense chain failed: "@,
                            *old(hidden),
                            *final(hidden),
                            output,
                        )
                    } else {
                        output == Ok::<Option<T>, String>(None) && *final(hidden) == *old(hidden)
                    })
            },
        },
{
    let seq_len: usize = match seq_len_from_input(request.hidden_input, request.qkv.q.cols) {
        Ok(seq_len) => seq_len,
        Err(message) => return Err(message),
    };
    let taken: bool = takes_prompt(tuning, gemm, min_seq, &request.qkv.q, seq_len, 512);
    if !taken || !request.does_fit(seq_len, &*hidden) {
        return Ok(None);
    }
    ask_in_place(
        device,
        request,
        "CUDA prefill Q4_K F16 QKV attention hd512 dense chain failed: ",
        hidden,
    )
}

/// What the device gives back of a layer with its keys and values.
pub struct QkvLayerReply {
    pub k_bits: Vec<u16>,
    pub v_bits: Vec<u16>,
    pub output_id: DeviceTensorId,
}

/// Whether `output` is what comes of a layer whose output stays on the device: the
/// reply with the description that the device was handed.
pub open spec fn qkv_layer_answers<
    C,
    D: FnOnce((C, DeviceTensorDesc), &Vec<u32>) -> (
        Result<Option<QkvLayerReply>, String>,
        Vec<u32>,
    ),
>(
    device: D,
    call: C,
    desc: DeviceTensorDesc,
    context: Seq<char>,
    before: Vec<u32>,
    after: Vec<u32>,
    output: Result<Option<PrefillQ4kF16QkvDenseChainDeviceOutput>, String>,
) -> bool {
    exists|reply: Result<Option<QkvLayerReply>, String>| #[trigger]
        answers_in_place(device, (call, desc), context, before, after, reply) && match (
            reply,
            output,
        ) {
            (Ok(None), Ok(None)) => true,
            (Ok(Some(given)), Ok(Some(kept))) => {
                &&& kept.k_bits == given.k_bits
                &&& kept.v_bits == given.v_bits
                &&& kept.output_id == given.output_id
                &&& kept.output_desc == desc
            },
            (Err(message), Err(kept)) => message == kept,
            _ => false,
        }
}

fn ask_qkv_layer<
    C,
    D: FnOnce((C, DeviceTensorDesc), &Vec<u32>) -> (
        Result<Option<QkvLayerReply>, String>,
        Vec<u32>,
    ),
>(
    device: D,
    call: C,
    desc: DeviceTensorDesc,
    context: &str,
    hidden: &mut Vec<u32>,
) -> (output: Result<Option<PrefillQ4kF16QkvDenseChainDeviceOutput>, String>)
    requires
        call_requires(device, ((call, desc), &*old(hidden))),
    ensures
        qkv_layer_answers(device, call, desc, context@, *old(hidden), *final(hidden), output),
{
    let reply = ask_in_place(device, (call, desc), context, hidden);
    match reply {
        Ok(Some(given)) => Ok(
            Some(
                PrefillQ4kF16QkvDenseChainDeviceOutput {
                    k_bits: given.k_bits,
                    v_bits: given.v_bits,
                    output_id: given.output_id,
                    output_desc: desc,
                },
            ),
        ),
        Ok(None) => Ok(None),
        Err(message) => Err(message),
    }
}

/// Whether `output` is what comes of a layer over cached keys and values whose output
/// stays on the device.
pub open spec fn q_layer_answers<
    C,
    D: FnOnce((C, DeviceTensorDesc), &Vec<u32>) -> (
        Result<Option<DeviceTensorId>, String>,
        Vec<u32>,
    ),
>(
    device: D,
    call: C,
    desc: DeviceTensorDesc,
    context: Seq<char>,
    before: Vec<u32>,
    after: Vec<u32>,
    output: Result<Option<PrefillQ4kF16QDenseChainDeviceOutput>, String>,
) -> bool {
    exists|reply: Result<Option<DeviceTensorId>, String>| #[trigger]
        answers_in_place(device, (call, desc), context, before, after, reply) && output == (
        match reply {
            Ok(Some(output_id)) => Ok::<_, String>(
                Some(PrefillQ4kF16QDenseChainDeviceOutput { output_id, output_desc: desc }),
            ),
            Ok(None) => Ok(None),
            Err(message) => Err(message),
        })
}

fn ask_q_layer<
    C,
    D: FnOnce((C, DeviceTensorDesc), &Vec<u32>) -> (
        Result<Option<DeviceTensorId>, String>,
        Vec<u32>,
    ),
>(
    device: D,
    call: C,
    desc: DeviceTensorDesc,
    context: &str,
    hidden: &mut Vec<u32>,
) -> (output: Result<Option<PrefillQ4kF16QDenseChainDeviceOutput>, String>)
    requires
        call_requires(device, ((call, desc), &*old(hidden))),
    ensures
        q_layer_answers(device, call, desc, context@, *old(hidden), *final(hidden), output),
{
    let reply = ask_in_place(device, (call, desc), context, hidden);
    match reply {
        Ok(Some(output_id)) => Ok(
            Some(PrefillQ4kF16QDenseChainDeviceOutput { output_id, output_desc: desc }),
        ),
        Ok(None) => Ok(None),
        Err(message) => Err(message),
    }
}

/// Runs a whole layer with heads of 512 and leaves its output on the device. The input may
/// be there too.
pub fn prefill_q4k_f16_qkv_attention_hd512_dense_chain_device_output<
    'a,
    G: Fn(GemmQuery) -> bool,
    M: Fn(usize) -> usize,
    D: FnOnce(((Hd512Layer<'a>, DeviceLayer<'a>), DeviceTensorDesc), &Vec<u32>) -> (
        Result<Option<QkvLayerReply>, String>,
        Vec<u32>,
    ),
>(
    tuning: QkvTuning,
    gemm: &G,
    min_seq: &M,
    request: Hd512Layer<'a>,
    layer: DeviceLayer<'a>,
    hidden: &mut Vec<u32>,
    device: D,
) -> (output: Result<Option<PrefillQ4kF16QkvDenseChainDeviceOutput>, String>)
    requires
        forall|query: GemmQuery| call_requires(*gemm, (query,)),
        call_requires(*min_seq, (512,)),
        forall|desc: DeviceTensorDesc|
            call_requires(device, (((request, layer), desc), &*old(hidden))),
    ensures
        ({
            let input_len = request.hidden_input@.len();
            let input_desc = desc_of(layer.hidden_input_device);
            let cols = request.qkv.q.cols;
            match (
                input_or_device_fault(input_len, input_desc, cols),
                tokens_of(input_len, input_desc, cols),
            ) {
                (Some(fault), _) => {
                    &&& output matches Err(message) && message@ == fault
                    &&& *final(hidden) == *old(hidden)
                },
                (None, None) => output matches Ok(None) && *final(hidden) == *old(hidden),
                (None, Some(seq_len)) => exists|taken: bool| #[trigger]
                    prompt_taken(
                        tuning,
                        *gemm,
                        *min_seq,
                        request.qkv.q,
                        seq_len,
                        512,
                        taken,
                    ) && (if taken && request.fits(seq_len, old(hidden)@) {
                        qkv_layer_answers(
                            device,
                            (request, layer),
                            request.block.output_desc(seq_len),
                            "CUDA prefill Q4_K F16 QKV attention hd512 dense chain device output failed: "@,
                            *old(hidden),
                            *final(hidden),
                            output,
                        )
                    } else {
                        output matches Ok(None) && *final(hidden) == *old(hidden)
                    }),
            }
        }),
{
    let tokens = seq_len_from_input_or_device(
        request.hidden_input,
        layer.hidden_input_device,
        request.qkv.q.cols,
    );
    let seq_len: usize = match tokens {
        Ok(Some(seq_len)) => seq_len,
        Ok(None) => return Ok(None),
        Err(message) => return Err(message),
    };
    let taken: bool = takes_prompt(tuning, gemm, min_seq, &request.qkv.q, seq_len, 512);
    if !taken || !request.does_fit(seq_len, &*hidden) {
        return Ok(None);
    }
    let desc = request.block.describe_output(seq_len);
    ask_qkv_layer(
        device,
        (request, layer),
        desc,
        "CUDA prefill Q4_K F16 QKV attention hd512 dense chain device output failed: ",
        hidden,
    )
}

/// Whether an input has a row for each token, on the host or, as floats, on the
/// device.
pub open spec fn input_fits(
    input_len: nat,
    input_device: Option<DeviceTensorDesc>,
    seq_len: usize,
    cols: usize,
) -> bool {
    match input_device {
        Some(desc) => desc.rows == seq_len && desc.cols == cols && desc.dtype == ScalarType::F32,
        None => input_len == saturating_product(seq_len, cols),
    }
}

fn does_input_fit(
    input: &[u32],
    input_device: Option<(DeviceTensorId, DeviceTensorDesc)>,
    seq_len: usize,
    cols: usize,
) -> (yes: bool)
    ensures
        yes == input_fits(input@.len(), desc_of(input_device), seq_len, cols),
{
    match input_device {
        Some((_, desc)) => desc.rows == seq_len && desc.cols == cols && desc.dtype
            == ScalarType::F32,
        None => input.len() == saturating_mul(seq_len, cols),
    }
}

/// Runs a whole layer over cached keys and values with heads of 512. The answer says
/// whether the device did it.
pub fn prefill_q4k_f16_q_attention_hd512_cached_f16kv_dense_chain<
    'a,
    G: Fn(GemmQuery) -> bool,
    M: Fn(usize) -> usize,
    D: FnOnce((Hd512CachedLayer<'a>, LayerEmbedding<'a>), &Vec<u32>) -> (Result<bool, String>, Vec<u32>),
>(
    tuning: QkvTuning,
    gemm: &G,
    min_seq: &M,
    request: Hd512CachedLayer<'a>,
    embedding: LayerEmbedding<'a>,
    hidden: &mut Vec<u32>,
    device: D,
) -> (output: Result<bool, String>)
    requires
        forall|query: GemmQuery| call_requires(*gemm, (query,)),
        call_requires(*min_seq, (512,)),
        call_requires(device, ((request, embedding), &*old(hidden))),
    ensures
        exists|taken: bool| #[trigger]
            prompt_taken(tuning, *gemm, *min_seq, request.q, request.seq_len, 512, taken) && (
            if taken && request.fits(request.seq_len, old(hidden)@) && input_fits(
                request.hidden_input@.len(),
                None,
                request.seq_len,
                request.q.cols,
            ) {
                answers_in_place(
                    device,
                    (request, embedding),
                    "CUDA prefill Q4_K F16 Q cached f16KV hd512 dense chain failed: "@,
                    *old(hidden),
                    *final(hidden),
                    output,
                )
            } else {
                output == Ok::<bool, String>(false) && *final(hidden) == *old(hidden)
            }),
{
    let seq_len: usize = request.seq_len;
    let taken: bool = takes_prompt(tuning, gemm, min_seq, &request.q, seq_len, 512);
    if !taken || !request.does_fit(seq_len, &*hidden) || !does_input_fit(
        request.hidden_input,
        None,
        seq_len,
        request.q.cols,
    ) {
        return Ok(false);
    }
    ask_in_place(
        device,
        (request, embedding),
        "CUDA prefill Q4_K F16 Q cached f16KV hd512 dense chain failed: ",
        hidden,
    )
}

/// Runs a whole layer over cached keys and values with heads of 256 and a window. The
/// answer says whether the device did it.
pub fn prefill_q4k_f16_q_attention_hd256_cached_f16kv_window_dense_chain<
    'a,
    G: Fn(GemmQuery) -> bool,
    M: Fn(usize) -> usize,
    D: FnOnce((Hd256CachedLayer<'a>, LayerEmbedding<'a>), &Vec<u32>) -> (Result<bool, String>, Vec<u32>),
>(
    tuning: QkvTuning,
    gemm: &G,
    min_seq: &M,
    request: Hd256CachedLayer<'a>,
    embedding: LayerEmbedding<'a>,
    hidden: &mut Vec<u32>,
    device: D,
) -> (output: Result<bool, String>)
    requires
        forall|query: GemmQuery| call_requires(*gemm, (query,)),
        call_requires(*min_seq, (256,)),
        call_requires(device, ((request, embedding), &*old(hidden))),
    ensures
        exists|taken: bool| #[trigger]
            prompt_taken(tuning, *gemm, *min_seq, request.q, request.seq_len, 256, taken) && (
            if taken && request.fits(request.seq_len, old(hidden)@) && input_fits(
                request.hidden_input@.len(),
                None,
                request.seq_len,
                request.q.cols,
            ) {
                answers_in_place(
                    device,
                    (request, embedding),
                    "CUDA prefill Q4_K F16 Q cached f16KV hd256 window dense chain failed: "@,
                    *old(hidden),
                    *final(hidden),
                    output,
                )
            } else {
                output == Ok::<bool, String>(false) && *final(hidden) == *old(hidden)
            }),
{
    let seq_len: usize = request.seq_len;
    let taken: bool = takes_prompt(tuning, gemm, min_seq, &request.q, seq_len, 256);
    if !taken || !request.does_fit(seq_len, &*hidden) || !does_input_fit(
        request.hidden_input,
        None,
        seq_len,
        request.q.cols,
    ) {
        return Ok(false);
    }
    ask_in_place(
        device,
        (request, embedding),
        "CUDA prefill Q4_K F16 Q cached f16KV hd256 window dense chain failed: ",
        hidden,
    )
}

/// Runs a whole layer over cached keys and values with heads of 512 and leaves its output
/// on the device. The input may be there too.
pub fn prefill_q4k_f16_q_attention_hd512_cached_f16kv_dense_chain_device_output<
    'a,
    G: Fn(GemmQuery) -> bool,
    M: Fn(usize) -> usize,
    D: FnOnce(((Hd512CachedLayer<'a>, DeviceLayer<'a>), DeviceTensorDesc), &Vec<u32>) -> (
        Result<Option<DeviceTensorId>, String>,
        Vec<u32>,
    ),
>(
    tuning: QkvTuning,
    gemm: &G,
    min_seq: &M,
    request: Hd512CachedLayer<'a>,
    layer: DeviceLayer<'a>,
    hidden: &mut Vec<u32>,
    device: D,
) -> (output: Result<Option<PrefillQ4kF16QDenseChainDeviceOutput>, String>)
    requires
        forall|query: GemmQuery| call_requires(*gemm, (query,)),
        call_requires(*min_seq, (512,)),
        forall|desc: DeviceTensorDesc|
            call_requires(device, (((request, layer), desc), &*old(hidden))),
    ensures
        exists|taken: bool| #[trigger]
            prompt_taken(tuning, *gemm, *min_seq, request.q, request.seq_len, 512, taken) && (
            if taken && request.fits(request.seq_len, old(hidden)@) && input_fits(
                request.hidden_input@.len(),
                desc_of(layer.hidden_input_device),
                request.seq_len,
                request.q.cols,
            ) {
                q_layer_answers(
                    device,
                    (request, layer),
                    request.block.output_desc(request.seq_len),
                    "CUDA prefill Q4_K F16 Q cached f16KV hd512 dense chain device output failed: "@,
                    *old(hidden),
                    *final(hidden),
                    output,
                )
            } else {
                output matches Ok(None) && *final(hidden) == *old(hidden)
            }),
{
    let seq_len: usize = request.seq_len;
    let taken: bool = takes_prompt(tuning, gemm, min_seq, &request.q, seq_len, 512);
    if !taken || !request.does_fit(seq_len, &*hidden) || !does_input_fit(
        request.hidden_input,
        layer.hidden_input_device,
        seq_len,
        request.q.cols,
    ) {
        return Ok(None);
    }
    let desc = request.block.describe_output(seq_len);
    ask_q_layer(
        device,
        (request, layer),
        desc,
        "CUDA prefill Q4_K F16 Q cached f16KV hd512 dense chain device output failed: ",
        hidden,
    )
}

/// Runs a whole layer over cached keys and values with heads of 256 and a window, and
/// leaves its output on the device. The input may be there too.
pub fn prefill_q4k_f16_q_attention_hd256_cached_f16kv_window_dense_chain_device_output<
    'a,
    G: Fn(GemmQuery) -> bool,
    M: Fn(usize) -> usize,
    D: FnOnce(((Hd256CachedLayer<'a>, DeviceLayer<'a>), DeviceTensorDesc), &Vec<u32>) -> (
        Result<Option<DeviceTensorId>, String>,
        Vec<u32>,
    ),
>(
    tuning: QkvTuning,
    gemm: &G,
    min_seq: &M,
    request: Hd256CachedLayer<'a>,
    layer: DeviceLayer<'a>,
    hidden: &mut Vec<u32>,
    device: D,
) -> (output: Result<Option<PrefillQ4kF16QDenseChainDeviceOutput>, String>)
    requires
        forall|query: GemmQuery| call_requires(*gemm, (query,)),
        call_requires(*min_seq, (256,)),
        forall|desc: DeviceTensorDesc|
            call_requires(device, (((request, layer), desc), &*old(hidden))),
    ensures
        exists|taken: bool| #[trigger]
            prompt_taken(tuning, *gemm, *min_seq, request.q, request.seq_len, 256, taken) && (
            if taken && request.fits(request.seq_len, old(hidden)@) && input_fits(
                request.hidden_input@.len(),
                desc_of(layer.hidden_input_device),
                request.seq_len,
                request.q.cols,
            ) {
                q_layer_answers(
                    device,
                    (request, layer),
                    request.block.output_desc(request.seq_len),
                    "CUDA prefill Q4_K F16 Q cached f16KV hd256 window dense chain device output failed: "@,
                    *old(hidden),
                    *final(hidden),
                    output,
                )
            } else {
                output matches Ok(None) && *final(hidden) == *old(hidden)
            }),
{
    let seq_len: usize = request.seq_len;
    let taken: bool = takes_prompt(tuning, gemm, min_seq, &request.q, seq_len, 256);
    if !taken || !request.does_fit(seq_len, &*hidden) || !does_input_fit(
        request.hidden_input,
        layer.hidden_input_device,
        seq_len,
        request.q.cols,
    ) {
        return Ok(None);
    }
    let desc = request.block.describe_output(seq_len);
    ask_q_layer(
        device,
        (request, layer),
        desc,
        "CUDA prefill Q4_K F16 Q cached f16KV hd256 window dense chain device output failed: ",
        hidden,
    )
}

/// Projects and rotates with heads of 256.
pub fn prefill_q4k_f16_qkv_postprocess_hd256<
    'a,
    T,
    G: Fn(GemmQuery) -> bool,
    M: Fn(usize) -> usize,
    D: FnOnce(Hd256Attention<'a>) -> Result<Option<T>, String>,
>(
    tuning: QkvTuning,
    gemm: &G,
    min_seq: &M,
    request: Hd256Attention<'a>,
    device: D,
) -> (output: Result<Option<T>, String>)
    requires
        forall|query: GemmQuery| call_requires(*gemm, (query,)),
        call_requires(*min_seq, (256,)),
        call_requires(device, (request,)),
    ensures
        match input_fault(request.input@.len(), request.qkv.q.cols) {
            Some(fault) => output matches Err(message) && message@ == fault,
            None => exists|taken: bool| #[trigger]
                prompt_taken(
                    tuning,
                    *gemm,
                    *min_seq,
                    request.qkv.q,
                    (request.input@.len() / request.qkv.q.cols as nat) as usize,
                    256,
                    taken,
                ) && (if taken && request.qkv.fit(256) {
                    answers(device, request, "CUDA prefill Q4_K F16 QKV postprocess hd256 failed: "@, output)
                } else {
                    output == Ok::<Option<T>, String>(None)
                }),
        },
{
    let seq_len: usize = match seq_len_from_input(request.input, request.qkv.q.cols) {
        Ok(seq_len) => seq_len,
        Err(message) => return Err(message),
    };
    let taken: bool = takes_prompt(tuning, gemm, min_seq, &request.qkv.q, seq_len, 256);
    if !taken || !request.qkv.do_fit(256) {
        return Ok(None);
    }
    ask(device, request, "CUDA prefill Q4_K F16 QKV postprocess hd256 failed: ")
}

/// Runs a whole layer with heads of 256 and a window, from the first token.
pub fn prefill_q4k_f16_qkv_postprocess_hd256_window_dense_chain<
    'a,
    T,
    G: Fn(GemmQuery) -> bool,
    M: Fn(usize) -> usize,
    D: FnOnce(Hd256WindowLayer<'a>, &Vec<u32>) -> (Result<Option<T>, String>, Vec<u32>),
>(
    tuning: QkvTuning,
    gemm: &G,
    min_seq: &M,
    request: Hd256WindowLayer<'a>,
    hidden: &mut Vec<u32>,
    device: D,
) -> (output: Result<Option<T>, String>)
    requires
        forall|query: GemmQuery| call_requires(*gemm, (query,)),
        call_requires(*min_seq, (256,)),
        call_requires(device, (request, &*old(hidden))),
    ensures
        match input_fault(request.hidden_input@.len(), request.qkv.q.cols) {
            Some(fault) => {
                &&& output matches Err(message) && message@ == fault
                &&& *final(hidden) == *old(hidden)
            },
            None => {
                let seq_len = (request.hidden_input@.len() / request.qkv.q.cols as nat) as usize;
                exists|taken: bool| #[trigger]
                    prompt_taken(
                        tuning,
                        *gemm,
                        *min_seq,
                        request.qkv.q,
                        seq_len,
                        256,
                        taken,
                    ) && (if taken && request.fits(seq_len, old(hidden)@) {
                        answers_in_place(
                            device,
                            request,
                            "CUDA prefill Q4_K F16 QKV postprocess hd256 window dense chain failed: "@,
                            *old(hidden),
                            *final(hidden),
                            output,
                        )
                    } else {
                        output == Ok::<Option<T>, String>(None) && *final(hidden) == *old(hidden)
                    })
            },
        },
{
    let seq_len: usize = match seq_len_from_input(request.hidden_input, request.qkv.q.cols) {
        Ok(seq_len) => seq_len,
        Err(message) => return Err(message),
    };
    let taken: bool = takes_prompt(tuning, gemm, min_seq, &request.qkv.q, seq_len, 256);
    if !taken || !request.does_fit(seq_len, &*hidden) {
        return Ok(None);
    }
    ask_in_place(
        device,
        request,
        "CUDA prefill Q4_K F16 QKV postprocess hd256 window dense chain failed: ",
        hidden,
    )
}

/// Runs a whole layer with heads of 256 and a window, and leaves its output on the device.
/// The input may be there too.
pub fn prefill_q4k_f16_qkv_postprocess_hd256_window_dense_chain_device_output<
    'a,
    G: Fn(GemmQuery) -> bool,
    M: Fn(usize) -> usize,
    D: FnOnce(((Hd256WindowLayer<'a>, DeviceLayer<'a>), DeviceTensorDesc), &Vec<u32>) -> (
        Result<Option<QkvLayerReply>, String>,
        Vec<u32>,
    ),
>(
    tuning: QkvTuning,
    gemm: &G,
    min_seq: &M,
    request: Hd256WindowLayer<'a>,
    layer: DeviceLayer<'a>,
    hidden: &mut Vec<u32>,
    device: D,
) -> (output: Result<Option<PrefillQ4kF16QkvDenseChainDeviceOutput>, String>)
    requires
        forall|query: GemmQuery| call_requires(*gemm, (query,)),
        call_requires(*min_seq, (256,)),
        forall|desc: DeviceTensorDesc|
            call_requires(device, (((request, layer), desc), &*old(hidden))),
    ensures
        ({
            let input_len = request.hidden_input@.len();
            let input_desc = desc_of(layer.hidden_input_device);
            let cols = request.qkv.q.cols;
            match (
                input_or_device_fault(input_len, input_desc, cols),
                tokens_of(input_len, input_desc, cols),
            ) {
                (Some(fault), _) => {
                    &&& output matches Err(message) && message@ == fault
                    &&& *final(hidden) == *old(hidden)
                },
                (None, None) => output matches Ok(None) && *final(hidden) == *old(hidden),
                (None, Some(seq_len)) => exists|taken: bool| #[trigger]
                    prompt_taken(
                        tuning,
                        *gemm,
                        *min_seq,
                        request.qkv.q,
                        seq_len,
                        256,
                        taken,
                    ) && (if taken && request.fits(seq_len, old(hidden)@) {
                        qkv_layer_answers(
                            device,
                            (request, layer),
                            request.block.output_desc(seq_len),
                            "CUDA prefill Q4_K F16 QKV postprocess hd256 window dense chain device output failed: "@,
                            *old(hidden),
                            *final(hidden),
                            output,
                        )
                    } else {
                        output matches Ok(None) && *final(hidden) == *old(hidden)
                    }),
            }
        }),
{
    let tokens = seq_len_from_input_or_device(
        request.hidden_input,
        layer.hidden_input_device,
        request.qkv.q.cols,
    );
    let seq_len: usize = match tokens {
        Ok(Some(seq_len)) => seq_len,
        Ok(None) => return Ok(None),
        Err(message) => return Err(message),
    };
    let taken: bool = takes_prompt(tuning, gemm, min_seq, &request.qkv.q, seq_len, 256);
    if !taken || !request.does_fit(seq_len, &*hidden) {
        return Ok(None);
    }
    let desc = request.block.describe_output(seq_len);
    ask_qkv_layer(
        device,
        (request, layer),
        desc,
        "CUDA prefill Q4_K F16 QKV postprocess hd256 window dense chain device output failed: ",
        hidden,
    )
}

/// An input on the device and the same input on the host count the same tokens, and
/// fit the same layers.
pub proof fn law_host_and_device_inputs_agree(
    rows: usize,
    cols: usize,
    role: DeviceTensorRole,
    seq_len: usize,
)
    requires
        cols != 0,
        rows * cols <= usize::MAX,
        seq_len * cols <= usize::MAX,
    ensures
        ({
            let desc = DeviceTensorDesc { rows, cols, dtype: ScalarType::F32, role };
            let input_len = (rows * cols) as nat;
            &&& input_or_device_fault(input_len, None, cols) is None
            &&& tokens_of(input_len, None, cols) == tokens_of(0, Some(desc), cols)
            &&& input_fits(input_len, None, seq_len, cols) == input_fits(
                0,
                Some(desc),
                seq_len,
                cols,
            )
        }),
{
    let input_len = (rows * cols) as nat;
    assert((rows * cols) % (cols as int) == 0 && (rows * cols) / (cols as int) == rows)
        by (nonlinear_arith)
        requires
            cols > 0,
            rows >= 0,
    ;
    assert(rows * cols == seq_len * cols ==> rows == seq_len) by (nonlinear_arith)
        requires
            cols > 0,
    ;
}

/// The tuning is asked of the sizes themselves, for a format that allows it, and only where
/// the switch is on; without its consent nothing is allowed.
pub proof fn law_the_tuning_is_asked_of_the_sizes<G: Fn(GemmQuery) -> bool>(
    enabled: bool,
    tuning: G,
    seq_len: usize,
    rows: usize,
    cols: usize,
    allowed: bool,
)
    requires
        gemm_allowed(enabled, tuning, seq_len, rows, cols, allowed),
    ensures
        allowed ==> enabled,
        enabled ==> exists|query: GemmQuery| #[trigger]
            call_ensures(tuning, (query,), allowed) && query.quant_supported && query.seq_len
                == seq_len && query.rows == rows && query.cols == cols,
{
    let query = GemmQuery { quant_supported: true, seq_len, rows, cols };
    if enabled {
        assert(call_ensures(tuning, (query,), allowed));
    }
}

/// Queries fit a head size with a row for each head and dimension, heads in groups of one
/// size and a norm weight for each dimension; keys and values with a row for each of their
/// heads and dimensions and a norm weight for each too.
pub proof fn law_which_projections_make_heads(
    q: PrefillQueries<'_>,
    qkv: PrefillQkv<'_>,
    head_dim: usize,
)
    ensures
        q.fit(head_dim) <==> {
            &&& q.q_rows == if q.num_heads * head_dim <= usize::MAX {
                q.num_heads * head_dim
            } else {
                usize::MAX as int
            }
            &&& q.num_kv_heads > 0 && q.num_heads % q.num_kv_heads == 0
            &&& q.q_norm@.len() == head_dim
        },
        qkv.fit(head_dim) <==> {
            &&& qkv.q.fit(head_dim)
            &&& qkv.kv_rows == if qkv.q.num_kv_heads * head_dim <= usize::MAX {
                qkv.q.num_kv_heads * head_dim
            } else {
                usize::MAX as int
            }
            &&& qkv.k_norm@.len() == head_dim
        },
{
}

/// A prompt is taken only with both switches on, with the tuning's consent to the queries'
/// own sizes and at the length that is asked for at its head size; with all of these it is.
pub proof fn law_which_prompts_are_taken<G: Fn(GemmQuery) -> bool, M: Fn(usize) -> usize>(
    tuning: QkvTuning,
    gemm: G,
    min_seq: M,
    q: PrefillQueries<'_>,
    seq_len: usize,
    head_dim: usize,
    taken: bool,
)
    requires
        prompt_taken(tuning, gemm, min_seq, q, seq_len, head_dim, taken),
    ensures
        ({
            let query = GemmQuery {
                quant_supported: true,
                seq_len,
                rows: q.q_rows,
                cols: q.cols,
            };
            &&& taken ==> {
                &&& tuning.qkv_gemm && tuning.flash_attention
                &&& call_ensures(gemm, (query,), true)
                &&& exists|least: usize| #[trigger] call_ensures(min_seq, (head_dim,), least)
                    && seq_len >= least
            }
            &&& !taken && tuning.qkv_gemm && tuning.flash_attention ==> {
                ||| call_ensures(gemm, (query,), false)
                ||| exists|least: usize| #[trigger] call_ensures(min_seq, (head_dim,), least)
                    && seq_len < least
            }
        }),
{
}

/// An input without columns, or one that is not made of whole rows, is at fault, and the
/// fault of the latter says its length and the width; of an input on the device only the
/// columns can be at fault.
pub proof fn law_which_inputs_are_at_fault(
    input_len: nat,
    desc: Option<DeviceTensorDesc>,
    cols: usize,
)
    ensures
        cols == 0 ==> input_fault(input_len, cols) == Some(
            "CUDA prefill input cols must be non-zero"@,
        ),
        cols > 0 ==> (input_fault(input_len, cols) is None <==> exists|rows: nat|
            input_len == #[trigger] (rows * cols)),
        cols > 0 && input_fault(input_len, cols) is Some ==> {
            let fault = input_fault(input_len, cols)->0;
            &&& says(fault, "CUDA prefill input length "@, decimal(input_len))
            &&& says(fault, " is not divisible by cols "@, decimal(cols as nat))
        },
        input_or_device_fault(input_len, None, cols) == input_fault(input_len, cols),
        desc is Some && cols > 0 ==> input_or_device_fault(input_len, desc, cols) is None,
        desc is Some && cols == 0 ==> input_or_device_fault(input_len, desc, cols) == Some(
            "CUDA prefill input cols must be non-zero"@,
        ),
{
    if cols > 0 {
        vstd::arithmetic::div_mod::lemma_fundamental_div_mod(input_len as int, cols as int);
        if input_len % (cols as nat) == 0 {
            let rows = (input_len / (cols as nat)) as nat;
            assert(rows * cols == cols * rows) by (nonlinear_arith);
            assert(input_len == rows * cols);
        } else {
            assert forall|rows: nat| input_len != #[trigger] (rows * cols) by {
                vstd::arithmetic::div_mod::lemma_mod_multiples_basic(rows as int, cols as int);
            }
            let name = "CUDA prefill input length "@;
            let got = decimal(input_len);
            let due = decimal(cols as nat);
            let line = name + got;
            assert(Seq::<char>::empty() + name + got =~= line);
            lemma_says(Seq::empty(), name, got);
            lemma_says_more(line, name, got, " is not divisible by cols "@);
            lemma_says_more(line + " is not divisible by cols "@, name, got, due);
            lemma_says(line, " is not divisible by cols "@, due);
        }
    }
}

/// An input on the host has as many tokens as rows; one on the device has its own rows,
/// where it is as wide as asked for and in single precision, and is else not taken.
pub proof fn law_how_many_tokens_an_input_has(
    input: &[u32],
    device: Option<(DeviceTensorId, DeviceTensorDesc)>,
    cols: usize,
    rows: int,
)
    requires
        cols > 0,
        0 <= rows,
        input@.len() == rows * cols,
    ensures
        tokens_of(input@.len(), None, cols) == Some(rows as usize) && rows <= usize::MAX,
        device is Some ==> desc_of(device) == Some((device->0).1),
        device is None ==> desc_of(device) is None,
        device is Some ==> (tokens_of(input@.len(), desc_of(device), cols) is Some
            <==> (device->0).1.cols == cols && (device->0).1.dtype is F32),
        device is Some && tokens_of(input@.len(), desc_of(device), cols) is Some ==> tokens_of(
            input@.len(),
            desc_of(device),
            cols,
        )->0 == (device->0).1.rows,
{
    assert(input.len() == input@.len());
    vstd::arithmetic::div_mod::lemma_div_multiples_vanish(rows, cols as int);
    assert(rows * cols == cols * rows && rows <= rows * cols) by (nonlinear_arith)
        requires
            cols >= 1,
            0 <= rows,
    ;
}

/// A layer's output is described as one hidden state in single precision for each token, as
/// wide as the model.
pub proof fn law_outputs_are_hidden_states(block: PrefillBlock<'_>, seq_len: usize)
    ensures
        block.output_desc(seq_len).rows == seq_len,
        block.output_desc(seq_len).cols == block.n_embd,
        block.output_desc(seq_len).dtype is F32,
        block.output_desc(seq_len).role is Hidden,
{
}

/// Whether a buffer has `rows` rows of `cols` values, as far as words can count them.
pub open spec fn holds_rows(len: nat, rows: usize, cols: usize) -> bool {
    len == if rows * cols <= usize::MAX {
        rows * cols
    } else {
        usize::MAX as int
    }
}

/// Which layers fit their prompt: projections for the head size of the kernel, a norm weight
/// for each column, a hidden state for each token; without cached keys and values only from
/// the first token, and with a window only if it has rows.
pub proof fn law_which_layers_fit(
    a: Hd512Layer<'_>,
    b: Hd256WindowLayer<'_>,
    c: Hd512CachedLayer<'_>,
    d: Hd256CachedLayer<'_>,
    seq_len: usize,
    hidden: Seq<u32>,
)
    ensures
        a.fits(seq_len, hidden) <==> {
            &&& a.qkv.q.pos_start == 0
            &&& a.qkv.fit(512)
            &&& a.block.attn_norm_weight@.len() == a.qkv.q.cols
            &&& holds_rows(hidden.len(), seq_len, a.block.n_embd)
        },
        b.fits(seq_len, hidden) <==> {
            &&& b.qkv.q.pos_start == 0
            &&& b.window > 0
            &&& b.qkv.fit(256)
            &&& b.block.o_cols == b.qkv.q.q_rows
            &&& b.block.attn_norm_weight@.len() == b.qkv.q.cols
            &&& holds_rows(hidden.len(), seq_len, b.block.n_embd)
        },
        c.fits(seq_len, hidden) <==> {
            &&& c.q.fit(512)
            &&& c.block.attn_norm_weight@.len() == c.q.cols
            &&& holds_rows(hidden.len(), seq_len, c.block.n_embd)
        },
        d.fits(seq_len, hidden) <==> {
            &&& d.window > 0
            &&& d.q.fit(256)
            &&& d.block.attn_norm_weight@.len() == d.q.cols
            &&& holds_rows(hidden.len(), seq_len, d.block.n_embd)
        },
{
}

/// An input on the host fits with a row for each token, one on the device with its own shape
/// and precision, whatever the host holds.
pub proof fn law_which_inputs_fit(
    input_len: nat,
    desc: DeviceTensorDesc,
    seq_len: usize,
    cols: usize,
)
    ensures
        input_fits(input_len, None, seq_len, cols) <==> holds_rows(input_len, seq_len, cols),
        input_fits(input_len, Some(desc), seq_len, cols) <==> desc.rows == seq_len && desc.cols
            == cols && desc.dtype is F32,
{
}

/// What stays on the device of a layer is told by the device's own number and by the
/// description that the device was handed; keys are told as keys and values as values.
pub proof fn law_layers_on_the_device_are_told_as_given<
    C,
    D: FnOnce((C, DeviceTensorDesc), &Vec<u32>) -> (
        Result<Option<QkvLayerReply>, String>,
        Vec<u32>,
    ),
    E: FnOnce((C, DeviceTensorDesc), &Vec<u32>) -> (
        Result<Option<DeviceTensorId>, String>,
        Vec<u32>,
    ),
>(
    device: D,
    cached: E,
    call: C,
    desc: DeviceTensorDesc,
    context: Seq<char>,
    before: Vec<u32>,
    after: Vec<u32>,
    a: Result<Option<PrefillQ4kF16QkvDenseChainDeviceOutput>, String>,
    b: Result<Option<PrefillQ4kF16QDenseChainDeviceOutput>, String>,
)
    requires
        qkv_layer_answers(device, call, desc, context, before, after, a),
        q_layer_answers(cached, call, desc, context, before, after, b),
    ensures
        exists|reply: Result<Option<QkvLayerReply>, String>|
            {
                &&& #[trigger] call_ensures(device, ((call, desc), &before), (reply, after))
                &&& a is Ok <==> reply is Ok
                &&& reply matches Ok(given) ==> (a->Ok_0 is Some <==> given is Some)
                &&& reply matches Ok(Some(given)) ==> {
                    let kept = a->Ok_0->0;
                    &&& kept.k_bits == given.k_bits && kept.v_bits == given.v_bits
                    &&& kept.output_id == given.output_id && kept.output_desc == desc
                }
                &&& reply matches Err(cause) ==> a->Err_0@ == context + cause@
            },
        exists|reply: Result<Option<DeviceTensorId>, String>|
            {
                &&& #[trigger] call_ensures(cached, ((call, desc), &before), (reply, after))
                &&& b is Ok <==> reply is Ok
                &&& reply matches Ok(given) ==> (b->Ok_0 is Some <==> given is Some)
                &&& reply matches Ok(Some(given)) ==> b->Ok_0->0.output_id == given
                    && b->Ok_0->0.output_desc == desc
                &&& reply matches Err(cause) ==> b->Err_0@ == context + cause@
            },
{
}

} // verus!
