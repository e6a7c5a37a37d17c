//! When the device takes an attention, with which kernel, and what it is handed. Floats
//! are their bits, as are halves.

use crate::cuda_inference::device::{
    answers, answers_done_in_place, answers_some, ask, ask_done_in_place, ask_some,
};
use crate::quant::GGMLType;
use vstd::prelude::*;
use vstd::slice::slice_subrange;

verus! {

/// The heads of an attention.
#[derive(Debug, Clone, Copy, PartialEq, Eq, Structural)]
pub struct AttentionHeads {
    pub num_heads: usize,
    pub num_kv_heads: usize,
    pub head_dim: usize,
}

/// What the tuning allows of a decode's attention.
#[derive(Debug, Clone, Copy, PartialEq, Eq, Structural)]
pub struct DecodeAttentionTuning {
    pub enabled: bool,
    pub kv_cache: bool,
    pub sliding_window: bool,
    pub hd512: bool,
}

/// The attention of one token: its queries over keys and values in half precision.
#[derive(Debug, Clone, Copy, PartialEq, Eq)]
pub struct DecodeAttention<'a> {
    pub q: &'a [u32],
    pub k: &'a [u16],
    pub v: &'a [u16],
    pub kv_len: usize,
    pub heads: AttentionHeads,
    pub scale: u32,
}

/// How the device is asked for a decode's attention.
#[derive(Debug, Clone, Copy, PartialEq, Eq, Structural)]
pub enum DecodeAttentionCall {
    /// Over a layer's cache on the device.
    Cached { layer_index: usize },
    /// Over the end of a layer's cache on the device.
    CachedWindow { layer_index: usize, window_start: usize, window_len: usize },
    /// Over all keys and values that the host has.
    Whole { head_dim: usize, kv_len: usize },
    /// Over those from element `start` to element `end`.
    Part { head_dim: usize, start: usize, end: usize, kv_len: usize },
}

impl DecodeAttentionCall {
    pub open spec fn context(self) -> Seq<char> {
        match self {
            DecodeAttentionCall::Cached { .. } => "CUDA cached decode attention failed: "@,
            DecodeAttentionCall::CachedWindow { .. } => "CUDA cached decode attention failed: "@,
            _ => "CUDA decode attention failed: "@,
        }
    }
}

/// The window at the end of the cache: where it starts and how long it is. A window
/// that is empty, or as long as the cache, is none.
pub open spec fn decode_window(sliding_window: Option<usize>, kv_len: usize) -> Option<
    (usize, usize),
> {
    match sliding_window {
        Some(window) if 0 < window < kv_len => Some(((kv_len - window) as usize, window)),
        _ => None,
    }
}

pub open spec fn has_kernel(head_dim: usize) -> bool {
    head_dim == 128 || head_dim == 256 || head_dim == 512
}

/// How a decode's attention is asked for, if it is.
pub open spec fn decode_attention_call(
    tuning: DecodeAttentionTuning,
    layer_index: Option<usize>,
    attention: DecodeAttention<'_>,
    sliding_window: Option<usize>,
    has_softcap: bool,
) -> Option<DecodeAttentionCall> {
    let heads = attention.heads;
    let kv_len = attention.kv_len;
    let window = decode_window(sliding_window, kv_len);
    let row = heads.num_kv_heads * heads.head_dim;
    if has_softcap || heads.num_kv_heads == 0 || heads.num_heads % heads.num_kv_heads != 0 {
        None
    } else if window is Some && !tuning.sliding_window {
        None
    } else if heads.head_dim == 512 && !tuning.hd512 {
        None
    } else if tuning.kv_cache && has_kernel(heads.head_dim) && layer_index is Some {
        match window {
            Some((window_start, window_len)) => Some(
                DecodeAttentionCall::CachedWindow {
                    layer_index: layer_index->0,
                    window_start,
                    window_len,
                },
            ),
            None => Some(DecodeAttentionCall::Cached { layer_index: layer_index->0 }),
        }
    } else if !tuning.enabled || !has_kernel(heads.head_dim) {
        None
    } else {
        match window {
            Some((window_start, window_len)) => if kv_len * row <= attention.k@.len() && kv_len * row
                <= attention.v@.len() {
                Some(
                    DecodeAttentionCall::Part {
                        head_dim: heads.head_dim,
                        start: (window_start * row) as usize,
                        end: (kv_len * row) as usize,
                        kv_len: window_len,
                    },
                )
            } else {
                None
            },
            None => Some(DecodeAttentionCall::Whole { head_dim: heads.head_dim, kv_len }),
        }
    }
}

/// Whether `handed` is the attention that a call hands over: all of it, or what the window
/// holds of its keys and values.
pub open spec fn handed_over(
    call: DecodeAttentionCall,
    attention: DecodeAttention<'_>,
    handed: DecodeAttention<'_>,
) -> bool {
    match call {
        DecodeAttentionCall::Part { start, end, kv_len, .. } => {
            &&& handed.q == attention.q
            &&& handed.k@ == attention.k@.subrange(start as int, end as int)
            &&& handed.v@ == attention.v@.subrange(start as int, end as int)
            &&& handed.kv_len == kv_len
            &&& handed.heads == attention.heads
            &&& handed.scale == attention.scale
        },
        _ => handed == attention,
    }
}

fn find_window(sliding_window: Option<usize>, kv_len: usize) -> (window: Option<(usize, usize)>)
    ensures
        window == decode_window(sliding_window, kv_len),
{
    match sliding_window {
        Some(window) => if window > 0 && window < kv_len {
            Some((kv_len - window, window))
        } else {
            None
        },
        None => None,
    }
}

/// The elements of a window, if both the keys and the values have them.
fn window_elements(
    window_start: usize,
    window_len: usize,
    heads: AttentionHeads,
    k_len: usize,
    v_len: usize,
) -> (range: Option<(usize, usize)>)
    requires
        0 < window_start,
        0 < window_len,
    ensures
        ({
            let row = heads.num_kv_heads * heads.head_dim;
            let end = (window_start + window_len) * row;
            range == (if end <= k_len && end <= v_len {
                Some(((window_start * row) as usize, end as usize))
            } else {
                None
            })
        }),
{
    let ghost row = heads.num_kv_heads * heads.head_dim;
    proof {
        assert(row >= 0) by (nonlinear_arith)
            requires
                row == heads.num_kv_heads * heads.head_dim,
        ;
        assert((window_start + window_len) * row == window_start * row + window_len * row
            && window_start * row >= row && window_len * row >= row) by (nonlinear_arith)
            requires
                0 < window_start,
                0 < window_len,
                row >= 0,
        ;
    }
    let rows = heads.num_kv_heads.checked_mul(heads.head_dim)?;
    let start = window_start.checked_mul(rows)?;
    let len = window_len.checked_mul(rows)?;
    let end = start.checked_add(len)?;
    if end > k_len || end > v_len {
        return None;
    }
    Some((start, end))
}

/// Attends for one token, if the device takes it.
pub fn decode_attention_hd256_if_supported<
    'a,
    T,
    D: FnOnce((DecodeAttentionCall, DecodeAttention<'a>)) -> Result<T, String>,
>(
    tuning: DecodeAttentionTuning,
    layer_index: Option<usize>,
    attention: DecodeAttention<'a>,
    sliding_window: Option<usize>,
    has_softcap: bool,
    device: D,
) -> (output: Option<Result<T, String>>)
    requires
        forall|call: DecodeAttentionCall, handed: DecodeAttention<'a>|
            call_requires(device, ((call, handed),)),
    ensures
        match decode_attention_call(tuning, layer_index, attention, sliding_window, has_softcap) {
            None => output is None,
            Some(call) => output matches Some(result) && exists|handed: DecodeAttention<'a>|
                #[trigger] handed_over(call, attention, handed) && answers(
                    device,
                    (call, handed),
                    call.context(),
                    result,
                ),
        },
{
    let heads = attention.heads;
    if has_softcap || heads.num_kv_heads == 0 || heads.num_heads % heads.num_kv_heads != 0 {
        return None;
    }
    let window = find_window(sliding_window, attention.kv_len);
    if window.is_some() && !tuning.sliding_window {
        return None;
    }
    if heads.head_dim == 512 && !tuning.hd512 {
        return None;
    }
    let kernel: bool = heads.head_dim == 128 || heads.head_dim == 256 || heads.head_dim == 512;
    if tuning.kv_cache && kernel {
        if let Some(layer_index) = layer_index {
            let call = match window {
                Some((window_start, window_len)) => DecodeAttentionCall::CachedWindow {
                    layer_index,
                    window_start,
                    window_len,
                },
                None => DecodeAttentionCall::Cached { layer_index },
            };
            assert(handed_over(call, attention, attention));
            return Some(ask(device, (call, attention), "CUDA cached decode attention failed: "));
        }
    }
    if !tuning.enabled {
        return None;
    }
    let mut handed = attention;
    let call = match window {
        Some((window_start, window_len)) => {
            let (start, end) = window_elements(
                window_start,
                window_len,
                heads,
                attention.k.len(),
                attention.v.len(),
            )?;
            proof {
                let row = heads.num_kv_heads * heads.head_dim;
                assert(row >= 0) by (nonlinear_arith)
                    requires
                        row == heads.num_kv_heads * heads.head_dim,
                ;
                assert(window_start * row <= (window_start + window_len) * row)
                    by (nonlinear_arith)
                    requires
                        row >= 0,
                        0 <= window_start,
                        0 <= window_len,
                ;
            }
            handed.k = slice_subrange(attention.k, start, end);
            handed.v = slice_subrange(attention.v, start, end);
            handed.kv_len = window_len;
            DecodeAttentionCall::Part { head_dim: heads.head_dim, start, end, kv_len: window_len }
        },
        None => DecodeAttentionCall::Whole { head_dim: heads.head_dim, kv_len: attention.kv_len },
    };
    if !kernel {
        return None;
    }
    assert(handed_over(call, attention, handed));
    Some(ask(device, (call, handed), "CUDA decode attention failed: "))
}

/// A prompt's attention.
#[derive(Debug, Clone, Copy, PartialEq, Eq)]
pub struct PrefillAttention<'a> {
    pub q: &'a [u32],
    pub k: &'a [u32],
    pub v: &'a [u32],
    pub seq_len: usize,
    pub kv_len: usize,
    pub heads: AttentionHeads,
    pub scale: u32,
}

/// A prompt's attention as the device is asked for it.
#[derive(Debug, Clone, Copy, PartialEq, Eq, Structural)]
pub enum PrefillAttentionCall {
    /// With the general kernel. The soft cap is a float as its bits.
    General { head_dim: usize, sliding_window: Option<usize>, softcap: Option<u32> },
    Hd128,
    Hd256,
    Hd512,
}

/// The kernel of a prompt's attention: the one for its head size where it is dense
/// and without a soft cap, else the general one.
pub open spec fn prefill_attention_call(
    head_dim: usize,
    sliding_window: Option<usize>,
    softcap: Option<u32>,
) -> PrefillAttentionCall {
    if sliding_window is None && softcap is None && head_dim == 128 {
        PrefillAttentionCall::Hd128
    } else if sliding_window is None && softcap is None && head_dim == 256 {
        PrefillAttentionCall::Hd256
    } else if sliding_window is None && softcap is None && head_dim == 512 {
        PrefillAttentionCall::Hd512
    } else {
        PrefillAttentionCall::General { head_dim, sliding_window, softcap }
    }
}

/// Attends over a prompt, unless flash attention is switched off. There is no other
/// path behind this one: neither the shape nor the length of a prompt turns it away.
pub fn prefill_attention_hd256_if_supported<
    'a,
    T,
    D: FnOnce((PrefillAttentionCall, PrefillAttention<'a>)) -> Result<T, String>,
>(
    flash_enabled: bool,
    attention: PrefillAttention<'a>,
    sliding_window: Option<usize>,
    softcap: Option<u32>,
    device: D,
) -> (output: Result<Option<T>, String>)
    requires
        forall|call: PrefillAttentionCall| call_requires(device, ((call, attention),)),
    ensures
        !flash_enabled ==> output == Ok::<Option<T>, String>(None),
        flash_enabled ==> answers_some(
            device,
            (
                prefill_attention_call(attention.heads.head_dim, sliding_window, softcap),
                attention,
            ),
            "CUDA prefill flash attention failed: "@,
            output,
        ),
{
    if !flash_enabled {
        return Ok(None);
    }
    let head_dim: usize = attention.heads.head_dim;
    let call = if sliding_window.is_some() || softcap.is_some() {
        PrefillAttentionCall::General { head_dim, sliding_window, softcap }
    } else {
        match head_dim {
            128 => PrefillAttentionCall::Hd128,
            256 => PrefillAttentionCall::Hd256,
            512 => PrefillAttentionCall::Hd512,
            _ => PrefillAttentionCall::General { head_dim, sliding_window: None, softcap: None },
        }
    };
    ask_some(device, (call, attention), "CUDA prefill flash attention failed: ")
}

/// Attends over a prompt in both directions.
pub fn prefill_attention_non_causal_if_supported<
    'a,
    T,
    D: FnOnce(PrefillAttention<'a>) -> Result<T, String>,
>(attention: PrefillAttention<'a>, device: D) -> (output: Result<Option<T>, String>)
    requires
        call_requires(device, (attention,)),
    ensures
        answers_some(device, attention, "CUDA non-causal prefill attention failed: "@, output),
{
    ask_some(device, attention, "CUDA non-causal prefill attention failed: ")
}

/// A prompt's attention over a half-precision cache.
#[derive(Debug, Clone, Copy, PartialEq, Eq)]
pub struct F16KvAttention<'a> {
    pub q: &'a [u32],
    pub k: &'a [u16],
    pub v: &'a [u16],
    pub seq_len: usize,
    pub kv_len: usize,
    pub heads: AttentionHeads,
    pub scale: u32,
}

/// What is switched on for an attention over a half-precision cache, and whether its
/// scores are capped.
#[derive(Debug, Clone, Copy, PartialEq, Eq, Structural)]
pub struct F16KvSwitches {
    pub flash_enabled: bool,
    pub has_softcap: bool,
}

impl F16KvSwitches {
    /// The heads can be counted, where it comes to that.
    pub open spec fn countable(self, heads: AttentionHeads) -> bool {
        self.flash_enabled && !self.has_softcap ==> heads.num_kv_heads != 0
    }

    /// Nothing but its length can keep the prompt from flash attention.
    pub open spec fn open(self, heads: AttentionHeads) -> bool {
        &&& self.flash_enabled
        &&& !self.has_softcap
        &&& heads.num_heads % heads.num_kv_heads == 0
    }

    fn is_open(&self, heads: AttentionHeads) -> (yes: bool)
        requires
            self.countable(heads),
        ensures
            yes == self.open(heads),
    {
        self.flash_enabled && !self.has_softcap && heads.num_heads % heads.num_kv_heads == 0
    }
}

/// Whether `taken` is what comes of asking how long a prompt must be at this head size:
/// no where the attention is not open to it.
pub open spec fn long_enough<M: Fn(usize) -> usize>(
    open: bool,
    min_seq: M,
    attention: F16KvAttention<'_>,
    taken: bool,
) -> bool {
    if open {
        exists|least: usize| #[trigger]
            call_ensures(min_seq, (attention.heads.head_dim,), least) && taken == (
            attention.seq_len >= least)
    } else {
        !taken
    }
}

fn is_long_enough<M: Fn(usize) -> usize>(
    open: bool,
    min_seq: &M,
    attention: &F16KvAttention<'_>,
) -> (taken: bool)
    requires
        call_requires(*min_seq, (attention.heads.head_dim,)),
    ensures
        long_enough(open, *min_seq, *attention, taken),
{
    if !open {
        return false;
    }
    let least: usize = (*min_seq)(attention.heads.head_dim);
    attention.seq_len >= least
}

/// Whether an attention without a window is open to prompts that are long enough: with
/// heads of 512 only.
pub open spec fn open_without_window(
    switches: F16KvSwitches,
    heads: AttentionHeads,
    has_sliding_window: bool,
) -> bool {
    !has_sliding_window && switches.open(heads) && heads.head_dim == 512
}

/// Attends over a half-precision cache without a window: heads of 512 only.
pub fn prefill_attention_f16kv_if_supported<
    'a,
    T,
    M: Fn(usize) -> usize,
    D: FnOnce(F16KvAttention<'a>) -> Result<T, String>,
>(
    switches: F16KvSwitches,
    min_seq: &M,
    attention: F16KvAttention<'a>,
    has_sliding_window: bool,
    device: D,
) -> (output: Result<Option<T>, String>)
    requires
        switches.countable(attention.heads) || has_sliding_window,
        call_requires(*min_seq, (attention.heads.head_dim,)),
        call_requires(device, (attention,)),
    ensures
        exists|taken: bool| #[trigger]
            long_enough(
                open_without_window(switches, attention.heads, has_sliding_window),
                *min_seq,
                attention,
                taken,
            ) && (if taken {
                answers_some(
                    device,
                    attention,
                    "CUDA prefill flash attention f16kv failed: "@,
                    output,
                )
            } else {
                output == Ok::<Option<T>, String>(None)
            }),
{
    let open: bool = !has_sliding_window && switches.is_open(attention.heads)
        && attention.heads.head_dim == 512;
    assert(open == open_without_window(switches, attention.heads, has_sliding_window));
    let taken: bool = is_long_enough(open, min_seq, &attention);
    if !taken {
        return Ok(None);
    }
    ask_some(device, attention, "CUDA prefill flash attention f16kv failed: ")
}

/// The kernels with a window.
#[derive(Debug, Clone, Copy, PartialEq, Eq, Structural)]
pub enum WindowKernel {
    Hd256,
    Hd512,
}

/// The window and the kernel of an attention over a half-precision cache, if there are
/// any: heads of 256 or 512 and a window that is not empty.
pub open spec fn window_call(head_dim: usize, sliding_window: Option<usize>) -> Option<
    (WindowKernel, usize),
> {
    match sliding_window {
        Some(window) if window > 0 => {
            if head_dim == 256 {
                Some((WindowKernel::Hd256, window))
            } else if head_dim == 512 {
                Some((WindowKernel::Hd512, window))
            } else {
                None
            }
        },
        _ => None,
    }
}

/// Whether the window has rows.
pub open spec fn has_window(sliding_window: Option<usize>) -> bool {
    sliding_window matches Some(window) && window > 0
}

/// Whether an attention with a window is open to prompts that are long enough.
pub open spec fn open_with_window(
    switches: F16KvSwitches,
    heads: AttentionHeads,
    sliding_window: Option<usize>,
) -> bool {
    has_window(sliding_window) && switches.open(heads)
}

/// Whether `call` is what comes of asking for a window: none where the prompt is not
/// taken.
pub open spec fn window_asked<M: Fn(usize) -> usize>(
    switches: F16KvSwitches,
    min_seq: M,
    attention: F16KvAttention<'_>,
    sliding_window: Option<usize>,
    call: Option<(WindowKernel, usize)>,
) -> bool {
    exists|taken: bool| #[trigger]
        long_enough(
            open_with_window(switches, attention.heads, sliding_window),
            min_seq,
            attention,
            taken,
        ) && call == (if taken {
            window_call(attention.heads.head_dim, sliding_window)
        } else {
            None
        })
}

fn find_window_call<M: Fn(usize) -> usize>(
    switches: F16KvSwitches,
    min_seq: &M,
    attention: &F16KvAttention<'_>,
    sliding_window: Option<usize>,
) -> (call: Option<(WindowKernel, usize)>)
    requires
        switches.countable(attention.heads) || !has_window(sliding_window),
        call_requires(*min_seq, (attention.heads.head_dim,)),
    ensures
        window_asked(switches, *min_seq, *attention, sliding_window, call),
{
    let window: usize = match sliding_window {
        Some(window) => window,
        None => 0,
    };
    let open: bool = window > 0 && switches.is_open(attention.heads);
    assert(open == open_with_window(switches, attention.heads, sliding_window));
    let taken: bool = is_long_enough(open, min_seq, attention);
    if !taken {
        return None;
    }
    match attention.heads.head_dim {
        256 => Some((WindowKernel::Hd256, window)),
        512 => Some((WindowKernel::Hd512, window)),
        _ => None,
    }
}

/// Attends over a half-precision cache with a window.
pub fn prefill_attention_f16kv_window_if_supported<
    'a,
    T,
    M: Fn(usize) -> usize,
    D: FnOnce((WindowKernel, usize, F16KvAttention<'a>)) -> Result<T, String>,
>(
    switches: F16KvSwitches,
    min_seq: &M,
    attention: F16KvAttention<'a>,
    sliding_window: Option<usize>,
    device: D,
) -> (output: Result<Option<T>, String>)
    requires
        switches.countable(attention.heads) || !has_window(sliding_window),
        call_requires(*min_seq, (attention.heads.head_dim,)),
        forall|kernel: WindowKernel, window: usize|
            call_requires(device, ((kernel, window, attention),)),
    ensures
        exists|call: Option<(WindowKernel, usize)>| #[trigger]
            window_asked(switches, *min_seq, attention, sliding_window, call) && (match call {
                Some((kernel, window)) => answers_some(
                    device,
                    (kernel, window, attention),
                    "CUDA prefill flash attention f16kv window failed: "@,
                    output,
                ),
                None => output == Ok::<Option<T>, String>(None),
            }),
{
    match find_window_call(switches, min_seq, &attention, sliding_window) {
        Some((kernel, window)) => ask_some(
            device,
            (kernel, window, attention),
            "CUDA prefill flash attention f16kv window failed: ",
        ),
        None => Ok(None),
    }
}

/// The rest of a layer behind its attention.
#[derive(Debug, Clone, Copy, PartialEq, Eq)]
pub struct AttentionChain<'a> {
    pub o: &'a [u8],
    pub gate: &'a [u8],
    pub up: &'a [u8],
    pub down: &'a [u8],
    pub down_quant: GGMLType,
    pub post_attn_norm_weight: Option<&'a [u32]>,
    pub ffn_norm_weight: &'a [u32],
    pub post_ffn_norm_weight: Option<&'a [u32]>,
    pub o_cols: usize,
    pub n_ff: usize,
    pub n_embd: usize,
    pub norm_eps: u32,
    pub unit_offset_post_attn_norm: bool,
    pub unit_offset_ffn_norm: bool,
    pub unit_offset_post_ffn_norm: bool,
}

/// Attends over a half-precision cache without a window and runs the rest of the layer on
/// the hidden states: heads of 512 only. The answer says whether the device did it.
pub fn prefill_attention_f16kv_dense_chain_if_supported<
    'a,
    M: Fn(usize) -> usize,
    D: FnOnce((F16KvAttention<'a>, AttentionChain<'a>), &Vec<u32>) -> (
        Result<(), String>,
        Vec<u32>,
    ),
>(
    switches: F16KvSwitches,
    min_seq: &M,
    attention: F16KvAttention<'a>,
    has_sliding_window: bool,
    chain: AttentionChain<'a>,
    hidden: &mut Vec<u32>,
    device: D,
) -> (output: Result<bool, String>)
    requires
        switches.countable(attention.heads) || has_sliding_window,
        call_requires(*min_seq, (attention.heads.head_dim,)),
        call_requires(device, ((attention, chain), &*old(hidden))),
    ensures
        exists|taken: bool| #[trigger]
            long_enough(
                open_without_window(switches, attention.heads, has_sliding_window),
                *min_seq,
                attention,
                taken,
            ) && (if taken {
                answers_done_in_place(
                    device,
                    (attention, chain),
                    "CUDA prefill f16KV attention dense chain failed: "@,
                    *old(hidden),
                    *final(hidden),
                    output,
                )
            } else {
                output == Ok::<bool, String>(false) && *final(hidden) == *old(hidden)
            }),
{
    let open: bool = !has_sliding_window && switches.is_open(attention.heads)
        && attention.heads.head_dim == 512;
    assert(open == open_without_window(switches, attention.heads, has_sliding_window));
    let taken: bool = is_long_enough(open, min_seq, &attention);
    if !taken {
        return Ok(false);
    }
    ask_done_in_place(
        device,
        (attention, chain),
        "CUDA prefill f16KV attention dense chain failed: ",
        hidden,
    )
}

/// Attends over a half-precision cache with a window and runs the rest of the layer on
/// the hidden states. The answer says whether the device did it.
pub fn prefill_attention_f16kv_window_dense_chain_if_supported<
    'a,
    M: Fn(usize) -> usize,
    D: FnOnce((WindowKernel, usize, F16KvAttention<'a>, AttentionChain<'a>), &Vec<u32>) -> (
        Result<(), String>,
        Vec<u32>,
    ),
>(
    switches: F16KvSwitches,
    min_seq: &M,
    attention: F16KvAttention<'a>,
    sliding_window: Option<usize>,
    chain: AttentionChain<'a>,
    hidden: &mut Vec<u32>,
    device: D,
) -> (output: Result<bool, String>)
    requires
        switches.countable(attention.heads) || !has_window(sliding_window),
        call_requires(*min_seq, (attention.heads.head_dim,)),
        forall|kernel: WindowKernel, window: usize|
            call_requires(device, ((kernel, window, attention, chain), &*old(hidden))),
    ensures
        exists|call: Option<(WindowKernel, usize)>| #[trigger]
            window_asked(switches, *min_seq, attention, sliding_window, call) && (match call {
                Some((kernel, window)) => answers_done_in_place(
                    device,
                    (kernel, window, attention, chain),
                    "CUDA prefill f16KV window attention dense chain failed: "@,
                    *old(hidden),
                    *final(hidden),
                    output,
                ),
                None => output == Ok::<bool, String>(false) && *final(hidden) == *old(hidden),
            }),
{
    match find_window_call(switches, min_seq, &attention, sliding_window) {
        Some((kernel, window)) => ask_done_in_place(
            device,
            (kernel, window, attention, chain),
            "CUDA prefill f16KV window attention dense chain failed: ",
            hidden,
        ),
        None => Ok(false),
    }
}

/// One step of a delta net.
#[derive(Debug, Clone, Copy, PartialEq, Eq)]
pub struct DeltaStep<'a> {
    pub q: &'a [u32],
    pub k: &'a [u32],
    pub v: &'a [u32],
    pub gate: &'a [u32],
    pub beta: &'a [u32],
    pub num_heads: usize,
    pub head_k_dim: usize,
    pub head_v_dim: usize,
}

/// Steps a delta net, if that is switched on. The device works on the net's state.
pub fn try_delta_step_if_supported<
    'a,
    T,
    D: FnOnce(DeltaStep<'a>, &Vec<u32>) -> (Result<T, String>, Vec<u32>),
>(delta_net_enabled: bool, step: DeltaStep<'a>, state: &mut Vec<u32>, device: D) -> (output: Option<
    Result<T, String>,
>)
    requires
        call_requires(device, (step, &*old(state))),
    ensures
        match output {
            Some(reply) => delta_net_enabled && call_ensures(
                device,
                (step, &*old(state)),
                (reply, *final(state)),
            ),
            None => !delta_net_enabled && *final(state) == *old(state),
        },
{
    if !delta_net_enabled {
        return None;
    }
    let (reply, left) = device(step, &*state);
    *state = left;
    Some(reply)
}

/// The core of a delta net's layer for one token. Floats are their bits; `S` holds the
/// hidden state and the net's states, which the device updates.
#[derive(Debug)]
pub struct QwenGdnDecodeChainCall<'a, S> {
    pub attn_norm: &'a [u32],
    pub qkv_weights: &'a [u8],
    pub qkv_quant: GGMLType,
    pub gate_weights: &'a [u8],
    pub alpha_weights: &'a [u32],
    pub beta_weights: &'a [u32],
    pub dt_bias: &'a [u32],
    pub ssm_a: &'a [u32],
    pub conv_kernel_weights: &'a [u32],
    pub ssm_norm: &'a [u32],
    pub ssm_out_weights: &'a [u8],
    pub ssm_out_quant: GGMLType,
    pub n_embd: usize,
    pub conv_channels: usize,
    pub conv_kernel: usize,
    pub d_inner: usize,
    pub num_k_heads: usize,
    pub num_v_heads: usize,
    pub head_k_dim: usize,
    pub head_v_dim: usize,
    pub norm_eps: u32,
    pub states: S,
}

/// The core of a delta net's layer with formats as the device codes them.
#[derive(Debug)]
pub struct QwenGdnDecodeChainArgs<'a, S> {
    pub attn_norm: &'a [u32],
    pub qkv_weights: &'a [u8],
    pub qkv_quant: u32,
    pub gate_weights: &'a [u8],
    pub alpha_weights: &'a [u32],
    pub beta_weights: &'a [u32],
    pub dt_bias: &'a [u32],
    pub ssm_a: &'a [u32],
    pub conv_kernel_weights: &'a [u32],
    pub ssm_norm: &'a [u32],
    pub ssm_out_weights: &'a [u8],
    pub ssm_out_quant: u32,
    pub n_embd: usize,
    pub conv_channels: usize,
    pub conv_kernel: usize,
    pub d_inner: usize,
    pub num_k_heads: usize,
    pub num_v_heads: usize,
    pub head_k_dim: usize,
    pub head_v_dim: usize,
    pub norm_eps: u32,
    pub states: S,
}

/// Whether `args` ask for `call` with the codes that `code` gives its formats.
pub open spec fn chain_args<'a, S, C: Fn(GGMLType) -> u32>(
    call: QwenGdnDecodeChainCall<'a, S>,
    code: C,
    args: QwenGdnDecodeChainArgs<'a, S>,
) -> bool {
    &&& call_ensures(code, (call.qkv_quant,), args.qkv_quant)
    &&& call_ensures(code, (call.ssm_out_quant,), args.ssm_out_quant)
    &&& args == (QwenGdnDecodeChainArgs {
        attn_norm: call.attn_norm,
        qkv_weights: call.qkv_weights,
        qkv_quant: args.qkv_quant,
        gate_weights: call.gate_weights,
        alpha_weights: call.alpha_weights,
        beta_weights: call.beta_weights,
        dt_bias: call.dt_bias,
        ssm_a: call.ssm_a,
        conv_kernel_weights: call.conv_kernel_weights,
        ssm_norm: call.ssm_norm,
        ssm_out_weights: call.ssm_out_weights,
        ssm_out_quant: args.ssm_out_quant,
        n_embd: call.n_embd,
        conv_channels: call.conv_channels,
        conv_kernel: call.conv_kernel,
        d_inner: call.d_inner,
        num_k_heads: call.num_k_heads,
        num_v_heads: call.num_v_heads,
        head_k_dim: call.head_k_dim,
        head_v_dim: call.head_v_dim,
        norm_eps: call.norm_eps,
        states: call.states,
    })
}

/// Runs the core of a delta net's layer for one token on the device. The host's copies
/// of its states stay as they are.
pub fn qwen35_gdn_decode_core_chain<
    'a,
    S,
    C: Fn(GGMLType) -> u32,
    D: FnOnce(QwenGdnDecodeChainArgs<'a, S>) -> Result<(), String>,
>(call: QwenGdnDecodeChainCall<'a, S>, code: &C, device: D) -> (output: Result<(), String>)
    requires
        forall|quant: GGMLType| call_requires(*code, (quant,)),
        forall|args: QwenGdnDecodeChainArgs<'a, S>| call_requires(device, (args,)),
    ensures
        exists|args: QwenGdnDecodeChainArgs<'a, S>| #[trigger]
            chain_args(call, *code, args) && answers(
                device,
                args,
                "CUDA Qwen GDN decode chain failed: "@,
                output,
            ),
{
    let qkv_quant: u32 = (*code)(call.qkv_quant);
    let ssm_out_quant: u32 = (*code)(call.ssm_out_quant);
    let args = QwenGdnDecodeChainArgs {
        attn_norm: call.attn_norm,
        qkv_weights: call.qkv_weights,
        qkv_quant,
        gate_weights: call.gate_weights,
        alpha_weights: call.alpha_weights,
        beta_weights: call.beta_weights,
        dt_bias: call.dt_bias,
        ssm_a: call.ssm_a,
        conv_kernel_weights: call.conv_kernel_weights,
        ssm_norm: call.ssm_norm,
        ssm_out_weights: call.ssm_out_weights,
        ssm_out_quant,
        n_embd: call.n_embd,
        conv_channels: call.conv_channels,
        conv_kernel: call.conv_kernel,
        d_inner: call.d_inner,
        num_k_heads: call.num_k_heads,
        num_v_heads: call.num_v_heads,
        head_k_dim: call.head_k_dim,
        head_v_dim: call.head_v_dim,
        norm_eps: call.norm_eps,
        states: call.states,
    };
    assert(chain_args(call, *code, args));
    ask(device, args, "CUDA Qwen GDN decode chain failed: ")
}

/// A window is the end of the cache: it is not empty, shorter than the cache, and ends
/// where the cache ends.
pub proof fn law_window_is_the_end_of_the_cache(sliding_window: Option<usize>, kv_len: usize)
    ensures
        decode_window(sliding_window, kv_len) matches Some((start, len)) ==> 0 < len < kv_len
            && start + len == kv_len && sliding_window == Some(len),
{
}

/// What the device reads of the host's keys and values lies within them and holds
/// exactly the window's rows.
pub proof fn law_window_elements_lie_within(
    tuning: DecodeAttentionTuning,
    layer_index: Option<usize>,
    attention: DecodeAttention<'_>,
    sliding_window: Option<usize>,
    has_softcap: bool,
)
    ensures
        decode_attention_call(
            tuning,
            layer_index,
            attention,
            sliding_window,
            has_softcap,
        ) matches Some(DecodeAttentionCall::Part { head_dim, start, end, kv_len: rows }) ==> {
            &&& start <= end <= attention.k@.len()
            &&& end <= attention.v@.len()
            &&& end - start == rows * (attention.heads.num_kv_heads * attention.heads.head_dim)
        },
{
    let heads = attention.heads;
    let kv_len = attention.kv_len;
    assert(attention.k.len() == attention.k@.len());
    match decode_window(sliding_window, kv_len) {
        Some((window_start, window_len)) => {
            let row = heads.num_kv_heads * heads.head_dim;
            assert(row >= 0) by (nonlinear_arith)
                requires
                    row == heads.num_kv_heads * heads.head_dim,
            ;
            assert(kv_len * row - window_start * row == window_len * row && 0 <= window_start * row
                <= kv_len * row) by (nonlinear_arith)
                requires
                    window_start + window_len == kv_len,
                    0 <= window_start,
                    0 <= window_len,
                    row >= 0,
            ;
        },
        None => {},
    }
}

/// A window that is set counts exactly if it is not empty and shorter than the cache.
pub proof fn law_which_windows_count(sliding_window: Option<usize>, kv_len: usize)
    ensures
        decode_window(sliding_window, kv_len) is Some <==> sliding_window is Some && 0
            < sliding_window->0 < kv_len,
        has_window(sliding_window) <==> sliding_window is Some && sliding_window->0 > 0,
{
}

/// Which attentions of a token the device takes: no soft cap, heads in groups of one size,
/// a head size with a kernel, a window only where the tuning allows windows, heads of 512
/// only where it allows those, and either a cached layer or, where plain attention is
/// allowed, keys and values that hold the whole cache if there is a window.
pub proof fn law_which_token_attentions_are_taken(
    tuning: DecodeAttentionTuning,
    layer: Option<usize>,
    attention: DecodeAttention<'_>,
    window: Option<usize>,
    softcap: bool,
)
    ensures
        ({
            let heads = attention.heads;
            let call = decode_attention_call(tuning, layer, attention, window, softcap);
            let windowed = window is Some && 0 < window->0 < attention.kv_len;
            let cached = tuning.kv_cache && layer is Some;
            let row = heads.num_kv_heads * heads.head_dim;
            &&& call is Some <==> {
                &&& !softcap
                &&& heads.num_kv_heads > 0 && heads.num_heads % heads.num_kv_heads == 0
                &&& heads.head_dim == 128 || heads.head_dim == 256 || heads.head_dim == 512
                &&& windowed ==> tuning.sliding_window
                &&& heads.head_dim == 512 ==> tuning.hd512
                &&& cached || tuning.enabled && (windowed ==> attention.kv_len * row
                    <= attention.k@.len() && attention.kv_len * row <= attention.v@.len())
            }
            &&& call is Some ==> {
                &&& call->0 is Cached <==> cached && !windowed
                &&& call->0 is CachedWindow <==> cached && windowed
                &&& call->0 is Whole <==> !cached && !windowed
                &&& call->0 is Part <==> !cached && windowed
            }
            &&& call matches Some(DecodeAttentionCall::Cached { layer_index }) ==> Some(layer_index)
                == layer
            &&& call matches Some(DecodeAttentionCall::CachedWindow {
                layer_index,
                window_start,
                window_len,
            }) ==> Some(layer_index) == layer && Some(window_len) == window && window_start
                + window_len == attention.kv_len
            &&& call matches Some(DecodeAttentionCall::Whole { head_dim, kv_len }) ==> head_dim
                == heads.head_dim && kv_len == attention.kv_len
            &&& call matches Some(DecodeAttentionCall::Part { head_dim, start, end, kv_len })
                ==> head_dim == heads.head_dim && Some(kv_len) == window && start == (
            attention.kv_len - kv_len) * row && end == attention.kv_len * row
        }),
{
    let heads = attention.heads;
    let row = heads.num_kv_heads * heads.head_dim;
    assert(attention.k.len() == attention.k@.len());
    assert(row >= 0) by (nonlinear_arith)
        requires
            row == heads.num_kv_heads * heads.head_dim,
    ;
    if window is Some && 0 < window->0 < attention.kv_len {
        let first = attention.kv_len - window->0;
        assert(0 <= first * row <= attention.kv_len * row) by (nonlinear_arith)
            requires
                0 <= first <= attention.kv_len,
                row >= 0,
        ;
    }
}

/// With a window, the device is handed the last rows of the keys and of the values, as many
/// as the window is long; else it is handed all there is. The queries, the heads and the
/// scale are those that were given.
pub proof fn law_the_last_rows_are_handed_over(
    tuning: DecodeAttentionTuning,
    layer: Option<usize>,
    attention: DecodeAttention<'_>,
    window: Option<usize>,
    softcap: bool,
    handed: DecodeAttention<'_>,
    i: int,
)
    requires
        decode_attention_call(tuning, layer, attention, window, softcap) is Some,
        handed_over(
            decode_attention_call(tuning, layer, attention, window, softcap)->0,
            attention,
            handed,
        ),
    ensures
        handed.q@ == attention.q@,
        handed.heads == attention.heads,
        handed.scale == attention.scale,
        ({
            let row = attention.heads.num_kv_heads * attention.heads.head_dim;
            let cached = tuning.kv_cache && layer is Some;
            if !cached && window is Some && 0 < window->0 < attention.kv_len {
                &&& handed.kv_len == window->0
                &&& handed.k@.len() == window->0 * row && handed.v@.len() == window->0 * row
                &&& 0 <= i < window->0 * row ==> {
                    &&& handed.k@[i] == attention.k@[(attention.kv_len - window->0) * row + i]
                    &&& handed.v@[i] == attention.v@[(attention.kv_len - window->0) * row + i]
                }
            } else {
                &&& handed.kv_len == attention.kv_len
                &&& handed.k@ == attention.k@ && handed.v@ == attention.v@
            }
        }),
{
    law_which_token_attentions_are_taken(tuning, layer, attention, window, softcap);
    law_window_elements_lie_within(tuning, layer, attention, window, softcap);
}

/// A failed attention over a cached layer is told as such.
pub proof fn law_cached_attentions_fail_under_their_name(call: DecodeAttentionCall)
    ensures
        call is Cached || call is CachedWindow ==> call.context()
            == "CUDA cached decode attention failed: "@,
        call is Whole || call is Part ==> call.context() == "CUDA decode attention failed: "@,
{
}

/// A prompt's attention runs on the kernel of its head size where it is dense and without a
/// cap; everything else runs on the general one, which is told the size, the window and the
/// cap.
pub proof fn law_prompts_attend_on_the_kernel_of_their_size(
    head_dim: usize,
    window: Option<usize>,
    softcap: Option<u32>,
)
    ensures
        ({
            let call = prefill_attention_call(head_dim, window, softcap);
            let plain = window is None && softcap is None;
            &&& call is Hd128 <==> plain && head_dim == 128
            &&& call is Hd256 <==> plain && head_dim == 256
            &&& call is Hd512 <==> plain && head_dim == 512
            &&& call matches PrefillAttentionCall::General {
                head_dim: told,
                sliding_window,
                softcap: cap,
            } ==> told == head_dim && sliding_window == window && cap == softcap
        }),
{
}

/// Attention over a half-precision cache is open where flash attention is on, nothing is
/// capped and the heads form groups of one size: without a window for heads of 512, with
/// one that has rows for heads of 256 and 512.
pub proof fn law_which_half_precision_attentions_are_open(
    switches: F16KvSwitches,
    heads: AttentionHeads,
    windowed: bool,
    window: Option<usize>,
)
    ensures
        ({
            let on = switches.flash_enabled && !switches.has_softcap && heads.num_heads
                % heads.num_kv_heads == 0;
            let rows = window is Some && window->0 > 0;
            &&& switches.open(heads) <==> on
            &&& open_without_window(switches, heads, windowed) <==> on && !windowed
                && heads.head_dim == 512
            &&& open_with_window(switches, heads, window) <==> on && rows
            &&& window_call(heads.head_dim, window) is Some <==> rows && (heads.head_dim == 256
                || heads.head_dim == 512)
            &&& window_call(heads.head_dim, window) matches Some(call) ==> Some(call.1) == window && (
            call.0 is Hd256 <==> heads.head_dim == 256) && (call.0 is Hd512 <==> heads.head_dim
                == 512)
        }),
{
}

/// Only a prompt that is at least as long as the device asks for at its head size is taken,
/// and only where attention is open to it; a window is asked for only then.
pub proof fn law_short_prompts_are_left_alone<M: Fn(usize) -> usize>(
    open: bool,
    min_seq: M,
    attention: F16KvAttention<'_>,
    taken: bool,
    switches: F16KvSwitches,
    window: Option<usize>,
    call: Option<(WindowKernel, usize)>,
)
    requires
        long_enough(open, min_seq, attention, taken),
        window_asked(switches, min_seq, attention, window, call),
    ensures
        taken ==> open && exists|least: usize| #[trigger]
            call_ensures(min_seq, (attention.heads.head_dim,), least) && attention.seq_len >= least,
        open && !taken ==> exists|least: usize| #[trigger]
            call_ensures(min_seq, (attention.heads.head_dim,), least) && attention.seq_len < least,
        call is Some ==> {
            &&& switches.flash_enabled && !switches.has_softcap
            &&& attention.heads.num_heads % attention.heads.num_kv_heads == 0
            &&& window is Some && window->0 > 0 && (call->0).1 == window->0
            &&& (call->0).0 is Hd256 <==> attention.heads.head_dim == 256
            &&& (call->0).0 is Hd512 <==> attention.heads.head_dim == 512
            &&& exists|least: usize| #[trigger]
                call_ensures(min_seq, (attention.heads.head_dim,), least) && attention.seq_len
                    >= least
        },
        call is None && window is Some && window->0 > 0 && switches.flash_enabled
            && !switches.has_softcap && attention.heads.num_heads % attention.heads.num_kv_heads == 0
            && (attention.heads.head_dim == 256 || attention.heads.head_dim == 512) ==> exists|
            least: usize,
        | #[trigger]
            call_ensures(min_seq, (attention.heads.head_dim,), least) && attention.seq_len < least,
{
}

/// The core of a delta net's layer reaches the device with each weight, norm and size in its
/// own role, and each format as the number of that format.
pub proof fn law_delta_net_cores_keep_their_roles<'a, S, C: Fn(GGMLType) -> u32>(
    call: QwenGdnDecodeChainCall<'a, S>,
    code: C,
    args: QwenGdnDecodeChainArgs<'a, S>,
)
    requires
        chain_args(call, code, args),
    ensures
        args.attn_norm@ == call.attn_norm@,
        args.qkv_weights@ == call.qkv_weights@,
        call_ensures(code, (call.qkv_quant,), args.qkv_quant),
        args.gate_weights@ == call.gate_weights@,
        args.alpha_weights@ == call.alpha_weights@,
        args.beta_weights@ == call.beta_weights@,
        args.dt_bias@ == call.dt_bias@,
        args.ssm_a@ == call.ssm_a@,
        args.conv_kernel_weights@ == call.conv_kernel_weights@,
        args.ssm_norm@ == call.ssm_norm@,
        args.ssm_out_weights@ == call.ssm_out_weights@,
        call_ensures(code, (call.ssm_out_quant,), args.ssm_out_quant),
        args.n_embd == call.n_embd,
        args.conv_channels == call.conv_channels,
        args.conv_kernel == call.conv_kernel,
        args.d_inner == call.d_inner,
        args.num_k_heads == call.num_k_heads,
        args.num_v_heads == call.num_v_heads,
        args.head_k_dim == call.head_k_dim,
        args.head_v_dim == call.head_v_dim,
        args.norm_eps == call.norm_eps,
        args.states == call.states,
{
}

} // verus!
