//! The prefill chain: consecutive Qwen layers that run on the device without the
//! hidden state coming back in between.
//!
//! Every layer is checked against what the kernels can take before any of it is
//! handed over. Tensors hold single-precision floats as bit patterns.

use crate::float_bits::{finite, finite_positive, is_finite, is_finite_positive};
use crate::quant::{
    tensorops_block_bytes, tensorops_quant, GGMLType, QwenMoeLlamaIdQuant, QwenMoeLlamaIdQuantSet,
    TensoropsQuant,
};
use vstd::prelude::*;

verus! {

/// How the router chooses experts.
#[derive(Debug, Clone, Copy, PartialEq, Eq, Structural)]
pub enum Qwen35RouteAlgorithm {
    /// Softmax over the selected experts; of equal logits the lower expert wins.
    SelectedSoftmaxTopKLowerExpertTieV1,
}

#[derive(Debug, Clone, Copy, PartialEq, Eq, Structural)]
pub struct Qwen35RoutePolicy {
    pub algorithm: Qwen35RouteAlgorithm,
    pub n_expert: usize,
    pub n_expert_used: usize,
}

/// A quantized weight as the model file holds it.
#[derive(Debug, Clone, Copy)]
pub struct MetalQuantWeightRef<'a> {
    pub ggml_type: GGMLType,
    pub raw: &'a [u8],
    pub rows: usize,
    pub cols: usize,
}

/// The formats of an expert's three weights, as the model file holds them.
#[derive(Debug, Clone, Copy, PartialEq, Eq, Structural)]
pub struct MetalGgmlQuantSet {
    pub gate: GGMLType,
    pub up: GGMLType,
    pub down: GGMLType,
}

/// A weight of a gated delta net.
#[derive(Debug, Clone, Copy)]
pub enum MetalGdnWeightRef<'a> {
    F32 { values: &'a [u32], rows: usize, cols: usize },
    Quant(MetalQuantWeightRef<'a>),
}

/// The attention part of a layer.
#[derive(Debug, Clone, Copy)]
pub struct MetalPrefillAtnCoreSpec<'a> {
    pub attn_norm_w: &'a [u32],
    pub q_norm_w: &'a [u32],
    pub k_norm_w: &'a [u32],
    pub q_weight: MetalQuantWeightRef<'a>,
    pub k_weight: MetalQuantWeightRef<'a>,
    pub v_weight: MetalQuantWeightRef<'a>,
    pub seq_len: usize,
    pub num_heads: usize,
    pub num_kv_heads: usize,
    pub head_dim: usize,
    pub hidden_dim: usize,
    pub q_dim: usize,
    pub kv_dim: usize,
    pub n_rot: usize,
    pub rope_theta: u32,
    pub scale: u32,
    pub norm_eps: u32,
    pub pos_start: usize,
}

/// The attention part of a layer with its output projection.
#[derive(Debug, Clone, Copy)]
pub struct MetalPrefillAtnOTailSpec<'a> {
    pub core: MetalPrefillAtnCoreSpec<'a>,
    pub o_weight: MetalQuantWeightRef<'a>,
}

/// The gated delta net of a layer.
#[derive(Debug, Clone, Copy)]
pub struct MetalQwenPrefillGdnSpec<'a> {
    pub seq_len: usize,
    pub hidden_dim: usize,
    pub d_inner: usize,
    pub d_state: usize,
    pub n_group: usize,
    pub dt_rank: usize,
    pub conv_kernel_size: usize,
    pub attn_norm_w: &'a [u32],
    pub qkv_weight: MetalGdnWeightRef<'a>,
    pub gate_weight: MetalGdnWeightRef<'a>,
    pub alpha_weight: MetalGdnWeightRef<'a>,
    pub beta_weight: MetalGdnWeightRef<'a>,
    pub conv_state: &'a [u32],
    pub conv_kernel: &'a [u32],
    pub dt_bias: &'a [u32],
    pub ssm_a: &'a [u32],
    pub delta_state: &'a [u32],
    pub ssm_norm: &'a [u32],
    pub ssm_out_weight: MetalGdnWeightRef<'a>,
    pub post_attn_norm_w: &'a [u32],
    pub norm_eps: u32,
}

/// The mixture of experts of a layer.
#[derive(Debug, Clone, Copy)]
pub struct MetalQwenMoePrefillWeights<'a> {
    pub ffn_norm_w: &'a [u32],
    pub router_w: &'a [u32],
    pub gate_all: &'a [u8],
    pub up_all: &'a [u8],
    pub down_all: &'a [u8],
    pub gate_expert_bytes: usize,
    pub up_expert_bytes: usize,
    pub down_expert_bytes: usize,
    pub shared_input_scale: &'a [u32],
    pub shared_gate: &'a [u8],
    pub shared_up: &'a [u8],
    pub shared_down: &'a [u8],
    pub sparse_quant: MetalGgmlQuantSet,
    pub shared_quant: MetalGgmlQuantSet,
    pub route: Qwen35RoutePolicy,
    pub hidden_dim: usize,
    pub ffn_dim: usize,
    pub norm_eps: u32,
}

/// A layer of the chain.
#[derive(Debug, Clone, Copy)]
pub enum MetalQwenPrefillChainLayer<'a> {
    Attention {
        layer_idx: usize,
        core: MetalPrefillAtnOTailSpec<'a>,
        moe: MetalQwenMoePrefillWeights<'a>,
    },
    Gdn {
        layer_idx: usize,
        layer: MetalQwenPrefillGdnSpec<'a>,
        moe: MetalQwenMoePrefillWeights<'a>,
    },
}

/// A quantized weight as the device takes it.
#[derive(Debug, Clone, Copy)]
pub struct PrefillAtnCoreWeightView<'a> {
    pub raw: &'a [u8],
    pub quant: TensoropsQuant,
    pub rows: usize,
    pub cols: usize,
}

/// A weight of a gated delta net as the device takes it.
#[derive(Debug, Clone, Copy)]
pub enum GdnBackendWeightRef<'a> {
    F32 { values: &'a [u32], rows: usize, cols: usize },
    Quant(PrefillAtnCoreWeightView<'a>),
}

/// An attention part as the device takes it.
#[derive(Debug, Clone, Copy)]
pub struct PrefillAtnOTailBackendSpecRef<'a> {
    pub attn_norm_w: &'a [u32],
    pub q_norm_w: &'a [u32],
    pub k_norm_w: &'a [u32],
    pub q_weight: PrefillAtnCoreWeightView<'a>,
    pub k_weight: PrefillAtnCoreWeightView<'a>,
    pub v_weight: PrefillAtnCoreWeightView<'a>,
    pub o_weight: PrefillAtnCoreWeightView<'a>,
    pub seq_len: usize,
    pub num_heads: usize,
    pub num_kv_heads: usize,
    pub head_dim: usize,
    pub hidden_dim: usize,
    pub q_dim: usize,
    pub kv_dim: usize,
    pub n_rot: usize,
    pub rope_theta: u32,
    pub scale: u32,
    pub norm_eps: u32,
    pub pos_start: usize,
}

/// A gated delta net as the device takes it.
#[derive(Debug, Clone, Copy)]
pub struct QwenPrefillGdnBackendSpecRef<'a> {
    pub seq_len: usize,
    pub hidden_dim: usize,
    pub d_inner: usize,
    pub d_state: usize,
    pub n_group: usize,
    pub dt_rank: usize,
    pub conv_kernel_size: usize,
    pub attn_norm_w: &'a [u32],
    pub qkv_weight: GdnBackendWeightRef<'a>,
    pub gate_weight: GdnBackendWeightRef<'a>,
    pub alpha_weight: GdnBackendWeightRef<'a>,
    pub beta_weight: GdnBackendWeightRef<'a>,
    pub conv_state: &'a [u32],
    pub conv_kernel: &'a [u32],
    pub dt_bias: &'a [u32],
    pub ssm_a: &'a [u32],
    pub delta_state: &'a [u32],
    pub ssm_norm: &'a [u32],
    pub ssm_out_weight: GdnBackendWeightRef<'a>,
    pub post_attn_norm_w: &'a [u32],
    pub norm_eps: u32,
}

/// A mixture of experts as the device takes it.
#[derive(Debug, Clone, Copy)]
pub struct QwenMoePrefillBackendSpecRef<'a> {
    pub ffn_norm_w: &'a [u32],
    pub router_w: &'a [u32],
    pub gate_all: &'a [u8],
    pub up_all: &'a [u8],
    pub down_all: &'a [u8],
    pub gate_expert_bytes: usize,
    pub up_expert_bytes: usize,
    pub down_expert_bytes: usize,
    pub shared_input_scale: &'a [u32],
    pub shared_gate: &'a [u8],
    pub shared_up: &'a [u8],
    pub shared_down: &'a [u8],
    pub sparse_quant: QwenMoeLlamaIdQuantSet,
    pub shared_quant: QwenMoeLlamaIdQuantSet,
    pub route_algorithm: Qwen35RouteAlgorithm,
    pub n_expert: usize,
    pub n_expert_used: usize,
    pub hidden_dim: usize,
    pub ffn_dim: usize,
    pub norm_eps: u32,
}

/// A layer of the chain as the device takes it.
#[derive(Debug, Clone, Copy)]
pub enum QwenPrefillChainSpecRef<'a> {
    Attention {
        layer_idx: usize,
        core: PrefillAtnOTailBackendSpecRef<'a>,
        moe: QwenMoePrefillBackendSpecRef<'a>,
    },
    Gdn {
        layer_idx: usize,
        layer: QwenPrefillGdnBackendSpecRef<'a>,
        moe: QwenMoePrefillBackendSpecRef<'a>,
    },
}

/// The kernels index with 32 bits.
pub open spec fn fits_u32(n: int) -> bool {
    n <= u32::MAX
}

fn in_u32(n: usize) -> (fits: bool)
    ensures
        fits == fits_u32(n as int),
{
    n as u64 <= u32::MAX as u64
}

/// Whether all element counts can be indexed with 32 bits.
pub fn qwen_prefill_chain_gdn_elements_fit_u32(elements: &[usize]) -> (fit: bool)
    ensures
        fit == forall|k: int| 0 <= k < elements@.len() ==> fits_u32(#[trigger] elements@[k] as int),
{
    let mut i: usize = 0;
    while i < elements.len()
        invariant
            i <= elements@.len(),
            forall|k: int| 0 <= k < i ==> fits_u32(#[trigger] elements@[k] as int),
        decreases elements@.len() - i,
    {
        if !in_u32(elements[i]) {
            return false;
        }
        i += 1;
    }
    true
}

impl<'a> MetalQuantWeightRef<'a> {
    /// Whether the weight has that shape, whole blocks in each row, a format with
    /// a kernel, and exactly the bytes that these ask for.
    pub open spec fn fits_shape(self, rows: int, cols: int) -> bool {
        &&& self.rows == rows
        &&& self.cols == cols
        &&& cols != 0
        &&& cols % 256 == 0
        &&& tensorops_quant(self.ggml_type) matches Some(quant)
        &&& self.raw@.len() == rows * (cols / 256) * tensorops_block_bytes(quant)
    }

    /// The weight as the device takes it.
    pub open spec fn as_view(self) -> PrefillAtnCoreWeightView<'a> {
        PrefillAtnCoreWeightView {
            raw: self.raw,
            quant: tensorops_quant(self.ggml_type)->0,
            rows: self.rows,
            cols: self.cols,
        }
    }

    /// The bytes that the weight's own shape and format ask for.
    pub open spec fn expected_bytes(self) -> Option<int> {
        match tensorops_quant(self.ggml_type) {
            Some(quant) => {
                let bytes = self.rows * (self.cols as int / 256) * tensorops_block_bytes(quant);
                if self.cols != 0 && self.cols % 256 == 0 && bytes <= usize::MAX {
                    Some(bytes)
                } else {
                    None
                }
            },
            None => None,
        }
    }
}

/// A quantized format of the chain, with the bytes of one block.
pub fn qwen_prefill_chain_quant(ggml_type: GGMLType) -> (format: Option<(TensoropsQuant, usize)>)
    ensures
        match format {
            Some((quant, bytes)) => tensorops_quant(ggml_type) == Some(quant) && bytes
                == tensorops_block_bytes(quant),
            None => tensorops_quant(ggml_type) is None,
        },
{
    match ggml_type {
        GGMLType::Q4_K => Some((TensoropsQuant::Q4K, 144)),
        GGMLType::Q5_K => Some((TensoropsQuant::Q5K, 176)),
        GGMLType::Q6_K => Some((TensoropsQuant::Q6K, 210)),
        _ => None,
    }
}

proof fn lemma_product_covers(a: int, b: int)
    by (nonlinear_arith)
    requires
        0 <= a,
        1 <= b,
    ensures
        a <= a * b,
{
}

proof fn lemma_product_covers_both(a: int, b: int)
    requires
        1 <= a,
        1 <= b,
    ensures
        a <= a * b,
        b <= a * b,
{
    lemma_product_covers(a, b);
    assert(b <= a * b) by (nonlinear_arith)
        requires
            1 <= a,
            1 <= b,
    ;
}

/// The bytes that a weight's own shape and format ask for.
pub fn qwen_prefill_chain_expected_quant_bytes(weight: &MetalQuantWeightRef<'_>) -> (bytes: Option<
    usize,
>)
    ensures
        match bytes {
            Some(bytes) => weight.expected_bytes() == Some(bytes as int),
            None => weight.expected_bytes() is None,
        },
{
    let (quant, block_bytes) = match qwen_prefill_chain_quant(weight.ggml_type) {
        Some(format) => format,
        None => return None,
    };
    if weight.cols == 0 || weight.cols % 256 != 0 {
        return None;
    }
    proof {
        lemma_product_covers(
            weight.rows * (weight.cols as int / 256),
            tensorops_block_bytes(quant),
        );
    }
    match weight.rows.checked_mul(weight.cols / 256) {
        Some(blocks) => blocks.checked_mul(block_bytes),
        None => None,
    }
}

/// Hands a quantized weight over, if it fits the shape.
pub fn qwen_prefill_chain_quant_weight<'a>(
    weight: &MetalQuantWeightRef<'a>,
    expected_rows: usize,
    expected_cols: usize,
) -> (view: Option<PrefillAtnCoreWeightView<'a>>)
    ensures
        view == (if weight.fits_shape(expected_rows as int, expected_cols as int) {
            Some(weight.as_view())
        } else {
            None
        }),
{
    if weight.rows != expected_rows || weight.cols != expected_cols || weight.cols == 0
        || weight.cols % 256 != 0 {
        return None;
    }
    let (quant, block_bytes) = match qwen_prefill_chain_quant(weight.ggml_type) {
        Some(format) => format,
        None => return None,
    };
    proof {
        lemma_product_covers(
            weight.rows * (weight.cols as int / 256),
            tensorops_block_bytes(quant),
        );
    }
    let raw_len: usize = weight.raw.len();
    let blocks = match weight.rows.checked_mul(weight.cols / 256) {
        Some(blocks) => blocks,
        None => return None,
    };
    let expected_raw_len = match blocks.checked_mul(block_bytes) {
        Some(len) => len,
        None => return None,
    };
    if raw_len != expected_raw_len {
        return None;
    }
    Some(PrefillAtnCoreWeightView { raw: weight.raw, quant, rows: weight.rows, cols: weight.cols })
}

impl<'a> MetalGdnWeightRef<'a> {
    pub open spec fn fits_shape(self, rows: int, cols: int) -> bool {
        match self {
            MetalGdnWeightRef::F32 { values, rows: r, cols: c } => {
                &&& r == rows
                &&& c == cols
                &&& values@.len() == rows * cols
            },
            MetalGdnWeightRef::Quant(weight) => weight.fits_shape(rows, cols),
        }
    }

    /// The weight as the device takes it.
    pub open spec fn as_backend(self) -> GdnBackendWeightRef<'a> {
        match self {
            MetalGdnWeightRef::F32 { values, rows, cols } => GdnBackendWeightRef::F32 {
                values,
                rows,
                cols,
            },
            MetalGdnWeightRef::Quant(weight) => GdnBackendWeightRef::Quant(weight.as_view()),
        }
    }
}

/// Hands a weight of a gated delta net over, if it fits the shape.
pub fn qwen_prefill_chain_gdn_weight<'a>(
    weight: &MetalGdnWeightRef<'a>,
    expected_rows: usize,
    expected_cols: usize,
) -> (handed: Option<GdnBackendWeightRef<'a>>)
    ensures
        handed == (if weight.fits_shape(expected_rows as int, expected_cols as int) {
            Some(weight.as_backend())
        } else {
            None
        }),
{
    match weight {
        MetalGdnWeightRef::F32 { values, rows, cols } => {
            let len: usize = values.len();
            let expected_len = match expected_rows.checked_mul(expected_cols) {
                Some(len) => len,
                None => return None,
            };
            if *rows != expected_rows || *cols != expected_cols || len != expected_len {
                return None;
            }
            Some(GdnBackendWeightRef::F32 { values: *values, rows: *rows, cols: *cols })
        },
        MetalGdnWeightRef::Quant(weight) => match qwen_prefill_chain_quant_weight(
            weight,
            expected_rows,
            expected_cols,
        ) {
            Some(view) => Some(GdnBackendWeightRef::Quant(view)),
            None => None,
        },
    }
}

impl<'a> MetalPrefillAtnCoreSpec<'a> {
    /// Heads that form groups, of the one size the kernel has, at the start of the
    /// sequence, with a whole number of rotated pairs and usable constants.
    pub open spec fn has_kernel(self) -> bool {
        &&& self.seq_len != 0
        &&& self.num_heads != 0
        &&& self.num_kv_heads != 0
        &&& self.hidden_dim != 0
        &&& self.num_heads % self.num_kv_heads == 0
        &&& self.head_dim == 256
        &&& self.pos_start == 0
        &&& self.n_rot <= self.head_dim
        &&& self.n_rot % 2 == 0
        &&& finite_positive(self.norm_eps)
        &&& self.n_rot > 0 ==> finite_positive(self.rope_theta)
        &&& finite(self.scale)
    }

    /// Dimensions that follow from the heads, norms of the right lengths, and
    /// nothing that 32 bits cannot index.
    pub open spec fn has_shape(self) -> bool {
        &&& self.q_dim == self.num_heads * self.head_dim
        &&& self.kv_dim == self.num_kv_heads * self.head_dim
        &&& self.attn_norm_w@.len() == self.hidden_dim
        &&& self.q_norm_w@.len() == self.head_dim
        &&& self.k_norm_w@.len() == self.head_dim
        &&& fits_u32(self.seq_len * self.hidden_dim)
        &&& fits_u32(self.seq_len * self.q_dim)
        &&& fits_u32(self.seq_len * self.kv_dim)
        &&& fits_u32(self.num_heads as int)
        &&& fits_u32(self.num_kv_heads as int)
        &&& fits_u32(self.q_dim * 2)
    }
}

impl<'a> MetalPrefillAtnOTailSpec<'a> {
    /// Whether the device can take the attention part.
    pub open spec fn supported(self) -> bool {
        let core = self.core;
        &&& core.has_kernel()
        &&& core.has_shape()
        &&& core.q_weight.fits_shape(core.q_dim * 2, core.hidden_dim as int)
        &&& core.k_weight.fits_shape(core.kv_dim as int, core.hidden_dim as int)
        &&& core.v_weight.fits_shape(core.kv_dim as int, core.hidden_dim as int)
        &&& self.o_weight.fits_shape(core.hidden_dim as int, core.q_dim as int)
    }

    /// The attention part as the device takes it.
    pub open spec fn as_backend(self) -> PrefillAtnOTailBackendSpecRef<'a> {
        PrefillAtnOTailBackendSpecRef {
            attn_norm_w: self.core.attn_norm_w,
            q_norm_w: self.core.q_norm_w,
            k_norm_w: self.core.k_norm_w,
            q_weight: self.core.q_weight.as_view(),
            k_weight: self.core.k_weight.as_view(),
            v_weight: self.core.v_weight.as_view(),
            o_weight: self.o_weight.as_view(),
            seq_len: self.core.seq_len,
            num_heads: self.core.num_heads,
            num_kv_heads: self.core.num_kv_heads,
            head_dim: self.core.head_dim,
            hidden_dim: self.core.hidden_dim,
            q_dim: self.core.q_dim,
            kv_dim: self.core.kv_dim,
            n_rot: self.core.n_rot,
            rope_theta: self.core.rope_theta,
            scale: self.core.scale,
            norm_eps: self.core.norm_eps,
            pos_start: self.core.pos_start,
        }
    }
}

/// Hands the attention part of a layer over, if the device can take it.
pub fn qwen_prefill_chain_attention_spec<'a>(
    spec: &MetalPrefillAtnOTailSpec<'a>,
) -> (handed: Option<PrefillAtnOTailBackendSpecRef<'a>>)
    ensures
        handed == (if spec.supported() {
            Some(spec.as_backend())
        } else {
            None
        }),
{
    let core = &spec.core;
    if core.seq_len == 0 || core.num_heads == 0 || core.num_kv_heads == 0 || core.hidden_dim == 0
        || core.num_heads % core.num_kv_heads != 0 || core.head_dim != 256 || core.pos_start != 0
        || core.n_rot > core.head_dim || core.n_rot % 2 != 0 || !is_finite_positive(core.norm_eps)
        || (core.n_rot > 0 && !is_finite_positive(core.rope_theta)) || !is_finite(core.scale) {
        return None;
    }
    assert(spec.core.has_kernel());
    proof {
        lemma_product_covers_both(core.seq_len as int, core.hidden_dim as int);
    }
    let q_dim = core.num_heads.checked_mul(core.head_dim)?;
    let kv_dim = core.num_kv_heads.checked_mul(core.head_dim)?;
    let q_weight_rows = q_dim.checked_mul(2)?;
    let hidden_elements = core.seq_len.checked_mul(core.hidden_dim)?;
    let q_elements = core.seq_len.checked_mul(core.q_dim)?;
    let kv_elements = core.seq_len.checked_mul(core.kv_dim)?;
    if core.q_dim != q_dim || core.kv_dim != kv_dim || core.attn_norm_w.len() != core.hidden_dim
        || core.q_norm_w.len() != core.head_dim || core.k_norm_w.len() != core.head_dim || !in_u32(
        hidden_elements,
    ) || !in_u32(q_elements) || !in_u32(kv_elements) || !in_u32(core.seq_len) || !in_u32(
        core.num_heads,
    ) || !in_u32(core.num_kv_heads) || !in_u32(core.head_dim) || !in_u32(core.hidden_dim)
        || !in_u32(core.q_dim) || !in_u32(q_weight_rows) || !in_u32(core.kv_dim) || !in_u32(
        core.n_rot,
    ) || !in_u32(core.pos_start) {
        proof {
            if core.kv_dim == kv_dim {
                lemma_product_covers_both(core.seq_len as int, core.kv_dim as int);
            }
        }
        return None;
    }
    assert(spec.core.has_shape());
    let q_weight = qwen_prefill_chain_quant_weight(
        &core.q_weight,
        q_weight_rows,
        core.hidden_dim,
    )?;
    let k_weight = qwen_prefill_chain_quant_weight(&core.k_weight, core.kv_dim, core.hidden_dim)?;
    let v_weight = qwen_prefill_chain_quant_weight(&core.v_weight, core.kv_dim, core.hidden_dim)?;
    let o_weight = qwen_prefill_chain_quant_weight(&spec.o_weight, core.hidden_dim, core.q_dim)?;
    Some(
        PrefillAtnOTailBackendSpecRef {
            attn_norm_w: core.attn_norm_w,
            q_norm_w: core.q_norm_w,
            k_norm_w: core.k_norm_w,
            q_weight,
            k_weight,
            v_weight,
            o_weight,
            seq_len: core.seq_len,
            num_heads: core.num_heads,
            num_kv_heads: core.num_kv_heads,
            head_dim: core.head_dim,
            hidden_dim: core.hidden_dim,
            q_dim: core.q_dim,
            kv_dim: core.kv_dim,
            n_rot: core.n_rot,
            rope_theta: core.rope_theta,
            scale: core.scale,
            norm_eps: core.norm_eps,
            pos_start: core.pos_start,
        },
    )
}

impl<'a> MetalQwenPrefillGdnSpec<'a> {
    /// Elements of the state that one token's keys, or queries, address.
    pub open spec fn grouped_state(self) -> int {
        self.n_group * self.d_state
    }

    pub open spec fn conv_channels(self) -> int {
        self.d_inner + self.grouped_state() * 2
    }

    pub open spec fn head_v_dim(self) -> int {
        self.d_inner as int / self.dt_rank as int
    }

    pub open spec fn has_kernel(self) -> bool {
        &&& self.seq_len != 0
        &&& self.hidden_dim != 0
        &&& self.d_inner != 0
        &&& 1 <= self.d_state <= 256
        &&& self.n_group != 0
        &&& self.dt_rank != 0
        &&& self.conv_kernel_size >= 2
        &&& self.d_inner % self.dt_rank == 0
        &&& self.dt_rank % self.n_group == 0
    }

    /// Every buffer of the layer can be indexed with 32 bits: the hidden state, the
    /// recurrent state, the convolution, the queries and keys before and after they
    /// are spread over the value heads, and the workspaces of a 48-token step.
    pub open spec fn buffers_fit(self) -> bool {
        &&& fits_u32(self.seq_len * self.hidden_dim)
        &&& fits_u32(self.d_inner * self.d_state)
        &&& fits_u32((self.seq_len + self.conv_kernel_size - 1) * self.conv_channels())
        &&& fits_u32(self.seq_len * self.conv_channels())
        &&& fits_u32(self.seq_len * (self.dt_rank * self.d_state))
        &&& fits_u32(self.seq_len * self.grouped_state())
        &&& fits_u32(self.seq_len * self.d_inner)
        &&& fits_u32((self.conv_kernel_size - 1) * self.conv_channels())
        &&& fits_u32(self.conv_kernel_size * self.conv_channels())
        &&& fits_u32(self.d_inner * 48)
        &&& fits_u32(self.dt_rank * 48 * self.d_state)
        &&& fits_u32(self.dt_rank * self.head_v_dim() * self.d_state)
        &&& fits_u32(self.dt_rank * 48 * 176)
        &&& fits_u32(self.dt_rank * 176 * self.head_v_dim())
    }

    pub open spec fn has_shape(self) -> bool {
        &&& self.attn_norm_w@.len() == self.hidden_dim
        &&& self.conv_state@.len() == (self.conv_kernel_size - 1) * self.conv_channels()
        &&& self.conv_kernel@.len() == self.conv_kernel_size * self.conv_channels()
        &&& self.dt_bias@.len() == self.dt_rank
        &&& self.ssm_a@.len() == self.dt_rank
        &&& self.delta_state@.len() == self.d_inner * self.d_state
        &&& self.ssm_norm@.len() == self.head_v_dim()
        &&& self.post_attn_norm_w@.len() == self.hidden_dim
        &&& fits_u32(self.n_group as int)
    }

    /// Whether the device can take the gated delta net.
    pub open spec fn supported(self) -> bool {
        &&& self.has_kernel()
        &&& self.buffers_fit()
        &&& self.has_shape()
        &&& self.qkv_weight.fits_shape(self.conv_channels(), self.hidden_dim as int)
        &&& self.gate_weight.fits_shape(self.d_inner as int, self.hidden_dim as int)
        &&& self.alpha_weight.fits_shape(self.dt_rank as int, self.hidden_dim as int)
        &&& self.beta_weight.fits_shape(self.dt_rank as int, self.hidden_dim as int)
        &&& self.ssm_out_weight.fits_shape(self.hidden_dim as int, self.d_inner as int)
    }

    /// The gated delta net as the device takes it.
    pub open spec fn as_backend(self) -> QwenPrefillGdnBackendSpecRef<'a> {
        QwenPrefillGdnBackendSpecRef {
            seq_len: self.seq_len,
            hidden_dim: self.hidden_dim,
            d_inner: self.d_inner,
            d_state: self.d_state,
            n_group: self.n_group,
            dt_rank: self.dt_rank,
            conv_kernel_size: self.conv_kernel_size,
            attn_norm_w: self.attn_norm_w,
            qkv_weight: self.qkv_weight.as_backend(),
            gate_weight: self.gate_weight.as_backend(),
            alpha_weight: self.alpha_weight.as_backend(),
            beta_weight: self.beta_weight.as_backend(),
            conv_state: self.conv_state,
            conv_kernel: self.conv_kernel,
            dt_bias: self.dt_bias,
            ssm_a: self.ssm_a,
            delta_state: self.delta_state,
            ssm_norm: self.ssm_norm,
            ssm_out_weight: self.ssm_out_weight.as_backend(),
            post_attn_norm_w: self.post_attn_norm_w,
            norm_eps: self.norm_eps,
        }
    }
}

/// The sizes that a gated delta net's buffers are made of.
proof fn lemma_gdn_factors(s: MetalQwenPrefillGdnSpec<'_>)
    requires
        s.has_kernel(),
    ensures
        1 <= s.grouped_state() <= s.seq_len * s.grouped_state(),
        s.conv_channels() <= s.seq_len * s.conv_channels(),
        s.seq_len + s.conv_kernel_size - 1 <= (s.seq_len + s.conv_kernel_size - 1)
            * s.conv_channels(),
        s.dt_rank * s.d_state <= s.seq_len * (s.dt_rank * s.d_state),
        s.dt_rank * 48 <= s.dt_rank * 48 * s.d_state,
        1 <= s.head_v_dim() <= s.d_inner,
        s.dt_rank * s.head_v_dim() == s.d_inner,
        s.dt_rank * s.head_v_dim() <= s.dt_rank * s.head_v_dim() * s.d_state,
        s.seq_len <= s.seq_len * s.hidden_dim,
        s.hidden_dim <= s.seq_len * s.hidden_dim,
        s.d_inner <= s.seq_len * s.d_inner,
        s.dt_rank <= s.dt_rank * 48,
        s.conv_kernel_size <= s.conv_kernel_size * s.conv_channels(),
{
    let channels = s.conv_channels();
    lemma_product_covers_both(s.n_group as int, s.d_state as int);
    lemma_product_covers_both(s.seq_len as int, s.grouped_state());
    lemma_product_covers_both(s.seq_len as int, channels);
    lemma_product_covers_both(s.seq_len + s.conv_kernel_size - 1, channels);
    lemma_product_covers_both(s.dt_rank as int, s.d_state as int);
    lemma_product_covers_both(s.seq_len as int, s.dt_rank * s.d_state);
    lemma_product_covers_both(s.dt_rank * 48, s.d_state as int);
    lemma_product_covers_both(s.seq_len as int, s.hidden_dim as int);
    lemma_product_covers_both(s.seq_len as int, s.d_inner as int);
    lemma_product_covers_both(s.conv_kernel_size as int, channels);
    let inner = s.d_inner as int;
    let rank = s.dt_rank as int;
    assert(rank * (inner / rank) == inner && 1 <= inner / rank <= inner) by (nonlinear_arith)
        requires
            inner >= 1,
            rank >= 1,
            inner % rank == 0,
    ;
    lemma_product_covers_both(s.dt_rank * s.head_v_dim(), s.d_state as int);
}

/// Hands a gated delta net over, if the device can take it.
#[verifier::spinoff_prover]
pub fn qwen_prefill_chain_gdn_spec<'a>(spec: &MetalQwenPrefillGdnSpec<'a>) -> (handed: Option<
    QwenPrefillGdnBackendSpecRef<'a>,
>)
    ensures
        handed == (if spec.supported() {
            Some(spec.as_backend())
        } else {
            None
        }),
{
    if spec.seq_len == 0 || spec.hidden_dim == 0 || spec.d_inner == 0 || spec.d_state == 0
        || spec.d_state > 256 || spec.n_group == 0 || spec.dt_rank == 0 || spec.conv_kernel_size < 2
        || spec.d_inner % spec.dt_rank != 0 || spec.dt_rank % spec.n_group != 0 {
        return None;
    }
    proof {
        lemma_gdn_factors(*spec);
    }
    let grouped_state = spec.n_group.checked_mul(spec.d_state)?;
    let both_grouped_states = grouped_state.checked_mul(2)?;
    let conv_channels = spec.d_inner.checked_add(both_grouped_states)?;
    let head_v_dim: usize = spec.d_inner / spec.dt_rank;
    let history: usize = spec.conv_kernel_size - 1;
    let conv_state_len = history.checked_mul(conv_channels)?;
    let conv_kernel_len = spec.conv_kernel_size.checked_mul(conv_channels)?;
    let delta_state_len = spec.d_inner.checked_mul(spec.d_state)?;
    let hidden_elements = spec.seq_len.checked_mul(spec.hidden_dim)?;
    let conv_rows = spec.seq_len.checked_add(history)?;
    let conv_input_elements = conv_rows.checked_mul(conv_channels)?;
    let conv_data_elements = spec.seq_len.checked_mul(conv_channels)?;
    let qk_elements = spec.seq_len.checked_mul(grouped_state)?;
    let inner_elements = spec.seq_len.checked_mul(spec.d_inner)?;
    let final_qk_width = spec.dt_rank.checked_mul(spec.d_state)?;
    let final_qk_elements = spec.seq_len.checked_mul(final_qk_width)?;
    let su_workspace = spec.d_inner.checked_mul(48)?;
    let rank_step = spec.dt_rank.checked_mul(48)?;
    let kh_workspace = rank_step.checked_mul(spec.d_state)?;
    let rank_values = spec.dt_rank.checked_mul(head_v_dim)?;
    let step5_workspace = rank_values.checked_mul(spec.d_state)?;
    let step4_a_workspace = rank_step.checked_mul(176)?;
    let rank_chunk = spec.dt_rank.checked_mul(176)?;
    let step4_b_workspace = rank_chunk.checked_mul(head_v_dim)?;
    let step4_workspace = spec.d_inner.checked_mul(48)?;
    let elements: [usize; 15] = [
        hidden_elements,
        delta_state_len,
        conv_input_elements,
        conv_data_elements,
        final_qk_elements,
        qk_elements,
        inner_elements,
        conv_state_len,
        conv_kernel_len,
        su_workspace,
        kh_workspace,
        step5_workspace,
        step4_a_workspace,
        step4_b_workspace,
        step4_workspace,
    ];
    let fit: bool = qwen_prefill_chain_gdn_elements_fit_u32(elements.as_slice());
    proof {
        let counts = elements@;
        if fit {
            assert(fits_u32(counts[0] as int));
            assert(fits_u32(counts[1] as int));
            assert(fits_u32(counts[2] as int));
            assert(fits_u32(counts[3] as int));
            assert(fits_u32(counts[4] as int));
            assert(fits_u32(counts[5] as int));
            assert(fits_u32(counts[6] as int));
            assert(fits_u32(counts[7] as int));
            assert(fits_u32(counts[8] as int));
            assert(fits_u32(counts[9] as int));
            assert(fits_u32(counts[10] as int));
            assert(fits_u32(counts[11] as int));
            assert(fits_u32(counts[12] as int));
            assert(fits_u32(counts[13] as int));
            assert(spec.buffers_fit());
        }
        if spec.buffers_fit() {
            assert forall|k: int| 0 <= k < 15 implies fits_u32(#[trigger] counts[k] as int) by {}
        }
    }
    if !fit {
        return None;
    }
    if spec.attn_norm_w.len() != spec.hidden_dim || spec.conv_state.len() != conv_state_len
        || spec.conv_kernel.len() != conv_kernel_len || spec.dt_bias.len() != spec.dt_rank
        || spec.ssm_a.len() != spec.dt_rank || spec.delta_state.len() != delta_state_len
        || spec.ssm_norm.len() != head_v_dim || spec.post_attn_norm_w.len() != spec.hidden_dim
        || !in_u32(spec.seq_len) || !in_u32(spec.hidden_dim) || !in_u32(spec.d_inner) || !in_u32(
        spec.d_state,
    ) || !in_u32(spec.n_group) || !in_u32(spec.dt_rank) || !in_u32(spec.conv_kernel_size)
        || !in_u32(conv_channels) || !in_u32(head_v_dim) {
        return None;
    }
    let qkv_weight = qwen_prefill_chain_gdn_weight(
        &spec.qkv_weight,
        conv_channels,
        spec.hidden_dim,
    )?;
    let gate_weight = qwen_prefill_chain_gdn_weight(
        &spec.gate_weight,
        spec.d_inner,
        spec.hidden_dim,
    )?;
    let alpha_weight = qwen_prefill_chain_gdn_weight(
        &spec.alpha_weight,
        spec.dt_rank,
        spec.hidden_dim,
    )?;
    let beta_weight = qwen_prefill_chain_gdn_weight(
        &spec.beta_weight,
        spec.dt_rank,
        spec.hidden_dim,
    )?;
    let ssm_out_weight = qwen_prefill_chain_gdn_weight(
        &spec.ssm_out_weight,
        spec.hidden_dim,
        spec.d_inner,
    )?;
    Some(
        QwenPrefillGdnBackendSpecRef {
            seq_len: spec.seq_len,
            hidden_dim: spec.hidden_dim,
            d_inner: spec.d_inner,
            d_state: spec.d_state,
            n_group: spec.n_group,
            dt_rank: spec.dt_rank,
            conv_kernel_size: spec.conv_kernel_size,
            attn_norm_w: spec.attn_norm_w,
            qkv_weight,
            gate_weight,
            alpha_weight,
            beta_weight,
            conv_state: spec.conv_state,
            conv_kernel: spec.conv_kernel,
            dt_bias: spec.dt_bias,
            ssm_a: spec.ssm_a,
            delta_state: spec.delta_state,
            ssm_norm: spec.ssm_norm,
            ssm_out_weight,
            post_attn_norm_w: spec.post_attn_norm_w,
            norm_eps: spec.norm_eps,
        },
    )
}

pub open spec fn moe_quant(quant: GGMLType) -> Option<QwenMoeLlamaIdQuant> {
    match quant {
        GGMLType::Q4_K => Some(QwenMoeLlamaIdQuant::Q4K),
        GGMLType::Q5_K => Some(QwenMoeLlamaIdQuant::Q5K),
        GGMLType::Q6_K => Some(QwenMoeLlamaIdQuant::Q6K),
        GGMLType::Q8_0 => Some(QwenMoeLlamaIdQuant::Q8Zero),
        _ => None,
    }
}

/// The expert-kernel format of a weight, where there is one.
pub fn qwen_prefill_chain_moe_quant(quant: GGMLType) -> (format: Option<QwenMoeLlamaIdQuant>)
    ensures
        format == moe_quant(quant),
{
    match quant {
        GGMLType::Q4_K => Some(QwenMoeLlamaIdQuant::Q4K),
        GGMLType::Q5_K => Some(QwenMoeLlamaIdQuant::Q5K),
        GGMLType::Q6_K => Some(QwenMoeLlamaIdQuant::Q6K),
        GGMLType::Q8_0 => Some(QwenMoeLlamaIdQuant::Q8Zero),
        _ => None,
    }
}

/// Elements and bytes of one block of an expert-kernel format.
pub open spec fn moe_block(quant: QwenMoeLlamaIdQuant) -> (int, int) {
    match quant {
        QwenMoeLlamaIdQuant::Q4K => (256, 144),
        QwenMoeLlamaIdQuant::Q5K => (256, 176),
        QwenMoeLlamaIdQuant::Q6K => (256, 210),
        QwenMoeLlamaIdQuant::Q8Zero => (32, 34),
    }
}

/// Bytes of a weight that maps `input_dim` to `output_dim` elements: `None` where
/// a row is not made of whole blocks, or where the count does not fit in a word.
pub open spec fn moe_weight_bytes(
    quant: QwenMoeLlamaIdQuant,
    input_dim: int,
    output_dim: int,
) -> Option<int> {
    let (elements, bytes) = moe_block(quant);
    let total = output_dim * (input_dim / elements) * bytes;
    if input_dim != 0 && output_dim != 0 && input_dim % elements == 0 && total <= usize::MAX {
        Some(total)
    } else {
        None
    }
}

pub fn qwen_prefill_chain_moe_weight_bytes(
    quant: QwenMoeLlamaIdQuant,
    input_dim: usize,
    output_dim: usize,
) -> (bytes: Option<usize>)
    ensures
        match bytes {
            Some(bytes) => moe_weight_bytes(quant, input_dim as int, output_dim as int) == Some(
                bytes as int,
            ),
            None => moe_weight_bytes(quant, input_dim as int, output_dim as int) is None,
        },
{
    let (block_elements, block_bytes): (usize, usize) = match quant {
        QwenMoeLlamaIdQuant::Q4K => (256, 144),
        QwenMoeLlamaIdQuant::Q5K => (256, 176),
        QwenMoeLlamaIdQuant::Q6K => (256, 210),
        QwenMoeLlamaIdQuant::Q8Zero => (32, 34),
    };
    if input_dim == 0 || output_dim == 0 || input_dim % block_elements != 0 {
        return None;
    }
    proof {
        lemma_product_covers(
            output_dim * (input_dim as int / block_elements as int),
            block_bytes as int,
        );
    }
    match output_dim.checked_mul(input_dim / block_elements) {
        Some(blocks) => blocks.checked_mul(block_bytes),
        None => None,
    }
}

/// Whether a norm's epsilon can be used.
pub fn qwen_prefill_chain_norm_eps_supported(norm_eps: u32) -> (supported: bool)
    ensures
        supported == finite_positive(norm_eps),
{
    is_finite_positive(norm_eps)
}

/// The formats that the sparse experts of a chain may have.
pub open spec fn sparse_quant_set(quant: MetalGgmlQuantSet) -> Option<QwenMoeLlamaIdQuantSet> {
    if quant.gate == GGMLType::Q4_K && quant.up == GGMLType::Q4_K && (quant.down == GGMLType::Q4_K
        || quant.down == GGMLType::Q5_K || quant.down == GGMLType::Q6_K) {
        Some(
            QwenMoeLlamaIdQuantSet {
                gate: QwenMoeLlamaIdQuant::Q4K,
                up: QwenMoeLlamaIdQuant::Q4K,
                down: moe_quant(quant.down)->0,
            },
        )
    } else {
        None
    }
}

/// The formats that the shared expert of a chain may have: all Q8_0, or Q4_K with
/// a Q4_K or Q6_K down projection.
pub open spec fn shared_quant_set(quant: MetalGgmlQuantSet) -> Option<QwenMoeLlamaIdQuantSet> {
    if quant.gate == GGMLType::Q4_K && quant.up == GGMLType::Q4_K && (quant.down == GGMLType::Q4_K
        || quant.down == GGMLType::Q6_K) {
        Some(
            QwenMoeLlamaIdQuantSet {
                gate: QwenMoeLlamaIdQuant::Q4K,
                up: QwenMoeLlamaIdQuant::Q4K,
                down: moe_quant(quant.down)->0,
            },
        )
    } else if quant.gate == GGMLType::Q8_0 && quant.up == GGMLType::Q8_0 && quant.down
        == GGMLType::Q8_0 {
        Some(
            QwenMoeLlamaIdQuantSet {
                gate: QwenMoeLlamaIdQuant::Q8Zero,
                up: QwenMoeLlamaIdQuant::Q8Zero,
                down: QwenMoeLlamaIdQuant::Q8Zero,
            },
        )
    } else {
        None
    }
}

pub fn sparse_quants(quant: MetalGgmlQuantSet) -> (set: Option<QwenMoeLlamaIdQuantSet>)
    ensures
        set == sparse_quant_set(quant),
{
    let down = match quant.down {
        GGMLType::Q4_K | GGMLType::Q5_K | GGMLType::Q6_K => qwen_prefill_chain_moe_quant(
            quant.down,
        )?,
        _ => return None,
    };
    if quant.gate != GGMLType::Q4_K || quant.up != GGMLType::Q4_K {
        return None;
    }
    Some(
        QwenMoeLlamaIdQuantSet {
            gate: QwenMoeLlamaIdQuant::Q4K,
            up: QwenMoeLlamaIdQuant::Q4K,
            down,
        },
    )
}

pub fn shared_quants(quant: MetalGgmlQuantSet) -> (set: Option<QwenMoeLlamaIdQuantSet>)
    ensures
        set == shared_quant_set(quant),
{
    match (quant.gate, quant.up, quant.down) {
        (GGMLType::Q4_K, GGMLType::Q4_K, GGMLType::Q4_K | GGMLType::Q6_K) => Some(
            QwenMoeLlamaIdQuantSet {
                gate: QwenMoeLlamaIdQuant::Q4K,
                up: QwenMoeLlamaIdQuant::Q4K,
                down: qwen_prefill_chain_moe_quant(quant.down)?,
            },
        ),
        (GGMLType::Q8_0, GGMLType::Q8_0, GGMLType::Q8_0) => Some(
            QwenMoeLlamaIdQuantSet {
                gate: QwenMoeLlamaIdQuant::Q8Zero,
                up: QwenMoeLlamaIdQuant::Q8Zero,
                down: QwenMoeLlamaIdQuant::Q8Zero,
            },
        ),
        _ => None,
    }
}

impl<'a> MetalQwenMoePrefillWeights<'a> {
    /// A layer of the chain's width, with up to eight of its experts in use and
    /// norms of the right lengths.
    pub open spec fn has_kernel(self, seq_len: int, hidden_dim: int) -> bool {
        &&& seq_len != 0
        &&& self.hidden_dim == hidden_dim
        &&& hidden_dim != 0
        &&& self.ffn_dim != 0
        &&& finite_positive(self.norm_eps)
        &&& 1 <= self.route.n_expert_used <= 8
        &&& self.route.n_expert_used <= self.route.n_expert
        &&& self.ffn_norm_w@.len() == hidden_dim
        &&& self.shared_input_scale@.len() == hidden_dim
        &&& self.router_w@.len() == self.route.n_expert * hidden_dim
    }

    /// Route slots, hidden states, intermediates and expert lists can be indexed
    /// with 32 bits, and the slots' buffers can be sized in a word.
    pub open spec fn buffers_fit(self, seq_len: int) -> bool {
        let slots = seq_len * self.route.n_expert_used;
        &&& fits_u32(slots)
        &&& fits_u32(seq_len * self.hidden_dim)
        &&& fits_u32(seq_len * self.ffn_dim)
        &&& fits_u32(seq_len * self.route.n_expert)
        &&& slots * 4 <= usize::MAX
        &&& slots * self.hidden_dim <= usize::MAX
        &&& slots * self.ffn_dim <= usize::MAX
    }

    /// The experts' weights have the sizes that their formats ask for.
    pub open spec fn sparse_weights_fit(self, set: QwenMoeLlamaIdQuantSet) -> bool {
        let hidden = self.hidden_dim as int;
        let ffn = self.ffn_dim as int;
        let experts = self.route.n_expert;
        &&& moe_weight_bytes(set.gate, hidden, ffn) == Some(self.gate_expert_bytes as int)
        &&& moe_weight_bytes(set.up, hidden, ffn) == Some(self.up_expert_bytes as int)
        &&& moe_weight_bytes(set.down, ffn, hidden) == Some(self.down_expert_bytes as int)
        &&& self.gate_all@.len() == experts * self.gate_expert_bytes
        &&& self.up_all@.len() == experts * self.up_expert_bytes
        &&& self.down_all@.len() == experts * self.down_expert_bytes
    }

    /// The shared expert's weights have the sizes that their formats ask for.
    pub open spec fn shared_weights_fit(self, set: QwenMoeLlamaIdQuantSet) -> bool {
        let hidden = self.hidden_dim as int;
        let ffn = self.ffn_dim as int;
        &&& moe_weight_bytes(set.gate, hidden, ffn) == Some(self.shared_gate@.len() as int)
        &&& moe_weight_bytes(set.up, hidden, ffn) == Some(self.shared_up@.len() as int)
        &&& moe_weight_bytes(set.down, ffn, hidden) == Some(self.shared_down@.len() as int)
    }

    /// Whether the device can take the mixture of experts.
    pub open spec fn supported(self, seq_len: int, hidden_dim: int) -> bool {
        &&& self.has_kernel(seq_len, hidden_dim)
        &&& self.buffers_fit(seq_len)
        &&& sparse_quant_set(self.sparse_quant) matches Some(sparse)
        &&& shared_quant_set(self.shared_quant) matches Some(shared)
        &&& self.sparse_weights_fit(sparse)
        &&& self.shared_weights_fit(shared)
    }

    /// The mixture of experts as the device takes it.
    pub open spec fn as_backend(self) -> QwenMoePrefillBackendSpecRef<'a> {
        QwenMoePrefillBackendSpecRef {
            ffn_norm_w: self.ffn_norm_w,
            router_w: self.router_w,
            gate_all: self.gate_all,
            up_all: self.up_all,
            down_all: self.down_all,
            gate_expert_bytes: self.gate_expert_bytes,
            up_expert_bytes: self.up_expert_bytes,
            down_expert_bytes: self.down_expert_bytes,
            shared_input_scale: self.shared_input_scale,
            shared_gate: self.shared_gate,
            shared_up: self.shared_up,
            shared_down: self.shared_down,
            sparse_quant: sparse_quant_set(self.sparse_quant)->0,
            shared_quant: shared_quant_set(self.shared_quant)->0,
            route_algorithm: self.route.algorithm,
            n_expert: self.route.n_expert,
            n_expert_used: self.route.n_expert_used,
            hidden_dim: self.hidden_dim,
            ffn_dim: self.ffn_dim,
            norm_eps: self.norm_eps,
        }
    }
}

fn sparse_bytes_match(spec: &MetalQwenMoePrefillWeights<'_>, set: QwenMoeLlamaIdQuantSet) -> (fit:
    bool)
    ensures
        fit == spec.sparse_weights_fit(set),
{
    let gate_len: usize = spec.gate_all.len();
    let up_len: usize = spec.up_all.len();
    let down_len: usize = spec.down_all.len();
    let gate = qwen_prefill_chain_moe_weight_bytes(set.gate, spec.hidden_dim, spec.ffn_dim);
    let up = qwen_prefill_chain_moe_weight_bytes(set.up, spec.hidden_dim, spec.ffn_dim);
    let down = qwen_prefill_chain_moe_weight_bytes(set.down, spec.ffn_dim, spec.hidden_dim);
    match (gate, up, down) {
        (Some(gate), Some(up), Some(down)) => {
            if spec.gate_expert_bytes != gate || spec.up_expert_bytes != up
                || spec.down_expert_bytes != down {
                return false;
            }
            match (
                spec.route.n_expert.checked_mul(gate),
                spec.route.n_expert.checked_mul(up),
                spec.route.n_expert.checked_mul(down),
            ) {
                (Some(gate_arena), Some(up_arena), Some(down_arena)) => gate_len == gate_arena
                    && up_len == up_arena && down_len == down_arena,
                _ => false,
            }
        },
        _ => false,
    }
}

fn shared_bytes_match(spec: &MetalQwenMoePrefillWeights<'_>, set: QwenMoeLlamaIdQuantSet) -> (fit:
    bool)
    ensures
        fit == spec.shared_weights_fit(set),
{
    let gate = qwen_prefill_chain_moe_weight_bytes(set.gate, spec.hidden_dim, spec.ffn_dim);
    let up = qwen_prefill_chain_moe_weight_bytes(set.up, spec.hidden_dim, spec.ffn_dim);
    let down = qwen_prefill_chain_moe_weight_bytes(set.down, spec.ffn_dim, spec.hidden_dim);
    match (gate, up, down) {
        (Some(gate), Some(up), Some(down)) => spec.shared_gate.len() == gate
            && spec.shared_up.len() == up && spec.shared_down.len() == down,
        _ => false,
    }
}

/// Hands a mixture of experts over, if the device can take it.
#[verifier::spinoff_prover]
pub fn qwen_prefill_chain_moe_spec<'a>(
    spec: &MetalQwenMoePrefillWeights<'a>,
    seq_len: usize,
    hidden_dim: usize,
) -> (handed: Option<QwenMoePrefillBackendSpecRef<'a>>)
    ensures
        handed == (if spec.supported(seq_len as int, hidden_dim as int) {
            Some(spec.as_backend())
        } else {
            None
        }),
{
    let used: usize = spec.route.n_expert_used;
    if seq_len == 0 || spec.hidden_dim != hidden_dim || spec.hidden_dim == 0 || spec.ffn_dim == 0
        || !qwen_prefill_chain_norm_eps_supported(spec.norm_eps) || spec.route.n_expert == 0 || used
        == 0 || used > spec.route.n_expert || used > 8 || spec.ffn_norm_w.len() != spec.hidden_dim
        || spec.shared_input_scale.len() != spec.hidden_dim {
        return None;
    }
    proof {
        lemma_product_covers_both(seq_len as int, spec.hidden_dim as int);
        lemma_product_covers_both(seq_len as int, spec.ffn_dim as int);
        lemma_product_covers_both(seq_len as int, spec.route.n_expert as int);
        lemma_product_covers_both(seq_len as int, used as int);
    }
    if !in_u32(seq_len) || !in_u32(spec.hidden_dim) || !in_u32(spec.ffn_dim) || !in_u32(
        spec.route.n_expert,
    ) || !in_u32(used) {
        return None;
    }
    let router_rows: usize = spec.router_w.len();
    let router_len = spec.route.n_expert.checked_mul(spec.hidden_dim)?;
    let route_slots = seq_len.checked_mul(used)?;
    let hidden_elements = seq_len.checked_mul(spec.hidden_dim)?;
    let ffn_elements = seq_len.checked_mul(spec.ffn_dim)?;
    let expert_token_slots = seq_len.checked_mul(spec.route.n_expert)?;
    if router_rows != router_len || !in_u32(route_slots) || !in_u32(hidden_elements) || !in_u32(
        ffn_elements,
    ) || !in_u32(expert_token_slots) || route_slots.checked_mul(4).is_none()
        || route_slots.checked_mul(spec.hidden_dim).is_none() || route_slots.checked_mul(
        spec.ffn_dim,
    ).is_none() {
        return None;
    }
    let sparse_quant = sparse_quants(spec.sparse_quant)?;
    let shared_quant = shared_quants(spec.shared_quant)?;
    if !sparse_bytes_match(spec, sparse_quant) || !shared_bytes_match(spec, shared_quant) {
        return None;
    }
    Some(
        QwenMoePrefillBackendSpecRef {
            ffn_norm_w: spec.ffn_norm_w,
            router_w: spec.router_w,
            gate_all: spec.gate_all,
            up_all: spec.up_all,
            down_all: spec.down_all,
            gate_expert_bytes: spec.gate_expert_bytes,
            up_expert_bytes: spec.up_expert_bytes,
            down_expert_bytes: spec.down_expert_bytes,
            shared_input_scale: spec.shared_input_scale,
            shared_gate: spec.shared_gate,
            shared_up: spec.shared_up,
            shared_down: spec.shared_down,
            sparse_quant,
            shared_quant,
            route_algorithm: spec.route.algorithm,
            n_expert: spec.route.n_expert,
            n_expert_used: spec.route.n_expert_used,
            hidden_dim: spec.hidden_dim,
            ffn_dim: spec.ffn_dim,
            norm_eps: spec.norm_eps,
        },
    )
}

/// Whether a layer follows the one before it; the first layer always does.
pub open spec fn follows(previous: Option<usize>, layer_idx: usize) -> bool {
    match previous {
        Some(previous) => previous + 1 == layer_idx,
        None => true,
    }
}

pub fn qwen_prefill_chain_layer_is_contiguous(
    previous_layer_idx: Option<usize>,
    layer_idx: usize,
) -> (contiguous: bool)
    ensures
        contiguous == follows(previous_layer_idx, layer_idx),
{
    match previous_layer_idx {
        Some(previous) => match previous.checked_add(1) {
            Some(next) => next == layer_idx,
            None => false,
        },
        None => true,
    }
}

impl<'a> MetalQwenPrefillChainLayer<'a> {
    pub open spec fn index(self) -> usize {
        match self {
            MetalQwenPrefillChainLayer::Attention { layer_idx, .. } => layer_idx,
            MetalQwenPrefillChainLayer::Gdn { layer_idx, .. } => layer_idx,
        }
    }

    /// Tokens and width of the hidden state that the layer works on.
    pub open spec fn shape(self) -> (usize, usize) {
        match self {
            MetalQwenPrefillChainLayer::Attention { core, .. } => (
                core.core.seq_len,
                core.core.hidden_dim,
            ),
            MetalQwenPrefillChainLayer::Gdn { layer, .. } => (layer.seq_len, layer.hidden_dim),
        }
    }

    /// Whether the device can take both parts of the layer.
    pub open spec fn supported(self) -> bool {
        let (seq_len, hidden_dim) = self.shape();
        match self {
            MetalQwenPrefillChainLayer::Attention { core, moe, .. } => core.supported()
                && moe.supported(seq_len as int, hidden_dim as int),
            MetalQwenPrefillChainLayer::Gdn { layer, moe, .. } => layer.supported()
                && moe.supported(seq_len as int, hidden_dim as int),
        }
    }

    /// The layer as the device takes it.
    pub open spec fn as_backend(self) -> QwenPrefillChainSpecRef<'a> {
        match self {
            MetalQwenPrefillChainLayer::Attention { layer_idx, core, moe } =>
                QwenPrefillChainSpecRef::Attention {
                layer_idx,
                core: core.as_backend(),
                moe: moe.as_backend(),
            },
            MetalQwenPrefillChainLayer::Gdn { layer_idx, layer, moe } =>
                QwenPrefillChainSpecRef::Gdn {
                layer_idx,
                layer: layer.as_backend(),
                moe: moe.as_backend(),
            },
        }
    }
}

/// Why a chain is not handed over; the layer is the one that stopped it.
#[derive(Debug, Clone, Copy, PartialEq, Eq, Structural)]
pub enum ChainReject {
    EmptyLayers,
    NonContiguousLayer { layer_idx: usize, previous: usize },
    ChainShape { layer_idx: usize },
    HiddenLength { layer_idx: usize },
    Attention { layer_idx: usize },
    Gdn { layer_idx: usize },
    Moe { layer_idx: usize },
    BackendReturnedNone,
}

/// Whether layer `k` can join the `k` layers before it: it follows the last of
/// them, has the chain's shape, and the device can take it. The first layer's
/// shape is that of the hidden state of `hidden_len` elements.
pub open spec fn joins_chain(
    layers: Seq<MetalQwenPrefillChainLayer<'_>>,
    k: int,
    hidden_len: int,
) -> bool {
    &&& k > 0 ==> follows(Some(layers[k - 1].index()), layers[k].index())
    &&& k > 0 ==> layers[k].shape() == layers[0].shape()
    &&& k == 0 ==> layers[0].shape().0 * layers[0].shape().1 == hidden_len
    &&& layers[k].supported()
}

/// Whether the device can take the whole chain.
pub open spec fn chain_supported(
    layers: Seq<MetalQwenPrefillChainLayer<'_>>,
    hidden_len: int,
) -> bool {
    &&& layers.len() > 0
    &&& forall|k: int| 0 <= k < layers.len() ==> #[trigger] joins_chain(layers, k, hidden_len)
}

/// The reason that layer `k` cannot join, checked in this order: its place, its
/// shape, its attention or delta-net part, its experts.
pub open spec fn join_reject(
    layers: Seq<MetalQwenPrefillChainLayer<'_>>,
    k: int,
    hidden_len: int,
) -> ChainReject {
    let layer = layers[k];
    let layer_idx = layer.index();
    if k > 0 && !follows(Some(layers[k - 1].index()), layer_idx) {
        ChainReject::NonContiguousLayer { layer_idx, previous: layers[k - 1].index() }
    } else if k > 0 && layer.shape() != layers[0].shape() {
        ChainReject::ChainShape { layer_idx }
    } else if k == 0 && layer.shape().0 * layer.shape().1 != hidden_len {
        ChainReject::HiddenLength { layer_idx }
    } else {
        match layer {
            MetalQwenPrefillChainLayer::Attention { core, .. } if !core.supported() =>
                ChainReject::Attention { layer_idx },
            MetalQwenPrefillChainLayer::Gdn { layer, .. } if !layer.supported() =>
                ChainReject::Gdn { layer_idx },
            _ => ChainReject::Moe { layer_idx },
        }
    }
}

/// Whether `reject` says why the device cannot take a chain: it has no layers, or it is
/// the first of them that cannot join.
pub open spec fn first_reject(
    layers: Seq<MetalQwenPrefillChainLayer<'_>>,
    hidden_len: int,
    reject: ChainReject,
) -> bool {
    if layers.len() == 0 {
        reject == ChainReject::EmptyLayers
    } else {
        exists|k: int|
            {
                &&& 0 <= k < layers.len()
                &&& !(#[trigger] joins_chain(layers, k, hidden_len))
                &&& forall|j: int| 0 <= j < k ==> #[trigger] joins_chain(layers, j, hidden_len)
                &&& reject == join_reject(layers, k, hidden_len)
            }
    }
}

/// Turns a chain of layers into what the device takes, if it can take every one of them;
/// else the first layer that it cannot take says why.
pub fn qwen_prefill_chain_specs<'a>(
    hidden_len: usize,
    layers: &[MetalQwenPrefillChainLayer<'a>],
) -> (handed: Result<Vec<QwenPrefillChainSpecRef<'a>>, ChainReject>)
    ensures
        match handed {
            Ok(specs) => {
                &&& chain_supported(layers@, hidden_len as int)
                &&& specs@ == layers@.map_values(
                    |layer: MetalQwenPrefillChainLayer<'a>| layer.as_backend(),
                )
            },
            Err(reject) => first_reject(layers@, hidden_len as int, reject),
        },
{
    if layers.len() == 0 {
        return Err(ChainReject::EmptyLayers);
    }
    let mut specs: Vec<QwenPrefillChainSpecRef<'a>> = Vec::new();
    let mut chain_shape: Option<(usize, usize)> = None;
    let mut previous_layer_idx: Option<usize> = None;
    let mut i: usize = 0;
    while i < layers.len()
        invariant
            i <= layers@.len(),
            layers@.len() > 0,
            specs@.len() == i,
            forall|k: int| 0 <= k < i ==> specs@[k] == (#[trigger] layers@[k]).as_backend(),
            forall|k: int|
                0 <= k < i ==> #[trigger] joins_chain(layers@, k, hidden_len as int),
            i == 0 ==> chain_shape is None && previous_layer_idx is None,
            i > 0 ==> chain_shape == Some(layers@[0].shape()),
            i > 0 ==> previous_layer_idx == Some(layers@[i - 1].index()),
        decreases layers@.len() - i,
    {
        let ghost here = joins_chain(layers@, i as int, hidden_len as int);
        let layer = layers[i];
        let (layer_idx, seq_len, hidden_dim) = match layer {
            MetalQwenPrefillChainLayer::Attention { layer_idx, core, .. } => (
                layer_idx,
                core.core.seq_len,
                core.core.hidden_dim,
            ),
            MetalQwenPrefillChainLayer::Gdn { layer_idx, layer, .. } => (
                layer_idx,
                layer.seq_len,
                layer.hidden_dim,
            ),
        };
        if let Some(previous) = previous_layer_idx {
            if !qwen_prefill_chain_layer_is_contiguous(Some(previous), layer_idx) {
                assert(!here);
                return Err(ChainReject::NonContiguousLayer { layer_idx, previous });
            }
        }
        match chain_shape {
            Some((expected_seq_len, expected_hidden_dim)) => {
                if expected_seq_len != seq_len || expected_hidden_dim != hidden_dim {
                    assert(!here);
                    return Err(ChainReject::ChainShape { layer_idx });
                }
            },
            None => {
                let matching: bool = match seq_len.checked_mul(hidden_dim) {
                    Some(expected) => expected == hidden_len,
                    None => false,
                };
                if !matching {
                    assert(!here);
                    return Err(ChainReject::HiddenLength { layer_idx });
                }
            },
        }
        let spec = match layer {
            MetalQwenPrefillChainLayer::Attention { layer_idx, core, moe } => {
                let core = match qwen_prefill_chain_attention_spec(&core) {
                    Some(core) => core,
                    None => {
                        assert(!here);
                        return Err(ChainReject::Attention { layer_idx });
                    },
                };
                let moe = match qwen_prefill_chain_moe_spec(&moe, seq_len, hidden_dim) {
                    Some(moe) => moe,
                    None => {
                        assert(!here);
                        return Err(ChainReject::Moe { layer_idx });
                    },
                };
                QwenPrefillChainSpecRef::Attention { layer_idx, core, moe }
            },
            MetalQwenPrefillChainLayer::Gdn { layer_idx, layer, moe } => {
                let layer = match qwen_prefill_chain_gdn_spec(&layer) {
                    Some(layer) => layer,
                    None => {
                        assert(!here);
                        return Err(ChainReject::Gdn { layer_idx });
                    },
                };
                let moe = match qwen_prefill_chain_moe_spec(&moe, seq_len, hidden_dim) {
                    Some(moe) => moe,
                    None => {
                        assert(!here);
                        return Err(ChainReject::Moe { layer_idx });
                    },
                };
                QwenPrefillChainSpecRef::Gdn { layer_idx, layer, moe }
            },
        };
        assert(joins_chain(layers@, i as int, hidden_len as int));
        specs.push(spec);
        if chain_shape.is_none() {
            chain_shape = Some((seq_len, hidden_dim));
        }
        previous_layer_idx = Some(layer_idx);
        i += 1;
    }
    assert(specs@ =~= layers@.map_values(
        |layer: MetalQwenPrefillChainLayer<'a>| layer.as_backend(),
    ));
    Ok(specs)
}

/// What comes of a chain: the hidden state behind its last layer, the keys and values of
/// its attention layers and the states of its delta nets, by layer, and how often the
/// hidden state moved. Floats are their bits.
#[derive(Debug, Clone, PartialEq, Eq)]
pub struct MetalQwenPrefillChainOut {
    pub hidden: Vec<u32>,
    pub attention_kv: Vec<(usize, Vec<u16>, Vec<u16>)>,
    pub gdn_states: Vec<(usize, Vec<u32>, Vec<u32>)>,
    pub hidden_uploads: usize,
    pub hidden_readbacks: usize,
    pub intermediate_hidden_transfers: usize,
}

/// Runs a chain of layers on the device, if it can take every one of them. Why a chain
/// is not run is told to `trace`.
pub fn metal_qwen_prefill_chain_run<
    'a,
    J: FnOnce(ChainReject),
    D: FnOnce(&'a [u32], Vec<QwenPrefillChainSpecRef<'a>>) -> Result<
        Option<MetalQwenPrefillChainOut>,
        String,
    >,
>(
    hidden: &'a [u32],
    layers: &[MetalQwenPrefillChainLayer<'a>],
    trace: J,
    device: D,
) -> (output: Result<Option<MetalQwenPrefillChainOut>, String>)
    requires
        forall|reject: ChainReject| call_requires(trace, (reject,)),
        forall|specs: Vec<QwenPrefillChainSpecRef<'a>>| call_requires(device, (hidden, specs)),
    ensures
        if chain_supported(layers@, hidden@.len() as int) {
            &&& exists|specs: Vec<QwenPrefillChainSpecRef<'a>>|
                specs@ == layers@.map_values(
                    |layer: MetalQwenPrefillChainLayer<'a>| layer.as_backend(),
                ) && #[trigger] call_ensures(device, (hidden, specs), output)
            &&& output matches Ok(None) ==> call_ensures(
                trace,
                (ChainReject::BackendReturnedNone,),
                (),
            )
        } else {
            &&& output == Ok::<Option<MetalQwenPrefillChainOut>, String>(None)
            &&& exists|reject: ChainReject|
                first_reject(layers@, hidden@.len() as int, reject) && #[trigger] call_ensures(
                    trace,
                    (reject,),
                    (),
                )
        },
{
    match qwen_prefill_chain_specs(hidden.len(), layers) {
        Err(reject) => {
            trace(reject);
            Ok(None)
        },
        Ok(specs) => {
            let reply = device(hidden, specs);
            if let Ok(None) = &reply {
                trace(ChainReject::BackendReturnedNone);
            }
            reply
        },
    }
}

/// The layers of a chain that is handed over have consecutive indices and work on
/// one and the same hidden state, from its first layer to its last.
pub proof fn law_chains_are_contiguous_and_uniform(
    layers: Seq<MetalQwenPrefillChainLayer<'_>>,
    hidden_len: int,
    k: int,
)
    requires
        chain_supported(layers, hidden_len),
        0 <= k < layers.len(),
    ensures
        layers[k].index() == layers[0].index() + k,
        layers[k].shape() == layers[0].shape(),
        layers[k].shape().0 * layers[k].shape().1 == hidden_len,
    decreases k,
{
    assert(joins_chain(layers, 0, hidden_len));
    assert(joins_chain(layers, k, hidden_len));
    if k > 0 {
        law_chains_are_contiguous_and_uniform(layers, hidden_len, k - 1);
    }
}

/// Whether `view` is the weight itself: its bytes and shape, read in its own format.
pub open spec fn is_view_of(view: PrefillAtnCoreWeightView<'_>, weight: MetalQuantWeightRef<'_>) -> bool {
    &&& view.raw@ == weight.raw@
    &&& view.rows == weight.rows
    &&& view.cols == weight.cols
    &&& view.quant is Q4K <==> weight.ggml_type is Q4_K
    &&& view.quant is Q5K <==> weight.ggml_type is Q5_K
    &&& view.quant is Q6K <==> weight.ggml_type is Q6_K
}

/// Whether `handed` is the weight of a delta net itself.
pub open spec fn is_gdn_weight(handed: GdnBackendWeightRef<'_>, weight: MetalGdnWeightRef<'_>) -> bool {
    match (handed, weight) {
        (
            GdnBackendWeightRef::F32 { values, rows, cols },
            MetalGdnWeightRef::F32 { values: given, rows: r, cols: c },
        ) => values@ == given@ && rows == r && cols == c,
        (GdnBackendWeightRef::Quant(view), MetalGdnWeightRef::Quant(weight)) => is_view_of(
            view,
            weight,
        ),
        _ => false,
    }
}

/// A quantized weight that fits a shape holds, for each 256 elements of its rows, one block
/// of 144 bytes in Q4_K, 176 in Q5_K or 210 in Q6_K; no other format fits.
pub proof fn law_weights_that_fit_hold_their_blocks(
    weight: MetalQuantWeightRef<'_>,
    rows: int,
    cols: int,
)
    requires
        0 <= rows,
        0 <= cols,
    ensures
        weight.fits_shape(rows, cols) <==> weight.rows == rows && weight.cols == cols && cols > 0
            && cols % 256 == 0 && (weight.ggml_type is Q4_K && weight.raw@.len() * 256 == rows * cols
            * 144 || weight.ggml_type is Q5_K && weight.raw@.len() * 256 == rows * cols * 176
            || weight.ggml_type is Q6_K && weight.raw@.len() * 256 == rows * cols * 210),
        weight.fits_shape(rows, cols) ==> is_view_of(weight.as_view(), weight)
            && weight.expected_bytes() == Some(weight.raw@.len() as int),
{
    let blocks = cols / 256;
    if cols % 256 == 0 {
        assert(cols == 256 * blocks);
        assert(rows * (256 * blocks) == 256 * (rows * blocks)) by (nonlinear_arith);
    }
    assert(weight.raw.len() == weight.raw@.len());
}

/// A plain weight of a delta net fits where it holds one value for each element.
pub proof fn law_delta_net_weights_that_fit(weight: MetalGdnWeightRef<'_>, rows: int, cols: int)
    ensures
        weight matches MetalGdnWeightRef::F32 { values, rows: r, cols: c } ==> (weight.fits_shape(
            rows,
            cols,
        ) <==> r == rows && c == cols && values@.len() == rows * cols),
        weight matches MetalGdnWeightRef::Quant(inner) ==> (weight.fits_shape(rows, cols)
            <==> inner.fits_shape(rows, cols)),
        weight.fits_shape(rows, cols) ==> is_gdn_weight(weight.as_backend(), weight),
{
}

/// Each tensor and number that the device gets of an attention part is that of the same
/// role in the layer.
pub proof fn law_attention_is_handed_over_by_role(spec: MetalPrefillAtnOTailSpec<'_>)
    requires
        spec.supported(),
    ensures
        ({
            let handed = spec.as_backend();
            let core = spec.core;
            &&& handed.attn_norm_w@ == core.attn_norm_w@
            &&& handed.q_norm_w@ == core.q_norm_w@
            &&& handed.k_norm_w@ == core.k_norm_w@
            &&& is_view_of(handed.q_weight, core.q_weight)
            &&& is_view_of(handed.k_weight, core.k_weight)
            &&& is_view_of(handed.v_weight, core.v_weight)
            &&& is_view_of(handed.o_weight, spec.o_weight)
            &&& handed.q_weight.raw@ == core.q_weight.raw@
            &&& handed.k_weight.raw@ == core.k_weight.raw@
            &&& handed.v_weight.raw@ == core.v_weight.raw@
            &&& handed.o_weight.raw@ == spec.o_weight.raw@
            &&& handed.seq_len == core.seq_len
            &&& handed.num_heads == core.num_heads
            &&& handed.num_kv_heads == core.num_kv_heads
            &&& handed.head_dim == core.head_dim
            &&& handed.hidden_dim == core.hidden_dim
            &&& handed.q_dim == core.q_dim
            &&& handed.kv_dim == core.kv_dim
            &&& handed.n_rot == core.n_rot
            &&& handed.rope_theta == core.rope_theta
            &&& handed.scale == core.scale
            &&& handed.norm_eps == core.norm_eps
            &&& handed.pos_start == core.pos_start
        }),
{
}

/// Which attention parts the device takes: heads of 256 elements in groups, at the start
/// of a sequence, an even number of them rotated; queries with a gate of their size, keys
/// and values from the hidden state and the output back to it; a norm over the hidden state
/// and one over a head; numbers that 32 bits can index; and constants that are usable.
pub proof fn law_which_attention_parts_are_taken(spec: MetalPrefillAtnOTailSpec<'_>)
    ensures
        ({
            let core = spec.core;
            let queries = core.num_heads * 256;
            let keys = core.num_kv_heads * 256;
            let hidden = core.hidden_dim as int;
            spec.supported() <==> {
                &&& core.head_dim == 256
                &&& core.pos_start == 0
                &&& 0 < core.seq_len && 0 < core.hidden_dim && 0 < core.num_kv_heads
                &&& 0 < core.num_heads && core.num_heads % core.num_kv_heads == 0
                &&& core.q_dim == queries
                &&& core.kv_dim == keys
                &&& core.n_rot <= 256 && core.n_rot % 2 == 0
                &&& core.attn_norm_w@.len() == hidden
                &&& core.q_norm_w@.len() == 256
                &&& core.k_norm_w@.len() == 256
                &&& core.q_weight.fits_shape(2 * queries, hidden)
                &&& core.k_weight.fits_shape(keys, hidden)
                &&& core.v_weight.fits_shape(keys, hidden)
                &&& spec.o_weight.fits_shape(hidden, queries)
                &&& core.seq_len * hidden <= u32::MAX
                &&& core.seq_len * queries <= u32::MAX
                &&& core.seq_len * keys <= u32::MAX
                &&& 2 * queries <= u32::MAX
                &&& 0 < core.norm_eps < 0x7f80_0000
                &&& core.n_rot == 0 || 0 < core.rope_theta < 0x7f80_0000
                &&& core.scale as int % 0x8000_0000 < 0x7f80_0000
            }
        }),
{
    let core = spec.core;
    if 0 < core.seq_len && core.seq_len * (core.num_kv_heads * 256) <= u32::MAX {
        lemma_product_covers(core.num_kv_heads * 256, core.seq_len as int);
        assert((core.num_kv_heads * 256) * core.seq_len == core.seq_len * (core.num_kv_heads * 256))
            by (nonlinear_arith);
    }
}

/// Each tensor and number that the device gets of a delta net is that of the same role in
/// the layer.
pub proof fn law_delta_nets_are_handed_over_by_role(spec: MetalQwenPrefillGdnSpec<'_>)
    requires
        spec.supported(),
    ensures
        ({
            let handed = spec.as_backend();
            &&& handed.seq_len == spec.seq_len
            &&& handed.hidden_dim == spec.hidden_dim
            &&& handed.d_inner == spec.d_inner
            &&& handed.d_state == spec.d_state
            &&& handed.n_group == spec.n_group
            &&& handed.dt_rank == spec.dt_rank
            &&& handed.conv_kernel_size == spec.conv_kernel_size
            &&& handed.attn_norm_w@ == spec.attn_norm_w@
            &&& is_gdn_weight(handed.qkv_weight, spec.qkv_weight)
            &&& is_gdn_weight(handed.gate_weight, spec.gate_weight)
            &&& is_gdn_weight(handed.alpha_weight, spec.alpha_weight)
            &&& is_gdn_weight(handed.beta_weight, spec.beta_weight)
            &&& is_gdn_weight(handed.ssm_out_weight, spec.ssm_out_weight)
            &&& handed.conv_state@ == spec.conv_state@
            &&& handed.conv_kernel@ == spec.conv_kernel@
            &&& handed.dt_bias@ == spec.dt_bias@
            &&& handed.ssm_a@ == spec.ssm_a@
            &&& handed.delta_state@ == spec.delta_state@
            &&& handed.ssm_norm@ == spec.ssm_norm@
            &&& handed.post_attn_norm_w@ == spec.post_attn_norm_w@
            &&& handed.norm_eps == spec.norm_eps
        }),
{
}

/// Which delta nets the device takes: the convolution runs over the inner elements and
/// the keys and queries of all groups, the state has a row of `d_state` for each inner
/// element, every weight maps between the hidden state and what it is named for, and the
/// workspaces of a sequence and of a step of 48 tokens stay within 32 bits.
pub proof fn law_which_delta_nets_are_taken(spec: MetalQwenPrefillGdnSpec<'_>)
    ensures
        ({
            let hidden = spec.hidden_dim as int;
            let channels = spec.d_inner + 2 * (spec.n_group * spec.d_state);
            let kernel = spec.conv_kernel_size as int;
            spec.supported() <==> {
                &&& 0 < spec.seq_len && 0 < hidden && 0 < spec.d_inner && 0 < spec.n_group
                &&& 0 < spec.d_state <= 256
                &&& 2 <= kernel
                &&& 0 < spec.dt_rank && spec.dt_rank % spec.n_group == 0
                &&& spec.d_inner % spec.dt_rank == 0
                &&& spec.attn_norm_w@.len() == hidden
                &&& spec.post_attn_norm_w@.len() == hidden
                &&& spec.conv_state@.len() == (kernel - 1) * channels
                &&& spec.conv_kernel@.len() == kernel * channels
                &&& spec.dt_bias@.len() == spec.dt_rank
                &&& spec.ssm_a@.len() == spec.dt_rank
                &&& spec.delta_state@.len() == spec.d_inner * spec.d_state
                &&& spec.ssm_norm@.len() * spec.dt_rank == spec.d_inner
                &&& spec.qkv_weight.fits_shape(channels, hidden)
                &&& spec.gate_weight.fits_shape(spec.d_inner as int, hidden)
                &&& spec.alpha_weight.fits_shape(spec.dt_rank as int, hidden)
                &&& spec.beta_weight.fits_shape(spec.dt_rank as int, hidden)
                &&& spec.ssm_out_weight.fits_shape(hidden, spec.d_inner as int)
                &&& (spec.seq_len + kernel - 1) * channels <= u32::MAX
                &&& spec.seq_len * hidden <= u32::MAX
                &&& spec.seq_len * (spec.dt_rank * spec.d_state) <= u32::MAX
                &&& spec.d_inner * spec.d_state <= u32::MAX
                &&& spec.d_inner * 176 <= u32::MAX
                &&& spec.dt_rank * spec.d_state * 48 <= u32::MAX
                &&& spec.dt_rank * 48 * 176 <= u32::MAX
            }
        }),
{
    let hidden = spec.hidden_dim as int;
    let grouped = spec.n_group * spec.d_state;
    let channels = spec.d_inner + 2 * grouped;
    let kernel = spec.conv_kernel_size as int;
    let seq = spec.seq_len as int;
    let heads = spec.dt_rank as int;
    let values = spec.head_v_dim();
    if spec.has_kernel() {
        lemma_gdn_factors(spec);
        assert(grouped * 2 == 2 * grouped);
        assert(values * heads == heads * values) by (nonlinear_arith);
        assert(heads * 176 * values == (heads * values) * 176) by (nonlinear_arith);
        assert(heads * 48 * spec.d_state == heads * spec.d_state * 48) by (nonlinear_arith);
        assert(heads * values * spec.d_state == spec.d_inner * spec.d_state);
        let n = spec.ssm_norm@.len() as int;
        assert(n * heads == spec.d_inner ==> n == values) by (nonlinear_arith)
            requires
                heads * values == spec.d_inner,
                heads > 0,
        ;
        assert(seq * channels <= (seq + kernel - 1) * channels && (kernel - 1) * channels <= (seq
            + kernel - 1) * channels && kernel * channels <= (seq + kernel - 1) * channels && seq
            * grouped <= seq * channels && seq * spec.d_inner <= seq * channels && spec.n_group
            <= grouped && grouped <= seq * grouped) by (nonlinear_arith)
            requires
                1 <= seq,
                2 <= kernel,
                channels == spec.d_inner + 2 * grouped,
                0 <= grouped,
                0 <= spec.d_inner,
                grouped == spec.n_group * spec.d_state,
                1 <= spec.d_state,
                0 <= spec.n_group,
        ;
    }
}

/// Each tensor and number that the device gets of a mixture of experts is that of the
/// same role in the layer, and each weight is read in its own format.
pub proof fn law_experts_are_handed_over_by_role(
    spec: MetalQwenMoePrefillWeights<'_>,
    seq_len: int,
    hidden_dim: int,
)
    requires
        spec.supported(seq_len, hidden_dim),
    ensures
        ({
            let handed = spec.as_backend();
            &&& handed.ffn_norm_w@ == spec.ffn_norm_w@
            &&& handed.router_w@ == spec.router_w@
            &&& handed.gate_all@ == spec.gate_all@
            &&& handed.up_all@ == spec.up_all@
            &&& handed.down_all@ == spec.down_all@
            &&& handed.gate_expert_bytes == spec.gate_expert_bytes
            &&& handed.up_expert_bytes == spec.up_expert_bytes
            &&& handed.down_expert_bytes == spec.down_expert_bytes
            &&& handed.shared_input_scale@ == spec.shared_input_scale@
            &&& handed.shared_gate@ == spec.shared_gate@
            &&& handed.shared_up@ == spec.shared_up@
            &&& handed.shared_down@ == spec.shared_down@
            &&& reads_as_expert(handed.sparse_quant.gate, spec.sparse_quant.gate)
            &&& reads_as_expert(handed.sparse_quant.up, spec.sparse_quant.up)
            &&& reads_as_expert(handed.sparse_quant.down, spec.sparse_quant.down)
            &&& reads_as_expert(handed.shared_quant.gate, spec.shared_quant.gate)
            &&& reads_as_expert(handed.shared_quant.up, spec.shared_quant.up)
            &&& reads_as_expert(handed.shared_quant.down, spec.shared_quant.down)
            &&& handed.route_algorithm == spec.route.algorithm
            &&& handed.n_expert == spec.route.n_expert
            &&& handed.n_expert_used == spec.route.n_expert_used
            &&& handed.hidden_dim == spec.hidden_dim
            &&& handed.ffn_dim == spec.ffn_dim
            &&& handed.norm_eps == spec.norm_eps
        }),
{
}

/// Whether an expert kernel for `quant` reads weights of `format`.
pub open spec fn reads_as_expert(quant: QwenMoeLlamaIdQuant, format: GGMLType) -> bool {
    ||| quant is Q4K && format is Q4_K
    ||| quant is Q5K && format is Q5_K
    ||| quant is Q6K && format is Q6_K
    ||| quant is Q8Zero && format is Q8_0
}

/// The expert kernels read each format as itself: Q4_K, Q5_K, Q6_K and Q8_0. A block of
/// Q8_0 is 32 bytes behind a half-precision scale.
pub proof fn law_expert_kernels_read_each_format_as_itself(format: GGMLType)
    ensures
        moe_quant(format) is Some <==> format is Q4_K || format is Q5_K || format is Q6_K
            || format is Q8_0,
        moe_quant(format) matches Some(quant) ==> reads_as_expert(quant, format),
        moe_block(QwenMoeLlamaIdQuant::Q4K).0 == 256,
        moe_block(QwenMoeLlamaIdQuant::Q4K).1 == 2 + 2 + 12 + 256 * 4 / 8,
        moe_block(QwenMoeLlamaIdQuant::Q5K).0 == 256,
        moe_block(QwenMoeLlamaIdQuant::Q5K).1 == 2 + 2 + 12 + 256 * 5 / 8,
        moe_block(QwenMoeLlamaIdQuant::Q6K).0 == 256,
        moe_block(QwenMoeLlamaIdQuant::Q6K).1 == 2 + 16 + 256 * 6 / 8,
        moe_block(QwenMoeLlamaIdQuant::Q8Zero).0 == 32,
        moe_block(QwenMoeLlamaIdQuant::Q8Zero).1 == 2 + 32,
{
}

pub open spec fn is_weight_bytes(
    quant: QwenMoeLlamaIdQuant,
    input_dim: int,
    output_dim: int,
    bytes: int,
) -> bool {
    moe_weight_bytes(quant, input_dim, output_dim) == Some(bytes)
}

/// The bytes of an expert's weight hold whole blocks of each output row: as many elements
/// as the two dimensions have, each at its format's share of a block.
pub proof fn law_expert_weights_hold_their_blocks(
    quant: QwenMoeLlamaIdQuant,
    input_dim: int,
    output_dim: int,
)
    requires
        0 <= input_dim,
        0 <= output_dim,
    ensures
        forall|bytes: int|
            0 <= bytes <= usize::MAX ==> (#[trigger] is_weight_bytes(
                quant,
                input_dim,
                output_dim,
                bytes,
            ) <==> {
                &&& 0 < input_dim && 0 < output_dim
                &&& quant is Q4K ==> input_dim % 256 == 0 && bytes * 256 == input_dim * output_dim
                    * 144
                &&& quant is Q5K ==> input_dim % 256 == 0 && bytes * 256 == input_dim * output_dim
                    * 176
                &&& quant is Q6K ==> input_dim % 256 == 0 && bytes * 256 == input_dim * output_dim
                    * 210
                &&& quant is Q8Zero ==> input_dim % 32 == 0 && bytes * 32 == input_dim * output_dim
                    * 34
            }),
{
    let (elements, bytes) = moe_block(quant);
    let blocks = input_dim / elements;
    if input_dim % elements == 0 {
        assert(input_dim == elements * blocks) by (nonlinear_arith)
            requires
                elements > 0,
                blocks == input_dim / elements,
                input_dim % elements == 0,
        ;
        assert((output_dim * blocks * bytes) * elements == (elements * blocks) * output_dim * bytes)
            by (nonlinear_arith);
    }
}

/// Which mixtures of experts the device takes: a router with a row for each
/// expert, at most eight of which are used; gate and up weights from the hidden state and
/// a down weight back, for each expert and for the shared one. Sparse gates are in Q4_K;
/// a shared expert is in Q8_0 throughout or has gates in Q4_K and no Q5_K.
pub proof fn law_which_experts_are_taken(
    spec: MetalQwenMoePrefillWeights<'_>,
    seq_len: int,
    hidden_dim: int,
)
    requires
        0 <= seq_len,
    ensures
        ({
            let experts = spec.route.n_expert as int;
            let hidden = spec.hidden_dim as int;
            let wide = spec.ffn_dim as int;
            spec.supported(seq_len, hidden_dim) <==> {
            &&& seq_len != 0
            &&& hidden == hidden_dim && 0 < hidden && 0 < wide
            &&& 0 < spec.route.n_expert_used <= experts && spec.route.n_expert_used <= 8
            &&& spec.router_w@.len() == experts * hidden
            &&& spec.ffn_norm_w@.len() == hidden
            &&& spec.shared_input_scale@.len() == hidden
            &&& 0 < spec.norm_eps < 0x7f80_0000
            &&& spec.sparse_quant.gate is Q4_K && spec.sparse_quant.up is Q4_K
            &&& spec.sparse_quant.down is Q4_K || spec.sparse_quant.down is Q5_K
                || spec.sparse_quant.down is Q6_K
            &&& spec.gate_all@.len() == experts * spec.gate_expert_bytes
            &&& spec.up_all@.len() == experts * spec.up_expert_bytes
            &&& spec.down_all@.len() == experts * spec.down_expert_bytes
            &&& hidden % 256 == 0 && wide % 256 == 0
            &&& spec.gate_expert_bytes * 256 == hidden * wide * 144
            &&& spec.up_expert_bytes * 256 == hidden * wide * 144
            &&& spec.sparse_quant.down is Q4_K ==> spec.down_expert_bytes * 256 == wide * hidden * 144
            &&& spec.sparse_quant.down is Q5_K ==> spec.down_expert_bytes * 256 == wide * hidden * 176
            &&& spec.sparse_quant.down is Q6_K ==> spec.down_expert_bytes * 256 == wide * hidden * 210
            &&& spec.shared_quant.gate == spec.shared_quant.up
            &&& spec.shared_quant.gate is Q8_0 ==> spec.shared_quant.down is Q8_0
                && spec.shared_gate@.len() * 32 == hidden * wide * 34 && spec.shared_up@.len() * 32
                == hidden * wide * 34 && spec.shared_down@.len() * 32 == wide * hidden * 34
            &&& !(spec.shared_quant.gate is Q8_0) ==> spec.shared_quant.gate is Q4_K
                && spec.shared_gate@.len() * 256 == hidden * wide * 144 && spec.shared_up@.len()
                * 256 == hidden * wide * 144 && (spec.shared_quant.down is Q4_K
                && spec.shared_down@.len() * 256 == wide * hidden * 144
                || spec.shared_quant.down is Q6_K && spec.shared_down@.len() * 256 == wide * hidden
                * 210)
            &&& seq_len * spec.route.n_expert_used <= u32::MAX
            &&& seq_len * hidden <= u32::MAX
            &&& seq_len * wide <= u32::MAX
            &&& seq_len * experts <= u32::MAX
            &&& seq_len * spec.route.n_expert_used * 4 <= usize::MAX
            &&& seq_len * spec.route.n_expert_used * hidden <= usize::MAX
            &&& seq_len * spec.route.n_expert_used * wide <= usize::MAX
            }
        }),
{
    let hidden = spec.hidden_dim as int;
    let wide = spec.ffn_dim as int;
    let set = spec.sparse_quant;
    let shared = spec.shared_quant;
    assert(spec.shared_gate.len() == spec.shared_gate@.len());
    assert(spec.shared_up.len() == spec.shared_up@.len());
    assert(spec.shared_down.len() == spec.shared_down@.len());
    if let Some(q) = sparse_quant_set(set) {
        assert(is_weight_bytes(q.gate, hidden, wide, spec.gate_expert_bytes as int) == (
        moe_weight_bytes(q.gate, hidden, wide) == Some(spec.gate_expert_bytes as int)));
        assert(is_weight_bytes(q.up, hidden, wide, spec.up_expert_bytes as int) == (
        moe_weight_bytes(q.up, hidden, wide) == Some(spec.up_expert_bytes as int)));
        assert(is_weight_bytes(q.down, wide, hidden, spec.down_expert_bytes as int) == (
        moe_weight_bytes(q.down, wide, hidden) == Some(spec.down_expert_bytes as int)));
    }
    if let Some(q) = shared_quant_set(shared) {
        assert(is_weight_bytes(q.gate, hidden, wide, spec.shared_gate@.len() as int) == (
        moe_weight_bytes(q.gate, hidden, wide) == Some(spec.shared_gate@.len() as int)));
        assert(is_weight_bytes(q.up, hidden, wide, spec.shared_up@.len() as int) == (
        moe_weight_bytes(q.up, hidden, wide) == Some(spec.shared_up@.len() as int)));
        assert(is_weight_bytes(q.down, wide, hidden, spec.shared_down@.len() as int) == (
        moe_weight_bytes(q.down, wide, hidden) == Some(spec.shared_down@.len() as int)));
    }
    law_expert_weights_hold_their_blocks(QwenMoeLlamaIdQuant::Q4K, hidden, wide);
    law_expert_weights_hold_their_blocks(QwenMoeLlamaIdQuant::Q8Zero, hidden, wide);
    law_expert_weights_hold_their_blocks(QwenMoeLlamaIdQuant::Q4K, wide, hidden);
    law_expert_weights_hold_their_blocks(QwenMoeLlamaIdQuant::Q5K, wide, hidden);
    law_expert_weights_hold_their_blocks(QwenMoeLlamaIdQuant::Q6K, wide, hidden);
    law_expert_weights_hold_their_blocks(QwenMoeLlamaIdQuant::Q8Zero, wide, hidden);
}

/// A layer is handed over as what it is, under its own index, with its own experts.
pub proof fn law_layers_are_handed_over_as_they_are(layer: MetalQwenPrefillChainLayer<'_>)
    ensures
        match (layer, layer.as_backend()) {
            (
                MetalQwenPrefillChainLayer::Attention { layer_idx, core, moe },
                QwenPrefillChainSpecRef::Attention { layer_idx: index, core: part, moe: experts },
            ) => index == layer_idx && part == core.as_backend() && experts == moe.as_backend(),
            (
                MetalQwenPrefillChainLayer::Gdn { layer_idx, layer, moe },
                QwenPrefillChainSpecRef::Gdn { layer_idx: index, layer: part, moe: experts },
            ) => index == layer_idx && part == layer.as_backend() && experts == moe.as_backend(),
            _ => false,
        },
        layer.supported() <==> match layer {
            MetalQwenPrefillChainLayer::Attention { core, moe, .. } => core.supported()
                && moe.supported(core.core.seq_len as int, core.core.hidden_dim as int),
            MetalQwenPrefillChainLayer::Gdn { layer, moe, .. } => layer.supported()
                && moe.supported(layer.seq_len as int, layer.hidden_dim as int),
        },
{
}

/// A chain of one layer that the device can take, over a hidden state of its size, is
/// taken; and a chain that is taken can be cut short, or lengthened by a layer that
/// follows, has the same size and can be taken.
pub proof fn law_chains_grow_layer_by_layer(
    layers: Seq<MetalQwenPrefillChainLayer<'_>>,
    next: MetalQwenPrefillChainLayer<'_>,
    hidden_len: int,
)
    ensures
        layers.len() == 0 ==> !chain_supported(layers, hidden_len) && (chain_supported(
            seq![next],
            hidden_len,
        ) <==> next.supported() && next.shape().0 * next.shape().1 == hidden_len),
        layers.len() > 0 ==> (chain_supported(layers.push(next), hidden_len) <==> chain_supported(
            layers,
            hidden_len,
        ) && next.supported() && next.index() == layers.last().index() + 1 && next.shape()
            == layers[0].shape()),
{
    let longer = layers.push(next);
    if layers.len() == 0 {
        assert(joins_chain(seq![next], 0, hidden_len) <==> next.supported() && next.shape().0
            * next.shape().1 == hidden_len);
    } else {
        assert forall|k: int| 0 <= k < layers.len() implies #[trigger] joins_chain(
            layers,
            k,
            hidden_len,
        ) == joins_chain(longer, k, hidden_len) by {}
        let last = layers.len() as int;
        assert(joins_chain(longer, last, hidden_len) <==> next.supported() && next.index()
            == layers.last().index() + 1 && next.shape() == layers[0].shape());
        if chain_supported(longer, hidden_len) {
            assert forall|k: int| 0 <= k < layers.len() implies #[trigger] joins_chain(
                layers,
                k,
                hidden_len,
            ) by {
                assert(joins_chain(longer, k, hidden_len));
            }
            assert(joins_chain(longer, last, hidden_len));
        }
        if chain_supported(layers, hidden_len) && joins_chain(longer, last, hidden_len) {
            assert forall|k: int| 0 <= k < longer.len() implies #[trigger] joins_chain(
                longer,
                k,
                hidden_len,
            ) by {
                if k < last {
                    assert(joins_chain(layers, k, hidden_len));
                }
            }
        }
    }
}

/// Why a layer cannot join the chain before it: it does not follow the last one, or is of
/// another shape than the first; the first layer, that the hidden state is not of its size.
/// Only then its own part is looked at, and its experts last.
pub proof fn law_why_a_layer_cannot_join(
    layers: Seq<MetalQwenPrefillChainLayer<'_>>,
    k: int,
    hidden_len: int,
)
    requires
        0 <= k < layers.len(),
        !joins_chain(layers, k, hidden_len),
    ensures
        ({
            let layer_idx = layers[k].index();
            let reject = join_reject(layers, k, hidden_len);
            let placed = k > 0 ==> layer_idx == layers[k - 1].index() + 1;
            let shaped = k > 0 ==> layers[k].shape().0 == layers[0].shape().0
                && layers[k].shape().1 == layers[0].shape().1;
            let filled = k == 0 ==> hidden_len == layers[0].shape().0 * layers[0].shape().1;
            let part = match layers[k] {
                MetalQwenPrefillChainLayer::Attention { core, .. } => core.supported(),
                MetalQwenPrefillChainLayer::Gdn { layer, .. } => layer.supported(),
            };
            &&& !placed ==> reject == ChainReject::NonContiguousLayer {
                layer_idx,
                previous: layers[k - 1].index(),
            }
            &&& placed && !shaped ==> reject == ChainReject::ChainShape { layer_idx }
            &&& placed && shaped && !filled ==> reject == ChainReject::HiddenLength { layer_idx }
            &&& placed && shaped && filled && !part && layers[k] is Attention ==> reject
                == ChainReject::Attention { layer_idx }
            &&& placed && shaped && filled && !part && layers[k] is Gdn ==> reject
                == ChainReject::Gdn { layer_idx }
            &&& placed && shaped && filled && part ==> reject == ChainReject::Moe { layer_idx }
        }),
{
}

/// A layer goes by the index that it was given, and has the shape of its own part.
pub proof fn law_layers_go_by_their_index_and_shape(layer: MetalQwenPrefillChainLayer<'_>)
    ensures
        layer matches MetalQwenPrefillChainLayer::Attention { layer_idx, core, .. } ==> {
            &&& layer.index() == layer_idx
            &&& layer.shape().0 == core.core.seq_len && layer.shape().1 == core.core.hidden_dim
        },
        layer matches MetalQwenPrefillChainLayer::Gdn { layer_idx, layer: part, .. } ==> {
            &&& layer.index() == layer_idx
            &&& layer.shape().0 == part.seq_len && layer.shape().1 == part.hidden_dim
        },
{
}

} // verus!
