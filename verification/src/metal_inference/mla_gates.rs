//! When the device takes a step of GLM's latent attention, and what it is handed. Floats
//! are their bits.

use crate::arith::is_product;
use crate::metal_inference::device::{
    fill_over, fill_where, filled, filled_where, fills, fills_where, rewrites_where, write_where,
    wrote, Buffers,
};
use crate::metal_inference::gates::GemvRequest;
use crate::policy::{env_falsey, switched_off};
use crate::quant::GGMLType;
use vstd::prelude::*;

verus! {

/// The kernels of a dense projection.
#[derive(Debug, Clone, Copy, PartialEq, Eq, Structural)]
pub enum MlaGemvKernel {
    Q5K,
    Q8Zero,
}

/// The kernel of a dense projection whose rows hold whole blocks.
pub open spec fn mla_kernel(ggml_type: GGMLType, cols: usize) -> Option<MlaGemvKernel> {
    if ggml_type == GGMLType::Q5_K && cols % 256 == 0 {
        Some(MlaGemvKernel::Q5K)
    } else if ggml_type == GGMLType::Q8_0 && cols % 32 == 0 {
        Some(MlaGemvKernel::Q8Zero)
    } else {
        None
    }
}

/// How the device reads this step, if it takes it.
pub open spec fn glm_mla_gemv_reading(
    mla_gemv: Option<&str>,
    request: GemvRequest<'_>,
    out: Seq<u32>,
) -> Option<MlaGemvKernel> {
    if !switched_off(mla_gemv) && request.rows != 0 && request.input@.len() == request.cols
        && out.len() == request.rows {
        mla_kernel(request.ggml_type, request.cols)
    } else {
        None
    }
}

fn reads_glm_mla_gemv(
    mla_gemv: Option<&str>,
    request: &GemvRequest<'_>,
    out: &Vec<u32>,
) -> (kernel: Option<MlaGemvKernel>)
    ensures
        kernel == glm_mla_gemv_reading(mla_gemv, *request, out@),
{
    if env_falsey(mla_gemv) {
        return None;
    }
    if request.rows == 0 || request.input.len() != request.cols || out.len() != request.rows {
        return None;
    }
    match request.ggml_type {
        GGMLType::Q5_K => if request.cols % 256 == 0 {
            Some(MlaGemvKernel::Q5K)
        } else {
            None
        },
        GGMLType::Q8_0 => if request.cols % 32 == 0 {
            Some(MlaGemvKernel::Q8Zero)
        } else {
            None
        },
        _ => None,
    }
}

/// Runs a dense projection, unless `RNB_METAL_GLM_MLA_GEMV` is falsey.
pub fn metal_glm_mla_gemv_into_if_supported<
    'a,
    D: FnOnce(MlaGemvKernel, GemvRequest<'a>) -> Vec<u32>,
>(mla_gemv: Option<&str>, request: GemvRequest<'a>, out: &mut Vec<u32>, device: D) -> (done: bool)
    requires
        fills(
            glm_mla_gemv_reading(mla_gemv, request, old(out)@),
            request,
            device,
            *old(out),
        ),
    ensures
        filled(
            glm_mla_gemv_reading(mla_gemv, request, old(out)@),
            request,
            device,
            *old(out),
            *final(out),
            done,
        ),
{
    let reads: Option<MlaGemvKernel> = reads_glm_mla_gemv(mla_gemv, &request, &*out);
    fill_over(reads, request, out, device)
}

/// One projection per head.
#[derive(Debug, Clone, Copy, PartialEq, Eq)]
pub struct HeadGemvRequest<'a> {
    pub ggml_type: GGMLType,
    pub raw: &'a [u8],
    pub heads: usize,
    pub rows_per_head: usize,
    pub cols: usize,
    pub input: &'a [u32],
}

/// Whether the device takes one projection per head.
pub open spec fn head_gemv_taken(
    mla_gemv: Option<&str>,
    request: HeadGemvRequest<'_>,
    out: Seq<u32>,
) -> bool {
    !switched_off(mla_gemv) && request.ggml_type == GGMLType::Q8_0 && request.heads != 0
        && request.cols % 32 == 0 && request.input@.len() == request.heads * request.cols
        && out.len() == request.heads * request.rows_per_head
}

/// Runs one projection per head, unless `RNB_METAL_GLM_MLA_GEMV` is falsey.
pub fn metal_glm_mla_head_gemv_into_if_supported<
    'a,
    D: FnOnce(HeadGemvRequest<'a>) -> Vec<u32>,
>(mla_gemv: Option<&str>, request: HeadGemvRequest<'a>, out: &mut Vec<u32>, device: D) -> (done:
    bool)
    requires
        fills_where(
            head_gemv_taken(mla_gemv, request, old(out)@),
            request,
            device,
            *old(out),
        ),
    ensures
        filled_where(
            head_gemv_taken(mla_gemv, request, old(out)@),
            request,
            device,
            *old(out),
            *final(out),
            done,
        ),
{
    let runs: bool = !env_falsey(mla_gemv) && request.ggml_type == GGMLType::Q8_0 && request.heads
        != 0 && request.cols % 32 == 0 && is_product(
        request.input.len(),
        request.heads,
        request.cols,
    ) && is_product(out.len(), request.heads, request.rows_per_head);
    fill_where(runs, request, out, device)
}

/// One projection per head and token.
#[derive(Debug, Clone, Copy, PartialEq, Eq)]
pub struct HeadSlotsGemvRequest<'a> {
    pub slots: usize,
    pub head: HeadGemvRequest<'a>,
}

/// Whether the device takes one projection per head and token.
pub open spec fn head_slots_gemv_taken(
    mla_gemv: Option<&str>,
    request: HeadSlotsGemvRequest<'_>,
    out: Seq<u32>,
) -> bool {
    !switched_off(mla_gemv) && request.head.ggml_type == GGMLType::Q8_0 && request.head.heads != 0
        && request.slots != 0 && request.head.cols % 32 == 0 && request.head.input@.len()
        == request.slots * request.head.cols && out.len() == request.slots
        * request.head.rows_per_head
}

/// Runs one projection per head and token, unless `RNB_METAL_GLM_MLA_GEMV` is falsey.
pub fn metal_glm_mla_head_slots_gemv_into_if_supported<
    'a,
    D: FnOnce(HeadSlotsGemvRequest<'a>) -> Vec<u32>,
>(
    mla_gemv: Option<&str>,
    request: HeadSlotsGemvRequest<'a>,
    out: &mut Vec<u32>,
    device: D,
) -> (done: bool)
    requires
        fills_where(
            head_slots_gemv_taken(mla_gemv, request, old(out)@),
            request,
            device,
            *old(out),
        ),
    ensures
        filled_where(
            head_slots_gemv_taken(mla_gemv, request, old(out)@),
            request,
            device,
            *old(out),
            *final(out),
            done,
        ),
{
    let head = request.head;
    let runs: bool = !env_falsey(mla_gemv) && head.ggml_type == GGMLType::Q8_0 && head.heads != 0
        && request.slots != 0 && head.cols % 32 == 0 && is_product(
        head.input.len(),
        request.slots,
        head.cols,
    ) && is_product(out.len(), request.slots, head.rows_per_head);
    fill_where(runs, request, out, device)
}

/// The sizes of a latent attention.
#[derive(Debug, Clone, Copy, PartialEq, Eq, Structural)]
pub struct MlaSizes {
    pub hidden: usize,
    pub q_rank: usize,
    pub q_dim: usize,
    pub kv_dim: usize,
    pub heads: usize,
    pub kv_rank: usize,
    pub q_nope: usize,
    pub value_dim: usize,
    pub eps: u32,
}

/// The front of a latent attention: the projections up to the absorbed queries.
#[derive(Debug, Clone, Copy, PartialEq, Eq)]
pub struct MlaFront<'a> {
    pub qa_quant: GGMLType,
    pub qb_quant: GGMLType,
    pub kva_quant: GGMLType,
    pub kb_quant: GGMLType,
    pub qa: &'a [u8],
    pub qa_norm: &'a [u8],
    pub qb: &'a [u8],
    pub kva: &'a [u8],
    pub kb: &'a [u8],
    pub sizes: MlaSizes,
    pub input: &'a [u32],
}

/// What comes of the front of a latent attention.
#[derive(Debug, Clone, PartialEq, Eq)]
pub struct MlaFrontBuffers {
    pub q: Vec<u32>,
    pub kv: Vec<u32>,
    pub qabs: Vec<u32>,
}

impl Buffers for MlaFrontBuffers {
    open spec fn as_long_as(&self, other: &Self) -> bool {
        &&& self.q@.len() == other.q@.len()
        &&& self.kv@.len() == other.kv@.len()
        &&& self.qabs@.len() == other.qabs@.len()
    }
}

impl<'a> MlaFront<'a> {
    /// The formats, sizes and lengths that the kernels hold.
    pub open spec fn supported(self, out: MlaFrontBuffers) -> bool {
        let sizes = self.sizes;
        &&& self.qa_quant == GGMLType::Q5_K
        &&& self.qb_quant == GGMLType::Q8_0
        &&& self.kva_quant == GGMLType::Q8_0
        &&& self.kb_quant == GGMLType::Q8_0
        &&& sizes.hidden % 256 == 0
        &&& sizes.q_rank % 256 == 0
        &&& sizes.q_nope % 32 == 0
        &&& sizes.heads != 0
        &&& sizes.heads * sizes.value_dim == sizes.q_dim
        &&& self.qa_norm@.len() == sizes.q_rank * 4
        &&& self.input@.len() == sizes.hidden
        &&& out.q@.len() == sizes.q_dim
        &&& out.kv@.len() == sizes.kv_dim
        &&& out.qabs@.len() == sizes.heads * sizes.kv_rank
    }
}

proof fn lemma_multiple_has_no_remainder(a: int, b: int)
    requires
        a > 0,
        b >= 0,
    ensures
        (a * b) % a == 0,
{
    assert((a * b) % a == 0) by (nonlinear_arith)
        requires
            a > 0,
    ;
}

/// Whether the device takes this step.
pub open spec fn glm_mla_front_taken(
    mla_chain: Option<&str>,
    front: MlaFront<'_>,
    out: MlaFrontBuffers,
) -> bool {
    !switched_off(mla_chain) && front.supported(out)
}

fn takes_glm_mla_front(
    mla_chain: Option<&str>,
    front: &MlaFront<'_>,
    out: &MlaFrontBuffers,
) -> (runs: bool)
    ensures
        runs == glm_mla_front_taken(mla_chain, *front, *out),
{
    if env_falsey(mla_chain) {
        return false;
    }
    let sizes = front.sizes;
    if front.qa_quant != GGMLType::Q5_K || front.qb_quant != GGMLType::Q8_0 || front.kva_quant
        != GGMLType::Q8_0 || front.kb_quant != GGMLType::Q8_0 || sizes.hidden % 256 != 0
        || sizes.q_rank % 256 != 0 || sizes.q_nope % 32 != 0 || sizes.heads == 0 {
        return false;
    }
    proof {
        lemma_multiple_has_no_remainder(sizes.heads as int, sizes.value_dim as int);
    }
    if sizes.q_dim % sizes.heads != 0 || !is_product(sizes.q_dim, sizes.heads, sizes.value_dim)
        || !is_product(front.qa_norm.len(), sizes.q_rank, 4) || front.input.len() != sizes.hidden
        || out.q.len() != sizes.q_dim || out.kv.len() != sizes.kv_dim || !is_product(
        out.qabs.len(),
        sizes.heads,
        sizes.kv_rank,
    ) {
        return false;
    }
    true
}

/// Runs the front of a latent attention, unless `RNB_METAL_GLM_MLA_CHAIN` is falsey.
pub fn metal_glm_mla_front_into_if_supported<
    'a,
    D: FnOnce(MlaFront<'a>, &MlaFrontBuffers) -> MlaFrontBuffers,
>(
    mla_chain: Option<&str>,
    front: MlaFront<'a>,
    out: &mut MlaFrontBuffers,
    device: D,
) -> (done: bool)
    requires
        rewrites_where(
            glm_mla_front_taken(mla_chain, front, *old(out)),
            front,
            device,
            *old(out),
        ),
    ensures
        wrote(
            glm_mla_front_taken(mla_chain, front, *old(out)),
            front,
            device,
            *old(out),
            *final(out),
            done,
        ),
{
    let runs: bool = takes_glm_mla_front(mla_chain, &front, &*out);
    write_where(runs, front, out, device)
}

/// The back of a latent attention: the projections behind the latent values.
#[derive(Debug, Clone, Copy, PartialEq, Eq)]
pub struct MlaBack<'a> {
    pub vb_quant: GGMLType,
    pub o_quant: GGMLType,
    pub vb: &'a [u8],
    pub o: &'a [u8],
    pub sizes: MlaSizes,
    pub latent: &'a [u32],
}

impl<'a> MlaBack<'a> {
    /// The formats, sizes and lengths that the kernels hold.
    pub open spec fn supported(self, out: Seq<u32>) -> bool {
        let sizes = self.sizes;
        &&& self.vb_quant == GGMLType::Q8_0
        &&& self.o_quant == GGMLType::Q5_K
        &&& sizes.kv_rank % 32 == 0
        &&& sizes.heads != 0
        &&& sizes.heads * sizes.value_dim == sizes.q_dim
        &&& sizes.q_dim % 256 == 0
        &&& self.latent@.len() == sizes.heads * sizes.kv_rank
        &&& out.len() == sizes.hidden
    }
}

/// Whether the device takes this step.
pub open spec fn glm_mla_back_taken(
    mla_chain: Option<&str>,
    back: MlaBack<'_>,
    out: Seq<u32>,
) -> bool {
    !switched_off(mla_chain) && back.supported(out)
}

fn takes_glm_mla_back(mla_chain: Option<&str>, back: &MlaBack<'_>, out: &Vec<u32>) -> (runs: bool)
    ensures
        runs == glm_mla_back_taken(mla_chain, *back, out@),
{
    let sizes = back.sizes;
    !env_falsey(mla_chain) && back.vb_quant == GGMLType::Q8_0 && back.o_quant == GGMLType::Q5_K
        && sizes.kv_rank % 32 == 0 && sizes.heads != 0 && is_product(
        sizes.q_dim,
        sizes.heads,
        sizes.value_dim,
    ) && sizes.q_dim % 256 == 0 && is_product(back.latent.len(), sizes.heads, sizes.kv_rank)
        && out.len() == sizes.hidden
}

/// Runs the back of a latent attention, unless `RNB_METAL_GLM_MLA_CHAIN` is falsey.
pub fn metal_glm_mla_back_into_if_supported<
    'a,
    D: FnOnce(MlaBack<'a>, &Vec<u32>) -> Vec<u32>,
>(mla_chain: Option<&str>, back: MlaBack<'a>, out: &mut Vec<u32>, device: D) -> (done: bool)
    requires
        rewrites_where(
            glm_mla_back_taken(mla_chain, back, old(out)@),
            back,
            device,
            *old(out),
        ),
    ensures
        wrote(
            glm_mla_back_taken(mla_chain, back, old(out)@),
            back,
            device,
            *old(out),
            *final(out),
            done,
        ),
{
    let runs: bool = takes_glm_mla_back(mla_chain, &back, &*out);
    write_where(runs, back, out, device)
}

/// A dense projection has a kernel in Q5_K for rows of whole blocks of 256, and in Q8_0 for
/// rows of whole blocks of 32.
pub proof fn law_which_latent_projections_are_taken(
    on: Option<&str>,
    t: GGMLType,
    cols: usize,
    r: GemvRequest<'_>,
    out: Seq<u32>,
)
    ensures
        mla_kernel(t, cols) == Some(MlaGemvKernel::Q5K) <==> t is Q5_K && cols % 256 == 0,
        mla_kernel(t, cols) == Some(MlaGemvKernel::Q8Zero) <==> t is Q8_0 && cols % 32 == 0,
        glm_mla_gemv_reading(on, r, out) is Some <==> {
            &&& !switched_off(on)
            &&& r.rows > 0 && r.input@.len() == r.cols && out.len() == r.rows
            &&& r.ggml_type is Q5_K && r.cols % 256 == 0 || r.ggml_type is Q8_0 && r.cols % 32 == 0
        },
        glm_mla_gemv_reading(on, r, out) matches Some(kernel) ==> (kernel is Q5K
            <==> r.ggml_type is Q5_K) && (kernel is Q8Zero <==> r.ggml_type is Q8_0),
{
}

/// A projection for each head is taken in Q8_0 for rows of whole blocks of 32, with an input
/// and an output for each head, or for each slot of a head and a token.
pub proof fn law_which_head_projections_are_taken(
    on: Option<&str>,
    r: HeadGemvRequest<'_>,
    s: HeadSlotsGemvRequest<'_>,
    out: Seq<u32>,
)
    ensures
        head_gemv_taken(on, r, out) <==> {
            &&& !switched_off(on)
            &&& r.ggml_type is Q8_0 && r.cols % 32 == 0 && r.heads > 0
            &&& r.input@.len() == r.heads * r.cols
            &&& out.len() == r.heads * r.rows_per_head
        },
        head_slots_gemv_taken(on, s, out) <==> {
            &&& !switched_off(on)
            &&& s.head.ggml_type is Q8_0 && s.head.cols % 32 == 0 && s.head.heads > 0
            &&& s.slots > 0
            &&& s.head.input@.len() == s.slots * s.head.cols
            &&& out.len() == s.slots * s.head.rows_per_head
        },
{
}

/// Which latent attentions are taken: the front with its first projection in Q5_K and the
/// others in Q8_0, the back with its last in Q5_K; rows of whole blocks, and everything of
/// the length that the sizes give.
pub proof fn law_which_latent_attentions_are_taken(
    on: Option<&str>,
    front: MlaFront<'_>,
    buffers: MlaFrontBuffers,
    back: MlaBack<'_>,
    out: Seq<u32>,
)
    ensures
        glm_mla_front_taken(on, front, buffers) <==> {
            &&& !switched_off(on)
            &&& front.qa_quant is Q5_K && front.qb_quant is Q8_0
            &&& front.kva_quant is Q8_0 && front.kb_quant is Q8_0
            &&& front.sizes.hidden % 256 == 0 && front.sizes.q_rank % 256 == 0
            &&& front.sizes.q_nope % 32 == 0
            &&& front.sizes.heads > 0
            &&& front.sizes.q_dim == front.sizes.heads * front.sizes.value_dim
            &&& front.qa_norm@.len() == 4 * front.sizes.q_rank
            &&& front.input@.len() == front.sizes.hidden
            &&& buffers.q@.len() == front.sizes.q_dim
            &&& buffers.kv@.len() == front.sizes.kv_dim
            &&& buffers.qabs@.len() == front.sizes.heads * front.sizes.kv_rank
        },
        glm_mla_back_taken(on, back, out) <==> {
            &&& !switched_off(on)
            &&& back.vb_quant is Q8_0 && back.o_quant is Q5_K
            &&& back.sizes.kv_rank % 32 == 0 && back.sizes.q_dim % 256 == 0
            &&& back.sizes.heads > 0
            &&& back.sizes.q_dim == back.sizes.heads * back.sizes.value_dim
            &&& back.latent@.len() == back.sizes.heads * back.sizes.kv_rank
            &&& out.len() == back.sizes.hidden
        },
        forall|other: MlaFrontBuffers|
            #![trigger buffers.as_long_as(&other)]
            buffers.as_long_as(&other) <==> buffers.q@.len() == other.q@.len() && buffers.kv@.len()
                == other.kv@.len() && buffers.qabs@.len() == other.qabs@.len(),
{
}

} // verus!
