//! Device prefill: planning of the Nemotron workspace, and the session that
//! follows a hidden state on a device.

use crate::backend_api::{
    saturating_sum, BackendKind, DeviceTensorDesc, DeviceTensorId, DeviceTransferCounters,
};
use crate::text::{decimal, push_decimal};
use vstd::prelude::*;

verus! {

/// What one device prefill session runs on.
#[derive(Debug, Clone, Copy, PartialEq, Eq, Structural)]
pub struct DevicePrefillSessionConfig {
    pub backend: BackendKind,
    pub seq_len: usize,
    pub hidden_dim: usize,
}

/// What a session has moved and why it fell back.
#[derive(Debug, Clone)]
pub struct DevicePrefillProfile {
    pub transfers: DeviceTransferCounters,
    pub transfer_breakdown: DevicePrefillTransferBreakdown,
    pub fallback_reasons: Vec<String>,
}

/// Transferred bytes by what they carried.
#[derive(Debug, Clone, Copy, PartialEq, Eq, Structural)]
pub struct DevicePrefillTransferBreakdown {
    pub hidden_h2d_bytes: usize,
    pub hidden_d2h_bytes: usize,
    pub router_logits_d2h_bytes: usize,
    pub route_h2d_bytes: usize,
    pub state_d2h_bytes: usize,
}

/// The shape of a prefill and the memory that the device offers for it.
#[derive(Debug, Clone, Copy, PartialEq, Eq, Structural)]
pub struct NemotronPrefillWorkspaceRequest {
    pub seq_len: usize,
    pub hidden_dim: usize,
    pub n_expert: usize,
    pub expert_used: usize,
    pub n_ff: usize,
    pub shared_ff: usize,
    pub free_vram_bytes: usize,
    pub total_vram_bytes: usize,
    pub reserve_bytes: usize,
}

/// How a prefill is to be run in the memory at hand.
#[derive(Debug, Clone, Copy, PartialEq, Eq, Structural)]
pub enum NemotronPrefillWorkspaceDecision {
    Fits,
    Chunk { chunk_len: usize },
    Fallback,
}

/// The workspace of one chunk, part by part.
#[derive(Debug, Clone, Copy, PartialEq, Eq, Structural)]
pub struct NemotronPrefillWorkspacePlan {
    pub seq_len: usize,
    pub chunk_len: usize,
    pub hidden_dim: usize,
    pub n_expert: usize,
    pub expert_used: usize,
    pub n_ff: usize,
    pub shared_ff: usize,
    pub free_vram_bytes: usize,
    pub total_vram_bytes: usize,
    pub reserve_bytes: usize,
    pub usable_vram_bytes: usize,
    pub route_slots: usize,
    pub normalized_bytes: usize,
    pub router_logits_bytes: usize,
    pub route_bytes: usize,
    pub hidden_bytes: usize,
    pub persistent_hidden_bytes: usize,
    pub moe_intermediate_bytes: usize,
    pub mamba_state_sync_bytes: usize,
    pub attention_handoff_bytes: usize,
    pub required_workspace_bytes: usize,
    pub decision: NemotronPrefillWorkspaceDecision,
}

/// The shortest chunk that is worth running on the device.
const NEMOTRON_PREFILL_WORKSPACE_MIN_CHUNK_LEN: usize = 32;

const F32_BYTES: usize = 4;

/// A route slot holds an expert id, a token id and a weight.
const ROUTE_SLOT_BYTES: usize = 12;

impl NemotronPrefillWorkspaceRequest {
    pub open spec fn spec_usable(self) -> int {
        if self.free_vram_bytes >= self.reserve_bytes {
            self.free_vram_bytes - self.reserve_bytes
        } else {
            0
        }
    }

    /// Bytes of one hidden state of `chunk` tokens.
    pub open spec fn spec_hidden(self, chunk: int) -> int {
        chunk * self.hidden_dim * 4
    }

    pub open spec fn spec_router_logits(self, chunk: int) -> int {
        chunk * self.n_expert * 4
    }

    pub open spec fn spec_route(self, chunk: int) -> int {
        chunk * self.expert_used * 12
    }

    pub open spec fn spec_routed_intermediate(self, chunk: int) -> int {
        chunk * self.expert_used * self.n_ff * 4
    }

    pub open spec fn spec_shared_intermediate(self, chunk: int) -> int {
        chunk * self.shared_ff * 4
    }

    pub open spec fn spec_moe_intermediate(self, chunk: int) -> int {
        self.spec_routed_intermediate(chunk) + self.spec_shared_intermediate(chunk)
    }

    /// Bytes that the busiest layer of a chunk needs: the normalized hidden
    /// state, the router's logits, the routes and the expert intermediates.
    pub open spec fn spec_moe_workspace(self, chunk: int) -> int {
        self.spec_hidden(chunk) + self.spec_router_logits(chunk) + self.spec_route(chunk)
            + self.spec_moe_intermediate(chunk)
    }

    /// Bytes that a chunk needs in all: two hidden states that outlive a layer,
    /// and the busiest layer's own.
    pub open spec fn spec_required(self, chunk: int) -> int {
        self.spec_hidden(chunk) * 2 + self.spec_moe_workspace(chunk)
    }

    /// Whether a chunk of that length fits into the usable memory.
    pub open spec fn spec_fits(self, chunk: int) -> bool {
        self.spec_required(chunk) <= self.spec_usable()
    }

    /// The longest chunk of at most `limit` tokens that fits, or 0.
    pub open spec fn spec_longest_chunk(self, limit: nat) -> nat
        decreases limit,
    {
        if limit == 0 || self.spec_fits(limit as int) {
            limit
        } else {
            self.spec_longest_chunk((limit - 1) as nat)
        }
    }
}

pub open spec fn product_overflow(lhs: int, rhs: int, label: Seq<char>) -> Option<Seq<char>> {
    if lhs * rhs > usize::MAX {
        Some(overflow_message(label, lhs as nat, " * "@, rhs as nat))
    } else {
        None
    }
}

pub open spec fn sum_overflow(lhs: int, rhs: int, label: Seq<char>) -> Option<Seq<char>> {
    if lhs + rhs > usize::MAX {
        Some(overflow_message(label, lhs as nat, " + "@, rhs as nat))
    } else {
        None
    }
}

pub open spec fn overflow_message(label: Seq<char>, lhs: nat, op: Seq<char>, rhs: nat) -> Seq<
    char,
> {
    "Nemotron prefill workspace "@ + label + " overflow: "@ + decimal(lhs) + op + decimal(rhs)
}

/// The first of `first` and `rest` that reports something.
pub open spec fn first_of(first: Option<Seq<char>>, rest: Option<Seq<char>>) -> Option<Seq<char>> {
    match first {
        Some(message) => Some(message),
        None => rest,
    }
}

/// The first size of a chunk's workspace that does not fit in a machine word,
/// in the order in which the sizes are worked out.
pub open spec fn workspace_overflow(
    request: NemotronPrefillWorkspaceRequest,
    chunk: int,
) -> Option<Seq<char>> {
    let r = request;
    first_of(
        product_overflow(chunk, r.expert_used as int, "route slots"@),
        first_of(
            product_overflow(chunk, r.hidden_dim as int, "hidden elements"@),
            first_of(
                product_overflow(chunk * r.hidden_dim, 4, "hidden bytes"@),
                first_of(
                    product_overflow(chunk, r.n_expert as int, "router logits elements"@),
                    first_of(
                        product_overflow(chunk * r.n_expert, 4, "router logits bytes"@),
                        first_of(
                            product_overflow(chunk * r.expert_used, 12, "route bytes"@),
                            intermediate_overflow(r, chunk),
                        ),
                    ),
                ),
            ),
        ),
    )
}

pub open spec fn intermediate_overflow(r: NemotronPrefillWorkspaceRequest, chunk: int) -> Option<Seq<char>> {
    first_of(
        product_overflow(chunk * r.expert_used, r.n_ff as int, "routed intermediate elements"@),
        first_of(
            product_overflow(chunk * r.expert_used * r.n_ff, 4, "routed intermediate bytes"@),
            first_of(
                product_overflow(chunk, r.shared_ff as int, "shared intermediate elements"@),
                first_of(
                    product_overflow(chunk * r.shared_ff, 4, "shared intermediate bytes"@),
                    first_of(
                        sum_overflow(
                            r.spec_routed_intermediate(chunk),
                            r.spec_shared_intermediate(chunk),
                            "moe intermediate bytes"@,
                        ),
                        total_overflow(r, chunk),
                    ),
                ),
            ),
        ),
    )
}

pub open spec fn total_overflow(r: NemotronPrefillWorkspaceRequest, chunk: int) -> Option<Seq<char>> {
    first_of(
        product_overflow(r.spec_hidden(chunk), 2, "persistent hidden bytes"@),
        first_of(
            sum_overflow(
                r.spec_hidden(chunk),
                r.spec_router_logits(chunk),
                "router workspace bytes"@,
            ),
            first_of(
                sum_overflow(
                    r.spec_hidden(chunk) + r.spec_router_logits(chunk),
                    r.spec_route(chunk),
                    "route workspace bytes"@,
                ),
                first_of(
                    sum_overflow(
                        r.spec_hidden(chunk) + r.spec_router_logits(chunk) + r.spec_route(chunk),
                        r.spec_moe_intermediate(chunk),
                        "moe workspace bytes"@,
                    ),
                    sum_overflow(
                        r.spec_hidden(chunk) * 2,
                        r.spec_moe_workspace(chunk),
                        "required workspace bytes"@,
                    ),
                ),
            ),
        ),
    )
}

/// The workspace of a chunk whose sizes all fit in a machine word.
pub open spec fn workspace_plan(
    request: NemotronPrefillWorkspaceRequest,
    chunk: int,
    decision: NemotronPrefillWorkspaceDecision,
) -> NemotronPrefillWorkspacePlan {
    NemotronPrefillWorkspacePlan {
        seq_len: request.seq_len,
        chunk_len: chunk as usize,
        hidden_dim: request.hidden_dim,
        n_expert: request.n_expert,
        expert_used: request.expert_used,
        n_ff: request.n_ff,
        shared_ff: request.shared_ff,
        free_vram_bytes: request.free_vram_bytes,
        total_vram_bytes: request.total_vram_bytes,
        reserve_bytes: request.reserve_bytes,
        usable_vram_bytes: request.spec_usable() as usize,
        route_slots: (chunk * request.expert_used) as usize,
        normalized_bytes: request.spec_hidden(chunk) as usize,
        router_logits_bytes: request.spec_router_logits(chunk) as usize,
        route_bytes: request.spec_route(chunk) as usize,
        hidden_bytes: request.spec_hidden(chunk) as usize,
        persistent_hidden_bytes: (request.spec_hidden(chunk) * 2) as usize,
        moe_intermediate_bytes: request.spec_moe_intermediate(chunk) as usize,
        mamba_state_sync_bytes: 0,
        attention_handoff_bytes: request.spec_hidden(chunk) as usize,
        required_workspace_bytes: request.spec_required(chunk) as usize,
        decision,
    }
}

/// What a request must satisfy before it is planned: the first violation.
pub open spec fn workspace_request_error(request: NemotronPrefillWorkspaceRequest) -> Option<
    Seq<char>,
> {
    if request.seq_len == 0 {
        Some(zero_message("seq_len"@))
    } else if request.hidden_dim == 0 {
        Some(zero_message("hidden_dim"@))
    } else if request.n_expert == 0 {
        Some(zero_message("n_expert"@))
    } else if request.expert_used == 0 {
        Some(zero_message("expert_used"@))
    } else if request.n_ff == 0 {
        Some(zero_message("n_ff"@))
    } else if request.shared_ff == 0 {
        Some(zero_message("shared_ff"@))
    } else if request.expert_used > request.n_expert {
        Some(
            "expert_used must be <= n_expert for Nemotron prefill workspace plan: expert_used="@
                + decimal(request.expert_used as nat) + " n_expert="@ + decimal(
                request.n_expert as nat,
            ),
        )
    } else {
        None
    }
}

pub open spec fn zero_message(name: Seq<char>) -> Seq<char> {
    name + " must be > 0 for Nemotron prefill workspace plan"@
}

/// How a chunk of at most `seq_len - 1` tokens is run when the whole sequence
/// does not fit: in chunks where the longest that fits is long enough, else on
/// the fallback path.
pub open spec fn chunked_plan(
    request: NemotronPrefillWorkspaceRequest,
) -> NemotronPrefillWorkspacePlan {
    let best = request.spec_longest_chunk((request.seq_len - 1) as nat) as int;
    let shortest: int = if request.seq_len < 32 {
        request.seq_len as int
    } else {
        32
    };
    if best >= shortest {
        workspace_plan(
            request,
            best,
            NemotronPrefillWorkspaceDecision::Chunk { chunk_len: best as usize },
        )
    } else if best >= 1 {
        workspace_plan(request, best, NemotronPrefillWorkspaceDecision::Fallback)
    } else {
        workspace_plan(request, 1, NemotronPrefillWorkspaceDecision::Fallback)
    }
}

/// The plan of a request, or the text of the error that refuses it.
pub open spec fn nemotron_plan(request: NemotronPrefillWorkspaceRequest) -> Result<
    NemotronPrefillWorkspacePlan,
    Seq<char>,
> {
    match workspace_request_error(request) {
        Some(message) => Err(message),
        None => match workspace_overflow(request, request.seq_len as int) {
            Some(message) => Err(message),
            None => if request.spec_fits(request.seq_len as int) {
                Ok(
                    workspace_plan(
                        request,
                        request.seq_len as int,
                        NemotronPrefillWorkspaceDecision::Fits,
                    ),
                )
            } else {
                Ok(chunked_plan(request))
            },
        },
    }
}

proof fn lemma_products_grow(a: int, b: int, k: int)
    by (nonlinear_arith)
    requires
        0 <= a <= b,
        0 <= k,
    ensures
        0 <= a * k <= b * k,
{
}

/// Every part of the workspace grows with the chunk.
proof fn lemma_parts_grow(r: NemotronPrefillWorkspaceRequest, short: int, long: int)
    requires
        0 <= short <= long,
    ensures
        0 <= short * r.expert_used <= long * r.expert_used,
        0 <= short * r.hidden_dim <= long * r.hidden_dim,
        0 <= short * r.n_expert <= long * r.n_expert,
        0 <= short * r.shared_ff <= long * r.shared_ff,
        0 <= short * r.expert_used * r.n_ff <= long * r.expert_used * r.n_ff,
        0 <= r.spec_hidden(short) <= r.spec_hidden(long),
        0 <= r.spec_router_logits(short) <= r.spec_router_logits(long),
        0 <= r.spec_route(short) <= r.spec_route(long),
        0 <= r.spec_routed_intermediate(short) <= r.spec_routed_intermediate(long),
        0 <= r.spec_shared_intermediate(short) <= r.spec_shared_intermediate(long),
        0 <= r.spec_moe_intermediate(short) <= r.spec_moe_intermediate(long),
        0 <= r.spec_moe_workspace(short) <= r.spec_moe_workspace(long),
        0 <= r.spec_required(short) <= r.spec_required(long),
{
    lemma_products_grow(short, long, r.expert_used as int);
    lemma_products_grow(short, long, r.hidden_dim as int);
    lemma_products_grow(short, long, r.n_expert as int);
    lemma_products_grow(short, long, r.shared_ff as int);
    lemma_products_grow(short * r.expert_used, long * r.expert_used, r.n_ff as int);
}

/// Sizes that fit for a chunk fit for every shorter one.
proof fn lemma_overflow_grows(r: NemotronPrefillWorkspaceRequest, short: int, long: int)
    requires
        0 <= short <= long,
        workspace_overflow(r, long) is None,
    ensures
        workspace_overflow(r, short) is None,
{
    lemma_parts_grow(r, short, long);
}

/// The longest fitting chunk is within the limit, fits, and none between it and
/// the limit does.
proof fn lemma_longest_chunk(r: NemotronPrefillWorkspaceRequest, limit: nat)
    ensures
        r.spec_longest_chunk(limit) <= limit,
        r.spec_longest_chunk(limit) > 0 ==> r.spec_fits(r.spec_longest_chunk(limit) as int),
        forall|c: int| r.spec_longest_chunk(limit) < c <= limit ==> !r.spec_fits(c),
    decreases limit,
{
    if limit != 0 && !r.spec_fits(limit as int) {
        lemma_longest_chunk(r, (limit - 1) as nat);
    }
}

/// A chunk that fits, above which nothing up to the limit does, is the longest.
proof fn lemma_is_longest_chunk(r: NemotronPrefillWorkspaceRequest, limit: nat, best: nat)
    requires
        best <= limit,
        best > 0 ==> r.spec_fits(best as int),
        forall|c: int| best < c <= limit ==> !r.spec_fits(c),
    ensures
        r.spec_longest_chunk(limit) == best,
{
    lemma_longest_chunk(r, limit);
}

/// A longer chunk never needs less memory.
pub proof fn law_longer_chunks_need_more(
    request: NemotronPrefillWorkspaceRequest,
    short: int,
    long: int,
)
    requires
        0 <= short <= long,
    ensures
        request.spec_required(short) <= request.spec_required(long),
{
    lemma_parts_grow(request, short, long);
}

/// A plan that runs on the device fits in the memory left after the reserve,
/// covers between one token and the whole sequence, and no longer chunk fits.
pub proof fn law_device_plans_fit_and_are_longest(request: NemotronPrefillWorkspaceRequest)
    ensures
        nemotron_plan(request) matches Ok(plan) ==> {
            &&& 1 <= plan.chunk_len <= request.seq_len
            &&& !(plan.decision is Fallback) ==> plan.required_workspace_bytes
                <= plan.usable_vram_bytes
            &&& forall|c: int| plan.chunk_len < c <= request.seq_len ==> !request.spec_fits(c)
        },
{
    if let Ok(plan) = nemotron_plan(request) {
        let n = request.seq_len as int;
        let limit = (n - 1) as nat;
        lemma_longest_chunk(request, limit);
        if !request.spec_fits(n) {
            let best = request.spec_longest_chunk(limit) as int;
            assert(forall|c: int| best < c <= n ==> !request.spec_fits(c));
            if best >= 1 {
                lemma_parts_grow(request, best, n);
            }
        } else {
            lemma_parts_grow(request, n, n);
        }
    }
}

/// The plan falls back exactly when neither the whole sequence nor a chunk of
/// 32 tokens (or of the sequence, where that is shorter) fits.
pub proof fn law_fallback_when_shortest_chunk_does_not_fit(
    request: NemotronPrefillWorkspaceRequest,
)
    requires
        nemotron_plan(request) is Ok,
    ensures
        (nemotron_plan(request)->Ok_0.decision is Fallback) <==> {
            let shortest: int = if request.seq_len < 32 {
                request.seq_len as int
            } else {
                32
            };
            !request.spec_fits(shortest)
        },
{
    let n = request.seq_len as int;
    let shortest: int = if request.seq_len < 32 {
        request.seq_len as int
    } else {
        32
    };
    let limit = (n - 1) as nat;
    lemma_longest_chunk(request, limit);
    if request.spec_fits(n) {
        lemma_parts_grow(request, shortest, n);
    } else {
        let best = request.spec_longest_chunk(limit) as int;
        if best >= shortest {
            lemma_parts_grow(request, shortest, best);
        }
    }
}

/// Whether two requests are for the same prompt and model, whatever the memory.
pub open spec fn same_work(
    one: NemotronPrefillWorkspaceRequest,
    other: NemotronPrefillWorkspaceRequest,
) -> bool {
    other == (NemotronPrefillWorkspaceRequest {
        free_vram_bytes: other.free_vram_bytes,
        total_vram_bytes: other.total_vram_bytes,
        reserve_bytes: other.reserve_bytes,
        ..one
    })
}

/// More usable memory, whatever the total is, never refuses a request and never shortens
/// the chunk. What fits still fits, and what runs in chunks does not fall back.
pub proof fn law_more_memory_never_shortens_the_chunk(
    less: NemotronPrefillWorkspaceRequest,
    more: NemotronPrefillWorkspaceRequest,
)
    requires
        same_work(less, more),
        less.spec_usable() <= more.spec_usable(),
    ensures
        match nemotron_plan(less) {
            Ok(plan) => nemotron_plan(more) matches Ok(roomier) && {
                &&& plan.chunk_len <= roomier.chunk_len
                &&& plan.decision is Fits ==> roomier.decision is Fits
                &&& plan.decision is Chunk ==> !(roomier.decision is Fallback)
            },
            Err(message) => nemotron_plan(more) == Err::<NemotronPrefillWorkspacePlan, Seq<char>>(
                message,
            ),
        },
{
    let n = less.seq_len as int;
    let limit = (n - 1) as nat;
    assert(forall|c: int| less.spec_required(c) == more.spec_required(c));
    assert(forall|c: int| less.spec_fits(c) ==> more.spec_fits(c));
    if nemotron_plan(less) is Ok {
        lemma_longest_chunk(less, limit);
        lemma_longest_chunk(more, limit);
    }
}

/// The total memory decides nothing: two requests that differ only there have plans that
/// differ only there.
pub proof fn law_total_memory_decides_nothing(
    request: NemotronPrefillWorkspaceRequest,
    total_vram_bytes: usize,
)
    ensures
        nemotron_plan(NemotronPrefillWorkspaceRequest { total_vram_bytes, ..request }) == (
        match nemotron_plan(request) {
            Ok(plan) => Ok(NemotronPrefillWorkspacePlan { total_vram_bytes, ..plan }),
            Err(message) => Err(message),
        }),
{
    let other = NemotronPrefillWorkspaceRequest { total_vram_bytes, ..request };
    let limit = (request.seq_len - 1) as nat;
    assert(forall|c: int| request.spec_required(c) == other.spec_required(c));
    assert(forall|c: int| request.spec_fits(c) == other.spec_fits(c));
    if nemotron_plan(request) is Ok {
        lemma_longest_chunk(request, limit);
        lemma_longest_chunk(other, limit);
    }
}

proof fn lemma_required_sum(r: NemotronPrefillWorkspaceRequest, chunk: int)
    requires
        0 <= chunk,
    ensures
        r.spec_required(chunk) == chunk * (12 * r.hidden_dim + 4 * r.n_expert + 12 * r.expert_used
            + 4 * (r.expert_used * r.n_ff) + 4 * r.shared_ff),
        r.spec_moe_intermediate(chunk) == chunk * (r.expert_used * r.n_ff + r.shared_ff) * 4,
{
    let h = r.hidden_dim as int;
    let e = r.n_expert as int;
    let u = r.expert_used as int;
    let f = r.n_ff as int;
    let g = r.shared_ff as int;
    assert(chunk * u * f == chunk * (u * f)) by (nonlinear_arith);
    assert(chunk * (12 * h + 4 * e + 12 * u + 4 * (u * f) + 4 * g) == 12 * (chunk * h) + 4 * (chunk
        * e) + 12 * (chunk * u) + 4 * (chunk * (u * f)) + 4 * (chunk * g)) by (nonlinear_arith);
    assert(chunk * (u * f + g) * 4 == 4 * (chunk * (u * f)) + 4 * (chunk * g)) by (nonlinear_arith);
}

/// What a plan says, over the request's own numbers. A token of the chunk costs three
/// hidden vectors, one logit for each expert, twelve bytes for each route, and the
/// intermediates of the experts that it uses and of the shared one, all in single
/// precision. A request has a plan exactly if its numbers are positive, it uses no more
/// experts than there are, and the bytes of the whole sequence can be counted. The plan
/// takes the whole sequence exactly if it fits in what is free beyond the reserve; else it
/// takes as many tokens as fit, if these are at least 32 (or all but one of fewer); else
/// it falls back.
pub proof fn law_plans_count_bytes_by_token(r: NemotronPrefillWorkspaceRequest)
    ensures
        ({
            let token = 12 * r.hidden_dim + 4 * r.n_expert + 12 * r.expert_used + 4 * (r.expert_used
                * r.n_ff) + 4 * r.shared_ff;
            let usable = if r.free_vram_bytes > r.reserve_bytes {
                r.free_vram_bytes - r.reserve_bytes
            } else {
                0
            };
            &&& nemotron_plan(r) is Ok <==> 0 < r.seq_len && 0 < r.hidden_dim && 0 < r.expert_used
                <= r.n_expert && 0 < r.n_ff && 0 < r.shared_ff && r.seq_len * token <= usize::MAX
            &&& nemotron_plan(r) matches Ok(plan) ==> {
                let c = plan.chunk_len as int;
                &&& plan.hidden_bytes == c * r.hidden_dim * 4
                &&& plan.normalized_bytes == plan.hidden_bytes
                &&& plan.attention_handoff_bytes == plan.hidden_bytes
                &&& plan.persistent_hidden_bytes == c * r.hidden_dim * 8
                &&& plan.router_logits_bytes == c * r.n_expert * 4
                &&& plan.route_slots == c * r.expert_used
                &&& plan.route_bytes == c * r.expert_used * 12
                &&& plan.moe_intermediate_bytes == c * (r.expert_used * r.n_ff + r.shared_ff) * 4
                &&& plan.mamba_state_sync_bytes == 0
                &&& plan.required_workspace_bytes == c * token
                &&& plan.usable_vram_bytes == usable
                &&& plan.seq_len == r.seq_len && plan.hidden_dim == r.hidden_dim
                &&& plan.n_expert == r.n_expert && plan.expert_used == r.expert_used
                &&& plan.n_ff == r.n_ff && plan.shared_ff == r.shared_ff
                &&& plan.free_vram_bytes == r.free_vram_bytes
                &&& plan.total_vram_bytes == r.total_vram_bytes
                &&& plan.reserve_bytes == r.reserve_bytes
                &&& plan.decision is Fits <==> r.seq_len * token <= usable
                &&& plan.decision is Fits ==> c == r.seq_len
                &&& !(plan.decision is Fits) ==> {
                    &&& 1 <= c < r.seq_len || c == 1
                    &&& c * token <= usable || c == 1
                    &&& (c + 1) * token > usable
                }
                &&& plan.decision is Chunk <==> !(r.seq_len * token <= usable) && c * token <= usable
                    && c >= 32 && r.seq_len > 32
                &&& plan.decision matches NemotronPrefillWorkspaceDecision::Chunk { chunk_len }
                    ==> chunk_len == c
            }
        }),
{
    let n = r.seq_len as int;
    let h = r.hidden_dim as int;
    let e = r.n_expert as int;
    let u = r.expert_used as int;
    let f = r.n_ff as int;
    let g = r.shared_ff as int;
    let token = 12 * h + 4 * e + 12 * u + 4 * (u * f) + 4 * g;
    lemma_required_sum(r, n);
    lemma_parts_grow(r, n, n);
    if workspace_request_error(r) is None {
        if nemotron_plan(r) is Ok {
            let plan = nemotron_plan(r)->Ok_0;
            let c = plan.chunk_len as int;
            let limit = (n - 1) as nat;
            lemma_longest_chunk(r, limit);
            let best = r.spec_longest_chunk(limit) as int;
            lemma_required_sum(r, c);
            lemma_required_sum(r, c + 1);
            lemma_required_sum(r, 1);
            lemma_parts_grow(r, 1, n);
            lemma_parts_grow(r, 1, 2);
            lemma_required_sum(r, 2);
            if best >= 1 {
                lemma_parts_grow(r, best, n);
            }
            assert(1 <= c <= n);
            lemma_parts_grow(r, c, n);
            assert(c * h * 8 == c * h * 4 * 2);
            if !r.spec_fits(n) && best < n - 1 {
                assert(!r.spec_fits(best + 1));
            }
        }
    }
}

/// One more expert to choose from costs each token of the sequence four bytes for its
/// logit, and nothing else.
pub proof fn law_an_unused_expert_costs_a_logit(
    r: NemotronPrefillWorkspaceRequest,
    more: NemotronPrefillWorkspaceRequest,
)
    requires
        more == (NemotronPrefillWorkspaceRequest { n_expert: more.n_expert, ..r }),
        nemotron_plan(r) matches Ok(plan) && plan.decision is Fits,
        nemotron_plan(more) matches Ok(plan) && plan.decision is Fits,
    ensures
        nemotron_plan(more)->Ok_0.required_workspace_bytes
            - nemotron_plan(r)->Ok_0.required_workspace_bytes == r.seq_len * (more.n_expert
            - r.n_expert) * 4,
{
    law_plans_count_bytes_by_token(r);
    law_plans_count_bytes_by_token(more);
    let n = r.seq_len as int;
    let rest = 12 * r.hidden_dim + 12 * r.expert_used + 4 * (r.expert_used * r.n_ff) + 4
        * r.shared_ff;
    assert(n * (rest + 4 * more.n_expert) - n * (rest + 4 * r.n_expert) == n * (more.n_expert
        - r.n_expert) * 4) by (nonlinear_arith);
}

/// The first number of a request that is zero is the one that its refusal names.
pub proof fn law_the_first_zero_is_named(r: NemotronPrefillWorkspaceRequest)
    ensures
        ({
            let named = |name: Seq<char>|
                nemotron_plan(r) == Err::<NemotronPrefillWorkspacePlan, Seq<char>>(
                    name + " must be > 0 for Nemotron prefill workspace plan"@,
                );
            &&& r.seq_len == 0 ==> named("seq_len"@)
            &&& r.seq_len > 0 && r.hidden_dim == 0 ==> named("hidden_dim"@)
            &&& r.seq_len > 0 && r.hidden_dim > 0 && r.n_expert == 0 ==> named("n_expert"@)
            &&& r.seq_len > 0 && r.hidden_dim > 0 && r.n_expert > 0 && r.expert_used == 0
                ==> named("expert_used"@)
            &&& r.seq_len > 0 && r.hidden_dim > 0 && r.n_expert > 0 && r.expert_used > 0 && r.n_ff
                == 0 ==> named("n_ff"@)
            &&& r.seq_len > 0 && r.hidden_dim > 0 && r.n_expert > 0 && r.expert_used > 0 && r.n_ff
                > 0 && r.shared_ff == 0 ==> named("shared_ff"@)
        }),
{
}

fn overflow_text(label: &str, lhs: usize, op: &str, rhs: usize) -> (message: String)
    ensures
        message@ == overflow_message(label@, lhs as nat, op@, rhs as nat),
{
    let mut message = String::from_str("Nemotron prefill workspace ");
    message.append(label);
    message.append(" overflow: ");
    push_decimal(&mut message, lhs);
    message.append(op);
    push_decimal(&mut message, rhs);
    message
}

fn checked_mul(lhs: usize, rhs: usize, label: &str) -> (product: Result<usize, String>)
    ensures
        match product {
            Ok(value) => value == lhs * rhs && product_overflow(
                lhs as int,
                rhs as int,
                label@,
            ) is None,
            Err(message) => product_overflow(lhs as int, rhs as int, label@) == Some(message@),
        },
{
    match lhs.checked_mul(rhs) {
        Some(value) => Ok(value),
        None => Err(overflow_text(label, lhs, " * ", rhs)),
    }
}

fn checked_add(lhs: usize, rhs: usize, label: &str) -> (sum: Result<usize, String>)
    ensures
        match sum {
            Ok(value) => value == lhs + rhs && sum_overflow(lhs as int, rhs as int, label@) is None,
            Err(message) => sum_overflow(lhs as int, rhs as int, label@) == Some(message@),
        },
{
    match lhs.checked_add(rhs) {
        Some(value) => Ok(value),
        None => Err(overflow_text(label, lhs, " + ", rhs)),
    }
}

fn validate_nemotron_prefill_workspace_request(
    request: NemotronPrefillWorkspaceRequest,
) -> (checked: Result<(), String>)
    ensures
        match checked {
            Ok(()) => workspace_request_error(request) is None,
            Err(message) => workspace_request_error(request) == Some(message@),
        },
{
    let zero: Option<&'static str> = if request.seq_len == 0 {
        Some("seq_len")
    } else if request.hidden_dim == 0 {
        Some("hidden_dim")
    } else if request.n_expert == 0 {
        Some("n_expert")
    } else if request.expert_used == 0 {
        Some("expert_used")
    } else if request.n_ff == 0 {
        Some("n_ff")
    } else if request.shared_ff == 0 {
        Some("shared_ff")
    } else {
        None
    };
    if let Some(name) = zero {
        let mut message = String::from_str(name);
        message.append(" must be > 0 for Nemotron prefill workspace plan");
        return Err(message);
    }
    if request.expert_used > request.n_expert {
        let mut message = String::from_str(
            "expert_used must be <= n_expert for Nemotron prefill workspace plan: expert_used=",
        );
        push_decimal(&mut message, request.expert_used);
        message.append(" n_expert=");
        push_decimal(&mut message, request.n_expert);
        return Err(message);
    }
    Ok(())
}

/// Works out the workspace of a chunk, or the first of its sizes that is too large. The
/// usable memory and the decision are handed through.
fn build_nemotron_prefill_workspace_plan(
    request: NemotronPrefillWorkspaceRequest,
    chunk_len: usize,
    usable_vram_bytes: usize,
    decision: NemotronPrefillWorkspaceDecision,
) -> (plan: Result<NemotronPrefillWorkspacePlan, String>)
    ensures
        match plan {
            Ok(plan) => {
                &&& workspace_overflow(request, chunk_len as int) is None
                &&& plan == (NemotronPrefillWorkspacePlan {
                    usable_vram_bytes,
                    ..workspace_plan(request, chunk_len as int, decision)
                })
                &&& plan.required_workspace_bytes == request.spec_required(chunk_len as int)
            },
            Err(message) => workspace_overflow(request, chunk_len as int) == Some(message@),
        },
{
    proof {
        lemma_parts_grow(request, chunk_len as int, chunk_len as int);
    }
    let route_slots = match checked_mul(chunk_len, request.expert_used, "route slots") {
        Ok(value) => value,
        Err(message) => return Err(message),
    };
    let hidden_elems = match checked_mul(chunk_len, request.hidden_dim, "hidden elements") {
        Ok(value) => value,
        Err(message) => return Err(message),
    };
    let hidden_bytes = match checked_mul(hidden_elems, F32_BYTES, "hidden bytes") {
        Ok(value) => value,
        Err(message) => return Err(message),
    };
    let router_logits_elems = match checked_mul(
        chunk_len,
        request.n_expert,
        "router logits elements",
    ) {
        Ok(value) => value,
        Err(message) => return Err(message),
    };
    let router_logits_bytes = match checked_mul(
        router_logits_elems,
        F32_BYTES,
        "router logits bytes",
    ) {
        Ok(value) => value,
        Err(message) => return Err(message),
    };
    let route_bytes = match checked_mul(route_slots, ROUTE_SLOT_BYTES, "route bytes") {
        Ok(value) => value,
        Err(message) => return Err(message),
    };
    let routed_elems = match checked_mul(
        route_slots,
        request.n_ff,
        "routed intermediate elements",
    ) {
        Ok(value) => value,
        Err(message) => return Err(message),
    };
    let routed_bytes = match checked_mul(routed_elems, F32_BYTES, "routed intermediate bytes") {
        Ok(value) => value,
        Err(message) => return Err(message),
    };
    let shared_elems = match checked_mul(
        chunk_len,
        request.shared_ff,
        "shared intermediate elements",
    ) {
        Ok(value) => value,
        Err(message) => return Err(message),
    };
    let shared_bytes = match checked_mul(shared_elems, F32_BYTES, "shared intermediate bytes") {
        Ok(value) => value,
        Err(message) => return Err(message),
    };
    let moe_intermediate_bytes = match checked_add(
        routed_bytes,
        shared_bytes,
        "moe intermediate bytes",
    ) {
        Ok(value) => value,
        Err(message) => return Err(message),
    };
    let persistent_hidden_bytes = match checked_mul(hidden_bytes, 2, "persistent hidden bytes") {
        Ok(value) => value,
        Err(message) => return Err(message),
    };
    let router_workspace_bytes = match checked_add(
        hidden_bytes,
        router_logits_bytes,
        "router workspace bytes",
    ) {
        Ok(value) => value,
        Err(message) => return Err(message),
    };
    let route_workspace_bytes = match checked_add(
        router_workspace_bytes,
        route_bytes,
        "route workspace bytes",
    ) {
        Ok(value) => value,
        Err(message) => return Err(message),
    };
    let moe_workspace_bytes = match checked_add(
        route_workspace_bytes,
        moe_intermediate_bytes,
        "moe workspace bytes",
    ) {
        Ok(value) => value,
        Err(message) => return Err(message),
    };

    let mamba_state_sync_bytes: usize = 0;
    let attention_handoff_bytes: usize = hidden_bytes;
    let mut max_layer_temp_bytes: usize = moe_workspace_bytes;
    if mamba_state_sync_bytes > max_layer_temp_bytes {
        max_layer_temp_bytes = mamba_state_sync_bytes;
    }
    if attention_handoff_bytes > max_layer_temp_bytes {
        max_layer_temp_bytes = attention_handoff_bytes;
    }
    let required_workspace_bytes = match checked_add(
        persistent_hidden_bytes,
        max_layer_temp_bytes,
        "required workspace bytes",
    ) {
        Ok(value) => value,
        Err(message) => return Err(message),
    };

    Ok(
        NemotronPrefillWorkspacePlan {
            seq_len: request.seq_len,
            chunk_len,
            hidden_dim: request.hidden_dim,
            n_expert: request.n_expert,
            expert_used: request.expert_used,
            n_ff: request.n_ff,
            shared_ff: request.shared_ff,
            free_vram_bytes: request.free_vram_bytes,
            total_vram_bytes: request.total_vram_bytes,
            reserve_bytes: request.reserve_bytes,
            usable_vram_bytes,
            route_slots,
            normalized_bytes: hidden_bytes,
            router_logits_bytes,
            route_bytes,
            hidden_bytes,
            persistent_hidden_bytes,
            moe_intermediate_bytes,
            mamba_state_sync_bytes,
            attention_handoff_bytes,
            required_workspace_bytes,
            decision,
        },
    )
}

/// Plans the device workspace of a Nemotron prefill: the whole sequence where it
/// fits, else the longest chunk that does, else the fallback path.
pub fn plan_nemotron_prefill_workspace(
    request: NemotronPrefillWorkspaceRequest,
) -> (plan: Result<NemotronPrefillWorkspacePlan, String>)
    ensures
        match plan {
            Ok(plan) => nemotron_plan(request) == Ok::<NemotronPrefillWorkspacePlan, Seq<char>>(
                plan,
            ),
            Err(message) => nemotron_plan(request) == Err::<
                NemotronPrefillWorkspacePlan,
                Seq<char>,
            >(message@),
        },
{
    match validate_nemotron_prefill_workspace_request(request) {
        Ok(()) => {},
        Err(message) => return Err(message),
    }
    let usable_vram_bytes: usize = request.free_vram_bytes.saturating_sub(request.reserve_bytes);
    let full = match build_nemotron_prefill_workspace_plan(
        request,
        request.seq_len,
        usable_vram_bytes,
        NemotronPrefillWorkspaceDecision::Fits,
    ) {
        Ok(full) => full,
        Err(message) => return Err(message),
    };
    if full.required_workspace_bytes <= usable_vram_bytes {
        return Ok(full);
    }
    let mut low: usize = 1;
    let mut high: usize = request.seq_len - 1;
    let mut best_chunk_len: usize = 0;
    while low <= high
        invariant
            usable_vram_bytes == request.spec_usable(),
            workspace_overflow(request, request.seq_len as int) is None,
            !request.spec_fits(request.seq_len as int),
            1 <= low <= request.seq_len,
            high < request.seq_len,
            low == best_chunk_len + 1,
            best_chunk_len > 0 ==> request.spec_fits(best_chunk_len as int),
            forall|c: int| high < c < request.seq_len ==> !request.spec_fits(c),
        decreases high + 1 - low,
    {
        let mid: usize = low + (high - low) / 2;
        proof {
            lemma_overflow_grows(request, mid as int, request.seq_len as int);
        }
        let candidate = match build_nemotron_prefill_workspace_plan(
            request,
            mid,
            usable_vram_bytes,
            NemotronPrefillWorkspaceDecision::Fallback,
        ) {
            Ok(candidate) => candidate,
            Err(message) => return Err(message),
        };
        if candidate.required_workspace_bytes <= usable_vram_bytes {
            best_chunk_len = mid;
            low = mid + 1;
        } else {
            assert forall|c: int| mid <= c < request.seq_len implies !request.spec_fits(c) by {
                lemma_parts_grow(request, mid as int, c);
            }
            high = mid - 1;
        }
    }
    proof {
        lemma_is_longest_chunk(request, (request.seq_len - 1) as nat, best_chunk_len as nat);
        lemma_overflow_grows(request, best_chunk_len as int, request.seq_len as int);
        lemma_overflow_grows(request, 1, request.seq_len as int);
    }
    let min_chunk_len: usize = if request.seq_len < NEMOTRON_PREFILL_WORKSPACE_MIN_CHUNK_LEN {
        request.seq_len
    } else {
        NEMOTRON_PREFILL_WORKSPACE_MIN_CHUNK_LEN
    };
    if best_chunk_len >= min_chunk_len {
        return build_nemotron_prefill_workspace_plan(
            request,
            best_chunk_len,
            usable_vram_bytes,
            NemotronPrefillWorkspaceDecision::Chunk { chunk_len: best_chunk_len },
        );
    }
    let fallback_chunk_len: usize = if best_chunk_len < 1 {
        1
    } else {
        best_chunk_len
    };
    build_nemotron_prefill_workspace_plan(
        request,
        fallback_chunk_len,
        usable_vram_bytes,
        NemotronPrefillWorkspaceDecision::Fallback,
    )
}

/// A device prefill session: the hidden state that is current on the device,
/// and what was copied to get there.
#[derive(Debug, Clone)]
pub struct DevicePrefillSession {
    config: DevicePrefillSessionConfig,
    profile: DevicePrefillProfile,
    current_hidden: Option<DeviceTensorId>,
}

impl DevicePrefillTransferBreakdown {
    pub open spec fn spec_none() -> Self {
        DevicePrefillTransferBreakdown {
            hidden_h2d_bytes: 0,
            hidden_d2h_bytes: 0,
            router_logits_d2h_bytes: 0,
            route_h2d_bytes: 0,
            state_d2h_bytes: 0,
        }
    }
}

impl DevicePrefillProfile {
    /// No part of the breakdown exceeds its direction's total.
    pub open spec fn consistent(self) -> bool {
        &&& self.transfer_breakdown.hidden_h2d_bytes <= self.transfers.h2d
        &&& self.transfer_breakdown.route_h2d_bytes <= self.transfers.h2d
        &&& self.transfer_breakdown.hidden_d2h_bytes <= self.transfers.d2h
        &&& self.transfer_breakdown.router_logits_d2h_bytes <= self.transfers.d2h
        &&& self.transfer_breakdown.state_d2h_bytes <= self.transfers.d2h
    }
}

impl DevicePrefillSession {
    pub closed spec fn spec_config(&self) -> DevicePrefillSessionConfig {
        self.config
    }

    pub closed spec fn spec_profile(&self) -> DevicePrefillProfile {
        self.profile
    }

    pub closed spec fn spec_current_hidden(&self) -> Option<DeviceTensorId> {
        self.current_hidden
    }

    /// The shape is not empty, the current hidden state lives on the session's
    /// backend, and the transfer breakdown is consistent.
    pub open spec fn wf(&self) -> bool {
        &&& self.spec_config().seq_len > 0
        &&& self.spec_config().hidden_dim > 0
        &&& self.spec_current_hidden() matches Some(id) ==> id.backend
            == self.spec_config().backend
        &&& self.spec_profile().consistent()
    }

    /// What recording a transfer leaves alone.
    pub open spec fn same_but_transfers(&self, before: &DevicePrefillSession) -> bool {
        &&& self.spec_config() == before.spec_config()
        &&& self.spec_current_hidden() == before.spec_current_hidden()
        &&& self.spec_profile().fallback_reasons == before.spec_profile().fallback_reasons
        &&& before.wf() ==> self.wf()
    }

    pub fn new(config: DevicePrefillSessionConfig) -> (session: Result<Self, String>)
        ensures
            match session {
                Ok(session) => {
                    &&& config.seq_len != 0 && config.hidden_dim != 0
                    &&& session.wf()
                    &&& session.spec_config() == config
                    &&& session.spec_current_hidden() is None
                    &&& session.spec_profile().transfers == (DeviceTransferCounters {
                        h2d: 0,
                        d2h: 0,
                    })
                    &&& session.spec_profile().transfer_breakdown
                        == DevicePrefillTransferBreakdown::spec_none()
                    &&& session.spec_profile().fallback_reasons@.len() == 0
                },
                Err(message) => {
                    &&& config.seq_len == 0 || config.hidden_dim == 0
                    &&& message@ == "invalid device prefill shape: seq_len="@ + decimal(
                        config.seq_len as nat,
                    ) + " hidden_dim="@ + decimal(config.hidden_dim as nat)
                },
            },
    {
        if config.seq_len == 0 || config.hidden_dim == 0 {
            let mut message = String::from_str("invalid device prefill shape: seq_len=");
            push_decimal(&mut message, config.seq_len);
            message.append(" hidden_dim=");
            push_decimal(&mut message, config.hidden_dim);
            return Err(message);
        }
        Ok(
            DevicePrefillSession {
                config,
                profile: DevicePrefillProfile {
                    transfers: DeviceTransferCounters::new(),
                    transfer_breakdown: DevicePrefillTransferBreakdown {
                        hidden_h2d_bytes: 0,
                        hidden_d2h_bytes: 0,
                        router_logits_d2h_bytes: 0,
                        route_h2d_bytes: 0,
                        state_d2h_bytes: 0,
                    },
                    fallback_reasons: Vec::new(),
                },
                current_hidden: None,
            },
        )
    }

    pub fn config(&self) -> (config: &DevicePrefillSessionConfig)
        ensures
            *config == self.spec_config(),
    {
        &self.config
    }

    pub fn profile(&self) -> (profile: &DevicePrefillProfile)
        ensures
            *profile == self.spec_profile(),
    {
        &self.profile
    }

    pub fn current_hidden(&self) -> (current: Option<DeviceTensorId>)
        ensures
            current == self.spec_current_hidden(),
    {
        self.current_hidden
    }

    /// Makes `id` the current hidden state, if it lives on the session's backend
    /// and has the session's shape; the backend is looked at first.
    pub fn set_current_hidden(&mut self, id: DeviceTensorId, desc: DeviceTensorDesc) -> (done:
        Result<(), String>)
        ensures
            old(self).wf() ==> final(self).wf(),
            final(self).spec_config() == old(self).spec_config(),
            final(self).spec_profile() == old(self).spec_profile(),
            match done {
                Ok(()) => {
                    &&& id.backend == old(self).spec_config().backend
                    &&& desc.rows == old(self).spec_config().seq_len
                    &&& desc.cols == old(self).spec_config().hidden_dim
                    &&& final(self).spec_current_hidden() == Some(id)
                },
                Err(message) => {
                    &&& final(self).spec_current_hidden() == old(self).spec_current_hidden()
                    &&& if id.backend != old(self).spec_config().backend {
                        message@ == "device tensor backend mismatch: session="@ + old(
                            self,
                        ).spec_config().backend.spec_label() + " tensor="@
                            + id.backend.spec_label()
                    } else {
                        &&& desc.rows != old(self).spec_config().seq_len || desc.cols != old(
                            self,
                        ).spec_config().hidden_dim
                        &&& message@ == "device hidden shape mismatch: got "@ + decimal(
                            desc.rows as nat,
                        ) + "x"@ + decimal(desc.cols as nat) + ", expected "@ + decimal(
                            old(self).spec_config().seq_len as nat,
                        ) + "x"@ + decimal(old(self).spec_config().hidden_dim as nat)
                    }
                },
            },
    {
        if id.backend() != self.config.backend {
            let mut message = String::from_str("device tensor backend mismatch: session=");
            message.append(self.config.backend.label());
            message.append(" tensor=");
            message.append(id.backend().label());
            return Err(message);
        }
        if desc.rows() != self.config.seq_len || desc.cols() != self.config.hidden_dim {
            let mut message = String::from_str("device hidden shape mismatch: got ");
            push_decimal(&mut message, desc.rows());
            message.append("x");
            push_decimal(&mut message, desc.cols());
            message.append(", expected ");
            push_decimal(&mut message, self.config.seq_len);
            message.append("x");
            push_decimal(&mut message, self.config.hidden_dim);
            return Err(message);
        }
        self.current_hidden = Some(id);
        Ok(())
    }

    pub fn record_h2d(&mut self, bytes: usize)
        ensures
            final(self).same_but_transfers(old(self)),
            final(self).spec_profile().transfer_breakdown == old(
                self,
            ).spec_profile().transfer_breakdown,
            final(self).spec_profile().transfers == (DeviceTransferCounters {
                h2d: saturating_sum(old(self).spec_profile().transfers.h2d, bytes),
                ..old(self).spec_profile().transfers
            }),
    {
        self.profile.transfers.record_h2d(bytes);
    }

    pub fn record_d2h(&mut self, bytes: usize)
        ensures
            final(self).same_but_transfers(old(self)),
            final(self).spec_profile().transfer_breakdown == old(
                self,
            ).spec_profile().transfer_breakdown,
            final(self).spec_profile().transfers == (DeviceTransferCounters {
                d2h: saturating_sum(old(self).spec_profile().transfers.d2h, bytes),
                ..old(self).spec_profile().transfers
            }),
    {
        self.profile.transfers.record_d2h(bytes);
    }

    pub fn record_hidden_h2d(&mut self, bytes: usize)
        ensures
            final(self).same_but_transfers(old(self)),
            final(self).spec_profile().transfers == (DeviceTransferCounters {
                h2d: saturating_sum(old(self).spec_profile().transfers.h2d, bytes),
                ..old(self).spec_profile().transfers
            }),
            final(self).spec_profile().transfer_breakdown == (DevicePrefillTransferBreakdown {
                hidden_h2d_bytes: saturating_sum(
                    old(self).spec_profile().transfer_breakdown.hidden_h2d_bytes,
                    bytes,
                ),
                ..old(self).spec_profile().transfer_breakdown
            }),
    {
        self.profile.transfers.record_h2d(bytes);
        self.profile.transfer_breakdown.hidden_h2d_bytes =
        self.profile.transfer_breakdown.hidden_h2d_bytes.saturating_add(bytes);
    }

    pub fn record_hidden_d2h(&mut self, bytes: usize)
        ensures
            final(self).same_but_transfers(old(self)),
            final(self).spec_profile().transfers == (DeviceTransferCounters {
                d2h: saturating_sum(old(self).spec_profile().transfers.d2h, bytes),
                ..old(self).spec_profile().transfers
            }),
            final(self).spec_profile().transfer_breakdown == (DevicePrefillTransferBreakdown {
                hidden_d2h_bytes: saturating_sum(
                    old(self).spec_profile().transfer_breakdown.hidden_d2h_bytes,
                    bytes,
                ),
                ..old(self).spec_profile().transfer_breakdown
            }),
    {
        self.profile.transfers.record_d2h(bytes);
        self.profile.transfer_breakdown.hidden_d2h_bytes =
        self.profile.transfer_breakdown.hidden_d2h_bytes.saturating_add(bytes);
    }

    pub fn record_router_logits_d2h(&mut self, bytes: usize)
        ensures
            final(self).same_but_transfers(old(self)),
            final(self).spec_profile().transfers == (DeviceTransferCounters {
                d2h: saturating_sum(old(self).spec_profile().transfers.d2h, bytes),
                ..old(self).spec_profile().transfers
            }),
            final(self).spec_profile().transfer_breakdown == (DevicePrefillTransferBreakdown {
                router_logits_d2h_bytes: saturating_sum(
                    old(self).spec_profile().transfer_breakdown.router_logits_d2h_bytes,
                    bytes,
                ),
                ..old(self).spec_profile().transfer_breakdown
            }),
    {
        self.profile.transfers.record_d2h(bytes);
        self.profile.transfer_breakdown.router_logits_d2h_bytes =
        self.profile.transfer_breakdown.router_logits_d2h_bytes.saturating_add(bytes);
    }

    pub fn record_route_h2d(&mut self, bytes: usize)
        ensures
            final(self).same_but_transfers(old(self)),
            final(self).spec_profile().transfers == (DeviceTransferCounters {
                h2d: saturating_sum(old(self).spec_profile().transfers.h2d, bytes),
                ..old(self).spec_profile().transfers
            }),
            final(self).spec_profile().transfer_breakdown == (DevicePrefillTransferBreakdown {
                route_h2d_bytes: saturating_sum(
                    old(self).spec_profile().transfer_breakdown.route_h2d_bytes,
                    bytes,
                ),
                ..old(self).spec_profile().transfer_breakdown
            }),
    {
        self.profile.transfers.record_h2d(bytes);
        self.profile.transfer_breakdown.route_h2d_bytes =
        self.profile.transfer_breakdown.route_h2d_bytes.saturating_add(bytes);
    }

    pub fn record_state_d2h(&mut self, bytes: usize)
        ensures
            final(self).same_but_transfers(old(self)),
            final(self).spec_profile().transfers == (DeviceTransferCounters {
                d2h: saturating_sum(old(self).spec_profile().transfers.d2h, bytes),
                ..old(self).spec_profile().transfers
            }),
            final(self).spec_profile().transfer_breakdown == (DevicePrefillTransferBreakdown {
                state_d2h_bytes: saturating_sum(
                    old(self).spec_profile().transfer_breakdown.state_d2h_bytes,
                    bytes,
                ),
                ..old(self).spec_profile().transfer_breakdown
            }),
    {
        self.profile.transfers.record_d2h(bytes);
        self.profile.transfer_breakdown.state_d2h_bytes =
        self.profile.transfer_breakdown.state_d2h_bytes.saturating_add(bytes);
    }

    pub fn record_fallback(&mut self, reason: String)
        ensures
            final(self).spec_config() == old(self).spec_config(),
            final(self).spec_current_hidden() == old(self).spec_current_hidden(),
            final(self).spec_profile().transfers == old(self).spec_profile().transfers,
            final(self).spec_profile().transfer_breakdown == old(
                self,
            ).spec_profile().transfer_breakdown,
            final(self).spec_profile().fallback_reasons@ == old(
                self,
            ).spec_profile().fallback_reasons@.push(reason),
            old(self).wf() ==> final(self).wf(),
    {
        self.profile.fallback_reasons.push(reason);
    }
}

/// Whether `told` is that an operation on two sizes does not fit in a word: which size it
/// makes, and both operands around the operation.
pub open spec fn is_overflow(
    told: Option<Seq<char>>,
    label: Seq<char>,
    lhs: int,
    op: Seq<char>,
    rhs: int,
) -> bool {
    told == Some(
        "Nemotron prefill workspace "@ + label + " overflow: "@ + decimal(lhs as nat) + op
            + decimal(rhs as nat),
    )
}

/// The first size of a chunk that does not fit in a word is told, with what it is the product
/// or the sum of: elements before their bytes, each part before what it adds up to, and
/// the whole workspace last.
pub proof fn law_the_first_size_that_does_not_fit_is_told(
    r: NemotronPrefillWorkspaceRequest,
    chunk: int,
)
    ensures
        ({
            let told = workspace_overflow(r, chunk);
            let hidden = chunk * r.hidden_dim * 4;
            let logits = chunk * r.n_expert * 4;
            let route = chunk * r.expert_used * 12;
            let routed = chunk * r.expert_used * r.n_ff * 4;
            let shared = chunk * r.shared_ff * 4;
            let fits1 = chunk * r.expert_used <= usize::MAX;
            let fits2 = fits1 && chunk * r.hidden_dim <= usize::MAX;
            let fits3 = fits2 && chunk * r.hidden_dim * 4 <= usize::MAX;
            let fits4 = fits3 && chunk * r.n_expert <= usize::MAX;
            let fits5 = fits4 && chunk * r.n_expert * 4 <= usize::MAX;
            let fits6 = fits5 && chunk * r.expert_used * 12 <= usize::MAX;
            let fits7 = fits6 && chunk * r.expert_used * r.n_ff <= usize::MAX;
            let fits8 = fits7 && chunk * r.expert_used * r.n_ff * 4 <= usize::MAX;
            let fits9 = fits8 && chunk * r.shared_ff <= usize::MAX;
            let fits10 = fits9 && chunk * r.shared_ff * 4 <= usize::MAX;
            let fits11 = fits10 && routed + shared <= usize::MAX;
            let fits12 = fits11 && hidden * 2 <= usize::MAX;
            let fits13 = fits12 && hidden + logits <= usize::MAX;
            let fits14 = fits13 && hidden + logits + route <= usize::MAX;
            let fits15 = fits14 && hidden + logits + route + (routed + shared) <= usize::MAX;
            let fits16 = fits15 && hidden * 2
                + (hidden + logits + route + (routed + shared)) <= usize::MAX;
            &&& !fits1 ==> is_overflow(told, "route slots"@, chunk, " * "@, r.expert_used as int)
            &&& fits1 && !fits2 ==> is_overflow(
                told,
                "hidden elements"@,
                chunk,
                " * "@,
                r.hidden_dim as int,
            )
            &&& fits2 && !fits3 ==> is_overflow(
                told,
                "hidden bytes"@,
                chunk * r.hidden_dim,
                " * "@,
                4,
            )
            &&& fits3 && !fits4 ==> is_overflow(
                told,
                "router logits elements"@,
                chunk,
                " * "@,
                r.n_expert as int,
            )
            &&& fits4 && !fits5 ==> is_overflow(
                told,
                "router logits bytes"@,
                chunk * r.n_expert,
                " * "@,
                4,
            )
            &&& fits5 && !fits6 ==> is_overflow(
                told,
                "route bytes"@,
                chunk * r.expert_used,
                " * "@,
                12,
            )
            &&& fits6 && !fits7 ==> is_overflow(
                told,
                "routed intermediate elements"@,
                chunk * r.expert_used,
                " * "@,
                r.n_ff as int,
            )
            &&& fits7 && !fits8 ==> is_overflow(
                told,
                "routed intermediate bytes"@,
                chunk * r.expert_used * r.n_ff,
                " * "@,
                4,
            )
            &&& fits8 && !fits9 ==> is_overflow(
                told,
                "shared intermediate elements"@,
                chunk,
                " * "@,
                r.shared_ff as int,
            )
            &&& fits9 && !fits10 ==> is_overflow(
                told,
                "shared intermediate bytes"@,
                chunk * r.shared_ff,
                " * "@,
                4,
            )
            &&& fits10 && !fits11 ==> is_overflow(
                told,
                "moe intermediate bytes"@,
                routed,
                " + "@,
                shared,
            )
            &&& fits11 && !fits12 ==> is_overflow(
                told,
                "persistent hidden bytes"@,
                hidden,
                " * "@,
                2,
            )
            &&& fits12 && !fits13 ==> is_overflow(
                told,
                "router workspace bytes"@,
                hidden,
                " + "@,
                logits,
            )
            &&& fits13 && !fits14 ==> is_overflow(
                told,
                "route workspace bytes"@,
                hidden + logits,
                " + "@,
                route,
            )
            &&& fits14 && !fits15 ==> is_overflow(
                told,
                "moe workspace bytes"@,
                hidden + logits + route,
                " + "@,
                routed + shared,
            )
            &&& fits15 && !fits16 ==> is_overflow(
                told,
                "required workspace bytes"@,
                hidden * 2,
                " + "@,
                hidden + logits + route + (routed + shared),
            )
            &&& fits16 ==> told is None
        }),
{
}

/// A recorded transfer leaves the session's shape, its hidden state and the reasons of its
/// fallbacks as they are.
pub proof fn law_transfers_leave_the_rest_alone(
    after: DevicePrefillSession,
    before: DevicePrefillSession,
)
    requires
        after.same_but_transfers(&before),
        before.wf(),
    ensures
        after.wf(),
        after.spec_config() == before.spec_config(),
        after.spec_current_hidden() == before.spec_current_hidden(),
        after.spec_profile().fallback_reasons == before.spec_profile().fallback_reasons,
        after.spec_current_hidden() is Some ==> after.spec_current_hidden()->0.backend
            == before.spec_config().backend,
        after.spec_profile().transfer_breakdown.hidden_h2d_bytes
            <= after.spec_profile().transfers.h2d,
        after.spec_profile().transfer_breakdown.route_h2d_bytes
            <= after.spec_profile().transfers.h2d,
        after.spec_profile().transfer_breakdown.hidden_d2h_bytes
            <= after.spec_profile().transfers.d2h,
        after.spec_profile().transfer_breakdown.router_logits_d2h_bytes
            <= after.spec_profile().transfers.d2h,
        after.spec_profile().transfer_breakdown.state_d2h_bytes
            <= after.spec_profile().transfers.d2h,
{
}

} // verus!
