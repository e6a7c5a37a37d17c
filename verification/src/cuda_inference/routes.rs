//! Routing of a prompt's tokens to experts.

use crate::float_bits::{is_not_a_number, not_a_number, value_order, value_rank};
use vstd::prelude::*;

verus! {

/// One expert's share of one token. The weight is a float as its bits.
#[derive(Debug, Clone, Copy, PartialEq, Eq, Structural)]
pub struct MoeRouteSlot {
    pub expert: usize,
    pub token: u32,
    pub weight: u32,
}

impl MoeRouteSlot {
    pub fn new(expert: usize, token: u32, weight: u32) -> (slot: Self)
        ensures
            slot == (MoeRouteSlot { expert, token, weight }),
    {
        MoeRouteSlot { expert, token, weight }
    }
}

/// Whether a token takes expert `a` before expert `b`: the higher logit comes first,
/// and of two equal ones the lower expert. A NaN counts as equal to every logit.
pub open spec fn takes_before(logits: Seq<u32>, a: int, b: int) -> bool {
    if not_a_number(logits[a]) || not_a_number(logits[b]) || value_rank(logits[a]) == value_rank(
        logits[b],
    ) {
        a < b
    } else {
        value_rank(logits[a]) > value_rank(logits[b])
    }
}

/// Whether a token's experts stand in one order. NaNs between the other logits can
/// prevent that: of three experts each may come before the next and the last before the
/// first.
pub open spec fn ranks_its_experts(logits: Seq<u32>) -> bool {
    forall|a: int, b: int, c: int|
        0 <= a < logits.len() && 0 <= b < logits.len() && 0 <= c < logits.len()
            && #[trigger] takes_before(logits, a, b) && #[trigger] takes_before(logits, b, c)
            ==> takes_before(logits, a, c)
}

/// Logits without a NaN put the experts in one order.
pub proof fn law_numbers_rank_their_experts(logits: Seq<u32>)
    requires
        forall|e: int| 0 <= e < logits.len() ==> !not_a_number(#[trigger] logits[e]),
    ensures
        ranks_its_experts(logits),
{
    assert forall|a: int, b: int, c: int|
        0 <= a < logits.len() && 0 <= b < logits.len() && 0 <= c < logits.len()
            && #[trigger] takes_before(logits, a, b) && #[trigger] takes_before(
            logits,
            b,
            c,
        ) implies takes_before(logits, a, c) by {
        assert(!not_a_number(logits[a]) && !not_a_number(logits[b]) && !not_a_number(logits[c]));
    }
}

/// Whether `experts` stand in a token's order, before all that are not among them.
pub open spec fn lead_in_order(logits: Seq<u32>, experts: Seq<usize>) -> bool {
    &&& forall|i: int, j: int|
        0 <= i < j < experts.len() ==> takes_before(
            logits,
            #[trigger] experts[i] as int,
            #[trigger] experts[j] as int,
        )
    &&& forall|i: int, e: int|
        0 <= i < experts.len() && 0 <= e < logits.len() && !experts.contains(e as usize)
            ==> #[trigger] takes_before(logits, experts[i] as int, e)
}

/// Whether `experts` are `count` experts of a token, none of them twice: the first ones
/// in its order, where its experts stand in one.
pub open spec fn leading_experts(logits: Seq<u32>, experts: Seq<usize>, count: nat) -> bool {
    &&& experts.len() == count
    &&& forall|i: int| 0 <= i < experts.len() ==> (#[trigger] experts[i]) < logits.len()
    &&& experts.no_duplicates()
    &&& ranks_its_experts(logits) ==> lead_in_order(logits, experts)
}

/// The logits of one token out of those of a prompt.
pub open spec fn logits_of(router_logits: Seq<u32>, token: int, n_expert: int) -> Seq<u32> {
    router_logits.subrange(token * n_expert, (token + 1) * n_expert)
}

/// The logits of chosen experts.
pub open spec fn chosen_logits(logits: Seq<u32>, experts: Seq<usize>) -> Seq<u32> {
    Seq::new(experts.len(), |i: int| logits[experts[i] as int])
}

pub open spec fn smaller(a: usize, b: usize) -> nat {
    if a < b {
        a as nat
    } else {
        b as nat
    }
}

/// Whether `slots` are those of token `token`: its leading experts in order, each
/// with the weight that `weigh` gives its logit among the chosen ones.
pub open spec fn token_routes<W: Fn(&[u32], usize) -> u32>(
    router_logits: Seq<u32>,
    token: int,
    n_expert: int,
    count: nat,
    weigh: W,
    slots: Seq<MoeRouteSlot>,
) -> bool {
    let logits = logits_of(router_logits, token, n_expert);
    let experts = slots.map_values(|slot: MoeRouteSlot| slot.expert);
    &&& leading_experts(logits, experts, count)
    &&& forall|i: int|
        0 <= i < slots.len() ==> (#[trigger] slots[i]).token == token as u32 && weighed(
            weigh,
            chosen_logits(logits, experts),
            i as usize,
            slots[i].weight,
        )
}

/// Whether `weigh` can give `weight` to logit number `i` of `chosen`.
pub open spec fn weighed<W: Fn(&[u32], usize) -> u32>(
    weigh: W,
    chosen: Seq<u32>,
    i: usize,
    weight: u32,
) -> bool {
    exists|given: &[u32]| given@ == chosen && #[trigger] call_ensures(weigh, (given, i), weight)
}

proof fn lemma_unused_expert(experts: Seq<usize>, n_expert: nat) -> (e: int)
    requires
        experts.len() < n_expert,
        n_expert <= usize::MAX,
        forall|i: int, j: int|
            0 <= i < j < experts.len() ==> #[trigger] experts[i] != #[trigger] experts[j],
    ensures
        0 <= e < n_expert,
        !experts.contains(e as usize),
{
    if forall|e: int| 0 <= e < n_expert ==> #[trigger] experts.contains(e as usize) {
        let all = vstd::set_lib::set_int_range(0, n_expert as int);
        vstd::set_lib::lemma_int_range(0, n_expert as int);
        let ints = experts.map_values(|e: usize| e as int);
        assert forall|e: int| all.contains(e) implies #[trigger] ints.to_set().contains(e) by {
            assert(experts.contains(e as usize));
            let i = choose|i: int| 0 <= i < experts.len() && experts[i] == e as usize;
            assert(ints[i] == e);
        }
        ints.lemma_cardinality_of_set();
        vstd::set_lib::lemma_len_subset(all, ints.to_set());
        0
    } else {
        choose|e: int| 0 <= e < n_expert && !(#[trigger] experts.contains(e as usize))
    }
}

/// Whether a token takes expert `a` before expert `b`.
fn comes_before(logits: &[u32], a: usize, b: usize) -> (yes: bool)
    requires
        a < logits@.len(),
        b < logits@.len(),
    ensures
        yes == takes_before(logits@, a as int, b as int),
{
    let first: i64 = value_order(logits[a]);
    let second: i64 = value_order(logits[b]);
    if is_not_a_number(logits[a]) || is_not_a_number(logits[b]) || first == second {
        a < b
    } else {
        first > second
    }
}

/// Finds the expert that a token takes after `chosen`, which `taken` marks.
fn find_next_expert(logits: &[u32], taken: &Vec<bool>, Ghost(chosen): Ghost<Seq<usize>>) -> (next:
    usize)
    requires
        taken@.len() == logits@.len(),
        chosen.len() < logits@.len(),
        chosen.no_duplicates(),
        forall|e: int| 0 <= e < logits@.len() ==> #[trigger] taken@[e] == chosen.contains(e as usize),
    ensures
        next < logits@.len(),
        !chosen.contains(next),
        ranks_its_experts(logits@) ==> forall|o: int|
            0 <= o < logits@.len() && o != next && !chosen.contains(o as usize)
                ==> #[trigger] takes_before(logits@, next as int, o),
{
    let n_expert: usize = logits.len();
    let ghost unused = lemma_unused_expert(chosen, n_expert as nat);
    let mut best: Option<usize> = None;
    let mut e: usize = 0;
    while e < n_expert
        invariant
            e <= n_expert,
            n_expert == logits@.len(),
            taken@.len() == n_expert,
            forall|e: int|
                0 <= e < n_expert ==> #[trigger] taken@[e] == chosen.contains(e as usize),
            best matches Some(b) ==> {
                &&& b < e
                &&& !chosen.contains(b)
                &&& ranks_its_experts(logits@) ==> forall|o: int|
                    0 <= o < e && o != b && !chosen.contains(o as usize)
                        ==> #[trigger] takes_before(logits@, b as int, o)
            },
            best is None ==> forall|o: int| 0 <= o < e ==> #[trigger] chosen.contains(o as usize),
        decreases n_expert - e,
    {
        assert(taken@[e as int] == chosen.contains(e));
        if !taken[e] {
            match best {
                None => {
                    best = Some(e);
                },
                Some(b) => {
                    if comes_before(logits, e, b) {
                        assert(ranks_its_experts(logits@) ==> forall|o: int|
                            0 <= o < e + 1 && o != e && !chosen.contains(o as usize)
                                ==> #[trigger] takes_before(logits@, e as int, o)) by {
                            if ranks_its_experts(logits@) {
                                assert forall|o: int|
                                    0 <= o < e + 1 && o != e && !chosen.contains(
                                        o as usize,
                                    ) implies #[trigger] takes_before(logits@, e as int, o) by {
                                    if o != b {
                                        assert(takes_before(logits@, b as int, o));
                                    }
                                }
                            }
                        }
                        best = Some(e);
                    }
                },
            }
        }
        e += 1;
    }
    match best {
        Some(b) => b,
        None => {
            assert(chosen.contains(unused as usize));
            0
        },
    }
}

/// Finds a token's first `count` experts, in its order.
fn find_leading_experts(logits: &[u32], count: usize) -> (experts: Vec<usize>)
    requires
        count <= logits@.len(),
    ensures
        leading_experts(logits@, experts@, count as nat),
{
    let n_expert: usize = logits.len();
    let mut experts: Vec<usize> = Vec::new();
    let mut taken: Vec<bool> = Vec::new();
    while taken.len() < n_expert
        invariant
            taken@.len() <= n_expert,
            forall|e: int| 0 <= e < taken@.len() ==> !#[trigger] taken@[e],
        decreases n_expert - taken@.len(),
    {
        taken.push(false);
    }
    while experts.len() < count
        invariant
            count <= n_expert,
            n_expert == logits@.len(),
            taken@.len() == n_expert,
            forall|e: int|
                0 <= e < n_expert ==> #[trigger] taken@[e] == experts@.contains(e as usize),
            experts@.len() <= count,
            leading_experts(logits@, experts@, experts@.len()),
        decreases count - experts@.len(),
    {
        let ghost chosen = experts@;
        let next: usize = find_next_expert(logits, &taken, Ghost(chosen));
        experts.push(next);
        taken.set(next, true);
        proof {
            let now = experts@;
            assert(now[chosen.len() as int] == next);
            assert forall|e: usize| #[trigger] now.contains(e) == (chosen.contains(e) || e == next) by {
                if chosen.contains(e) {
                    let k = choose|k: int| 0 <= k < chosen.len() && chosen[k] == e;
                    assert(now[k] == e);
                }
            }
            assert forall|i: int| 0 <= i < now.len() implies (#[trigger] now[i]) < logits@.len() by {
                if i < chosen.len() {
                    assert(now[i] == chosen[i]);
                }
            }
            assert forall|e: int| 0 <= e < n_expert implies #[trigger] taken@[e] == now.contains(
                e as usize,
            ) by {}
            if ranks_its_experts(logits@) {
                assert forall|i: int, j: int| 0 <= i < j < now.len() implies takes_before(
                    logits@,
                    #[trigger] now[i] as int,
                    #[trigger] now[j] as int,
                ) by {
                    assert(now[i] == chosen[i]);
                    if j < chosen.len() {
                        assert(now[j] == chosen[j]);
                    } else {
                        assert(takes_before(logits@, chosen[i] as int, next as int));
                    }
                }
                assert forall|i: int, e: int|
                    0 <= i < now.len() && 0 <= e < logits@.len() && !now.contains(
                        e as usize,
                    ) implies #[trigger] takes_before(logits@, now[i] as int, e) by {
                    if i < chosen.len() {
                        assert(now[i] == chosen[i]);
                        assert(takes_before(logits@, chosen[i] as int, e));
                    } else {
                        assert(takes_before(logits@, next as int, e));
                    }
                }
            }
        }
    }
    experts
}

/// Whether `slots` are the routes of a prompt, token by token.
pub open spec fn prompt_routes<W: Fn(&[u32], usize) -> u32>(
    router_logits: Seq<u32>,
    seq_len: nat,
    n_expert: int,
    count: nat,
    weigh: W,
    slots: Seq<MoeRouteSlot>,
) -> bool {
    &&& slots.len() == seq_len * count
    &&& forall|t: int|
        0 <= t < seq_len ==> token_routes(
            router_logits,
            t,
            n_expert,
            count,
            weigh,
            #[trigger] slots.subrange(t * count, (t + 1) * count),
        )
}

proof fn lemma_token_bounds(t: int, seq_len: int, width: int)
    requires
        0 <= t < seq_len,
        0 <= width,
    ensures
        0 <= t * width,
        t * width + width == (t + 1) * width,
        (t + 1) * width <= seq_len * width,
{
    assert(0 <= t * width && t * width + width == (t + 1) * width && (t + 1) * width <= seq_len
        * width) by (nonlinear_arith)
        requires
            0 <= t < seq_len,
            0 <= width,
    ;
}

fn copy_of_range(values: &[u32], from: usize, to: usize) -> (copy: Vec<u32>)
    requires
        from <= to <= values@.len(),
    ensures
        copy@ == values@.subrange(from as int, to as int),
{
    let mut copy: Vec<u32> = Vec::new();
    let mut i: usize = from;
    while i < to
        invariant
            from <= i <= to <= values@.len(),
            copy@ == values@.subrange(from as int, i as int),
        decreases to - i,
    {
        copy.push(values[i]);
        i += 1;
        assert(copy@ =~= values@.subrange(from as int, i as int));
    }
    copy
}

/// The routes of one token.
fn find_token_routes<W: Fn(&[u32], usize) -> u32>(
    router_logits: &[u32],
    token: usize,
    n_expert: usize,
    count: usize,
    weigh: &W,
) -> (slots: Vec<MoeRouteSlot>)
    requires
        count <= n_expert,
        (token + 1) * n_expert <= router_logits@.len(),
        forall|given: &[u32], i: usize| i < given@.len() ==> call_requires(*weigh, (given, i)),
    ensures
        token_routes(
            router_logits@,
            token as int,
            n_expert as int,
            count as nat,
            *weigh,
            slots@,
        ),
{
    let total: usize = router_logits.len();
    proof {
        lemma_token_bounds(token as int, token + 1, n_expert as int);
        assert((token + 1) * n_expert <= total);
    }
    let start: usize = token * n_expert;
    let logits: Vec<u32> = copy_of_range(router_logits, start, start + n_expert);
    let experts: Vec<usize> = find_leading_experts(logits.as_slice(), count);
    let mut chosen: Vec<u32> = Vec::new();
    let mut i: usize = 0;
    while i < count
        invariant
            i <= count,
            count == experts@.len(),
            leading_experts(logits@, experts@, count as nat),
            chosen@ == chosen_logits(logits@, experts@).take(i as int),
        decreases count - i,
    {
        let expert: usize = experts[i];
        chosen.push(logits[expert]);
        i += 1;
        assert(chosen@ =~= chosen_logits(logits@, experts@).take(i as int));
    }
    assert(chosen@ =~= chosen_logits(logits@, experts@));
    let mut slots: Vec<MoeRouteSlot> = Vec::new();
    let mut k: usize = 0;
    while k < count
        invariant
            k <= count,
            count == experts@.len(),
            count == chosen@.len(),
            chosen@ == chosen_logits(logits@, experts@),
            forall|given: &[u32], i: usize| i < given@.len() ==> call_requires(*weigh, (given, i)),
            slots@.len() == k,
            forall|i: int|
                0 <= i < k ==> (#[trigger] slots@[i]).expert == experts@[i] && slots@[i].token
                    == token as u32 && weighed(*weigh, chosen@, i as usize, slots@[i].weight),
        decreases count - k,
    {
        let given: &[u32] = chosen.as_slice();
        let weight: u32 = (*weigh)(given, k);
        proof {
            assert(call_ensures(*weigh, (given, k), weight));
            assert(weighed(*weigh, chosen@, k, weight));
        }
        slots.push(MoeRouteSlot::new(experts[k], token as u32, weight));
        k += 1;
    }
    assert(slots@.map_values(|slot: MoeRouteSlot| slot.expert) =~= experts@);
    slots
}

/// Routes a prompt: for each token in turn its leading experts, as many as are used
/// and exist, each with the weight that `weigh` gives its logit among the chosen ones.
pub fn qwen_moe_prefill_sparse_slots<W: Fn(&[u32], usize) -> u32>(
    router_logits: &[u32],
    seq_len: usize,
    n_expert: usize,
    n_expert_used: usize,
    weigh: &W,
) -> (slots: Vec<MoeRouteSlot>)
    requires
        seq_len * n_expert_used <= usize::MAX,
        n_expert_used == 0 || seq_len * n_expert <= router_logits@.len(),
        forall|given: &[u32], i: usize| i < given@.len() ==> call_requires(*weigh, (given, i)),
    ensures
        prompt_routes(
            router_logits@,
            seq_len as nat,
            n_expert as int,
            smaller(n_expert_used, n_expert),
            *weigh,
            slots@,
        ),
{
    let count: usize = if n_expert_used < n_expert {
        n_expert_used
    } else {
        n_expert
    };
    let mut slots: Vec<MoeRouteSlot> = Vec::new();
    if count == 0 {
        proof {
            assert(seq_len * 0 == 0) by (nonlinear_arith);
            assert forall|t: int| 0 <= t < seq_len implies token_routes(
                router_logits@,
                t,
                n_expert as int,
                0,
                *weigh,
                #[trigger] slots@.subrange(t * 0, (t + 1) * 0),
            ) by {
                assert(t * 0 == 0 && (t + 1) * 0 == 0) by (nonlinear_arith);
                assert(slots@.subrange(t * 0, (t + 1) * 0) =~= Seq::<MoeRouteSlot>::empty());
            }
        }
        return slots;
    }
    let mut t: usize = 0;
    while t < seq_len
        invariant
            t <= seq_len,
            0 < count <= n_expert,
            seq_len * n_expert <= router_logits@.len(),
            forall|given: &[u32], i: usize| i < given@.len() ==> call_requires(*weigh, (given, i)),
            prompt_routes(
                router_logits@,
                t as nat,
                n_expert as int,
                count as nat,
                *weigh,
                slots@,
            ),
        decreases seq_len - t,
    {
        proof {
            lemma_token_bounds(t as int, seq_len as int, n_expert as int);
        }
        let routes: Vec<MoeRouteSlot> = find_token_routes(
            router_logits,
            t,
            n_expert,
            count,
            weigh,
        );
        let ghost before = slots@;
        let mut i: usize = 0;
        while i < routes.len()
            invariant
                i <= routes@.len(),
                slots@ == before + routes@.take(i as int),
            decreases routes@.len() - i,
        {
            slots.push(routes[i]);
            i += 1;
            assert(slots@ =~= before + routes@.take(i as int));
        }
        proof {
            assert(routes@.len() == count);
            assert(routes@.take(routes@.len() as int) =~= routes@);
            lemma_token_bounds(t as int, t + 1, count as int);
            assert forall|u: int| 0 <= u < t + 1 implies token_routes(
                router_logits@,
                u,
                n_expert as int,
                count as nat,
                *weigh,
                #[trigger] slots@.subrange(u * count, (u + 1) * count),
            ) by {
                lemma_token_bounds(u, t + 1, count as int);
                if u < t {
                    lemma_token_bounds(u, t as int, count as int);
                    assert(slots@.subrange(u * count, (u + 1) * count) =~= before.subrange(
                        u * count,
                        (u + 1) * count,
                    ));
                } else {
                    assert(slots@.subrange(u * count, (u + 1) * count) =~= routes@);
                }
            }
        }
        t += 1;
    }
    slots
}

/// Logits that put the experts in one order determine a token's experts and theirs.
pub proof fn law_routing_is_unique(
    logits: Seq<u32>,
    first: Seq<usize>,
    second: Seq<usize>,
    count: nat,
)
    requires
        ranks_its_experts(logits),
        leading_experts(logits, first, count),
        leading_experts(logits, second, count),
    ensures
        first == second,
{
    assert forall|i: int| 0 <= i < count implies first[i] == second[i] by {
        lemma_same_place(logits, first, second, count, i);
    }
    assert(first =~= second);
}

proof fn lemma_same_place(
    logits: Seq<u32>,
    first: Seq<usize>,
    second: Seq<usize>,
    count: nat,
    i: int,
)
    requires
        ranks_its_experts(logits),
        leading_experts(logits, first, count),
        leading_experts(logits, second, count),
        0 <= i < count,
    ensures
        first[i] == second[i],
    decreases i,
{
    assert forall|k: int| 0 <= k < i implies first[k] == second[k] by {
        lemma_same_place(logits, first, second, count, k);
    }
    if first[i] != second[i] {
        let a = first[i] as int;
        let b = second[i] as int;
        assert(takes_before(logits, a, b)) by {
            if first.contains(b as usize) {
                let k = choose|k: int| 0 <= k < first.len() && first[k] == b as usize;
                if k < i {
                    assert(second[k] == first[k]);
                    assert(takes_before(logits, second[k] as int, second[i] as int));
                }
                assert(k > i);
                assert(takes_before(logits, first[i] as int, first[k] as int));
            } else {
                assert(takes_before(logits, first[i] as int, b));
            }
        }
        assert(takes_before(logits, b, a)) by {
            if second.contains(a as usize) {
                let k = choose|k: int| 0 <= k < second.len() && second[k] == a as usize;
                if k < i {
                    assert(second[k] == first[k]);
                    assert(takes_before(logits, first[k] as int, first[i] as int));
                }
                assert(k > i);
                assert(takes_before(logits, second[i] as int, second[k] as int));
            } else {
                assert(takes_before(logits, second[i] as int, a));
            }
        }
    }
}

/// A token takes no expert twice, and, where its logits put the experts in one order, none
/// that it leaves has a higher logit than one that it takes.
pub proof fn law_leading_experts_are_distinct_and_highest(
    logits: Seq<u32>,
    experts: Seq<usize>,
    count: nat,
)
    requires
        leading_experts(logits, experts, count),
    ensures
        experts.no_duplicates(),
        ranks_its_experts(logits) ==> forall|i: int, e: int|
            0 <= i < count && 0 <= e < logits.len() && !experts.contains(e as usize)
                && !not_a_number(logits[experts[i] as int]) && !not_a_number(logits[e])
                ==> value_rank(#[trigger] logits[experts[i] as int]) >= value_rank(
                #[trigger] logits[e],
            ),
{
    if ranks_its_experts(logits) {
        assert forall|i: int, e: int|
            0 <= i < count && 0 <= e < logits.len() && !experts.contains(e as usize)
                && !not_a_number(logits[experts[i] as int]) && !not_a_number(
                logits[e],
            ) implies value_rank(#[trigger] logits[experts[i] as int]) >= value_rank(
            #[trigger] logits[e],
        ) by {
            assert(takes_before(logits, experts[i] as int, e));
        }
    }
}

/// Weighing goes by the logits alone: the same ones weigh the same each time.
pub open spec fn weighs_by_value<W: Fn(&[u32], usize) -> u32>(weigh: W) -> bool {
    forall|chosen: Seq<u32>, i: usize, first: u32, second: u32|
        #[trigger] weighed(weigh, chosen, i, first) && #[trigger] weighed(weigh, chosen, i, second)
            ==> first == second
}

/// Whether the experts of each token of a prompt stand in one order.
pub open spec fn every_token_ranks(router_logits: Seq<u32>, seq_len: nat, n_expert: int) -> bool {
    forall|t: int|
        0 <= t < seq_len ==> ranks_its_experts(#[trigger] logits_of(router_logits, t, n_expert))
}

/// A prompt's logits without a NaN put the experts of each token in one order.
pub proof fn law_numbers_rank_every_token(router_logits: Seq<u32>, seq_len: nat, n_expert: nat)
    requires
        seq_len * n_expert <= router_logits.len(),
        forall|k: int| 0 <= k < seq_len * n_expert ==> !not_a_number(#[trigger] router_logits[k]),
    ensures
        every_token_ranks(router_logits, seq_len, n_expert as int),
{
    assert forall|t: int| 0 <= t < seq_len implies ranks_its_experts(
        #[trigger] logits_of(router_logits, t, n_expert as int),
    ) by {
        lemma_token_bounds(t, seq_len as int, n_expert as int);
        let logits = logits_of(router_logits, t, n_expert as int);
        assert forall|e: int| 0 <= e < logits.len() implies !not_a_number(#[trigger] logits[e]) by {
            assert(logits[e] == router_logits[t * n_expert + e]);
        }
        law_numbers_rank_their_experts(logits);
    }
}

/// A prompt's logits determine its routes, where they put the experts of each token in one
/// order and weighing goes by the logits alone.
pub proof fn law_prompt_routing_is_unique<W: Fn(&[u32], usize) -> u32>(
    router_logits: Seq<u32>,
    seq_len: nat,
    n_expert: int,
    count: nat,
    weigh: W,
    first: Seq<MoeRouteSlot>,
    second: Seq<MoeRouteSlot>,
)
    requires
        weighs_by_value(weigh),
        every_token_ranks(router_logits, seq_len, n_expert),
        prompt_routes(router_logits, seq_len, n_expert, count, weigh, first),
        prompt_routes(router_logits, seq_len, n_expert, count, weigh, second),
    ensures
        first == second,
{
    assert forall|place: int| 0 <= place < first.len() implies first[place] == second[place] by {
        let c = count as int;
        assert(c > 0) by {
            if c == 0 {
                assert(seq_len * 0 == 0) by (nonlinear_arith);
            }
        }
        let t = place / c;
        assert(0 <= t < seq_len && 0 <= t * c <= place < (t + 1) * c && (t + 1) * c <= seq_len * c
            && (t + 1) * c - t * c == c) by (nonlinear_arith)
            requires
                c > 0,
                t == place / c,
                0 <= place < seq_len * c,
        ;
        let i = place - t * c;
        let one = first.subrange(t * c, (t + 1) * c);
        let other = second.subrange(t * c, (t + 1) * c);
        let logits = logits_of(router_logits, t, n_expert);
        let one_experts = one.map_values(|slot: MoeRouteSlot| slot.expert);
        let other_experts = other.map_values(|slot: MoeRouteSlot| slot.expert);
        law_routing_is_unique(logits, one_experts, other_experts, count);
        assert(one[i] == first[place] && other[i] == second[place]);
        assert(one_experts[i] == one[i].expert && other_experts[i] == other[i].expert);
        let chosen = chosen_logits(logits, one_experts);
        assert(weighed(weigh, chosen, i as usize, one[i].weight));
        assert(weighed(weigh, chosen, i as usize, other[i].weight));
    }
    assert(first =~= second);
}

proof fn lemma_route_place(t: int, i: int, seq_len: int, count: int)
    requires
        0 <= t < seq_len,
        0 <= i < count,
    ensures
        0 <= t * count + i < seq_len * count,
        (t + 1) * count - t * count == count,
        (t + 1) * count <= seq_len * count,
{
    lemma_token_bounds(t, seq_len, count);
}

/// What routing gives, over a prompt's own logits. Each token in turn has as many routes,
/// to experts that differ. Where its logits are numbers, no expert that it leaves has a
/// higher one than an expert that it takes, nor as high a one at a lower place; and the
/// experts stand by falling logits.
pub proof fn law_each_token_takes_its_highest_logits<W: Fn(&[u32], usize) -> u32>(
    router_logits: Seq<u32>,
    seq_len: nat,
    n_expert: nat,
    count: nat,
    weigh: W,
    slots: Seq<MoeRouteSlot>,
)
    requires
        prompt_routes(router_logits, seq_len, n_expert as int, count, weigh, slots),
        seq_len * n_expert <= router_logits.len(),
        n_expert <= usize::MAX,
    ensures
        slots.len() == seq_len * count,
        forall|t: int, i: int|
            0 <= t < seq_len && 0 <= i < count ==> {
                let slot = #[trigger] slots[t * count + i];
                &&& slot.token == t as u32
                &&& slot.expert < n_expert
            },
        forall|t: int, i: int, j: int|
            0 <= t < seq_len && 0 <= i < j < count ==> (#[trigger] slots[t * count + i]).expert != (
            #[trigger] slots[t * count + j]).expert,
        (forall|k: int| 0 <= k < seq_len * n_expert ==> !not_a_number(#[trigger] router_logits[k]))
            ==> {
            &&& forall|t: int, i: int, e: int|
                0 <= t < seq_len && 0 <= i < count && 0 <= e < n_expert && (forall|j: int|
                    0 <= j < count ==> (#[trigger] slots[t * count + j]).expert != e) ==> {
                    let taken = value_rank(
                        router_logits[t * n_expert + (#[trigger] slots[t * count + i]).expert],
                    );
                    let left = value_rank(#[trigger] router_logits[t * n_expert + e]);
                    taken > left || (taken == left && slots[t * count + i].expert < e)
                }
            &&& forall|t: int, i: int, j: int|
                0 <= t < seq_len && 0 <= i < j < count ==> {
                    let first = value_rank(
                        router_logits[t * n_expert + (#[trigger] slots[t * count + i]).expert],
                    );
                    let second = value_rank(
                        router_logits[t * n_expert + (#[trigger] slots[t * count + j]).expert],
                    );
                    first > second || (first == second && slots[t * count + i].expert < slots[t
                        * count + j].expert)
                }
        },
{
    assert forall|t: int, i: int| 0 <= t < seq_len && 0 <= i < count implies {
        let slot = #[trigger] slots[t * count + i];
        &&& slot.token == t as u32
        &&& slot.expert < n_expert
    } by {
        lemma_route_of(router_logits, seq_len, n_expert, count, weigh, slots, t, i);
    }
    assert forall|t: int, i: int, j: int| 0 <= t < seq_len && 0 <= i < j < count implies (
    #[trigger] slots[t * count + i]).expert != (#[trigger] slots[t * count + j]).expert by {
        lemma_route_of(router_logits, seq_len, n_expert, count, weigh, slots, t, i);
        lemma_route_of(router_logits, seq_len, n_expert, count, weigh, slots, t, j);
    }
    if forall|k: int| 0 <= k < seq_len * n_expert ==> !not_a_number(#[trigger] router_logits[k]) {
        law_numbers_rank_every_token(router_logits, seq_len, n_expert);
        assert forall|t: int, i: int, e: int|
            0 <= t < seq_len && 0 <= i < count && 0 <= e < n_expert && (forall|j: int|
                0 <= j < count ==> (#[trigger] slots[t * count + j]).expert != e) implies {
            let taken = value_rank(
                router_logits[t * n_expert + (#[trigger] slots[t * count + i]).expert],
            );
            let left = value_rank(#[trigger] router_logits[t * n_expert + e]);
            taken > left || (taken == left && slots[t * count + i].expert < e)
        } by {
            lemma_route_of(router_logits, seq_len, n_expert, count, weigh, slots, t, i);
            let experts = experts_of_token(slots, t, count);
            let logits = logits_of(router_logits, t, n_expert as int);
            lemma_token_bounds(t, seq_len as int, n_expert as int);
            assert(logits[e] == router_logits[t * n_expert + e]);
            if experts.contains(e as usize) {
                let j = choose|j: int| 0 <= j < experts.len() && experts[j] == e as usize;
                lemma_route_of(router_logits, seq_len, n_expert, count, weigh, slots, t, j);
                assert(slots[t * count + j].expert == e);
            }
            assert(takes_before(logits, experts[i] as int, e));
            lemma_token_bounds(t, seq_len as int, n_expert as int);
            assert(!not_a_number(router_logits[t * n_expert + e]));
            assert(!not_a_number(router_logits[t * n_expert + experts[i]]));
        }
        assert forall|t: int, i: int, j: int| 0 <= t < seq_len && 0 <= i < j < count implies {
            let first = value_rank(
                router_logits[t * n_expert + (#[trigger] slots[t * count + i]).expert],
            );
            let second = value_rank(
                router_logits[t * n_expert + (#[trigger] slots[t * count + j]).expert],
            );
            first > second || (first == second && slots[t * count + i].expert < slots[t * count
                + j].expert)
        } by {
            lemma_route_of(router_logits, seq_len, n_expert, count, weigh, slots, t, i);
            lemma_route_of(router_logits, seq_len, n_expert, count, weigh, slots, t, j);
            let experts = experts_of_token(slots, t, count);
            let logits = logits_of(router_logits, t, n_expert as int);
            assert(takes_before(logits, experts[i] as int, experts[j] as int));
            lemma_token_bounds(t, seq_len as int, n_expert as int);
            assert(!not_a_number(router_logits[t * n_expert + experts[i]]));
            assert(!not_a_number(router_logits[t * n_expert + experts[j]]));
        }
    }
}

spec fn experts_of_token(slots: Seq<MoeRouteSlot>, t: int, count: nat) -> Seq<usize> {
    slots.subrange(t * count, (t + 1) * count).map_values(|slot: MoeRouteSlot| slot.expert)
}

proof fn lemma_route_of<W: Fn(&[u32], usize) -> u32>(
    router_logits: Seq<u32>,
    seq_len: nat,
    n_expert: nat,
    count: nat,
    weigh: W,
    slots: Seq<MoeRouteSlot>,
    t: int,
    i: int,
)
    requires
        prompt_routes(router_logits, seq_len, n_expert as int, count, weigh, slots),
        seq_len * n_expert <= router_logits.len(),
        0 <= t < seq_len,
        0 <= i < count,
    ensures
        ({
            let experts = experts_of_token(slots, t, count);
            let logits = logits_of(router_logits, t, n_expert as int);
            let slot = slots[t * count + i];
            &&& logits.len() == n_expert
            &&& leading_experts(logits, experts, count)
            &&& experts[i] == slot.expert
            &&& experts.no_duplicates()
            &&& slot.token == t as u32
            &&& slot.expert < n_expert
            &&& logits[slot.expert as int] == router_logits[t * n_expert + slot.expert]
        }),
        exists|given: &[u32]| #[trigger]
            call_ensures(weigh, (given, i as usize), slots[t * count + i].weight) && given@.len()
                == count && (forall|j: int|
                0 <= j < count ==> #[trigger] given@[j] == router_logits[t * n_expert + slots[t
                    * count + j].expert]),
{
    lemma_route_place(t, i, seq_len as int, count as int);
    lemma_token_bounds(t, seq_len as int, n_expert as int);
    lemma_token_bounds(t, seq_len as int, count as int);
    let part = slots.subrange(t * count, (t + 1) * count);
    let experts = experts_of_token(slots, t, count);
    let logits = logits_of(router_logits, t, n_expert as int);
    assert(part[i] == slots[t * count + i]);
    assert(experts[i] == part[i].expert);
    let wanted = Seq::new(
        count,
        |j: int| router_logits[t * n_expert + slots[t * count + j].expert],
    );
    assert(chosen_logits(logits, experts) =~= wanted) by {
        assert forall|j: int| 0 <= j < count implies chosen_logits(logits, experts)[j]
            == wanted[j] by {
            assert(part[j] == slots[t * count + j]);
            assert(experts[j] == part[j].expert);
            assert(experts[j] < logits.len());
        }
    }
    assert(weighed(weigh, wanted, i as usize, part[i].weight));
    let given = choose|given: &[u32]|
        given@ == wanted && #[trigger] call_ensures(weigh, (given, i as usize), part[i].weight);
    assert forall|j: int| 0 <= j < count implies #[trigger] given@[j] == router_logits[t * n_expert
        + slots[t * count + j].expert] by {
        assert(given@[j] == wanted[j]);
    }
}

/// The weight of a route is what `weigh` gives for its place among the logits of the
/// experts that the token takes, in their order.
pub proof fn law_a_route_is_weighed_among_its_tokens_logits<W: Fn(&[u32], usize) -> u32>(
    router_logits: Seq<u32>,
    seq_len: nat,
    n_expert: nat,
    count: nat,
    weigh: W,
    slots: Seq<MoeRouteSlot>,
    t: int,
    i: int,
)
    requires
        prompt_routes(router_logits, seq_len, n_expert as int, count, weigh, slots),
        seq_len * n_expert <= router_logits.len(),
        0 <= t < seq_len,
        0 <= i < count,
    ensures
        exists|given: &[u32]| #[trigger]
            call_ensures(weigh, (given, i as usize), slots[t * count + i].weight) && given@.len()
                == count && (forall|j: int|
                0 <= j < count ==> #[trigger] given@[j] == router_logits[t * n_expert + slots[t
                    * count + j].expert]),
{
    lemma_route_of(router_logits, seq_len, n_expert, count, weigh, slots, t, i);
}

/// A token is routed by its own logits: two prompts, of whatever length, whose logits
/// agree on a token route it alike, where weighing goes by the logits alone.
pub proof fn law_a_token_is_routed_by_its_own_logits<W: Fn(&[u32], usize) -> u32>(
    first_logits: Seq<u32>,
    first_len: nat,
    first: Seq<MoeRouteSlot>,
    second_logits: Seq<u32>,
    second_len: nat,
    second: Seq<MoeRouteSlot>,
    n_expert: nat,
    count: nat,
    weigh: W,
    t: int,
)
    requires
        weighs_by_value(weigh),
        prompt_routes(first_logits, first_len, n_expert as int, count, weigh, first),
        prompt_routes(second_logits, second_len, n_expert as int, count, weigh, second),
        first_len * n_expert <= first_logits.len(),
        second_len * n_expert <= second_logits.len(),
        0 <= t < first_len,
        t < second_len,
        forall|e: int|
            0 <= e < n_expert ==> (#[trigger] first_logits[t * n_expert + e]) == second_logits[t
                * n_expert + e] && !not_a_number(first_logits[t * n_expert + e]),
    ensures
        forall|i: int| 0 <= i < count ==> #[trigger] first[t * count + i] == second[t * count + i],
{
    lemma_token_bounds(t, first_len as int, n_expert as int);
    lemma_token_bounds(t, second_len as int, n_expert as int);
    let one = logits_of(first_logits, t, n_expert as int);
    let other = logits_of(second_logits, t, n_expert as int);
    assert(one =~= other) by {
        assert forall|e: int| 0 <= e < n_expert implies one[e] == other[e] by {
            assert(one[e] == first_logits[t * n_expert + e]);
        }
    }
    assert forall|e: int| 0 <= e < one.len() implies !not_a_number(#[trigger] one[e]) by {
        assert(one[e] == first_logits[t * n_expert + e]);
    }
    law_numbers_rank_their_experts(one);
    assert forall|i: int| 0 <= i < count implies #[trigger] first[t * count + i] == second[t * count
        + i] by {
        lemma_route_of(first_logits, first_len, n_expert, count, weigh, first, t, i);
        lemma_route_of(second_logits, second_len, n_expert, count, weigh, second, t, i);
        lemma_token_bounds(t, first_len as int, count as int);
        lemma_token_bounds(t, second_len as int, count as int);
        let one_experts = experts_of_token(first, t, count);
        let other_experts = experts_of_token(second, t, count);
        law_routing_is_unique(one, one_experts, other_experts, count);
        let one_part = first.subrange(t * count, (t + 1) * count);
        let other_part = second.subrange(t * count, (t + 1) * count);
        assert(one_part[i] == first[t * count + i] && other_part[i] == second[t * count + i]);
        let chosen = chosen_logits(one, one_experts);
        assert(weighed(weigh, chosen, i as usize, one_part[i].weight));
        assert(weighed(weigh, chosen, i as usize, other_part[i].weight));
    }
}

/// As many experts are taken as are used and exist.
pub proof fn law_as_many_experts_as_are_used_and_exist(n_expert_used: usize, n_expert: usize)
    ensures
        smaller(n_expert_used, n_expert) <= n_expert_used,
        smaller(n_expert_used, n_expert) <= n_expert,
        smaller(n_expert_used, n_expert) == n_expert_used || smaller(n_expert_used, n_expert)
            == n_expert,
{
}

/// Of two experts a token takes one before the other: the one with the higher logit, and
/// the lower expert where the logits are of one value or one of them is no number.
pub proof fn law_which_of_two_experts_comes_first(logits: Seq<u32>, a: int, b: int)
    requires
        0 <= a < logits.len(),
        0 <= b < logits.len(),
    ensures
        a != b ==> takes_before(logits, a, b) != takes_before(logits, b, a),
        !takes_before(logits, a, a),
        !not_a_number(logits[a]) && !not_a_number(logits[b]) && value_rank(logits[a])
            > value_rank(logits[b]) ==> takes_before(logits, a, b),
        a < b && (not_a_number(logits[a]) || not_a_number(logits[b]) || value_rank(logits[a])
            == value_rank(logits[b])) ==> takes_before(logits, a, b),
{
}

} // verus!
