//! Routes grouped by expert, and what can be told of the groups.

use crate::arith::{saturating_mul, saturating_product};
use crate::cuda_inference::routes::{
    every_token_ranks, law_leading_experts_are_distinct_and_highest, law_prompt_routing_is_unique,
    logits_of, prompt_routes, qwen_moe_prefill_sparse_slots, smaller, weighs_by_value,
    MoeRouteSlot,
};
use crate::text::{
    decimal, lemma_begins_with_itself, lemma_says_at_the_end, lemma_says_at_the_start, push_decimal,
    says,
};
use vstd::prelude::*;

verus! {

/// The slots of one expert, in their order.
pub open spec fn slots_of(slots: Seq<MoeRouteSlot>, expert: int) -> Seq<MoeRouteSlot>
    decreases slots.len(),
{
    if slots.len() == 0 {
        Seq::empty()
    } else if slots.last().expert == expert {
        slots_of(slots.drop_last(), expert).push(slots.last())
    } else {
        slots_of(slots.drop_last(), expert)
    }
}

/// The slots of the first `n_expert` experts, expert by expert.
pub open spec fn grouped(slots: Seq<MoeRouteSlot>, n_expert: nat) -> Seq<MoeRouteSlot>
    decreases n_expert,
{
    if n_expert == 0 {
        Seq::empty()
    } else {
        grouped(slots, (n_expert - 1) as nat) + slots_of(slots, n_expert - 1)
    }
}

/// Every slot names one of the experts.
pub open spec fn experts_below(slots: Seq<MoeRouteSlot>, n_expert: int) -> bool {
    forall|i: int| 0 <= i < slots.len() ==> (#[trigger] slots[i]).expert < n_expert
}

proof fn lemma_slots_of_step(slots: Seq<MoeRouteSlot>, i: int, expert: int)
    requires
        0 <= i < slots.len(),
    ensures
        slots_of(slots.take(i + 1), expert) == (if slots[i].expert == expert {
            slots_of(slots.take(i), expert).push(slots[i])
        } else {
            slots_of(slots.take(i), expert)
        }),
{
    assert(slots.take(i + 1).drop_last() =~= slots.take(i));
    assert(slots.take(i + 1).last() == slots[i]);
}

proof fn lemma_slots_of_prefix(slots: Seq<MoeRouteSlot>, i: int, expert: int)
    requires
        0 <= i <= slots.len(),
    ensures
        slots_of(slots.take(i), expert).len() <= slots_of(slots, expert).len() <= slots.len(),
        slots_of(slots.take(i), expert) == slots_of(slots, expert).take(
            slots_of(slots.take(i), expert).len() as int,
        ),
    decreases slots.len() - i,
{
    if i == slots.len() {
        assert(slots.take(i) =~= slots);
        lemma_slots_of_len(slots, expert);
        assert(slots_of(slots, expert).take(slots_of(slots, expert).len() as int) =~= slots_of(
            slots,
            expert,
        ));
    } else {
        lemma_slots_of_prefix(slots, i + 1, expert);
        lemma_slots_of_step(slots, i, expert);
        let part = slots_of(slots.take(i), expert);
        let next = slots_of(slots.take(i + 1), expert);
        assert(part =~= next.take(part.len() as int));
        assert(part =~= slots_of(slots, expert).take(part.len() as int));
    }
}

proof fn lemma_slots_of_len(slots: Seq<MoeRouteSlot>, expert: int)
    ensures
        slots_of(slots, expert).len() <= slots.len(),
    decreases slots.len(),
{
    if slots.len() > 0 {
        lemma_slots_of_len(slots.drop_last(), expert);
    }
}

proof fn lemma_group_starts(slots: Seq<MoeRouteSlot>, a: nat, b: nat)
    requires
        a <= b,
    ensures
        grouped(slots, a).len() <= grouped(slots, b).len(),
        a < b ==> grouped(slots, a).len() + slots_of(slots, a as int).len() <= grouped(
            slots,
            b,
        ).len(),
    decreases b - a,
{
    if a < b {
        lemma_group_starts(slots, a, (b - 1) as nat);
    }
}

proof fn lemma_grouped_len_step(slots: Seq<MoeRouteSlot>, n_expert: nat)
    requires
        slots.len() > 0,
    ensures
        grouped(slots, n_expert).len() == grouped(slots.drop_last(), n_expert).len() + (
        if slots.last().expert < n_expert {
            1int
        } else {
            0int
        }),
    decreases n_expert,
{
    if n_expert > 0 {
        lemma_grouped_len_step(slots, (n_expert - 1) as nat);
    }
}

/// Grouping loses no slot and adds none.
proof fn lemma_grouped_len(slots: Seq<MoeRouteSlot>, n_expert: nat)
    requires
        experts_below(slots, n_expert as int),
    ensures
        grouped(slots, n_expert).len() == slots.len(),
    decreases slots.len(),
{
    if slots.len() > 0 {
        lemma_grouped_len_step(slots, n_expert);
        lemma_grouped_len(slots.drop_last(), n_expert);
    } else {
        lemma_grouped_empty(slots, n_expert);
    }
}

proof fn lemma_grouped_empty(slots: Seq<MoeRouteSlot>, n_expert: nat)
    requires
        slots.len() == 0,
    ensures
        grouped(slots, n_expert).len() == 0,
    decreases n_expert,
{
    if n_expert > 0 {
        lemma_grouped_empty(slots, (n_expert - 1) as nat);
    }
}

/// How many slots each expert has.
fn count_experts(slots: &Vec<MoeRouteSlot>, n_expert: usize) -> (counts: Vec<usize>)
    requires
        experts_below(slots@, n_expert as int),
    ensures
        counts@.len() == n_expert,
        forall|e: int| 0 <= e < n_expert ==> #[trigger] counts@[e] == slots_of(slots@, e).len(),
{
    let mut counts: Vec<usize> = Vec::new();
    let mut e: usize = 0;
    while e < n_expert
        invariant
            e <= n_expert,
            counts@.len() == e,
            forall|k: int| 0 <= k < e ==> #[trigger] counts@[k] == 0,
        decreases n_expert - e,
    {
        counts.push(0);
        e += 1;
    }
    let total: usize = slots.len();
    let mut i: usize = 0;
    while i < total
        invariant
            i <= total,
            total == slots@.len(),
            experts_below(slots@, n_expert as int),
            counts@.len() == n_expert,
            forall|e: int|
                0 <= e < n_expert ==> #[trigger] counts@[e] == slots_of(
                    slots@.take(i as int),
                    e,
                ).len(),
        decreases total - i,
    {
        let expert: usize = slots[i].expert;
        proof {
            assert(slots@[i as int].expert < n_expert);
            assert forall|e: int| 0 <= e < n_expert implies #[trigger] slots_of(
                slots@.take(i + 1),
                e,
            ).len() == slots_of(slots@.take(i as int), e).len() + (if e == expert {
                1int
            } else {
                0int
            }) by {
                lemma_slots_of_step(slots@, i as int, e);
            }
            lemma_slots_of_len(slots@.take(i as int), expert as int);
        }
        let seen: usize = counts[expert];
        counts.set(expert, seen + 1);
        i += 1;
    }
    assert(slots@.take(total as int) =~= slots@);
    counts
}

/// Where each expert's group starts.
fn find_group_starts(slots: &Vec<MoeRouteSlot>, n_expert: usize) -> (starts: Vec<usize>)
    requires
        experts_below(slots@, n_expert as int),
    ensures
        starts@.len() == n_expert,
        forall|e: int|
            0 <= e < n_expert ==> #[trigger] starts@[e] == grouped(slots@, e as nat).len(),
{
    let counts: Vec<usize> = count_experts(slots, n_expert);
    let total: usize = slots.len();
    proof {
        lemma_grouped_len(slots@, n_expert as nat);
    }
    let mut starts: Vec<usize> = Vec::new();
    let mut offset: usize = 0;
    let mut e: usize = 0;
    while e < n_expert
        invariant
            e <= n_expert,
            counts@.len() == n_expert,
            forall|e: int| 0 <= e < n_expert ==> #[trigger] counts@[e] == slots_of(slots@, e).len(),
            grouped(slots@, n_expert as nat).len() == total,
            offset == grouped(slots@, e as nat).len(),
            starts@.len() == e,
            forall|k: int|
                0 <= k < e ==> #[trigger] starts@[k] == grouped(slots@, k as nat).len(),
        decreases n_expert - e,
    {
        starts.push(offset);
        proof {
            lemma_group_starts(slots@, e as nat, n_expert as nat);
        }
        offset = offset + counts[e];
        e += 1;
    }
    starts
}

/// Whether the first `seen` slots stand at their places in `placed`.
pub closed spec fn placed_so_far(
    slots: Seq<MoeRouteSlot>,
    n_expert: int,
    seen: int,
    placed: Seq<MoeRouteSlot>,
) -> bool {
    forall|e: int, r: int|
        0 <= e < n_expert && 0 <= r < slots_of(slots.take(seen), e).len() ==> placed[grouped(
            slots,
            e as nat,
        ).len() + r] == #[trigger] slots_of(slots, e)[r]
}

proof fn lemma_placed_one(
    slots: Seq<MoeRouteSlot>,
    n_expert: int,
    seen: int,
    placed: Seq<MoeRouteSlot>,
)
    requires
        0 <= seen < slots.len(),
        experts_below(slots, n_expert),
        placed_so_far(slots, n_expert, seen, placed),
        placed.len() == slots.len(),
    ensures
        ({
            let e0 = slots[seen].expert as int;
            let place = (grouped(slots, e0 as nat).len() + slots_of(
                slots.take(seen),
                e0,
            ).len()) as int;
            &&& place < slots.len()
            &&& placed_so_far(slots, n_expert, seen + 1, placed.update(place, slots[seen]))
        }),
{
    let e0 = slots[seen].expert as int;
    let r0 = slots_of(slots.take(seen), e0).len() as int;
    let place = grouped(slots, e0 as nat).len() + r0;
    lemma_slots_of_step(slots, seen, e0);
    lemma_slots_of_prefix(slots, seen + 1, e0);
    lemma_group_starts(slots, e0 as nat, n_expert as nat);
    lemma_grouped_len(slots, n_expert as nat);
    let next = placed.update(place, slots[seen]);
    assert(slots_of(slots, e0)[r0] == slots[seen]) by {
        let part = slots_of(slots.take(seen + 1), e0);
        assert(part[r0] == slots[seen]);
        assert(part[r0] == slots_of(slots, e0).take(part.len() as int)[r0]);
    }
    assert forall|e: int, r: int|
        0 <= e < n_expert && 0 <= r < slots_of(slots.take(seen + 1), e).len() implies next[grouped(
        slots,
        e as nat,
    ).len() + r] == #[trigger] slots_of(slots, e)[r] by {
        lemma_slots_of_step(slots, seen, e);
        lemma_slots_of_prefix(slots, seen + 1, e);
        lemma_group_starts(slots, e as nat, n_expert as nat);
        if e < e0 {
            lemma_group_starts(slots, e as nat, e0 as nat);
        } else if e > e0 {
            lemma_group_starts(slots, e0 as nat, e as nat);
        }
    }
}

proof fn lemma_placed_all(
    slots: Seq<MoeRouteSlot>,
    n_expert: nat,
    placed: Seq<MoeRouteSlot>,
    upto: nat,
)
    requires
        experts_below(slots, n_expert as int),
        placed_so_far(slots, n_expert as int, slots.len() as int, placed),
        placed.len() == slots.len(),
        upto <= n_expert,
    ensures
        grouped(slots, upto).len() <= placed.len(),
        placed.take(grouped(slots, upto).len() as int) == grouped(slots, upto),
    decreases upto,
{
    lemma_grouped_len(slots, n_expert);
    lemma_group_starts(slots, upto, n_expert);
    if upto > 0 {
        let e = (upto - 1) as nat;
        lemma_placed_all(slots, n_expert, placed, e);
        assert(slots.take(slots.len() as int) =~= slots);
        let start = grouped(slots, e).len() as int;
        let group = slots_of(slots, e as int);
        assert forall|p: int| 0 <= p < grouped(slots, upto).len() implies placed[p] == grouped(
            slots,
            upto,
        )[p] by {
            if p < start {
                assert(placed[p] == placed.take(start)[p]);
            } else {
                assert(placed[start + (p - start)] == group[p - start]);
            }
        }
        assert(placed.take(grouped(slots, upto).len() as int) =~= grouped(slots, upto));
    } else {
        assert(placed.take(0) =~= grouped(slots, 0));
    }
}

/// Groups slots by expert, keeping their order within each group.
pub fn group_by_expert(slots: &Vec<MoeRouteSlot>, n_expert: usize) -> (groups: Vec<MoeRouteSlot>)
    requires
        experts_below(slots@, n_expert as int),
    ensures
        groups@ == grouped(slots@, n_expert as nat),
{
    let total: usize = slots.len();
    let mut cursors: Vec<usize> = find_group_starts(slots, n_expert);
    let mut placed: Vec<MoeRouteSlot> = Vec::new();
    let mut i: usize = 0;
    while i < total
        invariant
            i <= total,
            placed@.len() == i,
        decreases total - i,
    {
        placed.push(MoeRouteSlot::new(0, 0, 0));
        i += 1;
    }
    let mut seen: usize = 0;
    proof {
        assert forall|e: int| 0 <= e < n_expert implies slots_of(
            #[trigger] slots@.take(0),
            e,
        ).len() == 0 by {}
        assert(slots@.take(0).len() == 0);
    }
    while seen < total
        invariant
            seen <= total,
            total == slots@.len(),
            placed@.len() == total,
            experts_below(slots@, n_expert as int),
            cursors@.len() == n_expert,
            forall|e: int|
                0 <= e < n_expert ==> #[trigger] cursors@[e] == grouped(slots@, e as nat).len()
                    + slots_of(slots@.take(seen as int), e).len(),
            placed_so_far(slots@, n_expert as int, seen as int, placed@),
        decreases total - seen,
    {
        let slot: MoeRouteSlot = slots[seen];
        let expert: usize = slot.expert;
        proof {
            assert(slots@[seen as int].expert < n_expert);
            lemma_placed_one(slots@, n_expert as int, seen as int, placed@);
            assert forall|e: int| 0 <= e < n_expert implies #[trigger] slots_of(
                slots@.take(seen + 1),
                e,
            ).len() == slots_of(slots@.take(seen as int), e).len() + (if e == expert {
                1int
            } else {
                0int
            }) by {
                lemma_slots_of_step(slots@, seen as int, e);
            }
        }
        let place: usize = cursors[expert];
        placed.set(place, slot);
        cursors.set(expert, place + 1);
        seen += 1;
    }
    proof {
        lemma_placed_all(slots@, n_expert as nat, placed@, n_expert as nat);
        lemma_grouped_len(slots@, n_expert as nat);
        assert(placed@.take(total as int) =~= placed@);
    }
    placed
}

proof fn lemma_route<W: Fn(&[u32], usize) -> u32>(
    router_logits: Seq<u32>,
    seq_len: nat,
    n_expert: int,
    count: nat,
    weigh: W,
    slots: Seq<MoeRouteSlot>,
    place: int,
)
    requires
        prompt_routes(router_logits, seq_len, n_expert, count, weigh, slots),
        count == 0 || seq_len * n_expert <= router_logits.len(),
        0 <= n_expert,
        0 <= place < slots.len(),
    ensures
        count > 0,
        0 <= place / (count as int) < seq_len,
        slots[place].expert < n_expert,
        slots[place].token == (place / (count as int)) as u32,
{
    assert(count > 0) by {
        if count == 0 {
            assert(seq_len * 0 == 0) by (nonlinear_arith);
        }
    }
    let c = count as int;
    let t = place / c;
    let r = place % c;
    assert(place == c * t + r && 0 <= r < c) by (nonlinear_arith)
        requires
            c > 0,
            t == place / c,
            r == place % c,
    ;
    assert(0 <= t < seq_len && t * c <= place < (t + 1) * c && (t + 1) * c <= seq_len * c && (t + 1)
        * n_expert <= seq_len * n_expert && 0 <= t * n_expert && (t + 1) * n_expert - t * n_expert
        == n_expert) by (nonlinear_arith)
        requires
            place == c * t + r,
            0 <= r < c,
            0 <= place < seq_len * c,
            0 <= n_expert,
    ;
    let part = slots.subrange(t * c, (t + 1) * c);
    assert(part[place - t * c] == slots[place]);
    let experts = part.map_values(|slot: MoeRouteSlot| slot.expert);
    assert(experts[place - t * c] == slots[place].expert);
}

/// Routes a prompt, grouped by expert.
pub fn qwen_moe_prefill_sparse_slots_expert_major<W: Fn(&[u32], usize) -> u32>(
    router_logits: &[u32],
    seq_len: usize,
    n_expert: usize,
    n_expert_used: usize,
    weigh: &W,
) -> (slots: Vec<MoeRouteSlot>)
    requires
        seq_len * n_expert_used <= usize::MAX,
        n_expert_used == 0 || seq_len * n_expert <= router_logits@.len(),
        forall|given: &[u32], i: usize| i < given@.len() ==> call_requires(*weigh, (given, i)),
    ensures
        exists|token_major: Seq<MoeRouteSlot>|
            prompt_routes(
                router_logits@,
                seq_len as nat,
                n_expert as int,
                smaller(n_expert_used, n_expert),
                *weigh,
                token_major,
            ) && slots@ == #[trigger] grouped(token_major, n_expert as nat),
{
    let token_major: Vec<MoeRouteSlot> = qwen_moe_prefill_sparse_slots(
        router_logits,
        seq_len,
        n_expert,
        n_expert_used,
        weigh,
    );
    proof {
        assert forall|i: int| 0 <= i < token_major@.len() implies (
        #[trigger] token_major@[i]).expert < n_expert by {
            lemma_route(
                router_logits@,
                seq_len as nat,
                n_expert as int,
                smaller(n_expert_used, n_expert),
                *weigh,
                token_major@,
                i,
            );
        }
    }
    group_by_expert(&token_major, n_expert)
}

proof fn lemma_slots_of_multiset(slots: Seq<MoeRouteSlot>, n_expert: nat)
    requires
        slots.len() > 0,
    ensures
        grouped(slots, n_expert).to_multiset() == (if slots.last().expert < n_expert {
            grouped(slots.drop_last(), n_expert).to_multiset().insert(slots.last())
        } else {
            grouped(slots.drop_last(), n_expert).to_multiset()
        }),
    decreases n_expert,
{
    broadcast use vstd::seq_lib::group_to_multiset_ensures;

    if n_expert > 0 {
        let e = n_expert - 1;
        lemma_slots_of_multiset(slots, e as nat);
        vstd::seq_lib::lemma_multiset_commutative(grouped(slots, e as nat), slots_of(slots, e));
        vstd::seq_lib::lemma_multiset_commutative(
            grouped(slots.drop_last(), e as nat),
            slots_of(slots.drop_last(), e),
        );
        assert(grouped(slots, n_expert).to_multiset() =~= (if slots.last().expert < n_expert {
            grouped(slots.drop_last(), n_expert).to_multiset().insert(slots.last())
        } else {
            grouped(slots.drop_last(), n_expert).to_multiset()
        }));
    }
}

/// Grouping by expert keeps every slot: the groups together hold the slots that went
/// in, each as often.
pub proof fn law_grouping_keeps_every_slot(slots: Seq<MoeRouteSlot>, n_expert: nat)
    requires
        experts_below(slots, n_expert as int),
    ensures
        grouped(slots, n_expert).len() == slots.len(),
        grouped(slots, n_expert).to_multiset() == slots.to_multiset(),
    decreases slots.len(),
{
    broadcast use vstd::seq_lib::group_to_multiset_ensures;

    lemma_grouped_len(slots, n_expert);
    if slots.len() > 0 {
        lemma_slots_of_multiset(slots, n_expert);
        law_grouping_keeps_every_slot(slots.drop_last(), n_expert);
        assert(slots.drop_last().push(slots.last()) =~= slots);
    } else {
        assert(grouped(slots, n_expert) =~= slots);
    }
}

/// Whether slot `a` stands before slot `b`: by expert, and for one expert by token.
pub open spec fn stands_before(a: MoeRouteSlot, b: MoeRouteSlot) -> bool {
    a.expert < b.expert || (a.expert == b.expert && a.token < b.token)
}

/// Slots in the order of experts and, for one expert, of tokens, none of them twice.
pub open spec fn in_expert_order(slots: Seq<MoeRouteSlot>) -> bool {
    forall|i: int, j: int|
        0 <= i < j < slots.len() ==> stands_before(#[trigger] slots[i], #[trigger] slots[j])
}

/// Slots in the order of tokens, where a token takes no expert twice.
pub open spec fn in_token_order(slots: Seq<MoeRouteSlot>) -> bool {
    forall|i: int, j: int|
        0 <= i < j < slots.len() ==> (#[trigger] slots[i]).token < (#[trigger] slots[j]).token || (
        slots[i].token == slots[j].token && slots[i].expert != slots[j].expert)
}

proof fn lemma_slots_of_order(slots: Seq<MoeRouteSlot>, expert: int)
    requires
        in_token_order(slots),
    ensures
        in_expert_order(slots_of(slots, expert)),
        forall|i: int|
            0 <= i < slots_of(slots, expert).len() ==> (#[trigger] slots_of(
                slots,
                expert,
            )[i]).expert == expert && slots.contains(slots_of(slots, expert)[i]),
    decreases slots.len(),
{
    if slots.len() > 0 {
        let rest = slots.drop_last();
        let group = slots_of(slots, expert);
        lemma_slots_of_order(rest, expert);
        assert forall|i: int| 0 <= i < group.len() implies (#[trigger] group[i]).expert == expert
            && slots.contains(group[i]) by {
            if i < slots_of(rest, expert).len() {
                let earlier = slots_of(rest, expert)[i];
                let k = choose|k: int| 0 <= k < rest.len() && rest[k] == earlier;
                assert(slots[k] == group[i]);
            } else {
                assert(slots[slots.len() - 1] == group[i]);
            }
        }
        assert forall|i: int, j: int| 0 <= i < j < group.len() implies stands_before(
            #[trigger] group[i],
            #[trigger] group[j],
        ) by {
            let earlier = slots_of(rest, expert);
            assert(group[i] == earlier[i]);
            if j < earlier.len() {
                assert(group[j] == earlier[j]);
            } else {
                let k = choose|k: int| 0 <= k < rest.len() && rest[k] == earlier[i];
                assert(slots[k] == group[i]);
                assert(slots[slots.len() - 1] == group[j]);
            }
        }
    }
}

/// Grouping slots that stand in the order of tokens sorts them by expert and token.
pub proof fn law_grouping_sorts_by_expert_and_token(slots: Seq<MoeRouteSlot>, n_expert: nat)
    requires
        in_token_order(slots),
    ensures
        in_expert_order(grouped(slots, n_expert)),
        experts_below(grouped(slots, n_expert), n_expert as int),
    decreases n_expert,
{
    if n_expert > 0 {
        law_grouping_sorts_by_expert_and_token(slots, (n_expert - 1) as nat);
        lemma_slots_of_order(slots, n_expert - 1);
        let before = grouped(slots, (n_expert - 1) as nat);
        let group = slots_of(slots, n_expert - 1);
        let all = grouped(slots, n_expert);
        assert forall|i: int| 0 <= i < all.len() implies (#[trigger] all[i]).expert < n_expert by {
            if i < before.len() {
                assert(all[i] == before[i]);
            } else {
                assert(all[i] == group[i - before.len()]);
            }
        }
        assert forall|i: int, j: int| 0 <= i < j < all.len() implies stands_before(
            #[trigger] all[i],
            #[trigger] all[j],
        ) by {
            if i < before.len() {
                assert(all[i] == before[i]);
                if j >= before.len() {
                    assert(all[j] == group[j - before.len()]);
                } else {
                    assert(all[j] == before[j]);
                }
            } else {
                assert(all[i] == group[i - before.len()]);
                assert(all[j] == group[j - before.len()]);
            }
        }
    }
}

/// Slots can be put in the order of experts and tokens in one way only.
pub proof fn law_expert_order_is_unique(first: Seq<MoeRouteSlot>, second: Seq<MoeRouteSlot>)
    requires
        in_expert_order(first),
        in_expert_order(second),
        first.to_multiset() == second.to_multiset(),
    ensures
        first == second,
{
    let leq = |a: MoeRouteSlot, b: MoeRouteSlot|
        stands_before(a, b) || (a.expert == b.expert && a.token == b.token && a.weight <= b.weight);
    assert(vstd::relations::total_ordering(leq)) by {
        assert forall|a: MoeRouteSlot, b: MoeRouteSlot| #[trigger] leq(a, b) && #[trigger] leq(
            b,
            a,
        ) implies a == b by {}
    }
    vstd::seq_lib::lemma_sorted_unique(first, second, leq);
}

/// The routes of a prompt stand in the order of tokens, and no token takes an expert
/// twice.
proof fn lemma_routes_in_token_order<W: Fn(&[u32], usize) -> u32>(
    router_logits: Seq<u32>,
    seq_len: nat,
    n_expert: nat,
    count: nat,
    weigh: W,
    slots: Seq<MoeRouteSlot>,
)
    requires
        prompt_routes(router_logits, seq_len, n_expert as int, count, weigh, slots),
        count == 0 || seq_len * n_expert <= router_logits.len(),
        seq_len <= 0x1_0000_0000,
    ensures
        in_token_order(slots),
{
    assert forall|i: int, j: int| 0 <= i < j < slots.len() implies (#[trigger] slots[i]).token < (
    #[trigger] slots[j]).token || (slots[i].token == slots[j].token && slots[i].expert
        != slots[j].expert) by {
        lemma_route(router_logits, seq_len, n_expert as int, count, weigh, slots, i);
        lemma_route(router_logits, seq_len, n_expert as int, count, weigh, slots, j);
        let c = count as int;
        let t = i / c;
        assert(i / c <= j / c) by (nonlinear_arith)
            requires
                0 <= i < j,
                c > 0,
        ;
        if i / c == j / c {
            assert(t * c <= i && j < (t + 1) * c && (t + 1) * c - t * c == c && (t + 1) * c
                <= seq_len * c) by (nonlinear_arith)
                requires
                    0 <= i < j,
                    c > 0,
                    t == i / c,
                    t == j / c,
                    t < seq_len,
            ;
            let part = slots.subrange(t * c, (t + 1) * c);
            let experts = part.map_values(|slot: MoeRouteSlot| slot.expert);
            law_leading_experts_are_distinct_and_highest(
                logits_of(router_logits, t, n_expert as int),
                experts,
                count,
            );
            assert(experts[i - t * c] == slots[i].expert);
            assert(experts[j - t * c] == slots[j].expert);
        }
    }
}

/// The routes of a prompt, grouped by expert, stand in the order of experts and tokens,
/// and are the same routes: they are what sorting the routes gives.
pub proof fn law_expert_major_sorts_the_routes<W: Fn(&[u32], usize) -> u32>(
    router_logits: Seq<u32>,
    seq_len: nat,
    n_expert: nat,
    count: nat,
    weigh: W,
    slots: Seq<MoeRouteSlot>,
)
    requires
        prompt_routes(router_logits, seq_len, n_expert as int, count, weigh, slots),
        count == 0 || seq_len * n_expert <= router_logits.len(),
        seq_len <= 0x1_0000_0000,
    ensures
        in_expert_order(grouped(slots, n_expert)),
        grouped(slots, n_expert).to_multiset() == slots.to_multiset(),
        forall|sorted: Seq<MoeRouteSlot>| #[trigger]
            in_expert_order(sorted) && sorted.to_multiset() == slots.to_multiset() ==> sorted
                == grouped(slots, n_expert),
{
    lemma_routes_in_token_order(router_logits, seq_len, n_expert, count, weigh, slots);
    assert forall|i: int| 0 <= i < slots.len() implies (#[trigger] slots[i]).expert < n_expert by {
        lemma_route(router_logits, seq_len, n_expert as int, count, weigh, slots, i);
    }
    law_grouping_sorts_by_expert_and_token(slots, n_expert);
    law_grouping_keeps_every_slot(slots, n_expert);
    assert forall|sorted: Seq<MoeRouteSlot>| #[trigger]
        in_expert_order(sorted) && sorted.to_multiset() == slots.to_multiset() implies sorted
        == grouped(slots, n_expert) by {
        law_expert_order_is_unique(sorted, grouped(slots, n_expert));
    }
}

/// Routing a prompt by expert gives the routes that routing it by token gives, weights
/// and all, where the logits put the experts of each token in one order and weighing the
/// same logits gives the same weight each time: sorted, no two of them for one expert and
/// token.
pub proof fn law_both_routings_give_the_same_routes<W: Fn(&[u32], usize) -> u32>(
    router_logits: Seq<u32>,
    seq_len: nat,
    n_expert: nat,
    count: nat,
    weigh: W,
    by_token: Seq<MoeRouteSlot>,
    by_expert: Seq<MoeRouteSlot>,
)
    requires
        weighs_by_value(weigh),
        every_token_ranks(router_logits, seq_len, n_expert as int),
        prompt_routes(router_logits, seq_len, n_expert as int, count, weigh, by_token),
        exists|token_major: Seq<MoeRouteSlot>|
            prompt_routes(router_logits, seq_len, n_expert as int, count, weigh, token_major)
                && by_expert == #[trigger] grouped(token_major, n_expert),
        count == 0 || seq_len * n_expert <= router_logits.len(),
        seq_len <= 0x1_0000_0000,
    ensures
        by_expert == grouped(by_token, n_expert),
        in_expert_order(by_expert),
        by_expert.to_multiset() == by_token.to_multiset(),
{
    let token_major = choose|token_major: Seq<MoeRouteSlot>|
        prompt_routes(router_logits, seq_len, n_expert as int, count, weigh, token_major)
            && by_expert == #[trigger] grouped(token_major, n_expert);
    law_prompt_routing_is_unique(
        router_logits,
        seq_len,
        n_expert as int,
        count,
        weigh,
        token_major,
        by_token,
    );
    law_expert_major_sorts_the_routes(router_logits, seq_len, n_expert, count, weigh, by_token);
}

/// How many slots each expert has, for the experts that have any.
pub open spec fn used_counts(slots: Seq<MoeRouteSlot>, n_expert: nat) -> Seq<usize>
    decreases n_expert,
{
    if n_expert == 0 {
        Seq::empty()
    } else {
        let before = used_counts(slots, (n_expert - 1) as nat);
        let count = slots_of(slots, n_expert - 1).len();
        if count > 0 {
            before.push(count as usize)
        } else {
            before
        }
    }
}

pub open spec fn ascending(values: Seq<usize>) -> bool {
    forall|i: int, j: int| 0 <= i <= j < values.len() ==> values[i] <= values[j]
}

/// What a prompt's routes look like: how many slots, over how many experts, and the
/// largest, the middle and the ninth decile of their counts.
#[derive(Debug, Clone, Copy, PartialEq, Eq, Structural)]
pub struct RouteHistogram {
    pub slots: usize,
    pub unique: usize,
    pub max: usize,
    pub p50: usize,
    pub p90: usize,
}

pub open spec fn value_at(values: Seq<usize>, index: int) -> usize {
    if 0 <= index < values.len() {
        values[index]
    } else {
        0
    }
}

/// Whether `histogram` describes `slots`.
pub open spec fn describes(
    histogram: RouteHistogram,
    slots: Seq<MoeRouteSlot>,
    n_expert: nat,
) -> bool {
    exists|sorted: Seq<usize>|
        #![trigger ascending(sorted)]
        ascending(sorted) && sorted.to_multiset() == used_counts(slots, n_expert).to_multiset()
            && histogram == (RouteHistogram {
            slots: slots.len() as usize,
            unique: sorted.len() as usize,
            max: value_at(sorted, sorted.len() - 1),
            p50: value_at(sorted, sorted.len() as int / 2),
            p90: value_at(sorted, saturating_product(sorted.len() as usize, 9) as int / 10),
        })
}

fn insert_ascending(values: &mut Vec<usize>, value: usize)
    requires
        ascending(old(values)@),
    ensures
        ascending(final(values)@),
        final(values)@.to_multiset() == old(values)@.to_multiset().insert(value),
        final(values)@.len() == old(values)@.len() + 1,
{
    broadcast use vstd::seq_lib::group_to_multiset_ensures;

    let mut place: usize = values.len();
    while place > 0 && values[place - 1] > value
        invariant
            place <= values@.len(),
            values@ == old(values)@,
            forall|i: int| place <= i < values@.len() ==> values@[i] > value,
        decreases place,
    {
        place -= 1;
    }
    let ghost before = values@;
    values.insert(place, value);
    proof {
        assert forall|i: int, j: int| 0 <= i <= j < values@.len() implies values@[i]
            <= values@[j] by {
            if i < place {
                assert(before[i] <= before[place - 1]);
            }
        }
    }
}

/// The counts of the experts in use, smallest first.
fn find_sorted_counts(slots: &Vec<MoeRouteSlot>, n_expert: usize) -> (sorted: Vec<usize>)
    requires
        experts_below(slots@, n_expert as int),
    ensures
        ascending(sorted@),
        sorted@.to_multiset() == used_counts(slots@, n_expert as nat).to_multiset(),
{
    let counts: Vec<usize> = count_experts(slots, n_expert);
    let mut sorted: Vec<usize> = Vec::new();
    let mut e: usize = 0;
    while e < n_expert
        invariant
            e <= n_expert,
            counts@.len() == n_expert,
            forall|e: int| 0 <= e < n_expert ==> #[trigger] counts@[e] == slots_of(slots@, e).len(),
            ascending(sorted@),
            sorted@.to_multiset() == used_counts(slots@, e as nat).to_multiset(),
        decreases n_expert - e,
    {
        let count: usize = counts[e];
        if count > 0 {
            insert_ascending(&mut sorted, count);
        }
        proof {
            broadcast use vstd::seq_lib::group_to_multiset_ensures;

            let before = used_counts(slots@, e as nat);
            assert(used_counts(slots@, (e + 1) as nat) == (if count > 0 {
                before.push(count)
            } else {
                before
            }));
        }
        e += 1;
    }
    sorted
}

/// Describes a prompt's routes.
pub fn describe_routes(slots: &Vec<MoeRouteSlot>, n_expert: usize) -> (histogram: RouteHistogram)
    requires
        experts_below(slots@, n_expert as int),
    ensures
        describes(histogram, slots@, n_expert as nat),
{
    let sorted: Vec<usize> = find_sorted_counts(slots, n_expert);
    let unique: usize = sorted.len();
    RouteHistogram {
        slots: slots.len(),
        unique,
        max: if unique > 0 {
            sorted[unique - 1]
        } else {
            0
        },
        p50: if unique > 0 {
            sorted[unique / 2]
        } else {
            0
        },
        p90: if unique > 0 {
            sorted[saturating_mul(unique, 9) / 10]
        } else {
            0
        },
    }
}

/// The line that reports a histogram.
pub open spec fn histogram_line(
    layer_idx: usize,
    seq_len: usize,
    histogram: RouteHistogram,
) -> Seq<char> {
    "[cuda-route-hist] layer="@ + decimal(layer_idx as nat) + " tokens="@ + decimal(seq_len as nat)
        + " slots="@ + decimal(histogram.slots as nat) + " unique="@ + decimal(
        histogram.unique as nat,
    ) + " max="@ + decimal(histogram.max as nat) + " p50="@ + decimal(histogram.p50 as nat)
        + " p90="@ + decimal(histogram.p90 as nat)
}

/// The line to log on a prompt's routes, for the first layer and the fourth, where
/// it is asked for.
pub fn log_qwen_moe_prefill_route_hist(
    enabled: bool,
    layer_idx: usize,
    seq_len: usize,
    n_expert: usize,
    sparse_slots: &Vec<MoeRouteSlot>,
) -> (line: Option<String>)
    requires
        experts_below(sparse_slots@, n_expert as int),
    ensures
        line is Some <==> enabled && (layer_idx == 0 || layer_idx == 3),
        line matches Some(text) ==> exists|histogram: RouteHistogram| #[trigger]
            describes(histogram, sparse_slots@, n_expert as nat) && text@ == histogram_line(
                layer_idx,
                seq_len,
                histogram,
            ),
{
    if !enabled || !(layer_idx == 0 || layer_idx == 3) {
        return None;
    }
    let histogram: RouteHistogram = describe_routes(sparse_slots, n_expert);
    let mut line = String::from_str("[cuda-route-hist] layer=");
    push_decimal(&mut line, layer_idx);
    line.append(" tokens=");
    push_decimal(&mut line, seq_len);
    line.append(" slots=");
    push_decimal(&mut line, histogram.slots);
    line.append(" unique=");
    push_decimal(&mut line, histogram.unique);
    line.append(" max=");
    push_decimal(&mut line, histogram.max);
    line.append(" p50=");
    push_decimal(&mut line, histogram.p50);
    line.append(" p90=");
    push_decimal(&mut line, histogram.p90);
    proof {
        assert(describes(histogram, sparse_slots@, n_expert as nat));
        assert(line@ =~= histogram_line(layer_idx, seq_len, histogram));
    }
    Some(line)
}

/// The experts that have at least `low` and at most `high` slots.
pub open spec fn experts_with(
    slots: Seq<MoeRouteSlot>,
    n_expert: nat,
    low: nat,
    high: nat,
) -> Set<int> {
    Set::new(|e: int| 0 <= e < n_expert && low <= slots_of(slots, e).len() <= high)
}

spec fn counted(values: Seq<usize>, low: nat, high: nat) -> nat
    decreases values.len(),
{
    if values.len() == 0 {
        0
    } else {
        counted(values.drop_last(), low, high) + if low <= values.last() <= high {
            1nat
        } else {
            0
        }
    }
}

proof fn lemma_counted_is_of_multisets(values: Seq<usize>, low: nat, high: nat)
    ensures
        counted(values, low, high) == values.to_multiset().filter(
            |v: usize| low <= v <= high,
        ).len(),
    decreases values.len(),
{
    broadcast use vstd::seq_lib::group_to_multiset_ensures;

    let fits = |v: usize| low <= v <= high;
    if values.len() == 0 {
        assert(values.to_multiset().filter(fits) =~= vstd::multiset::Multiset::empty());
    } else {
        let rest = values.drop_last();
        lemma_counted_is_of_multisets(rest, low, high);
        assert(values =~= rest.push(values.last()));
        assert(values.to_multiset() =~= rest.to_multiset().insert(values.last()));
        if fits(values.last()) {
            assert(values.to_multiset().filter(fits) =~= rest.to_multiset().filter(fits).insert(
                values.last(),
            ));
        } else {
            assert(values.to_multiset().filter(fits) =~= rest.to_multiset().filter(fits));
        }
    }
}

proof fn lemma_counted_experts(slots: Seq<MoeRouteSlot>, n_expert: nat, low: nat, high: nat)
    requires
        slots.len() <= usize::MAX,
        low >= 1,
    ensures
        experts_with(slots, n_expert, low, high).finite(),
        experts_with(slots, n_expert, low, high).len() == counted(
            used_counts(slots, n_expert),
            low,
            high,
        ),
    decreases n_expert,
{
    if n_expert == 0 {
        assert(experts_with(slots, 0, low, high) =~= Set::<int>::empty());
    } else {
        let e = n_expert - 1;
        let before = experts_with(slots, e as nat, low, high);
        let counts = used_counts(slots, e as nat);
        let count = slots_of(slots, e).len();
        lemma_counted_experts(slots, e as nat, low, high);
        lemma_slots_of_len(slots, e);
        if low <= count <= high {
            assert(experts_with(slots, n_expert, low, high) =~= before.insert(e));
            assert(!before.contains(e));
        } else {
            assert(experts_with(slots, n_expert, low, high) =~= before);
        }
        if count > 0 {
            assert(counts.push(count as usize).drop_last() =~= counts);
        }
    }
}

proof fn lemma_counted_from_the_start(values: Seq<usize>, k: int, high: nat)
    requires
        0 <= k < values.len(),
        forall|i: int| 0 <= i <= k ==> 1 <= #[trigger] values[i] <= high,
    ensures
        counted(values, 1, high) >= k + 1,
    decreases values.len(),
{
    if k + 1 < values.len() {
        lemma_counted_from_the_start(values.drop_last(), k, high);
    } else if k > 0 {
        lemma_counted_from_the_start(values.drop_last(), k - 1, high);
    }
}

proof fn lemma_counted_from_the_end(values: Seq<usize>, k: int, low: nat)
    requires
        0 <= k <= values.len(),
        forall|i: int| k <= i < values.len() ==> #[trigger] values[i] >= low,
    ensures
        counted(values, low, usize::MAX as nat) >= values.len() - k,
    decreases values.len(),
{
    if k < values.len() {
        lemma_counted_from_the_end(values.drop_last(), k, low);
    }
}

proof fn lemma_all_counted(values: Seq<usize>)
    requires
        forall|i: int| 0 <= i < values.len() ==> #[trigger] values[i] >= 1,
    ensures
        counted(values, 1, usize::MAX as nat) == values.len(),
    decreases values.len(),
{
    if values.len() > 0 {
        lemma_all_counted(values.drop_last());
    }
}

proof fn lemma_used_counts_are_positive(slots: Seq<MoeRouteSlot>, n_expert: nat)
    requires
        slots.len() <= usize::MAX,
    ensures
        used_counts(slots, n_expert).len() <= n_expert,
        forall|i: int|
            0 <= i < used_counts(slots, n_expert).len() ==> #[trigger] used_counts(
                slots,
                n_expert,
            )[i] >= 1,
    decreases n_expert,
{
    if n_expert > 0 {
        lemma_used_counts_are_positive(slots, (n_expert - 1) as nat);
        lemma_slots_of_len(slots, n_expert - 1);
    }
}

/// What a histogram says of a prompt's routes: as many slots as there are, as many experts
/// as have any, and no expert with more slots than the largest count. With the experts in
/// use ranked by their slots, the middle one and the one behind nine tenths of them have the
/// counts that are told: from either end, as many experts reach each of these as stand up to
/// it there.
pub proof fn law_what_a_histogram_says(
    histogram: RouteHistogram,
    slots: Seq<MoeRouteSlot>,
    n_expert: nat,
)
    requires
        describes(histogram, slots, n_expert),
        slots.len() <= usize::MAX,
        9 * n_expert <= usize::MAX,
    ensures
        ({
            let all = usize::MAX as nat;
            let used = experts_with(slots, n_expert, 1, all).len();
            &&& histogram.slots == slots.len()
            &&& histogram.unique == used
            &&& used == 0 ==> histogram.max == 0 && histogram.p50 == 0 && histogram.p90 == 0
            &&& used > 0 ==> {
                &&& histogram.p50 <= histogram.p90 <= histogram.max
                &&& experts_with(slots, n_expert, 1, histogram.max as nat).len() == used
                &&& experts_with(slots, n_expert, histogram.max as nat, all).len() >= 1
                &&& experts_with(slots, n_expert, 1, histogram.p50 as nat).len() >= used as int / 2
                    + 1
                &&& experts_with(slots, n_expert, histogram.p50 as nat, all).len() >= used
                    - used as int / 2
                &&& experts_with(slots, n_expert, 1, histogram.p90 as nat).len() >= used * 9 / 10
                    + 1
                &&& experts_with(slots, n_expert, histogram.p90 as nat, all).len() >= used - used
                    * 9 / 10
            }
        }),
{
    broadcast use vstd::seq_lib::group_to_multiset_ensures;

    let all = usize::MAX as nat;
    let counts = used_counts(slots, n_expert);
    let sorted = choose|sorted: Seq<usize>|
        #![trigger ascending(sorted)]
        ascending(sorted) && sorted.to_multiset() == counts.to_multiset() && histogram == (
        RouteHistogram {
            slots: slots.len() as usize,
            unique: sorted.len() as usize,
            max: value_at(sorted, sorted.len() - 1),
            p50: value_at(sorted, sorted.len() as int / 2),
            p90: value_at(sorted, saturating_product(sorted.len() as usize, 9) as int / 10),
        });
    lemma_used_counts_are_positive(slots, n_expert);
    assert(sorted.len() == sorted.to_multiset().len());
    assert(counts.len() == counts.to_multiset().len());
    assert forall|i: int| 0 <= i < sorted.len() implies #[trigger] sorted[i] >= 1 by {
        assert(sorted.contains(sorted[i]));
        assert(sorted.to_multiset().count(sorted[i]) > 0);
        assert(counts.contains(sorted[i]));
    }
    lemma_all_counted(sorted);
    lemma_counted_is_of_multisets(sorted, 1, all);
    lemma_counted_is_of_multisets(counts, 1, all);
    lemma_counted_experts(slots, n_expert, 1, all);
    if sorted.len() > 0 {
        let last = sorted.len() - 1;
        let middle = sorted.len() as int / 2;
        let ninth = (sorted.len() * 9 / 10) as int;
        assert(0 <= middle <= ninth <= last);
        lemma_rank(slots, n_expert, sorted, last);
        lemma_rank(slots, n_expert, sorted, middle);
        lemma_rank(slots, n_expert, sorted, ninth);
        lemma_counted_is_of_multisets(sorted, 1, sorted[last] as nat);
        lemma_counted_is_of_multisets(counts, 1, sorted[last] as nat);
        lemma_counted_experts(slots, n_expert, 1, sorted[last] as nat);
        lemma_counted_is_at_most_all(sorted, 1, sorted[last] as nat);
    }
}

proof fn lemma_counted_is_at_most_all(values: Seq<usize>, low: nat, high: nat)
    ensures
        counted(values, low, high) <= values.len(),
    decreases values.len(),
{
    if values.len() > 0 {
        lemma_counted_is_at_most_all(values.drop_last(), low, high);
    }
}

proof fn lemma_rank(slots: Seq<MoeRouteSlot>, n_expert: nat, sorted: Seq<usize>, k: int)
    requires
        slots.len() <= usize::MAX,
        ascending(sorted),
        sorted.to_multiset() == used_counts(slots, n_expert).to_multiset(),
        0 <= k < sorted.len(),
        forall|i: int| 0 <= i < sorted.len() ==> #[trigger] sorted[i] >= 1,
    ensures
        experts_with(slots, n_expert, 1, sorted[k] as nat).len() >= k + 1,
        experts_with(slots, n_expert, sorted[k] as nat, usize::MAX as nat).len() >= sorted.len() - k,
{
    let counts = used_counts(slots, n_expert);
    let all = usize::MAX as nat;
    lemma_counted_from_the_start(sorted, k, sorted[k] as nat);
    lemma_counted_from_the_end(sorted, k, sorted[k] as nat);
    lemma_counted_is_of_multisets(sorted, 1, sorted[k] as nat);
    lemma_counted_is_of_multisets(counts, 1, sorted[k] as nat);
    lemma_counted_is_of_multisets(sorted, sorted[k] as nat, all);
    lemma_counted_is_of_multisets(counts, sorted[k] as nat, all);
    lemma_counted_experts(slots, n_expert, 1, sorted[k] as nat);
    lemma_counted_experts(slots, n_expert, sorted[k] as nat, all);
}

/// The line of a histogram says the layer, the tokens and each of its counts behind its name.
pub proof fn law_histogram_lines_say_each_count(
    layer_idx: usize,
    seq_len: usize,
    histogram: RouteHistogram,
)
    ensures
        says(
            histogram_line(layer_idx, seq_len, histogram),
            "[cuda-route-hist] layer="@,
            decimal(layer_idx as nat),
        ),
        says(histogram_line(layer_idx, seq_len, histogram), " tokens="@, decimal(seq_len as nat)),
        says(
            histogram_line(layer_idx, seq_len, histogram),
            " slots="@,
            decimal(histogram.slots as nat),
        ),
        says(
            histogram_line(layer_idx, seq_len, histogram),
            " unique="@,
            decimal(histogram.unique as nat),
        ),
        says(
            histogram_line(layer_idx, seq_len, histogram),
            " max="@,
            decimal(histogram.max as nat),
        ),
        says(
            histogram_line(layer_idx, seq_len, histogram),
            " p50="@,
            decimal(histogram.p50 as nat),
        ),
        says(
            histogram_line(layer_idx, seq_len, histogram),
            " p90="@,
            decimal(histogram.p90 as nat),
        ),
{
    let line1 = "[cuda-route-hist] layer="@ + decimal(layer_idx as nat);
    let line2 = line1 + " tokens="@ + decimal(seq_len as nat);
    let line3 = line2 + " slots="@ + decimal(histogram.slots as nat);
    let line4 = line3 + " unique="@ + decimal(histogram.unique as nat);
    let line5 = line4 + " max="@ + decimal(histogram.max as nat);
    let line6 = line5 + " p50="@ + decimal(histogram.p50 as nat);
    let line7 = line6 + " p90="@ + decimal(histogram.p90 as nat);
    let line = histogram_line(layer_idx, seq_len, histogram);
    lemma_begins_with_itself(line);
    lemma_says_at_the_end(line, line6, " p90="@, decimal(histogram.p90 as nat));
    lemma_says_at_the_end(line, line5, " p50="@, decimal(histogram.p50 as nat));
    lemma_says_at_the_end(line, line4, " max="@, decimal(histogram.max as nat));
    lemma_says_at_the_end(line, line3, " unique="@, decimal(histogram.unique as nat));
    lemma_says_at_the_end(line, line2, " slots="@, decimal(histogram.slots as nat));
    lemma_says_at_the_end(line, line1, " tokens="@, decimal(seq_len as nat));
    lemma_says_at_the_start(line, "[cuda-route-hist] layer="@, decimal(layer_idx as nat));
}

/// The slots of an expert are those of its routes and no others, in the order of the routes:
/// one more route adds one slot at the end for its own expert and none for another.
pub proof fn law_the_slots_of_an_expert_are_its_routes(
    slots: Seq<MoeRouteSlot>,
    slot: MoeRouteSlot,
    expert: int,
)
    ensures
        slots_of(Seq::empty(), expert).len() == 0,
        slot.expert == expert ==> slots_of(slots.push(slot), expert) == slots_of(slots, expert).push(
            slot,
        ),
        slot.expert != expert ==> slots_of(slots.push(slot), expert) == slots_of(slots, expert),
{
    assert(slots.push(slot).drop_last() =~= slots);
}

} // verus!
