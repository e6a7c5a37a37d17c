//! Work that the device is offered. A device is a function from how it is to read a
//! request, and the request, to its reply.

use vstd::prelude::*;

verus! {

/// Whether `output` is what comes of offering `request`: the device's reply where it
/// takes the request, reading it by `reads`; nothing where it does not.
pub open spec fn taken<R, Q, T, D: FnOnce(R, Q) -> T>(
    reads: Option<R>,
    request: Q,
    device: D,
    output: Option<T>,
) -> bool {
    match reads {
        Some(reads) => output matches Some(reply) && call_ensures(device, (reads, request), reply),
        None => output is None,
    }
}

/// Hands `request` over, if there is a way to read it.
pub fn hand_over<R, Q, T, D: FnOnce(R, Q) -> T>(reads: Option<R>, request: Q, device: D) -> (output:
    Option<T>)
    requires
        reads matches Some(reads) ==> call_requires(device, (reads, request)),
    ensures
        taken(reads, request, device, output),
{
    match reads {
        Some(reads) => Some(device(reads, request)),
        None => None,
    }
}

/// Whether `output` is what comes of offering `request`, which the device reads in one
/// way only.
pub open spec fn ran<Q, T, D: FnOnce(Q) -> T>(
    runs: bool,
    request: Q,
    device: D,
    output: Option<T>,
) -> bool {
    if runs {
        output matches Some(reply) && call_ensures(device, (request,), reply)
    } else {
        output is None
    }
}

/// Hands `request` over where `runs` holds.
pub fn run_where<Q, T, D: FnOnce(Q) -> T>(runs: bool, request: Q, device: D) -> (output: Option<T>)
    requires
        runs ==> call_requires(device, (request,)),
    ensures
        ran(runs, request, device, output),
{
    if runs {
        Some(device(request))
    } else {
        None
    }
}

/// Whether `output` is what comes of offering `request` to a device that may decline: its
/// reply, or nothing where there is no way to read the request.
pub open spec fn offered<R, Q, T, D: FnOnce(R, Q) -> Option<T>>(
    reads: Option<R>,
    request: Q,
    device: D,
    output: Option<T>,
) -> bool {
    match reads {
        Some(reads) => call_ensures(device, (reads, request), output),
        None => output is None,
    }
}

/// Offers `request` to a device that may decline, if there is a way to read it.
pub fn offer<R, Q, T, D: FnOnce(R, Q) -> Option<T>>(reads: Option<R>, request: Q, device: D) -> (output:
    Option<T>)
    requires
        reads matches Some(reads) ==> call_requires(device, (reads, request)),
    ensures
        offered(reads, request, device, output),
{
    match reads {
        Some(reads) => device(reads, request),
        None => None,
    }
}

/// Whether `output` is what comes of offering `request`, which is read in one way only, to
/// a device that may decline.
pub open spec fn offered_where<Q, T, D: FnOnce(Q) -> Option<T>>(
    runs: bool,
    request: Q,
    device: D,
    output: Option<T>,
) -> bool {
    if runs {
        call_ensures(device, (request,), output)
    } else {
        output is None
    }
}

/// Offers `request` to a device that may decline, where `runs` holds.
pub fn offer_where<Q, T, D: FnOnce(Q) -> Option<T>>(runs: bool, request: Q, device: D) -> (output:
    Option<T>)
    requires
        runs ==> call_requires(device, (request,)),
    ensures
        offered_where(runs, request, device, output),
{
    if runs {
        device(request)
    } else {
        None
    }
}

/// Buffers of the host that a device fills, each to its end.
pub trait Buffers: Sized {
    /// Every buffer is as long as the same buffer of `other`.
    spec fn as_long_as(&self, other: &Self) -> bool;
}

impl Buffers for Vec<u32> {
    open spec fn as_long_as(&self, other: &Self) -> bool {
        self@.len() == other@.len()
    }
}

/// The device takes `request`, if there is a way to read it, and fills `before` to its end.
pub open spec fn fills<R, Q, B: Buffers, D: FnOnce(R, Q) -> B>(
    reads: Option<R>,
    request: Q,
    device: D,
    before: B,
) -> bool {
    reads is Some ==> {
        &&& call_requires(device, (reads->0, request))
        &&& forall|reply: B| #[trigger]
            call_ensures(device, (reads->0, request), reply) ==> reply.as_long_as(&before)
    }
}

/// Whether offering `request` filled `before` with `after`: the device's reply to the
/// request where it takes it; else all stays as it is.
pub open spec fn filled<R, Q, B: Buffers, D: FnOnce(R, Q) -> B>(
    reads: Option<R>,
    request: Q,
    device: D,
    before: B,
    after: B,
    done: bool,
) -> bool {
    match reads {
        Some(reads) => done && call_ensures(device, (reads, request), after),
        None => !done && after == before,
    }
}

/// Hands `request` over, if there is a way to read it, and keeps the reply in `out`.
pub fn fill_over<R, Q, B: Buffers, D: FnOnce(R, Q) -> B>(
    reads: Option<R>,
    request: Q,
    out: &mut B,
    device: D,
) -> (done: bool)
    requires
        fills(reads, request, device, *old(out)),
    ensures
        filled(reads, request, device, *old(out), *final(out), done),
{
    match reads {
        Some(reads) => {
            let reply: B = device(reads, request);
            *out = reply;
            true
        },
        None => false,
    }
}

/// The device takes `request`, which it reads in one way only, and fills `before` to its
/// end, where `runs` holds.
pub open spec fn fills_where<Q, B: Buffers, D: FnOnce(Q) -> B>(
    runs: bool,
    request: Q,
    device: D,
    before: B,
) -> bool {
    runs ==> {
        &&& call_requires(device, (request,))
        &&& forall|reply: B| #[trigger]
            call_ensures(device, (request,), reply) ==> reply.as_long_as(&before)
    }
}

/// Whether offering `request`, which the device reads in one way only, filled `before` with
/// `after`.
pub open spec fn filled_where<Q, B: Buffers, D: FnOnce(Q) -> B>(
    runs: bool,
    request: Q,
    device: D,
    before: B,
    after: B,
    done: bool,
) -> bool {
    if runs {
        done && call_ensures(device, (request,), after)
    } else {
        !done && after == before
    }
}

/// Hands `request` over where `runs` holds, and keeps the reply in `out`.
pub fn fill_where<Q, B: Buffers, D: FnOnce(Q) -> B>(
    runs: bool,
    request: Q,
    out: &mut B,
    device: D,
) -> (done: bool)
    requires
        fills_where(runs, request, device, *old(out)),
    ensures
        filled_where(runs, request, device, *old(out), *final(out), done),
{
    if runs {
        let reply: B = device(request);
        *out = reply;
        true
    } else {
        false
    }
}

/// The device takes `request` and what is in `before`, if there is a way to read the
/// request, and fills `before` to its end.
pub open spec fn rewrites<R, Q, B: Buffers, D: FnOnce(R, Q, &B) -> B>(
    reads: Option<R>,
    request: Q,
    device: D,
    before: B,
) -> bool {
    reads is Some ==> {
        &&& call_requires(device, (reads->0, request, &before))
        &&& forall|reply: B| #[trigger]
            call_ensures(device, (reads->0, request, &before), reply) ==> reply.as_long_as(&before)
    }
}

/// Whether offering `request` wrote `after` over `before`: the device's reply to the
/// request and to what was there, where it takes the request; else all stays as it is.
pub open spec fn written<R, Q, B: Buffers, D: FnOnce(R, Q, &B) -> B>(
    reads: Option<R>,
    request: Q,
    device: D,
    before: B,
    after: B,
    done: bool,
) -> bool {
    match reads {
        Some(reads) => done && call_ensures(device, (reads, request, &before), after),
        None => !done && after == before,
    }
}

/// Hands `request` over with what is in `out`, if there is a way to read it, and keeps the
/// reply there.
pub fn write_over<R, Q, B: Buffers, D: FnOnce(R, Q, &B) -> B>(
    reads: Option<R>,
    request: Q,
    out: &mut B,
    device: D,
) -> (done: bool)
    requires
        rewrites(reads, request, device, *old(out)),
    ensures
        written(reads, request, device, *old(out), *final(out), done),
{
    match reads {
        Some(reads) => {
            let reply: B = device(reads, request, &*out);
            *out = reply;
            true
        },
        None => false,
    }
}

/// The device takes `request`, which it reads in one way only, and what is in `before`, and
/// fills `before` to its end, where `runs` holds.
pub open spec fn rewrites_where<Q, B: Buffers, D: FnOnce(Q, &B) -> B>(
    runs: bool,
    request: Q,
    device: D,
    before: B,
) -> bool {
    runs ==> {
        &&& call_requires(device, (request, &before))
        &&& forall|reply: B| #[trigger]
            call_ensures(device, (request, &before), reply) ==> reply.as_long_as(&before)
    }
}

/// Whether offering `request`, which the device reads in one way only, wrote `after` over
/// `before`.
pub open spec fn wrote<Q, B: Buffers, D: FnOnce(Q, &B) -> B>(
    runs: bool,
    request: Q,
    device: D,
    before: B,
    after: B,
    done: bool,
) -> bool {
    if runs {
        done && call_ensures(device, (request, &before), after)
    } else {
        !done && after == before
    }
}

/// Hands `request` over with what is in `out`, where `runs` holds, and keeps the reply
/// there.
pub fn write_where<Q, B: Buffers, D: FnOnce(Q, &B) -> B>(
    runs: bool,
    request: Q,
    out: &mut B,
    device: D,
) -> (done: bool)
    requires
        rewrites_where(runs, request, device, *old(out)),
    ensures
        wrote(runs, request, device, *old(out), *final(out), done),
{
    if runs {
        let reply: B = device(request, &*out);
        *out = reply;
        true
    } else {
        false
    }
}

/// What a buffer holds once a reply lies over its start.
pub open spec fn overlaid(before: Seq<u32>, reply: Seq<u32>) -> Seq<u32> {
    reply + before.skip(reply.len() as int)
}

/// Copies a reply over the start of `out`.
pub fn overlay(out: &mut Vec<u32>, reply: &Vec<u32>)
    requires
        reply@.len() <= old(out)@.len(),
    ensures
        final(out)@ == overlaid(old(out)@, reply@),
{
    let ghost before = out@;
    let mut i: usize = 0;
    while i < reply.len()
        invariant
            i <= reply@.len() <= out@.len(),
            out@ == overlaid(before, reply@.take(i as int)),
            before.len() == out@.len(),
        decreases reply@.len() - i,
    {
        out.set(i, reply[i]);
        i += 1;
        assert(out@ =~= overlaid(before, reply@.take(i as int)));
    }
    assert(reply@.take(i as int) =~= reply@);
}

/// A request that cannot be read, or that is not to run, is not answered; any other is
/// answered by what the device gives for it and for the way that it is read.
pub proof fn law_only_what_is_taken_is_answered<
    R,
    Q,
    T,
    D: FnOnce(R, Q) -> T,
    E: FnOnce(Q) -> T,
    F: FnOnce(R, Q) -> Option<T>,
    G: FnOnce(Q) -> Option<T>,
>(
    reads: Option<R>,
    runs: bool,
    request: Q,
    all: D,
    one: E,
    may: F,
    may_one: G,
    a: Option<T>,
    b: Option<T>,
    c: Option<T>,
    d: Option<T>,
)
    requires
        taken(reads, request, all, a),
        ran(runs, request, one, b),
        offered(reads, request, may, c),
        offered_where(runs, request, may_one, d),
    ensures
        a is Some <==> reads is Some,
        a is Some ==> call_ensures(all, (reads->0, request), a->0),
        b is Some <==> runs,
        b is Some ==> call_ensures(one, (request,), b->0),
        c is Some ==> reads is Some,
        reads is Some ==> call_ensures(may, (reads->0, request), c),
        d is Some ==> runs,
        runs ==> call_ensures(may_one, (request,), d),
{
}

/// Buffers are told to be done exactly if the request was taken; they then hold what the
/// device gave, and else what they held before.
pub proof fn law_buffers_hold_the_reply_or_stay<
    R,
    Q,
    B: Buffers,
    D: FnOnce(R, Q) -> B,
    E: FnOnce(Q) -> B,
>(
    reads: Option<R>,
    runs: bool,
    request: Q,
    all: D,
    one: E,
    before: B,
    a: B,
    a_done: bool,
    b: B,
    b_done: bool,
)
    requires
        fills(reads, request, all, before),
        fills_where(runs, request, one, before),
        filled(reads, request, all, before, a, a_done),
        filled_where(runs, request, one, before, b, b_done),
    ensures
        a_done <==> reads is Some,
        a_done ==> call_ensures(all, (reads->0, request), a) && a.as_long_as(&before),
        !a_done ==> a == before,
        b_done <==> runs,
        b_done ==> call_ensures(one, (request,), b) && b.as_long_as(&before),
        !b_done ==> b == before,
{
}

/// Buffers that the device reads as well are handed over as they were before.
pub proof fn law_buffers_are_read_before_they_are_written<
    R,
    Q,
    B: Buffers,
    D: FnOnce(R, Q, &B) -> B,
    E: FnOnce(Q, &B) -> B,
>(
    reads: Option<R>,
    runs: bool,
    request: Q,
    all: D,
    one: E,
    before: B,
    a: B,
    a_done: bool,
    b: B,
    b_done: bool,
)
    requires
        rewrites(reads, request, all, before),
        rewrites_where(runs, request, one, before),
        written(reads, request, all, before, a, a_done),
        wrote(runs, request, one, before, b, b_done),
    ensures
        a_done <==> reads is Some,
        a_done ==> call_ensures(all, (reads->0, request, &before), a) && a.as_long_as(&before),
        !a_done ==> a == before,
        b_done <==> runs,
        b_done ==> call_ensures(one, (request, &before), b) && b.as_long_as(&before),
        !b_done ==> b == before,
{
}

/// A reply that lies over the start of a buffer is read there, and the rest of the buffer
/// stays.
pub proof fn law_a_reply_lies_over_the_start(before: Seq<u32>, reply: Seq<u32>, i: int)
    requires
        reply.len() <= before.len(),
        0 <= i < before.len(),
    ensures
        overlaid(before, reply).len() == before.len(),
        i < reply.len() ==> overlaid(before, reply)[i] == reply[i],
        i >= reply.len() ==> overlaid(before, reply)[i] == before[i],
{
}

} // verus!
