//! Calls to the device. A device is a function from what it is asked to its reply;
//! what it computes is its own business.

use crate::backend_api::{in_context, with_context};
use vstd::prelude::*;

verus! {

/// Whether `output` is what comes of one call: the device's value as it is, or its
/// failure with `context` in front.
pub open spec fn answers<C, T, D: FnOnce(C) -> Result<T, String>>(
    device: D,
    call: C,
    context: Seq<char>,
    output: Result<T, String>,
) -> bool {
    exists|reply: Result<T, String>| #[trigger]
        call_ensures(device, (call,), reply) && in_context(reply, context, output)
}

/// Makes one call and puts `context` in front of a failure.
pub fn ask<C, T, D: FnOnce(C) -> Result<T, String>>(device: D, call: C, context: &str) -> (output:
    Result<T, String>)
    requires
        call_requires(device, (call,)),
    ensures
        answers(device, call, context@, output),
{
    let reply: Result<T, String> = device(call);
    with_context(reply, context)
}

/// Whether `output` is what comes of one call whose value is handed on as `Some`.
pub open spec fn answers_some<C, T, D: FnOnce(C) -> Result<T, String>>(
    device: D,
    call: C,
    context: Seq<char>,
    output: Result<Option<T>, String>,
) -> bool {
    exists|reply: Result<T, String>| #[trigger]
        call_ensures(device, (call,), reply) && match (reply, output) {
            (Ok(value), Ok(Some(kept))) => value == kept,
            (Err(cause), Err(message)) => message@ == context + cause@,
            _ => false,
        }
}

/// Makes one call and hands its value on as `Some`.
pub fn ask_some<C, T, D: FnOnce(C) -> Result<T, String>>(device: D, call: C, context: &str) -> (output:
    Result<Option<T>, String>)
    requires
        call_requires(device, (call,)),
    ensures
        answers_some(device, call, context@, output),
{
    match ask(device, call, context) {
        Ok(value) => Ok(Some(value)),
        Err(message) => Err(message),
    }
}

/// Whether `output` is what comes of one call that only succeeds or fails.
pub open spec fn answers_done<C, D: FnOnce(C) -> Result<(), String>>(
    device: D,
    call: C,
    context: Seq<char>,
    output: Result<bool, String>,
) -> bool {
    exists|reply: Result<(), String>| #[trigger]
        call_ensures(device, (call,), reply) && match (reply, output) {
            (Ok(()), Ok(done)) => done,
            (Err(cause), Err(message)) => message@ == context + cause@,
            _ => false,
        }
}

/// Makes one call that only succeeds or fails; success is handed on as `true`.
pub fn ask_done<C, D: FnOnce(C) -> Result<(), String>>(device: D, call: C, context: &str) -> (output:
    Result<bool, String>)
    requires
        call_requires(device, (call,)),
    ensures
        answers_done(device, call, context@, output),
{
    match ask(device, call, context) {
        Ok(()) => Ok(true),
        Err(message) => Err(message),
    }
}

/// Whether one call that works on a buffer comes to `output` and leaves `after` in the
/// buffer, in place of `before`.
pub open spec fn answers_in_place<C, T, D: FnOnce(C, &Vec<u32>) -> (Result<T, String>, Vec<u32>)>(
    device: D,
    call: C,
    context: Seq<char>,
    before: Vec<u32>,
    after: Vec<u32>,
    output: Result<T, String>,
) -> bool {
    exists|reply: Result<T, String>| #[trigger]
        call_ensures(device, (call, &before), (reply, after)) && in_context(reply, context, output)
}

/// Makes one call that works on a buffer, which then holds what the device left there.
pub fn ask_in_place<C, T, D: FnOnce(C, &Vec<u32>) -> (Result<T, String>, Vec<u32>)>(
    device: D,
    call: C,
    context: &str,
    buffer: &mut Vec<u32>,
) -> (output: Result<T, String>)
    requires
        call_requires(device, (call, &*old(buffer))),
    ensures
        answers_in_place(device, call, context@, *old(buffer), *final(buffer), output),
{
    let (reply, left) = device(call, &*buffer);
    *buffer = left;
    with_context(reply, context)
}

/// Whether `output` is what comes of one call that works on a buffer and only succeeds or
/// fails.
pub open spec fn answers_done_in_place<
    C,
    D: FnOnce(C, &Vec<u32>) -> (Result<(), String>, Vec<u32>),
>(
    device: D,
    call: C,
    context: Seq<char>,
    before: Vec<u32>,
    after: Vec<u32>,
    output: Result<bool, String>,
) -> bool {
    exists|reply: Result<(), String>| #[trigger]
        answers_in_place(device, call, context, before, after, reply) && match (reply, output) {
            (Ok(()), Ok(done)) => done,
            (Err(message), Err(kept)) => message == kept,
            _ => false,
        }
}

/// Makes one call that works on a buffer and only succeeds or fails; success is handed on
/// as `true`.
pub fn ask_done_in_place<C, D: FnOnce(C, &Vec<u32>) -> (Result<(), String>, Vec<u32>)>(
    device: D,
    call: C,
    context: &str,
    buffer: &mut Vec<u32>,
) -> (output: Result<bool, String>)
    requires
        call_requires(device, (call, &*old(buffer))),
    ensures
        answers_done_in_place(device, call, context@, *old(buffer), *final(buffer), output),
{
    let reply = ask_in_place(device, call, context, buffer);
    match reply {
        Ok(()) => Ok(true),
        Err(message) => Err(message),
    }
}

/// Whether `message` is `cause` behind `context`.
pub open spec fn tells(message: Seq<char>, context: Seq<char>, cause: Seq<char>) -> bool {
    &&& message.len() == context.len() + cause.len()
    &&& message.take(context.len() as int) == context
    &&& message.skip(context.len() as int) == cause
}

/// A value comes only from a call on what was asked and is the device's own; an error comes
/// only from the device's failure on it, and tells the context and then the cause.
pub proof fn law_answers_come_from_the_device<C, T, D: FnOnce(C) -> Result<T, String>, E: FnOnce(
    C,
) -> Result<(), String>>(
    device: D,
    doing: E,
    call: C,
    context: Seq<char>,
    a: Result<T, String>,
    b: Result<Option<T>, String>,
    c: Result<bool, String>,
)
    requires
        answers(device, call, context, a),
        answers_some(device, call, context, b),
        answers_done(doing, call, context, c),
    ensures
        a matches Ok(value) ==> call_ensures(device, (call,), Ok::<T, String>(value)),
        a matches Err(message) ==> exists|cause: String|
            #![trigger call_ensures(device, (call,), Err::<T, String>(cause))]
            call_ensures(device, (call,), Err::<T, String>(cause)) && tells(
                message@,
                context,
                cause@,
            ),
        !(b matches Ok(None)),
        b matches Ok(Some(value)) ==> call_ensures(device, (call,), Ok::<T, String>(value)),
        b matches Err(message) ==> exists|cause: String|
            #![trigger call_ensures(device, (call,), Err::<T, String>(cause))]
            call_ensures(device, (call,), Err::<T, String>(cause)) && tells(
                message@,
                context,
                cause@,
            ),
        c matches Ok(done) ==> done && call_ensures(doing, (call,), Ok::<(), String>(())),
        c matches Err(message) ==> exists|cause: String|
            #![trigger call_ensures(doing, (call,), Err::<(), String>(cause))]
            call_ensures(doing, (call,), Err::<(), String>(cause)) && tells(
                message@,
                context,
                cause@,
            ),
{
    let reply_a = choose|reply: Result<T, String>| #[trigger]
        call_ensures(device, (call,), reply) && in_context(reply, context, a);
    if let Err(cause) = reply_a {
        assert(call_ensures(device, (call,), Err::<T, String>(cause)));
        lemma_tells(context, cause@);
    }
    let reply_b = choose|reply: Result<T, String>| #[trigger]
        call_ensures(device, (call,), reply) && match (reply, b) {
            (Ok(value), Ok(Some(kept))) => value == kept,
            (Err(cause), Err(message)) => message@ == context + cause@,
            _ => false,
        };
    if let Err(cause) = reply_b {
        assert(call_ensures(device, (call,), Err::<T, String>(cause)));
        lemma_tells(context, cause@);
    }
    let reply_c = choose|reply: Result<(), String>| #[trigger]
        call_ensures(doing, (call,), reply) && match (reply, c) {
            (Ok(()), Ok(done)) => done,
            (Err(cause), Err(message)) => message@ == context + cause@,
            _ => false,
        };
    if let Ok(nothing) = reply_c {
        assert(nothing == ());
        assert(reply_c == Ok::<(), String>(()));
    }
    if let Err(cause) = reply_c {
        assert(call_ensures(doing, (call,), Err::<(), String>(cause)));
        lemma_tells(context, cause@);
    }
}

proof fn lemma_tells(context: Seq<char>, cause: Seq<char>)
    ensures
        tells(context + cause, context, cause),
{
    assert((context + cause).take(context.len() as int) =~= context);
    assert((context + cause).skip(context.len() as int) =~= cause);
}

/// What a call leaves in a buffer is what the device left there, whether it failed or not,
/// and the device was handed what the buffer held before.
pub proof fn law_a_buffer_holds_what_the_device_left<
    C,
    T,
    D: FnOnce(C, &Vec<u32>) -> (Result<T, String>, Vec<u32>),
    E: FnOnce(C, &Vec<u32>) -> (Result<(), String>, Vec<u32>),
>(
    device: D,
    doing: E,
    call: C,
    context: Seq<char>,
    before: Vec<u32>,
    after: Vec<u32>,
    a: Result<T, String>,
    b: Result<bool, String>,
)
    requires
        answers_in_place(device, call, context, before, after, a),
        answers_done_in_place(doing, call, context, before, after, b),
    ensures
        exists|reply: Result<T, String>|
            {
                &&& #[trigger] call_ensures(device, (call, &before), (reply, after))
                &&& a is Ok <==> reply is Ok
                &&& reply is Ok ==> reply == a
                &&& reply matches Err(cause) ==> tells(a->Err_0@, context, cause@)
            },
        exists|reply: Result<(), String>|
            {
                &&& #[trigger] call_ensures(doing, (call, &before), (reply, after))
                &&& b is Ok <==> reply is Ok
                &&& b matches Ok(done) ==> done
                &&& reply matches Err(cause) ==> tells(b->Err_0@, context, cause@)
            },
{
    let first = choose|reply: Result<T, String>| #[trigger]
        call_ensures(device, (call, &before), (reply, after)) && in_context(reply, context, a);
    if let Err(cause) = first {
        lemma_tells(context, cause@);
    }
    let kept = choose|reply: Result<(), String>| #[trigger]
        answers_in_place(doing, call, context, before, after, reply) && match (reply, b) {
            (Ok(()), Ok(done)) => done,
            (Err(message), Err(kept)) => message == kept,
            _ => false,
        };
    let second = choose|reply: Result<(), String>| #[trigger]
        call_ensures(doing, (call, &before), (reply, after)) && in_context(reply, context, kept);
    if let Err(cause) = second {
        lemma_tells(context, cause@);
    }
    assert(call_ensures(doing, (call, &before), (second, after)));
}

} // verus!
