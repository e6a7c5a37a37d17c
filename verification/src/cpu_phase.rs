//! The thread pool that runs a prefill on every core.

use crate::text::{decimal, push_decimal};
use vstd::prelude::*;

verus! {

/// The name of the pool's worker number `index`.
pub fn prefill_thread_name(index: usize) -> (name: String)
    ensures
        name@ == "rnb-prefill-"@ + decimal(index as nat),
{
    let mut name = String::from_str("rnb-prefill-");
    push_decimal(&mut name, index);
    name
}

/// The number of workers that a pool supports on every machine.
pub const EVERYWHERE_SUPPORTED_WORKERS: usize = 255;

/// Whether a pool that was asked for `worker_count` workers can hold `workers`: all of
/// them, but for those beyond what a pool supports.
pub open spec fn workers_granted(worker_count: usize, workers: nat) -> bool {
    &&& 1 <= workers <= worker_count
    &&& worker_count <= EVERYWHERE_SUPPORTED_WORKERS ==> workers == worker_count
}

/// Builds a pool with `rayon::ThreadPoolBuilder::build`, asking for `worker_count`
/// threads, for the names that `prefill_thread_name` gives them, and for `start` to run
/// first on each; runs `operation` there with `rayon::ThreadPool::install`, which calls it
/// once, on a worker; and hands back what it returned, behind the number of workers that
/// `rayon::ThreadPool::current_num_threads` counts.
///
/// The pool holds as many threads as were asked for, reduced to `rayon::max_num_threads`,
/// which is never below 255. A worker calls `start` with its own number, which is below
/// the number of workers, before it looks for work, and a `start` that panics aborts the
/// process: so the worker that ran `operation` returns from `start`, and has done so
/// before unless `start` itself worked off jobs of the pool. Whether the operating system
/// grants the threads is not known beforehand, so no run is promised: where there is no
/// pool, `operation` comes back with the text of the failure. On which thread `operation`
/// ran, and what the names do, is not claimed.
#[verifier::external_body]
fn run_on_workers<R: Send, F: FnOnce() -> R + Send, H: Fn(usize) + Send + Sync + 'static>(
    worker_count: usize,
    start: H,
    operation: F,
) -> (ran: Result<(usize, R), (String, F)>)
    requires
        worker_count > 0,
        forall|index: usize| call_requires(start, (index,)),
        call_requires(operation, ()),
    ensures
        match ran {
            Ok((workers, value)) => {
                &&& workers_granted(worker_count, workers as nat)
                &&& call_ensures(operation, (), value)
                &&& exists|index: usize|
                    index < workers && #[trigger] call_ensures(start, (index,), ())
            },
            Err((_, kept)) => kept == operation,
        },
{
    let built = rayon::ThreadPoolBuilder::new()
        .num_threads(worker_count)
        .thread_name(|index| prefill_thread_name(index))
        .start_handler(start)
        .build();
    match built {
        Ok(pool) => Ok((pool.current_num_threads(), pool.install(operation))),
        Err(error) => Err((error.to_string(), operation)),
    }
}

fn copied_cores(cores: &[usize]) -> (copy: Vec<usize>)
    ensures
        copy@ == cores@,
{
    let mut copy: Vec<usize> = Vec::new();
    let mut i: usize = 0;
    while i < cores.len()
        invariant
            i <= cores@.len(),
            copy@ == cores@.take(i as int),
        decreases cores@.len() - i,
    {
        copy.push(cores[i]);
        i += 1;
        assert(copy@ =~= cores@.take(i as int));
    }
    assert(copy@ =~= cores@);
    copy
}

/// Whether worker number `index` can be pinned to `cores`.
pub open spec fn accepts<P: Fn(&[usize], usize)>(pin: &P, cores: Seq<usize>, index: usize) -> bool {
    forall|given: &[usize]| given@ == cores ==> #[trigger] call_requires(*pin, (given, index))
}

/// Whether `pin` was called for worker number `index` with just `cores`.
pub open spec fn pinned<P: Fn(&[usize], usize)>(pin: &P, cores: Seq<usize>, index: usize) -> bool {
    exists|given: &[usize]| given@ == cores && #[trigger] call_ensures(*pin, (given, index), ())
}

/// Whether one of `workers` workers was pinned to just `cores`.
pub open spec fn worker_pinned<P: Fn(&[usize], usize)>(
    pin: &P,
    cores: Seq<usize>,
    workers: usize,
) -> bool {
    exists|index: usize| index < workers && #[trigger] pinned(pin, cores, index)
}

/// What a worker of a pinned pool does first: it hands all cores and its own number to
/// `pin`.
pub fn pin_worker<P: Fn(&[usize], usize)>(pin: &P, mask: &[usize], index: usize)
    requires
        accepts(pin, mask@, index),
    ensures
        pinned(pin, mask@, index),
{
    (*pin)(mask, index);
}

/// What a full-core prefill without a pool comes to: why there is no pool, and the
/// operation that was not called.
pub fn without_pool<F>(failure: (String, F)) -> (refused: (String, F))
    ensures
        refused.0@ == "failed to build full-core prefill pool: "@ + failure.0@,
        refused.1 == failure.1,
{
    let mut message = String::from_str("failed to build full-core prefill pool: ");
    message.append(failure.0.as_str());
    (message, failure.1)
}

/// Whether a pool of `workers` workers that was asked for `worker_count` can have run an
/// operation: where cores are given, one of the workers was pinned to all of them.
pub open spec fn ran_on_pool<P: Fn(&[usize], usize)>(
    worker_count: usize,
    affinity_cores: Option<Seq<usize>>,
    pin: &P,
    workers: usize,
) -> bool {
    &&& workers_granted(worker_count, workers as nat)
    &&& affinity_cores matches Some(cores) ==> worker_pinned(pin, cores, workers)
}

/// Whether `message` is why there was no pool of `worker_count` workers.
pub open spec fn pool_refused(worker_count: usize, message: Seq<char>) -> bool {
    if worker_count == 0 {
        message == "full-core prefill pool requires at least one worker"@
    } else {
        exists|cause: String|
            message == "failed to build full-core prefill pool: "@ + #[trigger] cause@
    }
}

/// Builds the pool of a full-core prefill, runs `operation` there and says how many
/// workers there were. Where cores are given, each worker runs `pin_worker` before it
/// takes up work. Where there is no pool, the operation comes back uncalled: it can be
/// called once only, and who calls it gives it away.
pub fn build_full_prefill_pool<
    R: Send,
    F: FnOnce() -> R + Send,
    P: Fn(&[usize], usize) + Send + Sync + 'static,
>(worker_count: usize, affinity_cores: Option<&[usize]>, pin: P, operation: F) -> (ran: Result<
    (usize, R),
    (String, F),
>)
    requires
        call_requires(operation, ()),
        affinity_cores matches Some(cores) ==> forall|index: usize| #[trigger]
            accepts(&pin, cores@, index),
    ensures
        match ran {
            Ok((workers, value)) => {
                &&& worker_count > 0
                &&& ran_on_pool(worker_count, mask_of(affinity_cores), &pin, workers)
                &&& call_ensures(operation, (), value)
            },
            Err((message, kept)) => pool_refused(worker_count, message@) && kept == operation,
        },
{
    if worker_count == 0 {
        return Err(
            (
                String::from_str("full-core prefill pool requires at least one worker"),
                operation,
            ),
        );
    }
    let ran = match affinity_cores {
        Some(cores) => {
            let mask = copied_cores(cores);
            let ghost pinning = &pin;
            let start = move |index: usize|
                requires
                    accepts(&pin, mask@, index),
                ensures
                    pinned(&pin, mask@, index),
                {
                    pin_worker(&pin, mask.as_slice(), index);
                };
            let ran = run_on_workers(worker_count, start, operation);
            proof {
                if let Ok((workers, _)) = ran {
                    let index = choose|index: usize|
                        index < workers && #[trigger] call_ensures(start, (index,), ());
                    assert(pinned(pinning, cores@, index));
                    assert(worker_pinned(pinning, cores@, workers));
                }
            }
            ran
        },
        None => {
            let start = |_index: usize| {  };
            run_on_workers(worker_count, start, operation)
        },
    };
    match ran {
        Ok(done) => Ok(done),
        Err(failure) => Err(without_pool(failure)),
    }
}

/// The cores that are given, where they are.
pub open spec fn mask_of(affinity_cores: Option<&[usize]>) -> Option<Seq<usize>> {
    match affinity_cores {
        Some(cores) => Some(cores@),
        None => None,
    }
}

/// Saves the mask of worker cores, before the caller's own affinity is narrowed.
///
/// The mask is set once: an empty one is refused, the same one again is fine, and
/// another one is refused.
pub fn configure_full_prefill_pool(
    configured: &mut Option<Vec<usize>>,
    worker_cores: Vec<usize>,
) -> (done: Result<(), String>)
    ensures
        match done {
            Ok(()) => {
                &&& worker_cores@.len() > 0
                &&& *final(configured) matches Some(kept) && kept@ == worker_cores@
                &&& *old(configured) matches Some(kept) ==> kept@ == worker_cores@
            },
            Err(message) => {
                &&& *final(configured) == *old(configured)
                &&& if worker_cores@.len() == 0 {
                    message@ == "full-core prefill affinity mask is empty"@
                } else {
                    &&& *old(configured) matches Some(kept) && kept@ != worker_cores@
                    &&& message@ == "full-core prefill affinity mask changed after configuration"@
                }
            },
        },
{
    if worker_cores.len() == 0 {
        return Err(String::from_str("full-core prefill affinity mask is empty"));
    }
    let same: bool = match &*configured {
        None => true,
        Some(kept) => same_cores(kept, &worker_cores),
    };
    if !same {
        return Err(
            String::from_str("full-core prefill affinity mask changed after configuration"),
        );
    }
    *configured = Some(worker_cores);
    Ok(())
}

fn same_cores(a: &Vec<usize>, b: &Vec<usize>) -> (same: bool)
    ensures
        same == (a@ == b@),
{
    if a.len() != b.len() {
        return false;
    }
    let mut i: usize = 0;
    while i < a.len()
        invariant
            i <= a@.len(),
            a@.len() == b@.len(),
            forall|k: int| 0 <= k < i ==> a@[k] == b@[k],
        decreases a@.len() - i,
    {
        if a[i] != b[i] {
            return false;
        }
        i += 1;
    }
    assert(a@ =~= b@);
    true
}

/// Whether `message` is why there was no full-core prefill on the configured cores.
pub open spec fn full_prefill_refused(configured: Option<Vec<usize>>, message: Seq<char>) -> bool {
    match configured {
        None => message == "full-core prefill pool was not configured"@,
        Some(cores) => pool_refused(cores.len(), message),
    }
}

/// Whether a pool of `workers` workers can have run a full-core prefill on the configured
/// cores: one worker for each was asked for, and one of them was pinned to all the cores.
pub open spec fn ran_on_configured_cores<P: Fn(&[usize], usize)>(
    configured: Option<Vec<usize>>,
    pin: &P,
    workers: usize,
) -> bool {
    configured matches Some(cores) && cores@.len() > 0 && ran_on_pool(
        cores.len(),
        Some(cores@),
        pin,
        workers,
    )
}

/// Runs `operation` on a pool with one worker for each configured core, each of them
/// pinned to those cores before it takes up work, and says how many workers there were.
/// Where there is no pool, the operation comes back uncalled.
pub fn attempt_full_prefill<
    R: Send,
    F: FnOnce() -> R + Send,
    P: Fn(&[usize], usize) + Send + Sync + 'static,
>(configured: &Option<Vec<usize>>, operation: F, pin: P) -> (result: Result<
    (usize, R),
    (String, F),
>)
    requires
        call_requires(operation, ()),
        *configured matches Some(cores) ==> forall|index: usize| #[trigger]
            accepts(&pin, cores@, index),
    ensures
        match result {
            Ok((workers, value)) => {
                &&& ran_on_configured_cores(*configured, &pin, workers)
                &&& call_ensures(operation, (), value)
            },
            Err((message, kept)) => {
                &&& full_prefill_refused(*configured, message@)
                &&& kept == operation
            },
        },
{
    match configured {
        None => Err(
            (String::from_str("full-core prefill pool was not configured"), operation),
        ),
        Some(cores) => build_full_prefill_pool(
            cores.len(),
            Some(cores.as_slice()),
            pin,
            operation,
        ),
    }
}

/// Runs `operation` on a pool with one worker for each configured core, each of them
/// pinned to those cores before it takes up work.
pub fn install_full_prefill<
    R: Send,
    F: FnOnce() -> R + Send,
    P: Fn(&[usize], usize) + Send + Sync + 'static,
>(configured: &Option<Vec<usize>>, operation: F, pin: P) -> (result: Result<R, String>)
    requires
        call_requires(operation, ()),
        *configured matches Some(cores) ==> forall|index: usize| #[trigger]
            accepts(&pin, cores@, index),
    ensures
        match result {
            Ok(value) => {
                &&& exists|workers: usize| #[trigger]
                    ran_on_configured_cores(*configured, &pin, workers)
                &&& call_ensures(operation, (), value)
            },
            Err(message) => full_prefill_refused(*configured, message@),
        },
{
    match attempt_full_prefill(configured, operation, pin) {
        Ok((_, value)) => Ok(value),
        Err((message, _)) => Err(message),
    }
}

/// A pool has at least one worker and no more than were asked for, and all of those where so
/// many are supported everywhere.
pub proof fn law_how_many_workers_are_granted(worker_count: usize, workers: nat)
    requires
        workers_granted(worker_count, workers),
    ensures
        1 <= workers <= worker_count,
        worker_count <= 255 ==> workers == worker_count,
{
}

/// A full-core prefill runs only on configured cores, with at most one worker for each of
/// them, and one of the workers was pinned to all of the cores.
pub proof fn law_a_full_prefill_runs_on_its_cores<P: Fn(&[usize], usize)>(
    configured: Option<Vec<usize>>,
    pin: &P,
    workers: usize,
)
    requires
        ran_on_configured_cores(configured, pin, workers),
    ensures
        configured is Some,
        1 <= workers <= configured->0@.len(),
        configured->0@.len() <= 255 ==> workers == configured->0@.len(),
        exists|index: usize, given: &[usize]|
            {
                &&& index < workers
                &&& given@ == configured->0@
                &&& #[trigger] call_ensures(*pin, (given, index), ())
            },
{
    let cores = configured->0@;
    let index = choose|index: usize| index < workers && #[trigger] pinned(pin, cores, index);
    let given = choose|given: &[usize]| given@ == cores && #[trigger]
        call_ensures(*pin, (given, index), ());
    assert(call_ensures(*pin, (given, index), ()));
}

/// Why a full-core prefill did not run: no cores were configured, there were none among
/// them, or no pool could be built, in which case the cause is told behind that.
pub proof fn law_why_a_full_prefill_is_refused(configured: Option<Vec<usize>>, message: Seq<char>)
    requires
        full_prefill_refused(configured, message),
    ensures
        configured is None ==> message == "full-core prefill pool was not configured"@,
        configured is Some && configured->0@.len() == 0 ==> message
            == "full-core prefill pool requires at least one worker"@,
        configured is Some && configured->0@.len() > 0 ==> message.take(
            "failed to build full-core prefill pool: "@.len() as int,
        ) == "failed to build full-core prefill pool: "@,
{
    if configured is Some && configured->0@.len() > 0 {
        let start = "failed to build full-core prefill pool: "@;
        let cause = choose|cause: String| message == start + #[trigger] cause@;
        assert(message.take(start.len() as int) =~= start);
    }
}

} // verus!
