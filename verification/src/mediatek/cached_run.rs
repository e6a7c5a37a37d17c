//! Runs of models that may be resident: compiled models are kept, the latest last, and
//! a model that is not there is compiled first.

use crate::mediatek::cache::{
    after_hit, after_store, cache_entry_position, law_cache_keys_compare_both_ways,
    law_cache_keys_compare_through, law_hit_keeps_one_per_key, law_hit_survives, law_position,
    law_quantized_position, law_removed_key_is_gone, law_store_keeps_one_per_key, one_per_key,
    position_of, quantized_position_of, store_cache_entry, touch_cache_entry,
    touch_quantized_cache_entry, without_key, GatedGeluFfnF32BatchedCacheKey,
    GatedGeluFfnF32CacheKey,
};
use crate::mediatek::error::{DriverFailure, MediaTekNnapiError, MediaTekRunError};
use crate::mediatek::requests::{
    MediaTekGatedGeluFfnShape, RunCachedGatedGeluFfnF32BatchedRequest,
    RunCachedGatedGeluFfnF32Request, RunCachedGatedGeluFfnF32Weights,
    RunCachedQuantizedGatedGeluFfnRequest, RunCachedQuantizedGatedGeluFfnWeights,
};
use crate::mediatek::run::{
    cached_execution_options, report_run, reported_run, run_gated_gelu_ffn_f32_result_from_batched_backend,
    run_result, with_compile_times, BatchedCompileOptions, MediaTekGatedGeluFfnOutput,
    MediaTekNnapiExecutionOptions, RunGatedGeluFfnF32Result, RunGatedGeluFfnF32Timings,
};
use crate::text::{trim_text, trimmed};
use vstd::prelude::*;
use vstd::std_specs::cmp::PartialEqSpec;

verus! {

/// What a model is compiled from: its weights and sizes, and the device's name.
#[derive(Debug)]
pub struct CompileCall<W> {
    pub weights: W,
    pub shape: MediaTekGatedGeluFfnShape,
    pub device_name: String,
}

/// Whether `call` compiles for `key`.
pub open spec fn compiles_for<W>(
    call: CompileCall<W>,
    key: GatedGeluFfnF32CacheKey,
    weights: W,
) -> bool {
    &&& call.weights == weights
    &&& call.shape.input_size == key.input_size
    &&& call.shape.ffn_inner_size == key.ffn_inner_size
    &&& call.shape.output_size == key.output_size
    &&& call.device_name@ == trimmed(key.device_name_substring@)
}

fn call_for<W>(key: &GatedGeluFfnF32CacheKey, weights: W) -> (call: CompileCall<W>)
    ensures
        compiles_for(call, *key, weights),
{
    CompileCall {
        weights,
        shape: MediaTekGatedGeluFfnShape {
            input_size: key.input_size,
            ffn_inner_size: key.ffn_inner_size,
            output_size: key.output_size,
        },
        device_name: String::from_str(trim_text(key.device_name_substring.as_str())),
    }
}

/// Whether `result` reports a run of `compiled`.
pub open spec fn resident_run<
    C,
    R: FnOnce(&C, &[u32], MediaTekNnapiExecutionOptions) -> Result<
        MediaTekGatedGeluFfnOutput,
        MediaTekNnapiError,
    >,
>(
    compiled: C,
    input: &[u32],
    measure_timing: bool,
    compile: Option<RunGatedGeluFfnF32Timings>,
    run: R,
    result: Result<RunGatedGeluFfnF32Result, MediaTekRunError>,
) -> bool {
    exists|answer: Result<MediaTekGatedGeluFfnOutput, MediaTekNnapiError>| #[trigger]
        call_ensures(
            run,
            (&compiled, input, MediaTekNnapiExecutionOptions { measure_timing }),
            answer,
        ) && reported_run(
            driver_answer(answer),
            compile,
            compile is None,
            result,
        )
}

pub open spec fn driver_answer(
    answer: Result<MediaTekGatedGeluFfnOutput, MediaTekNnapiError>,
) -> Result<MediaTekGatedGeluFfnOutput, DriverFailure> {
    match answer {
        Ok(output) => Ok(output),
        Err(error) => Err(DriverFailure::Driver(error)),
    }
}

fn report_driver_answer(
    answer: Result<MediaTekGatedGeluFfnOutput, MediaTekNnapiError>,
    compile: Option<RunGatedGeluFfnF32Timings>,
) -> (result: Result<RunGatedGeluFfnF32Result, MediaTekRunError>)
    ensures
        reported_run(driver_answer(answer), compile, compile is None, result),
{
    let cache_hit: bool = compile.is_none();
    let answer = match answer {
        Ok(output) => Ok(output),
        Err(error) => Err(DriverFailure::Driver(error)),
    };
    report_run(answer, compile, cache_hit)
}

/// Whether a valid request on a platform with the driver leaves `after` in the cache and
/// comes to `result`. A resident model becomes the latest and is run. Another one is
/// compiled, kept as the latest and run; if it does not compile, the cache stays as it
/// was. In either case the oldest models go where there are too many.
pub open spec fn block_run<
    C,
    M: FnOnce(CompileCall<RunCachedGatedGeluFfnF32Weights>) -> Result<
        (C, RunGatedGeluFfnF32Timings),
        DriverFailure,
    >,
    R: FnOnce(&C, &[u32], MediaTekNnapiExecutionOptions) -> Result<
        MediaTekGatedGeluFfnOutput,
        MediaTekNnapiError,
    >,
>(
    request: RunCachedGatedGeluFfnF32Request<'_>,
    before: Seq<(GatedGeluFfnF32CacheKey, C)>,
    compile: M,
    run: R,
    after: Seq<(GatedGeluFfnF32CacheKey, C)>,
    result: Result<RunGatedGeluFfnF32Result, MediaTekRunError>,
) -> bool {
    match position_of(before, request.cache_key, 0) {
        Some(position) => {
            &&& after == after_hit(before, position, request.max_cache_entries as int)
            &&& resident_run(before[position].1, request.input, request.measure_timing, None, run, result)
        },
        None => exists|
            call: CompileCall<RunCachedGatedGeluFfnF32Weights>,
            compiled: Result<(C, RunGatedGeluFfnF32Timings), DriverFailure>,
        |
            compiles_for(call, request.cache_key, request.weights->0) && #[trigger] call_ensures(
                compile,
                (call,),
                compiled,
            ) && match compiled {
                Err(failure) => {
                    &&& after == before
                    &&& result matches Err(error) && error.stands_for_failure(failure)
                },
                Ok((model, times)) => {
                    &&& after == after_store(
                        before,
                        (request.cache_key, model),
                        request.max_cache_entries as int,
                    )
                    &&& resident_run(model, request.input, request.measure_timing, Some(times), run, result)
                },
            },
    }
}

/// Runs a block that may be resident. A request that validation refuses, one without
/// weights for a model that is not resident, and one on a platform without the driver
/// leave the cache as it was.
pub fn run_cached_gated_gelu_ffn_f32<
    C,
    M: FnOnce(CompileCall<RunCachedGatedGeluFfnF32Weights>) -> Result<
        (C, RunGatedGeluFfnF32Timings),
        DriverFailure,
    >,
    R: FnOnce(&C, &[u32], MediaTekNnapiExecutionOptions) -> Result<
        MediaTekGatedGeluFfnOutput,
        MediaTekNnapiError,
    >,
>(
    cache: &mut Vec<(GatedGeluFfnF32CacheKey, C)>,
    request: RunCachedGatedGeluFfnF32Request<'_>,
    platform_supported: bool,
    compile: M,
    run: R,
) -> (result: Result<RunGatedGeluFfnF32Result, MediaTekRunError>)
    requires
        forall|call: CompileCall<RunCachedGatedGeluFfnF32Weights>| call_requires(compile, (call,)),
        forall|compiled: &C, options: MediaTekNnapiExecutionOptions|
            call_requires(run, (compiled, request.input, options)),
    ensures
        match request.fault() {
            Some(fault) => {
                &&& result matches Err(error) && error.reports(fault)
                &&& final(cache)@ == old(cache)@
            },
            None => if position_of(old(cache)@, request.cache_key, 0) is None
                && request.weights is None {
                &&& result matches Err(error) && error is CacheMissNeedsWeights
                &&& final(cache)@ == old(cache)@
            } else if !platform_supported {
                &&& result matches Err(error) && error is UnsupportedPlatform
                &&& final(cache)@ == old(cache)@
            } else {
                block_run(request, old(cache)@, compile, run, final(cache)@, result)
            },
        },
{
    match request.validate() {
        Ok(()) => {},
        Err(error) => return Err(error),
    }
    proof {
        law_position(cache@, request.cache_key, 0);
    }
    let resident: bool = cache_entry_position(cache.as_slice(), &request.cache_key).is_some();
    if !resident && request.weights.is_none() {
        return Err(MediaTekRunError::CacheMissNeedsWeights);
    }
    if !platform_supported {
        return Err(MediaTekRunError::UnsupportedPlatform);
    }
    let options = cached_execution_options(request.measure_timing);
    let ghost before = cache@;
    if touch_cache_entry(cache, &request.cache_key, request.max_cache_entries) {
        proof {
            law_hit_survives(
                before,
                position_of(before, request.cache_key, 0)->0,
                request.max_cache_entries as int,
            );
        }
        let latest: usize = cache.len() - 1;
        let answer = run(&cache[latest].1, request.input, options);
        return report_driver_answer(answer, None);
    }
    let weights = match request.weights {
        Some(weights) => weights,
        None => return Err(MediaTekRunError::CacheMissNeedsWeights),
    };
    let call = call_for(&request.cache_key, weights);
    let compiled = compile(call);
    match compiled {
        Err(failure) => Err(MediaTekRunError::from_failure(failure)),
        Ok((model, times)) => {
            store_cache_entry(cache, request.cache_key, model, request.max_cache_entries);
            let latest: usize = cache.len() - 1;
            let answer = run(&cache[latest].1, request.input, options);
            report_driver_answer(answer, Some(times))
        },
    }
}

/// What a batch is compiled from.
#[derive(Debug)]
pub struct BatchedCompileCall {
    pub block: CompileCall<RunCachedGatedGeluFfnF32Weights>,
    pub batch: usize,
    pub options: BatchedCompileOptions,
}

/// The times of a batch's run: those of its compilation count, its token hash too.
pub open spec fn batch_times(
    run: RunGatedGeluFfnF32Timings,
    compile: Option<RunGatedGeluFfnF32Timings>,
) -> RunGatedGeluFfnF32Timings {
    match compile {
        Some(compile) => RunGatedGeluFfnF32Timings {
            token_hash_ns: compile.token_hash_ns,
            ..with_compile_times(run, compile)
        },
        None => run,
    }
}

/// Whether `result` reports a run of the batch `compiled`.
pub open spec fn resident_batch_run<
    C,
    R: FnOnce(&C, &[u32], usize, MediaTekNnapiExecutionOptions) -> Result<
        MediaTekGatedGeluFfnOutput,
        MediaTekNnapiError,
    >,
>(
    compiled: C,
    input: &[u32],
    batch: usize,
    measure_timing: bool,
    compile: Option<RunGatedGeluFfnF32Timings>,
    run: R,
    result: Result<RunGatedGeluFfnF32Result, MediaTekRunError>,
) -> bool {
    exists|answer: Result<MediaTekGatedGeluFfnOutput, MediaTekNnapiError>| #[trigger]
        call_ensures(
            run,
            (&compiled, input, batch, MediaTekNnapiExecutionOptions { measure_timing }),
            answer,
        ) && match (answer, result) {
            (Ok(output), Ok(reported)) => reported == run_result(
                output,
                batch_times(output.timings, compile),
                compile is None,
            ),
            (Err(error), Err(reported)) => reported.stands_for(error),
            _ => false,
        }
}

fn report_batch_answer(
    answer: Result<MediaTekGatedGeluFfnOutput, MediaTekNnapiError>,
    compile: Option<RunGatedGeluFfnF32Timings>,
) -> (result: Result<RunGatedGeluFfnF32Result, MediaTekRunError>)
    ensures
        match (answer, result) {
            (Ok(output), Ok(reported)) => reported == run_result(
                output,
                batch_times(output.timings, compile),
                compile is None,
            ),
            (Err(error), Err(reported)) => reported.stands_for(error),
            _ => false,
        },
{
    let cache_hit: bool = compile.is_none();
    match answer {
        Ok(output) => Ok(
            run_gated_gelu_ffn_f32_result_from_batched_backend(output, cache_hit, compile),
        ),
        Err(error) => Err(MediaTekRunError::from_backend(error)),
    }
}

/// Whether a valid request for a batch on a platform with the driver leaves `after` in
/// the cache and comes to `result`. A batch is compiled without copies, with the
/// directory that `cache_dir` gives.
pub open spec fn batch_run<
    C,
    A: FnOnce() -> Option<String>,
    M: FnOnce(BatchedCompileCall) -> Result<(C, RunGatedGeluFfnF32Timings), DriverFailure>,
    R: FnOnce(&C, &[u32], usize, MediaTekNnapiExecutionOptions) -> Result<
        MediaTekGatedGeluFfnOutput,
        MediaTekNnapiError,
    >,
>(
    request: RunCachedGatedGeluFfnF32BatchedRequest<'_>,
    before: Seq<(GatedGeluFfnF32BatchedCacheKey, C)>,
    cache_dir: A,
    compile: M,
    run: R,
    after: Seq<(GatedGeluFfnF32BatchedCacheKey, C)>,
    result: Result<RunGatedGeluFfnF32Result, MediaTekRunError>,
) -> bool {
    let batch = request.cache_key.batch;
    match position_of(before, request.cache_key, 0) {
        Some(position) => {
            &&& after == after_hit(before, position, request.max_cache_entries as int)
            &&& resident_batch_run(
                before[position].1,
                request.input,
                batch,
                request.measure_timing,
                None,
                run,
                result,
            )
        },
        None => exists|
            call: BatchedCompileCall,
            compiled: Result<(C, RunGatedGeluFfnF32Timings), DriverFailure>,
        |
            {
                &&& compiles_for(call.block, request.cache_key.base, request.weights->0)
                &&& call.batch == batch
                &&& call.options.zero_copy
                &&& call_ensures(cache_dir, (), call.options.cache_dir)
                &&& #[trigger] call_ensures(compile, (call,), compiled)
                &&& match compiled {
                    Err(failure) => {
                        &&& after == before
                        &&& result matches Err(error) && error.stands_for_failure(failure)
                    },
                    Ok((model, times)) => {
                        &&& after == after_store(
                            before,
                            (request.cache_key, model),
                            request.max_cache_entries as int,
                        )
                        &&& resident_batch_run(
                            model,
                            request.input,
                            batch,
                            request.measure_timing,
                            Some(times),
                            run,
                            result,
                        )
                    },
                }
            },
    }
}

/// Runs a batch that may be resident.
pub fn run_cached_gated_gelu_ffn_f32_batched<
    C,
    A: FnOnce() -> Option<String>,
    M: FnOnce(BatchedCompileCall) -> Result<(C, RunGatedGeluFfnF32Timings), DriverFailure>,
    R: FnOnce(&C, &[u32], usize, MediaTekNnapiExecutionOptions) -> Result<
        MediaTekGatedGeluFfnOutput,
        MediaTekNnapiError,
    >,
>(
    cache: &mut Vec<(GatedGeluFfnF32BatchedCacheKey, C)>,
    request: RunCachedGatedGeluFfnF32BatchedRequest<'_>,
    platform_supported: bool,
    cache_dir: A,
    compile: M,
    run: R,
) -> (result: Result<RunGatedGeluFfnF32Result, MediaTekRunError>)
    requires
        request.input_countable(),
        call_requires(cache_dir, ()),
        forall|call: BatchedCompileCall| call_requires(compile, (call,)),
        forall|compiled: &C, batch: usize, options: MediaTekNnapiExecutionOptions|
            call_requires(run, (compiled, request.input, batch, options)),
    ensures
        match request.fault() {
            Some(fault) => {
                &&& result matches Err(error) && error.reports(fault)
                &&& final(cache)@ == old(cache)@
            },
            None => if position_of(old(cache)@, request.cache_key, 0) is None
                && request.weights is None {
                &&& result matches Err(error) && error is CacheMissNeedsWeights
                &&& final(cache)@ == old(cache)@
            } else if !platform_supported {
                &&& result matches Err(error) && error is UnsupportedPlatform
                &&& final(cache)@ == old(cache)@
            } else {
                batch_run(request, old(cache)@, cache_dir, compile, run, final(cache)@, result)
            },
        },
{
    match request.validate() {
        Ok(()) => {},
        Err(error) => return Err(error),
    }
    proof {
        law_position(cache@, request.cache_key, 0);
    }
    let resident: bool = cache_entry_position(cache.as_slice(), &request.cache_key).is_some();
    if !resident && request.weights.is_none() {
        return Err(MediaTekRunError::CacheMissNeedsWeights);
    }
    if !platform_supported {
        return Err(MediaTekRunError::UnsupportedPlatform);
    }
    let options = cached_execution_options(request.measure_timing);
    let batch: usize = request.cache_key.batch;
    let ghost before = cache@;
    if touch_cache_entry(cache, &request.cache_key, request.max_cache_entries) {
        proof {
            law_hit_survives(
                before,
                position_of(before, request.cache_key, 0)->0,
                request.max_cache_entries as int,
            );
        }
        let latest: usize = cache.len() - 1;
        let answer = run(&cache[latest].1, request.input, batch, options);
        return report_batch_answer(answer, None);
    }
    let weights = match request.weights {
        Some(weights) => weights,
        None => return Err(MediaTekRunError::CacheMissNeedsWeights),
    };
    let block = call_for(&request.cache_key.base, weights);
    let call = BatchedCompileCall {
        block,
        batch,
        options: BatchedCompileOptions { zero_copy: true, cache_dir: cache_dir() },
    };
    let compiled = compile(call);
    match compiled {
        Err(failure) => Err(MediaTekRunError::from_failure(failure)),
        Ok((model, times)) => {
            store_cache_entry(cache, request.cache_key, model, request.max_cache_entries);
            let latest: usize = cache.len() - 1;
            let answer = run(&cache[latest].1, request.input, batch, options);
            report_batch_answer(answer, Some(times))
        },
    }
}

/// Whether `result` reports a run of the quantized block `compiled`, whose input is
/// quantized with `params`.
pub open spec fn resident_quantized_run<
    P,
    C,
    R: FnOnce(&P, &C, &[u32], MediaTekNnapiExecutionOptions) -> Result<
        MediaTekGatedGeluFfnOutput,
        MediaTekNnapiError,
    >,
>(
    params: P,
    compiled: C,
    input: &[u32],
    measure_timing: bool,
    compile: Option<RunGatedGeluFfnF32Timings>,
    run: R,
    result: Result<RunGatedGeluFfnF32Result, MediaTekRunError>,
) -> bool {
    exists|answer: Result<MediaTekGatedGeluFfnOutput, MediaTekNnapiError>| #[trigger]
        call_ensures(
            run,
            (&params, &compiled, input, MediaTekNnapiExecutionOptions { measure_timing }),
            answer,
        ) && reported_run(driver_answer(answer), compile, compile is None, result)
}

/// Whether a valid request for a quantized block on a platform with the driver leaves
/// `after` in the cache and comes to `result`. Only a block that was quantized alike is
/// run; one that was quantized otherwise goes before the request's own is compiled,
/// whether that succeeds or not.
pub open spec fn quantized_block_run<
    P: Copy + PartialEq,
    C,
    M: FnOnce(CompileCall<RunCachedQuantizedGatedGeluFfnWeights<P>>) -> Result<
        (C, RunGatedGeluFfnF32Timings),
        DriverFailure,
    >,
    R: FnOnce(&P, &C, &[u32], MediaTekNnapiExecutionOptions) -> Result<
        MediaTekGatedGeluFfnOutput,
        MediaTekNnapiError,
    >,
>(
    request: RunCachedQuantizedGatedGeluFfnRequest<'_, P>,
    before: Seq<(GatedGeluFfnF32CacheKey, (P, C))>,
    compile: M,
    run: R,
    after: Seq<(GatedGeluFfnF32CacheKey, (P, C))>,
    result: Result<RunGatedGeluFfnF32Result, MediaTekRunError>,
) -> bool {
    let weights = request.weights->0;
    let params = weights.quant_params;
    let capacity = request.max_cache_entries as int;
    match quantized_position_of(before, request.cache_key, params, 0) {
        Some(position) => {
            &&& after == after_hit(before, position, capacity)
            &&& resident_quantized_run(
                before[position].1.0,
                before[position].1.1,
                request.input,
                request.measure_timing,
                None,
                run,
                result,
            )
        },
        None => exists|
            call: CompileCall<RunCachedQuantizedGatedGeluFfnWeights<P>>,
            compiled: Result<(C, RunGatedGeluFfnF32Timings), DriverFailure>,
        |
            compiles_for(call, request.cache_key, weights) && #[trigger] call_ensures(
                compile,
                (call,),
                compiled,
            ) && match compiled {
                Err(failure) => {
                    &&& after == without_key(before, request.cache_key)
                    &&& result matches Err(error) && error.stands_for_failure(failure)
                },
                Ok((model, times)) => {
                    &&& after == after_store(
                        without_key(before, request.cache_key),
                        (request.cache_key, (params, model)),
                        capacity,
                    )
                    &&& resident_quantized_run(
                        params,
                        model,
                        request.input,
                        request.measure_timing,
                        Some(times),
                        run,
                        result,
                    )
                },
            },
    }
}

/// Runs a quantized block that may be resident. The weights are needed in any case: they
/// say which quantization the resident model must have.
pub fn run_cached_quantized_gated_gelu_ffn<
    P: Copy + PartialEq,
    C,
    M: FnOnce(CompileCall<RunCachedQuantizedGatedGeluFfnWeights<P>>) -> Result<
        (C, RunGatedGeluFfnF32Timings),
        DriverFailure,
    >,
    R: FnOnce(&P, &C, &[u32], MediaTekNnapiExecutionOptions) -> Result<
        MediaTekGatedGeluFfnOutput,
        MediaTekNnapiError,
    >,
>(
    cache: &mut Vec<(GatedGeluFfnF32CacheKey, (P, C))>,
    request: RunCachedQuantizedGatedGeluFfnRequest<'_, P>,
    platform_supported: bool,
    compile: M,
    run: R,
) -> (result: Result<RunGatedGeluFfnF32Result, MediaTekRunError>)
    requires
        P::obeys_eq_spec(),
        forall|call: CompileCall<RunCachedQuantizedGatedGeluFfnWeights<P>>|
            call_requires(compile, (call,)),
        forall|params: &P, compiled: &C, options: MediaTekNnapiExecutionOptions|
            call_requires(run, (params, compiled, request.input, options)),
    ensures
        match request.fault() {
            Some(fault) => {
                &&& result matches Err(error) && error.reports(fault)
                &&& final(cache)@ == old(cache)@
            },
            None => if request.weights is None {
                &&& result matches Err(error) && error is CacheMissNeedsWeights
                &&& final(cache)@ == old(cache)@
            } else if !platform_supported {
                &&& result matches Err(error) && error is UnsupportedPlatform
                &&& final(cache)@ == old(cache)@
            } else {
                quantized_block_run(request, old(cache)@, compile, run, final(cache)@, result)
            },
        },
{
    match request.validate() {
        Ok(()) => {},
        Err(error) => return Err(error),
    }
    let weights = match request.weights {
        Some(weights) => weights,
        None => return Err(MediaTekRunError::CacheMissNeedsWeights),
    };
    if !platform_supported {
        return Err(MediaTekRunError::UnsupportedPlatform);
    }
    let options = cached_execution_options(request.measure_timing);
    let params: P = weights.quant_params;
    let ghost before = cache@;
    proof {
        law_quantized_position(before, request.cache_key, params, 0);
    }
    if touch_quantized_cache_entry(
        cache,
        &request.cache_key,
        &params,
        request.max_cache_entries,
    ) {
        proof {
            law_hit_survives(
                before,
                quantized_position_of(before, request.cache_key, params, 0)->0,
                request.max_cache_entries as int,
            );
        }
        let latest: usize = cache.len() - 1;
        let entry = &cache[latest].1;
        let answer = run(&entry.0, &entry.1, request.input, options);
        return report_driver_answer(answer, None);
    }
    let call = call_for(&request.cache_key, weights);
    let compiled = compile(call);
    match compiled {
        Err(failure) => Err(MediaTekRunError::from_failure(failure)),
        Ok((model, times)) => {
            store_cache_entry(
                cache,
                request.cache_key,
                (params, model),
                request.max_cache_entries,
            );
            let latest: usize = cache.len() - 1;
            let entry = &cache[latest].1;
            let answer = run(&entry.0, &entry.1, request.input, options);
            report_driver_answer(answer, Some(times))
        },
    }
}

/// After a run that succeeded the requested model is resident as the latest, so the next
/// request for it hits, and the cache is within the request's capacity.
pub proof fn law_requested_block_is_resident<
    C,
    M: FnOnce(CompileCall<RunCachedGatedGeluFfnF32Weights>) -> Result<
        (C, RunGatedGeluFfnF32Timings),
        DriverFailure,
    >,
    R: FnOnce(&C, &[u32], MediaTekNnapiExecutionOptions) -> Result<
        MediaTekGatedGeluFfnOutput,
        MediaTekNnapiError,
    >,
>(
    request: RunCachedGatedGeluFfnF32Request<'_>,
    before: Seq<(GatedGeluFfnF32CacheKey, C)>,
    compile: M,
    run: R,
    after: Seq<(GatedGeluFfnF32CacheKey, C)>,
    result: Result<RunGatedGeluFfnF32Result, MediaTekRunError>,
)
    requires
        request.fault() is None,
        block_run(request, before, compile, run, after, result),
        result is Ok,
    ensures
        0 < after.len() <= request.max_cache_entries,
        after.last().0.same(&request.cache_key),
        position_of(after, request.cache_key, 0) is Some,
        result->Ok_0.cache_hit == (position_of(before, request.cache_key, 0) is Some),
{
    law_position(before, request.cache_key, 0);
    match position_of(before, request.cache_key, 0) {
        Some(position) => {
            law_hit_survives(before, position, request.max_cache_entries as int);
        },
        None => {},
    }
    law_position(after, request.cache_key, 0);
    assert(after[after.len() - 1].0.eq_spec(&request.cache_key));
}

/// After a batch that ran it is resident as the latest, so the next request for it hits,
/// and the cache is within the request's capacity.
pub proof fn law_requested_batch_is_resident<
    C,
    A: FnOnce() -> Option<String>,
    M: FnOnce(BatchedCompileCall) -> Result<(C, RunGatedGeluFfnF32Timings), DriverFailure>,
    R: FnOnce(&C, &[u32], usize, MediaTekNnapiExecutionOptions) -> Result<
        MediaTekGatedGeluFfnOutput,
        MediaTekNnapiError,
    >,
>(
    request: RunCachedGatedGeluFfnF32BatchedRequest<'_>,
    before: Seq<(GatedGeluFfnF32BatchedCacheKey, C)>,
    cache_dir: A,
    compile: M,
    run: R,
    after: Seq<(GatedGeluFfnF32BatchedCacheKey, C)>,
    result: Result<RunGatedGeluFfnF32Result, MediaTekRunError>,
)
    requires
        request.fault() is None,
        batch_run(request, before, cache_dir, compile, run, after, result),
        result is Ok,
    ensures
        0 < after.len() <= request.max_cache_entries,
        after.last().0.same(&request.cache_key),
        position_of(after, request.cache_key, 0) is Some,
        result->Ok_0.cache_hit == (position_of(before, request.cache_key, 0) is Some),
{
    law_position(before, request.cache_key, 0);
    match position_of(before, request.cache_key, 0) {
        Some(position) => {
            law_hit_survives(before, position, request.max_cache_entries as int);
        },
        None => {},
    }
    law_position(after, request.cache_key, 0);
    assert(after[after.len() - 1].0.eq_spec(&request.cache_key));
}

/// After a quantized run that succeeded a model under the request's key, quantized as the
/// request asks, is resident as the latest, so the next request for it hits if its
/// parameters equal themselves; and the cache is within the request's capacity.
pub proof fn law_requested_quantized_block_is_resident<
    P: Copy + PartialEq,
    C,
    M: FnOnce(CompileCall<RunCachedQuantizedGatedGeluFfnWeights<P>>) -> Result<
        (C, RunGatedGeluFfnF32Timings),
        DriverFailure,
    >,
    R: FnOnce(&P, &C, &[u32], MediaTekNnapiExecutionOptions) -> Result<
        MediaTekGatedGeluFfnOutput,
        MediaTekNnapiError,
    >,
>(
    request: RunCachedQuantizedGatedGeluFfnRequest<'_, P>,
    before: Seq<(GatedGeluFfnF32CacheKey, (P, C))>,
    compile: M,
    run: R,
    after: Seq<(GatedGeluFfnF32CacheKey, (P, C))>,
    result: Result<RunGatedGeluFfnF32Result, MediaTekRunError>,
)
    requires
        request.fault() is None,
        quantized_block_run(request, before, compile, run, after, result),
        result is Ok,
    ensures
        0 < after.len() <= request.max_cache_entries,
        after.last().0.same(&request.cache_key),
        ({
            let params = request.weights->0.quant_params;
            &&& after.last().1.0 == params || after.last().1.0.eq_spec(&params)
            &&& params.eq_spec(&params) ==> quantized_position_of(
                after,
                request.cache_key,
                params,
                0,
            ) is Some
        }),
        result->Ok_0.cache_hit == (quantized_position_of(
            before,
            request.cache_key,
            request.weights->0.quant_params,
            0,
        ) is Some),
{
    let params = request.weights->0.quant_params;
    law_quantized_position(before, request.cache_key, params, 0);
    match quantized_position_of(before, request.cache_key, params, 0) {
        Some(position) => {
            law_hit_survives(before, position, request.max_cache_entries as int);
        },
        None => {},
    }
    law_quantized_position(after, request.cache_key, params, 0);
    assert(after[after.len() - 1].0.same(&request.cache_key));
}

/// A run of a block keeps at most one model under each key, whether it succeeds or not.
pub proof fn law_block_runs_keep_one_per_key<
    C,
    M: FnOnce(CompileCall<RunCachedGatedGeluFfnF32Weights>) -> Result<
        (C, RunGatedGeluFfnF32Timings),
        DriverFailure,
    >,
    R: FnOnce(&C, &[u32], MediaTekNnapiExecutionOptions) -> Result<
        MediaTekGatedGeluFfnOutput,
        MediaTekNnapiError,
    >,
>(
    request: RunCachedGatedGeluFfnF32Request<'_>,
    before: Seq<(GatedGeluFfnF32CacheKey, C)>,
    compile: M,
    run: R,
    after: Seq<(GatedGeluFfnF32CacheKey, C)>,
    result: Result<RunGatedGeluFfnF32Result, MediaTekRunError>,
)
    requires
        one_per_key(before),
        block_run(request, before, compile, run, after, result),
    ensures
        one_per_key(after),
{
    let capacity = request.max_cache_entries as int;
    law_cache_keys_compare_both_ways();
    law_position(before, request.cache_key, 0);
    match position_of(before, request.cache_key, 0) {
        Some(position) => {
            law_hit_keeps_one_per_key(before, position, capacity);
        },
        None => {
            if after != before {
                let model = choose|model: C|
                    after == #[trigger] after_store(before, (request.cache_key, model), capacity);
                law_store_keeps_one_per_key(before, request.cache_key, model, capacity);
            }
        },
    }
}

/// A run of a batch keeps at most one model under each key, whether it succeeds or not.
pub proof fn law_batch_runs_keep_one_per_key<
    C,
    A: FnOnce() -> Option<String>,
    M: FnOnce(BatchedCompileCall) -> Result<(C, RunGatedGeluFfnF32Timings), DriverFailure>,
    R: FnOnce(&C, &[u32], usize, MediaTekNnapiExecutionOptions) -> Result<
        MediaTekGatedGeluFfnOutput,
        MediaTekNnapiError,
    >,
>(
    request: RunCachedGatedGeluFfnF32BatchedRequest<'_>,
    before: Seq<(GatedGeluFfnF32BatchedCacheKey, C)>,
    cache_dir: A,
    compile: M,
    run: R,
    after: Seq<(GatedGeluFfnF32BatchedCacheKey, C)>,
    result: Result<RunGatedGeluFfnF32Result, MediaTekRunError>,
)
    requires
        one_per_key(before),
        batch_run(request, before, cache_dir, compile, run, after, result),
    ensures
        one_per_key(after),
{
    let capacity = request.max_cache_entries as int;
    law_cache_keys_compare_both_ways();
    law_position(before, request.cache_key, 0);
    match position_of(before, request.cache_key, 0) {
        Some(position) => {
            law_hit_keeps_one_per_key(before, position, capacity);
        },
        None => {
            if after != before {
                let model = choose|model: C|
                    after == #[trigger] after_store(before, (request.cache_key, model), capacity);
                law_store_keeps_one_per_key(before, request.cache_key, model, capacity);
            }
        },
    }
}

/// A run of a quantized block keeps at most one model under each key, whether it succeeds
/// or not.
pub proof fn law_quantized_runs_keep_one_per_key<
    P: Copy + PartialEq,
    C,
    M: FnOnce(CompileCall<RunCachedQuantizedGatedGeluFfnWeights<P>>) -> Result<
        (C, RunGatedGeluFfnF32Timings),
        DriverFailure,
    >,
    R: FnOnce(&P, &C, &[u32], MediaTekNnapiExecutionOptions) -> Result<
        MediaTekGatedGeluFfnOutput,
        MediaTekNnapiError,
    >,
>(
    request: RunCachedQuantizedGatedGeluFfnRequest<'_, P>,
    before: Seq<(GatedGeluFfnF32CacheKey, (P, C))>,
    compile: M,
    run: R,
    after: Seq<(GatedGeluFfnF32CacheKey, (P, C))>,
    result: Result<RunGatedGeluFfnF32Result, MediaTekRunError>,
)
    requires
        one_per_key(before),
        quantized_block_run(request, before, compile, run, after, result),
    ensures
        one_per_key(after),
{
    let capacity = request.max_cache_entries as int;
    let params = request.weights->0.quant_params;
    law_cache_keys_compare_both_ways();
    law_cache_keys_compare_through();
    law_quantized_position(before, request.cache_key, params, 0);
    match quantized_position_of(before, request.cache_key, params, 0) {
        Some(position) => {
            law_hit_keeps_one_per_key(before, position, capacity);
        },
        None => {
            let left = without_key(before, request.cache_key);
            law_removed_key_is_gone(before, request.cache_key);
            if after != left {
                let model = choose|model: C|
                    after == #[trigger] after_store(
                        left,
                        (request.cache_key, (params, model)),
                        capacity,
                    );
                law_store_keeps_one_per_key(left, request.cache_key, (params, model), capacity);
            }
        },
    }
}

/// Whether two keys name the same block on the same device, compiled from the same loaded
/// weights.
pub open spec fn same_block(a: GatedGeluFfnF32CacheKey, b: GatedGeluFfnF32CacheKey) -> bool {
    &&& a.device_name_substring@ == b.device_name_substring@
    &&& a.layer_idx == b.layer_idx
    &&& (a.input_size, a.ffn_inner_size, a.output_size) == (
        b.input_size,
        b.ffn_inner_size,
        b.output_size,
    )
    &&& a.gate == b.gate
    &&& a.up == b.up
    &&& a.down == b.down
}

/// A run of a block reports a hit exactly if a model of the same block and weights was
/// resident; it ran that model, and what it reports is that model's output. Else the
/// request's own weights were compiled for its sizes and device, and it ran what came of
/// that.
pub proof fn law_a_block_runs_its_own_weights<
    C,
    M: FnOnce(CompileCall<RunCachedGatedGeluFfnF32Weights>) -> Result<
        (C, RunGatedGeluFfnF32Timings),
        DriverFailure,
    >,
    R: FnOnce(&C, &[u32], MediaTekNnapiExecutionOptions) -> Result<
        MediaTekGatedGeluFfnOutput,
        MediaTekNnapiError,
    >,
>(
    request: RunCachedGatedGeluFfnF32Request<'_>,
    before: Seq<(GatedGeluFfnF32CacheKey, C)>,
    compile: M,
    run: R,
    after: Seq<(GatedGeluFfnF32CacheKey, C)>,
    result: Result<RunGatedGeluFfnF32Result, MediaTekRunError>,
)
    requires
        request.weights is Some,
        request.max_cache_entries > 0,
        block_run(request, before, compile, run, after, result),
        result is Ok,
    ensures
        result->Ok_0.cache_hit <==> exists|k: int|
            0 <= k < before.len() && same_block((#[trigger] before[k]).0, request.cache_key),
        result->Ok_0.cache_hit ==> exists|k: int, answer: MediaTekGatedGeluFfnOutput|
            0 <= k < before.len() && same_block(before[k].0, request.cache_key)
                && #[trigger] call_ensures(
                run,
                (
                    &before[k].1,
                    request.input,
                    MediaTekNnapiExecutionOptions { measure_timing: request.measure_timing },
                ),
                Ok::<MediaTekGatedGeluFfnOutput, MediaTekNnapiError>(answer),
            ) && result->Ok_0.output == answer.output,
        !result->Ok_0.cache_hit ==> exists|
            call: CompileCall<RunCachedGatedGeluFfnF32Weights>,
            model: C,
            times: RunGatedGeluFfnF32Timings,
        |
            #[trigger] call_ensures(
                compile,
                (call,),
                Ok::<(C, RunGatedGeluFfnF32Timings), DriverFailure>((model, times)),
            ) && request.weights == Some(call.weights) && call.shape.input_size
                == request.cache_key.input_size && call.shape.ffn_inner_size
                == request.cache_key.ffn_inner_size && call.shape.output_size
                == request.cache_key.output_size && call.device_name@ == trimmed(
                request.cache_key.device_name_substring@,
            ) && after.last().1 == model && result->Ok_0.timings.compilation_ns
                == times.compilation_ns && exists|answer: MediaTekGatedGeluFfnOutput| #[trigger]
                call_ensures(
                    run,
                    (
                        &model,
                        request.input,
                        MediaTekNnapiExecutionOptions { measure_timing: request.measure_timing },
                    ),
                    Ok::<MediaTekGatedGeluFfnOutput, MediaTekNnapiError>(answer),
                ) && result->Ok_0.output == answer.output,
{
    let options = MediaTekNnapiExecutionOptions { measure_timing: request.measure_timing };
    law_position(before, request.cache_key, 0);
    match position_of(before, request.cache_key, 0) {
        Some(position) => {
            let answer = choose|answer: Result<MediaTekGatedGeluFfnOutput, MediaTekNnapiError>|
                #[trigger] call_ensures(run, (&before[position].1, request.input, options), answer)
                    && reported_run(driver_answer(answer), None, true, result);
            let given = answer->Ok_0;
            assert(answer == Ok::<MediaTekGatedGeluFfnOutput, MediaTekNnapiError>(given));
            assert(same_block(before[position].0, request.cache_key));
            assert(call_ensures(
                run,
                (&before[position].1, request.input, options),
                Ok::<MediaTekGatedGeluFfnOutput, MediaTekNnapiError>(given),
            ));
        },
        None => {
            let (call, compiled) = choose|
                call: CompileCall<RunCachedGatedGeluFfnF32Weights>,
                compiled: Result<(C, RunGatedGeluFfnF32Timings), DriverFailure>,
            |
                compiles_for(call, request.cache_key, request.weights->0)
                    && #[trigger] call_ensures(compile, (call,), compiled) && match compiled {
                    Err(failure) => {
                        &&& after == before
                        &&& result matches Err(error) && error.stands_for_failure(failure)
                    },
                    Ok((model, times)) => {
                        &&& after == after_store(
                            before,
                            (request.cache_key, model),
                            request.max_cache_entries as int,
                        )
                        &&& resident_run(
                            model,
                            request.input,
                            request.measure_timing,
                            Some(times),
                            run,
                            result,
                        )
                    },
                };
            let (model, times) = compiled->Ok_0;
            assert(compiled == Ok::<(C, RunGatedGeluFfnF32Timings), DriverFailure>((model, times)));
            let answer = choose|answer: Result<MediaTekGatedGeluFfnOutput, MediaTekNnapiError>|
                #[trigger] call_ensures(run, (&model, request.input, options), answer)
                    && reported_run(driver_answer(answer), Some(times), false, result);
            let given = answer->Ok_0;
            assert(answer == Ok::<MediaTekGatedGeluFfnOutput, MediaTekNnapiError>(given));
        },
    }
}

/// A run of a batch reports a hit exactly if a model of the same block, weights and batch
/// was resident, and it ran that model. Else it compiled the request's own weights, without
/// copies, for its batch, and ran what came of that.
pub proof fn law_a_batch_runs_its_own_weights<
    C,
    A: FnOnce() -> Option<String>,
    M: FnOnce(BatchedCompileCall) -> Result<(C, RunGatedGeluFfnF32Timings), DriverFailure>,
    R: FnOnce(&C, &[u32], usize, MediaTekNnapiExecutionOptions) -> Result<
        MediaTekGatedGeluFfnOutput,
        MediaTekNnapiError,
    >,
>(
    request: RunCachedGatedGeluFfnF32BatchedRequest<'_>,
    before: Seq<(GatedGeluFfnF32BatchedCacheKey, C)>,
    cache_dir: A,
    compile: M,
    run: R,
    after: Seq<(GatedGeluFfnF32BatchedCacheKey, C)>,
    result: Result<RunGatedGeluFfnF32Result, MediaTekRunError>,
)
    requires
        request.weights is Some,
        request.max_cache_entries > 0,
        batch_run(request, before, cache_dir, compile, run, after, result),
        result is Ok,
    ensures
        result->Ok_0.cache_hit <==> exists|k: int|
            0 <= k < before.len() && same_block(
                (#[trigger] before[k]).0.base,
                request.cache_key.base,
            ) && before[k].0.batch == request.cache_key.batch,
        result->Ok_0.cache_hit ==> exists|k: int, answer: MediaTekGatedGeluFfnOutput|
            0 <= k < before.len() && same_block(before[k].0.base, request.cache_key.base)
                && before[k].0.batch == request.cache_key.batch && #[trigger] call_ensures(
                run,
                (
                    &before[k].1,
                    request.input,
                    request.cache_key.batch,
                    MediaTekNnapiExecutionOptions { measure_timing: request.measure_timing },
                ),
                Ok::<MediaTekGatedGeluFfnOutput, MediaTekNnapiError>(answer),
            ) && result->Ok_0.output == answer.output,
        !result->Ok_0.cache_hit ==> exists|
            call: BatchedCompileCall,
            model: C,
            times: RunGatedGeluFfnF32Timings,
        |
            #[trigger] call_ensures(
                compile,
                (call,),
                Ok::<(C, RunGatedGeluFfnF32Timings), DriverFailure>((model, times)),
            ) && request.weights == Some(call.block.weights) && call.batch
                == request.cache_key.batch && call.options.zero_copy && call_ensures(
                cache_dir,
                (),
                call.options.cache_dir,
            ) && call.block.shape.input_size == request.cache_key.base.input_size
                && call.block.shape.ffn_inner_size == request.cache_key.base.ffn_inner_size
                && call.block.shape.output_size == request.cache_key.base.output_size
                && call.block.device_name@ == trimmed(
                request.cache_key.base.device_name_substring@,
            ) && after.last().1 == model && result->Ok_0.timings.token_hash_ns
                == times.token_hash_ns && result->Ok_0.timings.compilation_ns
                == times.compilation_ns,
{
    let options = MediaTekNnapiExecutionOptions { measure_timing: request.measure_timing };
    let batch = request.cache_key.batch;
    law_position(before, request.cache_key, 0);
    match position_of(before, request.cache_key, 0) {
        Some(position) => {
            let answer = choose|answer: Result<MediaTekGatedGeluFfnOutput, MediaTekNnapiError>|
                #[trigger] call_ensures(
                    run,
                    (&before[position].1, request.input, batch, options),
                    answer,
                ) && match (answer, result) {
                    (Ok(output), Ok(reported)) => reported == run_result(
                        output,
                        batch_times(output.timings, None),
                        true,
                    ),
                    (Err(error), Err(reported)) => reported.stands_for(error),
                    _ => false,
                };
            let given = answer->Ok_0;
            assert(answer == Ok::<MediaTekGatedGeluFfnOutput, MediaTekNnapiError>(given));
            assert(same_block(before[position].0.base, request.cache_key.base));
        },
        None => {
            let (call, compiled) = choose|
                call: BatchedCompileCall,
                compiled: Result<(C, RunGatedGeluFfnF32Timings), DriverFailure>,
            |
                {
                    &&& compiles_for(call.block, request.cache_key.base, request.weights->0)
                    &&& call.batch == batch
                    &&& call.options.zero_copy
                    &&& call_ensures(cache_dir, (), call.options.cache_dir)
                    &&& #[trigger] call_ensures(compile, (call,), compiled)
                    &&& match compiled {
                        Err(failure) => {
                            &&& after == before
                            &&& result matches Err(error) && error.stands_for_failure(failure)
                        },
                        Ok((model, times)) => {
                            &&& after == after_store(
                                before,
                                (request.cache_key, model),
                                request.max_cache_entries as int,
                            )
                            &&& resident_batch_run(
                                model,
                                request.input,
                                batch,
                                request.measure_timing,
                                Some(times),
                                run,
                                result,
                            )
                        },
                    }
                };
            let (model, times) = compiled->Ok_0;
            assert(compiled == Ok::<(C, RunGatedGeluFfnF32Timings), DriverFailure>((model, times)));
        },
    }
}

/// A run of a quantized block reports a hit exactly if a model of the same block and
/// weights that was quantized alike was resident, and it ran that model with its own
/// parameters. Else it compiled the request's own weights and ran what came of that with
/// the request's parameters.
pub proof fn law_a_quantized_block_runs_its_own_weights<
    P: Copy + PartialEq,
    C,
    M: FnOnce(CompileCall<RunCachedQuantizedGatedGeluFfnWeights<P>>) -> Result<
        (C, RunGatedGeluFfnF32Timings),
        DriverFailure,
    >,
    R: FnOnce(&P, &C, &[u32], MediaTekNnapiExecutionOptions) -> Result<
        MediaTekGatedGeluFfnOutput,
        MediaTekNnapiError,
    >,
>(
    request: RunCachedQuantizedGatedGeluFfnRequest<'_, P>,
    before: Seq<(GatedGeluFfnF32CacheKey, (P, C))>,
    compile: M,
    run: R,
    after: Seq<(GatedGeluFfnF32CacheKey, (P, C))>,
    result: Result<RunGatedGeluFfnF32Result, MediaTekRunError>,
)
    requires
        request.weights is Some,
        request.max_cache_entries > 0,
        quantized_block_run(request, before, compile, run, after, result),
        result is Ok,
    ensures
        result->Ok_0.cache_hit <==> exists|k: int|
            0 <= k < before.len() && same_block((#[trigger] before[k]).0, request.cache_key)
                && before[k].1.0.eq_spec(&request.weights->0.quant_params),
        result->Ok_0.cache_hit ==> exists|k: int, answer: MediaTekGatedGeluFfnOutput|
            0 <= k < before.len() && same_block(before[k].0, request.cache_key)
                && before[k].1.0.eq_spec(&request.weights->0.quant_params)
                && #[trigger] call_ensures(
                run,
                (
                    &before[k].1.0,
                    &before[k].1.1,
                    request.input,
                    MediaTekNnapiExecutionOptions { measure_timing: request.measure_timing },
                ),
                Ok::<MediaTekGatedGeluFfnOutput, MediaTekNnapiError>(answer),
            ) && result->Ok_0.output == answer.output,
        !result->Ok_0.cache_hit ==> exists|
            call: CompileCall<RunCachedQuantizedGatedGeluFfnWeights<P>>,
            model: C,
            times: RunGatedGeluFfnF32Timings,
        |
            #[trigger] call_ensures(
                compile,
                (call,),
                Ok::<(C, RunGatedGeluFfnF32Timings), DriverFailure>((model, times)),
            ) && request.weights == Some(call.weights) && call.shape.input_size
                == request.cache_key.input_size && call.shape.ffn_inner_size
                == request.cache_key.ffn_inner_size && call.shape.output_size
                == request.cache_key.output_size && call.device_name@ == trimmed(
                request.cache_key.device_name_substring@,
            ) && after.last().1 == (call.weights.quant_params, model),
{
    let options = MediaTekNnapiExecutionOptions { measure_timing: request.measure_timing };
    let params = request.weights->0.quant_params;
    law_quantized_position(before, request.cache_key, params, 0);
    match quantized_position_of(before, request.cache_key, params, 0) {
        Some(position) => {
            let answer = choose|answer: Result<MediaTekGatedGeluFfnOutput, MediaTekNnapiError>|
                #[trigger] call_ensures(
                    run,
                    (&before[position].1.0, &before[position].1.1, request.input, options),
                    answer,
                ) && reported_run(driver_answer(answer), None, true, result);
            let given = answer->Ok_0;
            assert(answer == Ok::<MediaTekGatedGeluFfnOutput, MediaTekNnapiError>(given));
            assert(same_block(before[position].0, request.cache_key));
        },
        None => {
            let left = without_key(before, request.cache_key);
            let (call, compiled) = choose|
                call: CompileCall<RunCachedQuantizedGatedGeluFfnWeights<P>>,
                compiled: Result<(C, RunGatedGeluFfnF32Timings), DriverFailure>,
            |
                compiles_for(call, request.cache_key, request.weights->0)
                    && #[trigger] call_ensures(compile, (call,), compiled) && match compiled {
                    Err(failure) => {
                        &&& after == left
                        &&& result matches Err(error) && error.stands_for_failure(failure)
                    },
                    Ok((model, times)) => {
                        &&& after == after_store(
                            left,
                            (request.cache_key, (params, model)),
                            request.max_cache_entries as int,
                        )
                        &&& resident_quantized_run(
                            params,
                            model,
                            request.input,
                            request.measure_timing,
                            Some(times),
                            run,
                            result,
                        )
                    },
                };
            let (model, times) = compiled->Ok_0;
            assert(compiled == Ok::<(C, RunGatedGeluFfnF32Timings), DriverFailure>((model, times)));
        },
    }
}

/// A batch's run that had to compile takes building, querying, compiling and the token hash
/// from the compilation, and the execution from the run; one that did not takes all from the
/// run.
pub proof fn law_where_the_times_of_a_batch_come_from(
    run: RunGatedGeluFfnF32Timings,
    compile: RunGatedGeluFfnF32Timings,
)
    ensures
        batch_times(run, None) == run,
        batch_times(run, Some(compile)).model_build_ns == compile.model_build_ns,
        batch_times(run, Some(compile)).supported_ops_query_ns == compile.supported_ops_query_ns,
        batch_times(run, Some(compile)).compilation_ns == compile.compilation_ns,
        batch_times(run, Some(compile)).token_hash_ns == compile.token_hash_ns,
        batch_times(run, Some(compile)).execution_setup_ns == run.execution_setup_ns,
        batch_times(run, Some(compile)).execution_compute_ns == run.execution_compute_ns,
{
}

/// What a driver gives is handed on as its output, and what it fails with as the driver's
/// failure.
pub proof fn law_driver_answers_are_handed_on(
    answer: Result<MediaTekGatedGeluFfnOutput, MediaTekNnapiError>,
)
    ensures
        answer matches Ok(output) ==> driver_answer(answer) == Ok::<_, DriverFailure>(output),
        answer matches Err(error) ==> driver_answer(answer) == Err::<MediaTekGatedGeluFfnOutput, _>(
            DriverFailure::Driver(error),
        ),
{
}

} // verus!
