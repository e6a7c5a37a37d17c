//! Runs on the NPU: what happens before the driver is called, and what is made of
//! its answer.

use crate::mediatek::error::{
    invalid_shape, DriverFailure, MediaTekNnapiError, MediaTekProbeError, MediaTekRunError,
    RequestFault,
};
use crate::mediatek::requests::{
    MediaTekGatedGeluFfnShape, ProbeGatedGeluFfnF32Request, RunCachedQuantizedGatedGeluFfnWeights,
    RunGatedGeluFfnF32Request, RunQuantizedGatedGeluFfnStageProbeRequest,
};
use crate::text::{is_blank, trim_text, trimmed};
use vstd::prelude::*;

verus! {

/// How long the stages of a run took.
#[derive(Debug, Clone, Copy, PartialEq, Eq, Structural)]
pub struct RunGatedGeluFfnF32Timings {
    pub model_build_ns: u64,
    pub supported_ops_query_ns: u64,
    pub compilation_ns: u64,
    pub execution_setup_ns: u64,
    pub execution_compute_ns: u64,
    pub token_hash_ns: u64,
}

impl Default for RunGatedGeluFfnF32Timings {
    fn default() -> (timings: Self)
        ensures
            timings == (RunGatedGeluFfnF32Timings {
                model_build_ns: 0,
                supported_ops_query_ns: 0,
                compilation_ns: 0,
                execution_setup_ns: 0,
                execution_compute_ns: 0,
                token_hash_ns: 0,
            }),
    {
        RunGatedGeluFfnF32Timings {
            model_build_ns: 0,
            supported_ops_query_ns: 0,
            compilation_ns: 0,
            execution_setup_ns: 0,
            execution_compute_ns: 0,
            token_hash_ns: 0,
        }
    }
}

/// What the driver says of a run.
#[derive(Debug, Clone, PartialEq)]
pub struct MediaTekGatedGeluFfnOutput {
    pub output: Vec<u32>,
    pub device_name: String,
    pub device_type: i32,
    pub device_feature_level: i64,
    pub device_version: String,
    pub supported_ops: Vec<(&'static str, bool)>,
    pub duration_hardware_ns: Option<u64>,
    pub duration_driver_ns: Option<u64>,
    pub timings: RunGatedGeluFfnF32Timings,
}

/// The result of a run.
#[derive(Debug, Clone, PartialEq)]
pub struct RunGatedGeluFfnF32Result {
    pub output: Vec<u32>,
    pub chosen_device_name: String,
    pub chosen_device_type: i32,
    pub chosen_device_feature_level: i64,
    pub chosen_device_version: String,
    pub supported_ops: Vec<(&'static str, bool)>,
    pub duration_hardware_ns: Option<u64>,
    pub duration_driver_ns: Option<u64>,
    pub timings: RunGatedGeluFfnF32Timings,
    pub cache_hit: bool,
}

/// The result of a trial run.
#[derive(Debug, Clone, PartialEq)]
pub struct ProbeGatedGeluFfnF32Result {
    pub output: Vec<u32>,
    pub chosen_device_name: String,
    pub chosen_device_type: i32,
    pub chosen_device_feature_level: i64,
    pub chosen_device_version: String,
    pub supported_ops: Vec<(&'static str, bool)>,
    pub duration_hardware_ns: Option<u64>,
    pub duration_driver_ns: Option<u64>,
    pub timings: RunGatedGeluFfnF32Timings,
    pub cache_hit: bool,
}

/// What a run reports of the driver's answer.
pub open spec fn run_result(
    answer: MediaTekGatedGeluFfnOutput,
    timings: RunGatedGeluFfnF32Timings,
    cache_hit: bool,
) -> RunGatedGeluFfnF32Result {
    RunGatedGeluFfnF32Result {
        output: answer.output,
        chosen_device_name: answer.device_name,
        chosen_device_type: answer.device_type,
        chosen_device_feature_level: answer.device_feature_level,
        chosen_device_version: answer.device_version,
        supported_ops: answer.supported_ops,
        duration_hardware_ns: answer.duration_hardware_ns,
        duration_driver_ns: answer.duration_driver_ns,
        timings,
        cache_hit,
    }
}

/// The times of a run that had to compile first: building, querying and compiling
/// as the compilation took, the rest as the run took.
pub open spec fn with_compile_times(
    run: RunGatedGeluFfnF32Timings,
    compile: RunGatedGeluFfnF32Timings,
) -> RunGatedGeluFfnF32Timings {
    RunGatedGeluFfnF32Timings {
        model_build_ns: compile.model_build_ns,
        supported_ops_query_ns: compile.supported_ops_query_ns,
        compilation_ns: compile.compilation_ns,
        ..run
    }
}

/// What is reported of a run's answer or of its failure.
pub open spec fn reported_run(
    answer: Result<MediaTekGatedGeluFfnOutput, DriverFailure>,
    compile: Option<RunGatedGeluFfnF32Timings>,
    cache_hit: bool,
    result: Result<RunGatedGeluFfnF32Result, MediaTekRunError>,
) -> bool {
    match (answer, result) {
        (Ok(answer), Ok(result)) => result == run_result(
            answer,
            match compile {
                Some(compile) => with_compile_times(answer.timings, compile),
                None => answer.timings,
            },
            cache_hit,
        ),
        (Err(failure), Err(reported)) => reported.stands_for_failure(failure),
        _ => false,
    }
}

/// Reports a run; `compile` holds the times of the compilation just before it.
pub fn report_run(
    answer: Result<MediaTekGatedGeluFfnOutput, DriverFailure>,
    compile: Option<RunGatedGeluFfnF32Timings>,
    cache_hit: bool,
) -> (result: Result<RunGatedGeluFfnF32Result, MediaTekRunError>)
    ensures
        reported_run(answer, compile, cache_hit, result),
{
    match answer {
        Err(failure) => Err(MediaTekRunError::from_failure(failure)),
        Ok(answer) => {
            let mut timings = answer.timings;
            if let Some(compile) = compile {
                timings.model_build_ns = compile.model_build_ns;
                timings.supported_ops_query_ns = compile.supported_ops_query_ns;
                timings.compilation_ns = compile.compilation_ns;
            }
            Ok(
                RunGatedGeluFfnF32Result {
                    output: answer.output,
                    chosen_device_name: answer.device_name,
                    chosen_device_type: answer.device_type,
                    chosen_device_feature_level: answer.device_feature_level,
                    chosen_device_version: answer.device_version,
                    supported_ops: answer.supported_ops,
                    duration_hardware_ns: answer.duration_hardware_ns,
                    duration_driver_ns: answer.duration_driver_ns,
                    timings,
                    cache_hit,
                },
            )
        },
    }
}

/// Whether `result` is what comes of a request: one that validation refuses never
/// reaches the driver, which gets the request and the device's name without white space
/// around it.
pub open spec fn run_answers<
    'a,
    D: FnOnce(&RunGatedGeluFfnF32Request<'a>, &str) -> Result<
        MediaTekGatedGeluFfnOutput,
        DriverFailure,
    >,
>(
    request: RunGatedGeluFfnF32Request<'a>,
    driver: D,
    result: Result<RunGatedGeluFfnF32Result, MediaTekRunError>,
) -> bool {
    match request.fault() {
        Some(fault) => result matches Err(error) && error.reports(fault),
        None => exists|name: &str, answer: Result<MediaTekGatedGeluFfnOutput, DriverFailure>|
            name@ == trimmed(request.device_name_substring@) && #[trigger] call_ensures(
                driver,
                (&request, name),
                answer,
            ) && reported_run(answer, None, false, result),
    }
}

/// Runs one block.
pub fn run_gated_gelu_ffn_f32<
    'a,
    D: FnOnce(&RunGatedGeluFfnF32Request<'a>, &str) -> Result<
        MediaTekGatedGeluFfnOutput,
        DriverFailure,
    >,
>(request: RunGatedGeluFfnF32Request<'a>, driver: D) -> (result: Result<
    RunGatedGeluFfnF32Result,
    MediaTekRunError,
>)
    requires
        forall|name: &str| call_requires(driver, (&request, name)),
    ensures
        run_answers(request, driver, result),
{
    match request.validate() {
        Ok(()) => {},
        Err(error) => return Err(error),
    }
    let name: &str = trim_text(request.device_name_substring.as_str());
    let answer = driver(&request, name);
    report_run(answer, None, false)
}

/// Whether `result` says the same as `run`.
pub open spec fn same_as_run(
    run: Result<RunGatedGeluFfnF32Result, MediaTekRunError>,
    result: Result<ProbeGatedGeluFfnF32Result, MediaTekProbeError>,
) -> bool {
    match (run, result) {
        (Ok(run), Ok(result)) => result == (ProbeGatedGeluFfnF32Result {
            output: run.output,
            chosen_device_name: run.chosen_device_name,
            chosen_device_type: run.chosen_device_type,
            chosen_device_feature_level: run.chosen_device_feature_level,
            chosen_device_version: run.chosen_device_version,
            supported_ops: run.supported_ops,
            duration_hardware_ns: run.duration_hardware_ns,
            duration_driver_ns: run.duration_driver_ns,
            timings: run.timings,
            cache_hit: run.cache_hit,
        }),
        (Err(error), Err(reported)) => error == reported,
        _ => false,
    }
}

/// Tries one block: the same as a run.
pub fn probe_gated_gelu_ffn_f32<
    'a,
    D: FnOnce(&RunGatedGeluFfnF32Request<'a>, &str) -> Result<
        MediaTekGatedGeluFfnOutput,
        DriverFailure,
    >,
>(request: ProbeGatedGeluFfnF32Request<'a>, driver: D) -> (result: Result<
    ProbeGatedGeluFfnF32Result,
    MediaTekProbeError,
>)
    requires
        forall|run: &RunGatedGeluFfnF32Request<'a>, name: &str| call_requires(driver, (run, name)),
    ensures
        exists|run: Result<RunGatedGeluFfnF32Result, MediaTekRunError>| #[trigger]
            run_answers(request.as_run(), driver, run) && same_as_run(run, result),
{
    let request = RunGatedGeluFfnF32Request::from(request);
    let run = run_gated_gelu_ffn_f32(request, driver);
    match run {
        Ok(run) => Ok(
            ProbeGatedGeluFfnF32Result {
                output: run.output,
                chosen_device_name: run.chosen_device_name,
                chosen_device_type: run.chosen_device_type,
                chosen_device_feature_level: run.chosen_device_feature_level,
                chosen_device_version: run.chosen_device_version,
                supported_ops: run.supported_ops,
                duration_hardware_ns: run.duration_hardware_ns,
                duration_driver_ns: run.duration_driver_ns,
                timings: run.timings,
                cache_hit: run.cache_hit,
            },
        ),
        Err(error) => Err(error),
    }
}

/// Reports a run of a resident batch: the compilation's token hash counts too.
pub fn run_gated_gelu_ffn_f32_result_from_batched_backend(
    answer: MediaTekGatedGeluFfnOutput,
    cache_hit: bool,
    compile: Option<RunGatedGeluFfnF32Timings>,
) -> (result: RunGatedGeluFfnF32Result)
    ensures
        result == run_result(
            answer,
            match compile {
                Some(compile) => RunGatedGeluFfnF32Timings {
                    token_hash_ns: compile.token_hash_ns,
                    ..with_compile_times(answer.timings, compile)
                },
                None => answer.timings,
            },
            cache_hit,
        ),
{
    let mut timings = answer.timings;
    if let Some(compile) = compile {
        timings.model_build_ns = compile.model_build_ns;
        timings.supported_ops_query_ns = compile.supported_ops_query_ns;
        timings.compilation_ns = compile.compilation_ns;
        timings.token_hash_ns = compile.token_hash_ns;
    }
    RunGatedGeluFfnF32Result {
        output: answer.output,
        chosen_device_name: answer.device_name,
        chosen_device_type: answer.device_type,
        chosen_device_feature_level: answer.device_feature_level,
        chosen_device_version: answer.device_version,
        supported_ops: answer.supported_ops,
        duration_hardware_ns: answer.duration_hardware_ns,
        duration_driver_ns: answer.duration_driver_ns,
        timings,
        cache_hit,
    }
}

/// What the driver says of a batch.
#[derive(Debug, Clone, PartialEq)]
pub struct MediaTekGatedGeluFfnBatchedOutput {
    pub output: Vec<u32>,
    pub batch: usize,
    pub supported: bool,
    pub supported_ops: Vec<(&'static str, bool)>,
    pub compile_ns: u64,
    pub execute_hw_ns: Option<u64>,
    pub timings: RunGatedGeluFfnF32Timings,
    pub device_name: String,
    pub device_type: i32,
    pub device_feature_level: i64,
    pub device_version: String,
}

/// The result of a trial run of a batch.
#[derive(Debug, Clone, PartialEq)]
pub struct ProbeGatedGeluFfnF32BatchedResult {
    pub output: Vec<u32>,
    pub batch: usize,
    pub supported: bool,
    pub supported_ops: Vec<(String, bool)>,
    pub compile_ns: u64,
    pub token_hash_ns: u64,
    pub execute_hw_ns: Option<u64>,
    pub execution_compute_ns: u64,
    pub chosen_device_name: String,
    pub chosen_device_type: i32,
    pub chosen_device_feature_level: i64,
    pub chosen_device_version: String,
}

/// Whether `copy` names the same operations, each with the same answer.
pub open spec fn same_ops(ops: Seq<(&'static str, bool)>, copy: Seq<(String, bool)>) -> bool {
    &&& copy.len() == ops.len()
    &&& forall|i: int|
        0 <= i < ops.len() ==> (#[trigger] copy[i]).0@ == ops[i].0@ && copy[i].1 == ops[i].1
}

/// Whether `result` reports `answer`, with the given times for the compilation and its
/// token hash.
pub open spec fn reports_batch(
    answer: MediaTekGatedGeluFfnBatchedOutput,
    compile_ns: u64,
    token_hash_ns: u64,
    result: ProbeGatedGeluFfnF32BatchedResult,
) -> bool {
    &&& result.output == answer.output
    &&& result.batch == answer.batch
    &&& result.supported == answer.supported
    &&& same_ops(answer.supported_ops@, result.supported_ops@)
    &&& result.compile_ns == compile_ns
    &&& result.token_hash_ns == token_hash_ns
    &&& result.execute_hw_ns == answer.execute_hw_ns
    &&& result.execution_compute_ns == answer.timings.execution_compute_ns
    &&& result.chosen_device_name == answer.device_name
    &&& result.chosen_device_type == answer.device_type
    &&& result.chosen_device_feature_level == answer.device_feature_level
    &&& result.chosen_device_version == answer.device_version
}

/// Reports a batch.
pub fn probe_gated_gelu_ffn_f32_batched_result_from_backend(
    answer: MediaTekGatedGeluFfnBatchedOutput,
) -> (result: ProbeGatedGeluFfnF32BatchedResult)
    ensures
        reports_batch(answer, answer.compile_ns, answer.timings.token_hash_ns, result),
{
    let mut supported_ops: Vec<(String, bool)> = Vec::new();
    let mut i: usize = 0;
    while i < answer.supported_ops.len()
        invariant
            i <= answer.supported_ops@.len(),
            same_ops(answer.supported_ops@.take(i as int), supported_ops@),
        decreases answer.supported_ops@.len() - i,
    {
        let (name, supported) = answer.supported_ops[i];
        supported_ops.push((String::from_str(name), supported));
        i += 1;
    }
    assert(answer.supported_ops@.take(i as int) =~= answer.supported_ops@);
    ProbeGatedGeluFfnF32BatchedResult {
        output: answer.output,
        batch: answer.batch,
        supported: answer.supported,
        supported_ops,
        compile_ns: answer.compile_ns,
        token_hash_ns: answer.timings.token_hash_ns,
        execute_hw_ns: answer.execute_hw_ns,
        execution_compute_ns: answer.timings.execution_compute_ns,
        chosen_device_name: answer.device_name,
        chosen_device_type: answer.device_type,
        chosen_device_feature_level: answer.device_feature_level,
        chosen_device_version: answer.device_version,
    }
}

/// How a batch is compiled.
#[derive(Debug, Clone, PartialEq, Eq)]
pub struct BatchedCompileOptions {
    pub zero_copy: bool,
    pub cache_dir: Option<String>,
}

/// Whether a cache directory is given but blank.
pub open spec fn blank_cache_dir(cache_dir: Option<String>) -> bool {
    cache_dir matches Some(dir) && trimmed(dir@).len() == 0
}

fn cache_dir_is_blank(cache_dir: &Option<String>) -> (blank: bool)
    ensures
        blank == blank_cache_dir(*cache_dir),
{
    match cache_dir {
        Some(dir) => is_blank(dir.as_str()),
        None => false,
    }
}

/// The weights of a block and its sizes, for a driver to own.
#[derive(Debug, Clone, Copy, PartialEq, Eq)]
pub struct BlockWeights<'a> {
    pub shape: MediaTekGatedGeluFfnShape,
    pub gate_weight: &'a [u32],
    pub up_weight: &'a [u32],
    pub down_weight: &'a [u32],
}

/// A trial of a batch of blocks.
#[derive(Debug, Clone)]
pub struct ProbeGatedGeluFfnF32BatchedRequest<'a> {
    pub device_name_substring: String,
    pub input_size: usize,
    pub ffn_inner_size: usize,
    pub output_size: usize,
    pub gate_weight: &'a [u32],
    pub up_weight: &'a [u32],
    pub down_weight: &'a [u32],
    pub input: &'a [u32],
    pub batch: usize,
    pub zero_copy: bool,
    pub cache_dir: Option<String>,
}

impl<'a> ProbeGatedGeluFfnF32BatchedRequest<'a> {
    /// The block that the request is for.
    pub open spec fn block(self) -> BlockWeights<'a> {
        BlockWeights {
            shape: MediaTekGatedGeluFfnShape {
                input_size: self.input_size,
                ffn_inner_size: self.ffn_inner_size,
                output_size: self.output_size,
            },
            gate_weight: self.gate_weight,
            up_weight: self.up_weight,
            down_weight: self.down_weight,
        }
    }

    /// How the request's batch is compiled, where it is.
    pub open spec fn compile_options(self) -> BatchedCompileOptions {
        BatchedCompileOptions { zero_copy: self.zero_copy, cache_dir: self.cache_dir }
    }
}

/// Whether `result` reports a run of a batch that was compiled before, timed, with the
/// compilation's own times where they are given.
pub open spec fn compiled_batch_answers<
    C,
    R: FnOnce(&C, &[u32], usize, MediaTekNnapiExecutionOptions) -> Result<
        MediaTekGatedGeluFfnBatchedOutput,
        MediaTekNnapiError,
    >,
>(
    compiled: &C,
    input: &[u32],
    batch: usize,
    compile: Option<RunGatedGeluFfnF32Timings>,
    run: R,
    result: Result<ProbeGatedGeluFfnF32BatchedResult, MediaTekProbeError>,
) -> bool {
    exists|answer: Result<MediaTekGatedGeluFfnBatchedOutput, MediaTekNnapiError>| #[trigger]
        call_ensures(
            run,
            (compiled, input, batch, MediaTekNnapiExecutionOptions { measure_timing: true }),
            answer,
        ) && match (answer, result) {
            (Ok(answer), Ok(result)) => match compile {
                Some(compile) => reports_batch(
                    answer,
                    compile.compilation_ns,
                    compile.token_hash_ns,
                    result,
                ),
                None => reports_batch(
                    answer,
                    answer.compile_ns,
                    answer.timings.token_hash_ns,
                    result,
                ),
            },
            (Err(error), Err(reported)) => reported.stands_for(error),
            _ => false,
        }
}

/// Whether `result` reports a batch that the driver built and ran in one go.
pub open spec fn direct_batch_answers<
    'a,
    P: FnOnce(&ProbeGatedGeluFfnF32BatchedRequest<'a>, &str) -> Result<
        MediaTekGatedGeluFfnBatchedOutput,
        MediaTekNnapiError,
    >,
>(
    request: ProbeGatedGeluFfnF32BatchedRequest<'a>,
    probe: P,
    result: Result<ProbeGatedGeluFfnF32BatchedResult, MediaTekProbeError>,
) -> bool {
    exists|name: &str, answer: Result<MediaTekGatedGeluFfnBatchedOutput, MediaTekNnapiError>|
        name@ == trimmed(request.device_name_substring@) && #[trigger] call_ensures(
            probe,
            (&request, name),
            answer,
        ) && match (answer, result) {
            (Ok(answer), Ok(result)) => reports_batch(
                answer,
                answer.compile_ns,
                answer.timings.token_hash_ns,
                result,
            ),
            (Err(error), Err(reported)) => reported.stands_for(error),
            _ => false,
        }
}

/// Whether `result` reports a batch that is compiled, from weights that the driver owns,
/// and then run.
pub open spec fn staged_batch_answers<
    'a,
    W,
    C,
    M: FnOnce(W, usize, &str, BatchedCompileOptions) -> Result<
        (C, RunGatedGeluFfnF32Timings),
        MediaTekNnapiError,
    >,
    R: FnOnce(&C, &[u32], usize, MediaTekNnapiExecutionOptions) -> Result<
        MediaTekGatedGeluFfnBatchedOutput,
        MediaTekNnapiError,
    >,
>(
    request: ProbeGatedGeluFfnF32BatchedRequest<'a>,
    weights: W,
    compile: M,
    run: R,
    result: Result<ProbeGatedGeluFfnF32BatchedResult, MediaTekProbeError>,
) -> bool {
    exists|
        name: &str,
        options: BatchedCompileOptions,
        compiled: Result<(C, RunGatedGeluFfnF32Timings), MediaTekNnapiError>,
    |
        name@ == trimmed(request.device_name_substring@) && options == request.compile_options()
            && #[trigger] call_ensures(compile, (weights, request.batch, name, options), compiled)
            && match compiled {
            Err(error) => result matches Err(reported) && reported.stands_for(error),
            Ok((model, times)) => compiled_batch_answers(
                &model,
                request.input,
                request.batch,
                Some(times),
                run,
                result,
            ),
        }
}

/// Tries a batch, once the driver has accepted its tensors. With zero copies or a
/// cache directory the batch is compiled first, from weights that the driver owns, and
/// reported with the compilation's own times; else the driver builds and runs it in
/// one go.
pub fn probe_gated_gelu_ffn_f32_batched<
    'a,
    W,
    C,
    T: FnOnce(&ProbeGatedGeluFfnF32BatchedRequest<'a>) -> Result<(), String>,
    O: FnOnce(BlockWeights<'a>) -> Result<W, String>,
    M: FnOnce(W, usize, &str, BatchedCompileOptions) -> Result<
        (C, RunGatedGeluFfnF32Timings),
        MediaTekNnapiError,
    >,
    R: FnOnce(&C, &[u32], usize, MediaTekNnapiExecutionOptions) -> Result<
        MediaTekGatedGeluFfnBatchedOutput,
        MediaTekNnapiError,
    >,
    P: FnOnce(&ProbeGatedGeluFfnF32BatchedRequest<'a>, &str) -> Result<
        MediaTekGatedGeluFfnBatchedOutput,
        MediaTekNnapiError,
    >,
>(
    request: ProbeGatedGeluFfnF32BatchedRequest<'a>,
    tensors: T,
    own_weights: O,
    compile: M,
    run: R,
    probe: P,
) -> (result: Result<ProbeGatedGeluFfnF32BatchedResult, MediaTekProbeError>)
    requires
        call_requires(tensors, (&request,)),
        call_requires(own_weights, (request.block(),)),
        forall|weights: W, name: &str|
            call_requires(compile, (weights, request.batch, name, request.compile_options())),
        forall|compiled: &C, execution: MediaTekNnapiExecutionOptions|
            call_requires(run, (compiled, request.input, request.batch, execution)),
        forall|name: &str| call_requires(probe, (&request, name)),
    ensures
        exists|accepted: Result<(), String>| #[trigger]
            call_ensures(tensors, (&request,), accepted) && match accepted {
                Err(reason) => result matches Err(error) && error.reports(
                    RequestFault::Shape(reason@),
                ),
                Ok(()) => if !request.zero_copy && request.cache_dir is None {
                    direct_batch_answers(request, probe, result)
                } else {
                    exists|owned: Result<W, String>| #[trigger]
                        call_ensures(own_weights, (request.block(),), owned) && match owned {
                            Err(reason) => result matches Err(error) && error.reports(
                                RequestFault::Shape(reason@),
                            ),
                            Ok(weights) => if blank_cache_dir(request.cache_dir) {
                                result matches Err(error) && error.reports(
                                    RequestFault::Shape("cache_dir must not be empty"@),
                                )
                            } else {
                                staged_batch_answers(request, weights, compile, run, result)
                            },
                        }
                },
            },
{
    let accepted = tensors(&request);
    match accepted {
        Err(reason) => return Err(MediaTekRunError::InvalidShape { reason }),
        Ok(()) => {},
    }
    if !request.zero_copy && request.cache_dir.is_none() {
        let name: &str = trim_text(request.device_name_substring.as_str());
        let answer = probe(&request, name);
        return match answer {
            Ok(answer) => Ok(probe_gated_gelu_ffn_f32_batched_result_from_backend(answer)),
            Err(error) => Err(MediaTekRunError::from_backend(error)),
        };
    }
    let block = BlockWeights {
        shape: MediaTekGatedGeluFfnShape {
            input_size: request.input_size,
            ffn_inner_size: request.ffn_inner_size,
            output_size: request.output_size,
        },
        gate_weight: request.gate_weight,
        up_weight: request.up_weight,
        down_weight: request.down_weight,
    };
    let owned = own_weights(block);
    let weights: W = match owned {
        Err(reason) => return Err(MediaTekRunError::InvalidShape { reason }),
        Ok(weights) => weights,
    };
    if cache_dir_is_blank(&request.cache_dir) {
        return Err(invalid_shape("cache_dir must not be empty"));
    }
    let options = BatchedCompileOptions {
        zero_copy: request.zero_copy,
        cache_dir: request.cache_dir,
    };
    let name: &str = trim_text(request.device_name_substring.as_str());
    let compiled = compile(weights, request.batch, name, options);
    match compiled {
        Err(error) => Err(MediaTekRunError::from_backend(error)),
        Ok((model, times)) => {
            let execution = MediaTekNnapiExecutionOptions { measure_timing: true };
            let answer = run(&model, request.input, request.batch, execution);
            match answer {
                Ok(answer) => {
                    let mut result = probe_gated_gelu_ffn_f32_batched_result_from_backend(answer);
                    result.compile_ns = times.compilation_ns;
                    result.token_hash_ns = times.token_hash_ns;
                    Ok(result)
                },
                Err(error) => Err(MediaTekRunError::from_backend(error)),
            }
        },
    }
}

/// What is wrong with a request to compile a batch, before its weights are looked
/// at.
pub open spec fn batched_compile_fault(device: Seq<char>, cache_dir: Option<String>) -> Option<
    RequestFault,
> {
    if trimmed(device).len() == 0 {
        Some(RequestFault::DeviceName)
    } else if blank_cache_dir(cache_dir) {
        Some(RequestFault::Shape("cache_dir must not be empty"@))
    } else {
        None
    }
}

/// Whether `result` is what comes of compiling a batch of `block`.
pub open spec fn batched_compile_answers<
    'a,
    W,
    C,
    O: FnOnce(BlockWeights<'a>) -> Result<W, String>,
    M: FnOnce(W, usize, &str, BatchedCompileOptions) -> Result<C, MediaTekNnapiError>,
>(
    device: Seq<char>,
    block: BlockWeights<'a>,
    batch: usize,
    options: BatchedCompileOptions,
    own_weights: O,
    compile: M,
    result: Result<C, MediaTekProbeError>,
) -> bool {
    match batched_compile_fault(device, options.cache_dir) {
        Some(fault) => result matches Err(error) && error.reports(fault),
        None => exists|owned: Result<W, String>| #[trigger]
            call_ensures(own_weights, (block,), owned) && match owned {
                Err(reason) => result matches Err(error) && error.reports(
                    RequestFault::Shape(reason@),
                ),
                Ok(weights) => exists|name: &str, compiled: Result<C, MediaTekNnapiError>|
                    name@ == trimmed(device) && #[trigger] call_ensures(
                        compile,
                        (weights, batch, name, options),
                        compiled,
                    ) && match (compiled, result) {
                        (Ok(model), Ok(kept)) => model == kept,
                        (Err(error), Err(reported)) => reported.stands_for(error),
                        _ => false,
                    },
            },
    }
}

/// Compiles a batch.
pub fn compile_gated_gelu_ffn_f32_batched_with<
    'a,
    W,
    C,
    O: FnOnce(BlockWeights<'a>) -> Result<W, String>,
    M: FnOnce(W, usize, &str, BatchedCompileOptions) -> Result<C, MediaTekNnapiError>,
>(
    device: &str,
    block: BlockWeights<'a>,
    batch: usize,
    options: BatchedCompileOptions,
    own_weights: O,
    compile: M,
) -> (result: Result<C, MediaTekProbeError>)
    requires
        call_requires(own_weights, (block,)),
        forall|weights: W, name: &str| call_requires(compile, (weights, batch, name, options)),
    ensures
        batched_compile_answers(device@, block, batch, options, own_weights, compile, result),
{
    if is_blank(device) {
        return Err(MediaTekRunError::InvalidDeviceName);
    }
    if cache_dir_is_blank(&options.cache_dir) {
        return Err(invalid_shape("cache_dir must not be empty"));
    }
    let owned = own_weights(block);
    let weights: W = match owned {
        Err(reason) => return Err(MediaTekRunError::InvalidShape { reason }),
        Ok(weights) => weights,
    };
    let name: &str = trim_text(device);
    let compiled = compile(weights, batch, name, options);
    match compiled {
        Ok(model) => Ok(model),
        Err(error) => Err(MediaTekRunError::from_backend(error)),
    }
}

/// Compiles a batch without options.
pub fn compile_gated_gelu_ffn_f32_batched<
    'a,
    W,
    C,
    O: FnOnce(BlockWeights<'a>) -> Result<W, String>,
    M: FnOnce(W, usize, &str, BatchedCompileOptions) -> Result<C, MediaTekNnapiError>,
>(device: &str, block: BlockWeights<'a>, batch: usize, own_weights: O, compile: M) -> (result:
    Result<C, MediaTekProbeError>)
    requires
        call_requires(own_weights, (block,)),
        forall|weights: W, name: &str, options: BatchedCompileOptions|
            call_requires(compile, (weights, batch, name, options)),
    ensures
        batched_compile_answers(
            device@,
            block,
            batch,
            BatchedCompileOptions { zero_copy: false, cache_dir: None },
            own_weights,
            compile,
            result,
        ),
{
    let options = BatchedCompileOptions { zero_copy: false, cache_dir: None };
    compile_gated_gelu_ffn_f32_batched_with(device, block, batch, options, own_weights, compile)
}

/// Runs a batch that was compiled before, with its timing measured.
pub fn run_compiled_gated_gelu_ffn_f32_batched<
    C,
    R: FnOnce(&C, &[u32], usize, MediaTekNnapiExecutionOptions) -> Result<
        MediaTekGatedGeluFfnBatchedOutput,
        MediaTekNnapiError,
    >,
>(compiled: &C, input: &[u32], batch: usize, run: R) -> (result: Result<
    ProbeGatedGeluFfnF32BatchedResult,
    MediaTekProbeError,
>)
    requires
        forall|execution: MediaTekNnapiExecutionOptions|
            call_requires(run, (compiled, input, batch, execution)),
    ensures
        compiled_batch_answers(compiled, input, batch, None, run, result),
{
    let execution = MediaTekNnapiExecutionOptions { measure_timing: true };
    let answer = run(compiled, input, batch, execution);
    match answer {
        Ok(answer) => Ok(probe_gated_gelu_ffn_f32_batched_result_from_backend(answer)),
        Err(error) => Err(MediaTekRunError::from_backend(error)),
    }
}

/// What the driver says of one stage of a quantized block.
#[derive(Debug, Clone, PartialEq)]
pub struct MediaTekStageOutput<S> {
    pub stage: S,
    pub answer: MediaTekGatedGeluFfnOutput,
}

/// The result of a trial of one stage of a quantized block.
#[derive(Debug, Clone, PartialEq)]
pub struct RunQuantizedGatedGeluFfnStageProbeResult<S> {
    pub stage: S,
    pub output: Vec<u32>,
    pub chosen_device_name: String,
    pub chosen_device_type: i32,
    pub chosen_device_feature_level: i64,
    pub chosen_device_version: String,
    pub supported_ops: Vec<(&'static str, bool)>,
    pub duration_hardware_ns: Option<u64>,
    pub duration_driver_ns: Option<u64>,
    pub timings: RunGatedGeluFfnF32Timings,
}

/// What a trial of one stage reports of the driver's answer.
pub open spec fn stage_result<S>(
    given: MediaTekStageOutput<S>,
) -> RunQuantizedGatedGeluFfnStageProbeResult<S> {
    RunQuantizedGatedGeluFfnStageProbeResult {
        stage: given.stage,
        output: given.answer.output,
        chosen_device_name: given.answer.device_name,
        chosen_device_type: given.answer.device_type,
        chosen_device_feature_level: given.answer.device_feature_level,
        chosen_device_version: given.answer.device_version,
        supported_ops: given.answer.supported_ops,
        duration_hardware_ns: given.answer.duration_hardware_ns,
        duration_driver_ns: given.answer.duration_driver_ns,
        timings: given.answer.timings,
    }
}

/// The quantized weights of a block, with what the driver's own form of them is made from.
#[derive(Debug)]
pub struct QuantizedBlockWeights<Q> {
    pub shape: MediaTekGatedGeluFfnShape,
    pub quant_params: Q,
    pub gate_weight: Vec<u8>,
    pub up_weight: Vec<u8>,
    pub down_weight: Vec<u8>,
}

/// Whether `owned` hands on what the driver made of some weights; what it refuses is a
/// wrong shape.
pub open spec fn owned_as<W>(
    made: Result<W, String>,
    owned: Result<W, MediaTekRunError>,
) -> bool {
    match (made, owned) {
        (Ok(weights), Ok(kept)) => weights == kept,
        (Err(reason), Err(error)) => error.reports(RequestFault::Shape(reason@)),
        _ => false,
    }
}

impl<Q> RunCachedQuantizedGatedGeluFfnWeights<Q> {
    /// The weights with their sizes, without the unquantized ones.
    pub open spec fn quantized(self, shape: MediaTekGatedGeluFfnShape) -> QuantizedBlockWeights<Q> {
        QuantizedBlockWeights {
            shape,
            quant_params: self.quant_params,
            gate_weight: self.gate_weight,
            up_weight: self.up_weight,
            down_weight: self.down_weight,
        }
    }

    /// Turns the weights into the driver's own: with the down projection's unquantized
    /// weights where there are any.
    pub fn into_backend<
        W,
        N: FnOnce(QuantizedBlockWeights<Q>) -> Result<W, String>,
        F: FnOnce(QuantizedBlockWeights<Q>, Vec<u32>) -> Result<W, String>,
    >(self, shape: MediaTekGatedGeluFfnShape, own: N, own_with_f32_down: F) -> (owned: Result<
        W,
        MediaTekRunError,
    >)
        requires
            call_requires(own, (self.quantized(shape),)),
            forall|down: Vec<u32>|
                call_requires(own_with_f32_down, (self.quantized(shape), down)),
        ensures
            match self.down_weight_f32 {
                Some(down) => exists|made: Result<W, String>| #[trigger]
                    call_ensures(own_with_f32_down, (self.quantized(shape), down), made)
                        && owned_as(made, owned),
                None => exists|made: Result<W, String>| #[trigger]
                    call_ensures(own, (self.quantized(shape),), made) && owned_as(made, owned),
            },
    {
        let quantized = QuantizedBlockWeights {
            shape,
            quant_params: self.quant_params,
            gate_weight: self.gate_weight,
            up_weight: self.up_weight,
            down_weight: self.down_weight,
        };
        let made = match self.down_weight_f32 {
            Some(down) => own_with_f32_down(quantized, down),
            None => own(quantized),
        };
        match made {
            Ok(weights) => Ok(weights),
            Err(reason) => Err(MediaTekRunError::InvalidShape { reason }),
        }
    }
}

/// Tries one stage of a quantized block; `check` is what the driver makes of the
/// weights. No cache is touched.
pub fn run_quantized_gated_gelu_ffn_stage_probe<
    'a,
    Q,
    S,
    K: FnOnce(&RunCachedQuantizedGatedGeluFfnWeights<Q>) -> Result<(), String>,
    D: FnOnce(RunQuantizedGatedGeluFfnStageProbeRequest<'a, Q, S>, String) -> Result<
        MediaTekStageOutput<S>,
        DriverFailure,
    >,
>(request: RunQuantizedGatedGeluFfnStageProbeRequest<'a, Q, S>, check: K, driver: D) -> (result:
    Result<RunQuantizedGatedGeluFfnStageProbeResult<S>, MediaTekRunError>)
    requires
        call_requires(check, (&request.weights,)),
        forall|name: String| call_requires(driver, (request, name)),
    ensures
        exists|weights: Result<(), String>| #[trigger]
            call_ensures(check, (&request.weights,), weights) && match request.fault(weights) {
                Some(fault) => result matches Err(error) && error.reports(fault),
                None => exists|name: String, given: Result<MediaTekStageOutput<S>, DriverFailure>|
                    name@ == trimmed(request.device_name_substring@) && #[trigger] call_ensures(
                        driver,
                        (request, name),
                        given,
                    ) && match (given, result) {
                        (Ok(given), Ok(result)) => result == stage_result(given),
                        (Err(failure), Err(reported)) => reported.stands_for_failure(failure),
                        _ => false,
                    },
            },
{
    let weights = check(&request.weights);
    match request.validate(weights) {
        Ok(()) => {},
        Err(error) => return Err(error),
    }
    let name = String::from_str(trim_text(request.device_name_substring.as_str()));
    let given = driver(request, name);
    match given {
        Ok(given) => Ok(
            RunQuantizedGatedGeluFfnStageProbeResult {
                stage: given.stage,
                output: given.answer.output,
                chosen_device_name: given.answer.device_name,
                chosen_device_type: given.answer.device_type,
                chosen_device_feature_level: given.answer.device_feature_level,
                chosen_device_version: given.answer.device_version,
                supported_ops: given.answer.supported_ops,
                duration_hardware_ns: given.answer.duration_hardware_ns,
                duration_driver_ns: given.answer.duration_driver_ns,
                timings: given.answer.timings,
            },
        ),
        Err(failure) => Err(MediaTekRunError::from_failure(failure)),
    }
}

/// The execution options of a cached run: timing is measured where the request
/// asks for it.
#[derive(Debug, Clone, Copy, PartialEq, Eq, Structural)]
pub struct MediaTekNnapiExecutionOptions {
    pub measure_timing: bool,
}

pub fn cached_execution_options(measure_timing: bool) -> (options: MediaTekNnapiExecutionOptions)
    ensures
        options.measure_timing == measure_timing,
{
    MediaTekNnapiExecutionOptions { measure_timing }
}

/// A run reports what the driver said, part by part.
pub proof fn law_runs_report_the_answer(
    answer: MediaTekGatedGeluFfnOutput,
    compile: Option<RunGatedGeluFfnF32Timings>,
    cache_hit: bool,
    result: Result<RunGatedGeluFfnF32Result, MediaTekRunError>,
)
    requires
        reported_run(
            Ok::<MediaTekGatedGeluFfnOutput,
            DriverFailure>(answer),
            compile,
            cache_hit,
            result,
        ),
    ensures
        result matches Ok(told) && {
            &&& told.output == answer.output
            &&& told.chosen_device_name == answer.device_name
            &&& told.chosen_device_type == answer.device_type
            &&& told.chosen_device_feature_level == answer.device_feature_level
            &&& told.chosen_device_version == answer.device_version
            &&& told.supported_ops == answer.supported_ops
            &&& told.duration_hardware_ns == answer.duration_hardware_ns
            &&& told.duration_driver_ns == answer.duration_driver_ns
            &&& told.cache_hit == cache_hit
            &&& told.timings.execution_setup_ns == answer.timings.execution_setup_ns
            &&& told.timings.execution_compute_ns == answer.timings.execution_compute_ns
            &&& told.timings.token_hash_ns == answer.timings.token_hash_ns
            &&& match compile {
                Some(times) => {
                    &&& told.timings.model_build_ns == times.model_build_ns
                    &&& told.timings.supported_ops_query_ns == times.supported_ops_query_ns
                    &&& told.timings.compilation_ns == times.compilation_ns
                },
                None => {
                    &&& told.timings.model_build_ns == answer.timings.model_build_ns
                    &&& told.timings.supported_ops_query_ns == answer.timings.supported_ops_query_ns
                    &&& told.timings.compilation_ns == answer.timings.compilation_ns
                },
            }
        },
{
}

/// A trial reports what a run reports, part by part.
pub proof fn law_trials_report_as_runs_do(
    run: RunGatedGeluFfnF32Result,
    result: Result<ProbeGatedGeluFfnF32Result, MediaTekProbeError>,
)
    requires
        same_as_run(Ok::<RunGatedGeluFfnF32Result, MediaTekRunError>(run), result),
    ensures
        result matches Ok(told) && {
            &&& told.output == run.output
            &&& told.chosen_device_name == run.chosen_device_name
            &&& told.chosen_device_type == run.chosen_device_type
            &&& told.chosen_device_feature_level == run.chosen_device_feature_level
            &&& told.chosen_device_version == run.chosen_device_version
            &&& told.supported_ops == run.supported_ops
            &&& told.duration_hardware_ns == run.duration_hardware_ns
            &&& told.duration_driver_ns == run.duration_driver_ns
            &&& told.timings == run.timings
            &&& told.cache_hit == run.cache_hit
        },
{
}

/// A batch reports what the driver said, part by part.
pub proof fn law_batches_report_the_answer(
    answer: MediaTekGatedGeluFfnBatchedOutput,
    compile_ns: u64,
    token_hash_ns: u64,
    told: ProbeGatedGeluFfnF32BatchedResult,
)
    requires
        reports_batch(answer, compile_ns, token_hash_ns, told),
    ensures
        told.output == answer.output,
        told.batch == answer.batch,
        told.supported == answer.supported,
        told.supported_ops@.len() == answer.supported_ops@.len(),
        forall|i: int|
            0 <= i < answer.supported_ops@.len() ==> (#[trigger] told.supported_ops@[i]).0@
                == answer.supported_ops@[i].0@ && told.supported_ops@[i].1
                == answer.supported_ops@[i].1,
        told.compile_ns == compile_ns,
        told.token_hash_ns == token_hash_ns,
        told.execute_hw_ns == answer.execute_hw_ns,
        told.execution_compute_ns == answer.timings.execution_compute_ns,
        told.chosen_device_name == answer.device_name,
        told.chosen_device_type == answer.device_type,
        told.chosen_device_feature_level == answer.device_feature_level,
        told.chosen_device_version == answer.device_version,
{
}

/// A trial of a stage reports what the driver said, part by part.
pub proof fn law_stages_report_the_answer<S>(given: MediaTekStageOutput<S>)
    ensures
        stage_result(given).stage == given.stage,
        stage_result(given).output == given.answer.output,
        stage_result(given).chosen_device_name == given.answer.device_name,
        stage_result(given).chosen_device_type == given.answer.device_type,
        stage_result(given).chosen_device_feature_level == given.answer.device_feature_level,
        stage_result(given).chosen_device_version == given.answer.device_version,
        stage_result(given).supported_ops == given.answer.supported_ops,
        stage_result(given).duration_hardware_ns == given.answer.duration_hardware_ns,
        stage_result(given).duration_driver_ns == given.answer.duration_driver_ns,
        stage_result(given).timings == given.answer.timings,
{
}

/// The weights that a batch or a quantized block is compiled from are the request's own,
/// each in its role.
pub proof fn law_weights_keep_their_roles<Q>(
    request: ProbeGatedGeluFfnF32BatchedRequest<'_>,
    weights: RunCachedQuantizedGatedGeluFfnWeights<Q>,
    shape: MediaTekGatedGeluFfnShape,
)
    ensures
        request.block().gate_weight@ == request.gate_weight@,
        request.block().up_weight@ == request.up_weight@,
        request.block().down_weight@ == request.down_weight@,
        request.block().shape.input_size == request.input_size,
        request.block().shape.ffn_inner_size == request.ffn_inner_size,
        request.block().shape.output_size == request.output_size,
        request.compile_options().zero_copy == request.zero_copy,
        request.compile_options().cache_dir == request.cache_dir,
        weights.quantized(shape).gate_weight@ == weights.gate_weight@,
        weights.quantized(shape).up_weight@ == weights.up_weight@,
        weights.quantized(shape).down_weight@ == weights.down_weight@,
        weights.quantized(shape).quant_params == weights.quant_params,
        weights.quantized(shape).shape == shape,
{
}

/// A request that is refused asks nothing of the driver; one that is not gets the
/// driver's answer for the request itself under the device's name without white space
/// around it, reported as no hit.
pub proof fn law_runs_ask_the_driver_for_the_request<
    'a,
    D: FnOnce(&RunGatedGeluFfnF32Request<'a>, &str) -> Result<
        MediaTekGatedGeluFfnOutput,
        DriverFailure,
    >,
>(
    request: RunGatedGeluFfnF32Request<'a>,
    driver: D,
    result: Result<RunGatedGeluFfnF32Result, MediaTekRunError>,
)
    requires
        run_answers(request, driver, result),
    ensures
        request.fault() is Some ==> result is Err,
        result matches Ok(told) ==> !told.cache_hit && exists|
            name: &str,
            answer: MediaTekGatedGeluFfnOutput,
        |
            name@ == trimmed(request.device_name_substring@) && #[trigger] call_ensures(
                driver,
                (&request, name),
                Ok::<MediaTekGatedGeluFfnOutput, DriverFailure>(answer),
            ) && told.output == answer.output,
{
    if request.fault() is None {
        let (name, answer) = choose|
            name: &str,
            answer: Result<MediaTekGatedGeluFfnOutput, DriverFailure>,
        |
            name@ == trimmed(request.device_name_substring@) && #[trigger] call_ensures(
                driver,
                (&request, name),
                answer,
            ) && reported_run(answer, None, false, result);
        if let Ok(given) = answer {
            assert(call_ensures(
                driver,
                (&request, name),
                Ok::<MediaTekGatedGeluFfnOutput, DriverFailure>(given),
            ));
        }
    }
}

/// A batch cannot be compiled for a blank device or into a blank directory; the device is
/// looked at first.
pub proof fn law_blank_names_are_refused(device: Seq<char>, cache_dir: Option<String>)
    ensures
        batched_compile_fault(device, cache_dir) is None <==> trimmed(device).len() > 0 && (
        cache_dir matches Some(dir) ==> trimmed(dir@).len() > 0),
        trimmed(device).len() == 0 ==> batched_compile_fault(device, cache_dir) == Some(
            RequestFault::DeviceName,
        ),
{
}

/// A batch that was compiled before is run timed on its own input and size, and reports the
/// compilation's time and token hash where the compilation is given, else the run's own.
pub proof fn law_compiled_batches_run_as_given<
    C,
    R: FnOnce(&C, &[u32], usize, MediaTekNnapiExecutionOptions) -> Result<
        MediaTekGatedGeluFfnBatchedOutput,
        MediaTekNnapiError,
    >,
>(
    compiled: &C,
    input: &[u32],
    batch: usize,
    compile: Option<RunGatedGeluFfnF32Timings>,
    run: R,
    result: Result<ProbeGatedGeluFfnF32BatchedResult, MediaTekProbeError>,
)
    requires
        compiled_batch_answers(compiled, input, batch, compile, run, result),
    ensures
        exists|
            options: MediaTekNnapiExecutionOptions,
            answer: Result<MediaTekGatedGeluFfnBatchedOutput, MediaTekNnapiError>,
        |
            {
                &&& #[trigger] call_ensures(run, (compiled, input, batch, options), answer)
                &&& options.measure_timing
                &&& result is Ok <==> answer is Ok
                &&& answer matches Err(error) ==> result->Err_0.stands_for(error)
                &&& answer matches Ok(given) ==> {
                    &&& result->Ok_0.output == given.output
                    &&& result->Ok_0.compile_ns == if compile is Some {
                        compile->0.compilation_ns
                    } else {
                        given.compile_ns
                    }
                    &&& result->Ok_0.token_hash_ns == if compile is Some {
                        compile->0.token_hash_ns
                    } else {
                        given.timings.token_hash_ns
                    }
                }
            },
{
    let options = MediaTekNnapiExecutionOptions { measure_timing: true };
    let answer = choose|answer: Result<MediaTekGatedGeluFfnBatchedOutput, MediaTekNnapiError>|
        #[trigger] call_ensures(run, (compiled, input, batch, options), answer) && match (
            answer,
            result,
        ) {
            (Ok(answer), Ok(result)) => match compile {
                Some(compile) => reports_batch(
                    answer,
                    compile.compilation_ns,
                    compile.token_hash_ns,
                    result,
                ),
                None => reports_batch(
                    answer,
                    answer.compile_ns,
                    answer.timings.token_hash_ns,
                    result,
                ),
            },
            (Err(error), Err(reported)) => reported.stands_for(error),
            _ => false,
        };
    assert(call_ensures(run, (compiled, input, batch, options), answer));
}

/// Weights that a driver takes are handed on as it made them, and what it refuses is told as
/// a wrong shape with its own reason.
pub proof fn law_owned_weights_are_the_drivers<W>(
    made: Result<W, String>,
    owned: Result<W, MediaTekRunError>,
)
    requires
        owned_as(made, owned),
    ensures
        owned is Ok <==> made is Ok,
        made matches Ok(weights) ==> owned->Ok_0 == weights,
        made matches Err(reason) ==> (owned->Err_0 matches MediaTekRunError::InvalidShape {
            reason: told,
        } && told@ == reason@),
{
}

} // verus!
