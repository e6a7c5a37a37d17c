use rnb_runtime::mediatek::cache::{
    cache_entry_position, clear_gated_gelu_ffn_f32_batched_cache, clear_gated_gelu_ffn_f32_cache,
    clear_gated_gelu_ffn_quantized_cache, evict_cache_to_capacity,
    is_gated_gelu_ffn_f32_batched_cached, is_gated_gelu_ffn_f32_cached,
    is_gated_gelu_ffn_quantized_cached, is_gated_gelu_ffn_quantized_cached_with_params,
    promote_cache_entry, remove_gated_gelu_ffn_quantized_cache_entry, store_cache_entry,
    touch_cache_entry, GatedGeluFfnF32BatchedCacheKey, GatedGeluFfnF32CacheKey,
    GatedGeluFfnF32WeightKey,
};
use rnb_runtime::mediatek::cached_run::{
    run_cached_gated_gelu_ffn_f32, run_cached_gated_gelu_ffn_f32_batched,
    run_cached_quantized_gated_gelu_ffn,
};
use rnb_runtime::mediatek::error::{
    DriverFailure, MediaTekNnapiError, MediaTekProbeError, MediaTekRunError,
};
use rnb_runtime::mediatek::policy::{
    classify_gemma_prefill_cache_state, decide_gemma_prefill_npu, parse_prefill_layer_list,
    prefill_cache_max_layers_from_env_value, MediaTekPrefillCacheState, MediaTekPrefillEnv,
    MediaTekPrefillFallbackReason, MediaTekPrefillNpuDecision, MediaTekPrefillPolicyInput,
    MediaTekPrefillRequestMode,
};
use rnb_runtime::mediatek::requests::{
    MediaTekGatedGeluFfnShape, ProbeGatedGeluFfnF32Request,
    RunCachedGatedGeluFfnF32BatchedRequest, RunCachedGatedGeluFfnF32Request,
    RunCachedGatedGeluFfnF32Weights, RunCachedQuantizedGatedGeluFfnRequest,
    RunCachedQuantizedGatedGeluFfnWeights, RunGatedGeluFfnF32Request,
    RunQuantizedGatedGeluFfnStageProbeRequest,
};
use rnb_runtime::mediatek::run::{
    cached_execution_options, compile_gated_gelu_ffn_f32_batched,
    compile_gated_gelu_ffn_f32_batched_with, probe_gated_gelu_ffn_f32,
    probe_gated_gelu_ffn_f32_batched, run_compiled_gated_gelu_ffn_f32_batched,
    run_gated_gelu_ffn_f32, run_gated_gelu_ffn_f32_result_from_batched_backend,
    run_quantized_gated_gelu_ffn_stage_probe, BatchedCompileOptions, BlockWeights,
    MediaTekGatedGeluFfnBatchedOutput, MediaTekGatedGeluFfnOutput, MediaTekNnapiExecutionOptions,
    MediaTekStageOutput, ProbeGatedGeluFfnF32BatchedRequest, QuantizedBlockWeights,
    RunGatedGeluFfnF32Timings,
};

const NO_ENV: MediaTekPrefillEnv<'static> =
    MediaTekPrefillEnv { layers: None, layer: None, cache_max_layers: None };

fn bits<const N: usize>(value: f32) -> [u32; N] {
    [value.to_bits(); N]
}

fn key_for_test(
    layer_idx: usize,
    input_size: usize,
    ffn_inner_size: usize,
    output_size: usize,
) -> GatedGeluFfnF32CacheKey {
    GatedGeluFfnF32CacheKey {
        device_name_substring: "mtk-neuron".to_string(),
        layer_idx,
        input_size,
        ffn_inner_size,
        output_size,
        gate: GatedGeluFfnF32WeightKey {
            generation_id: 1,
            raw_addr: 0x1000,
            raw_len: 144,
            rows: ffn_inner_size,
            cols: input_size,
            ggml_type: 14,
        },
        up: GatedGeluFfnF32WeightKey {
            generation_id: 2,
            raw_addr: 0x2000,
            raw_len: 144,
            rows: ffn_inner_size,
            cols: input_size,
            ggml_type: 14,
        },
        down: GatedGeluFfnF32WeightKey {
            generation_id: 3,
            raw_addr: 0x3000,
            raw_len: 210,
            rows: output_size,
            cols: ffn_inner_size,
            ggml_type: 14,
        },
    }
}

fn batched_key_for_test(
    layer_idx: usize,
    input_size: usize,
    ffn_inner_size: usize,
    output_size: usize,
    batch: usize,
) -> GatedGeluFfnF32BatchedCacheKey {
    GatedGeluFfnF32BatchedCacheKey {
        base: key_for_test(layer_idx, input_size, ffn_inner_size, output_size),
        batch,
    }
}

fn prefill_policy_input(
    cache_state: MediaTekPrefillCacheState,
    request_mode: MediaTekPrefillRequestMode,
    sync_compile_enabled: bool,
) -> MediaTekPrefillPolicyInput {
    MediaTekPrefillPolicyInput {
        layer_idx: 0,
        seq_len: 384,
        cache_state,
        request_mode,
        sync_compile_enabled,
    }
}

fn timings(first: u64) -> RunGatedGeluFfnF32Timings {
    RunGatedGeluFfnF32Timings {
        model_build_ns: first,
        supported_ops_query_ns: first + 1,
        compilation_ns: first + 2,
        execution_setup_ns: first + 3,
        execution_compute_ns: first + 4,
        token_hash_ns: first + 5,
    }
}

fn output(first: u64) -> MediaTekGatedGeluFfnOutput {
    MediaTekGatedGeluFfnOutput {
        output: vec![0.25f32.to_bits(), (-0.5f32).to_bits()],
        device_name: "mtk-neuron".to_string(),
        device_type: 1,
        device_feature_level: 1000008,
        device_version: "test".to_string(),
        supported_ops: vec![("gate_fc", true)],
        duration_hardware_ns: Some(70),
        duration_driver_ns: Some(80),
        timings: timings(first),
    }
}

#[test]
fn prefill_policy_user_path_uses_only_thread_local_hot_cache() {
    let hot = decide_gemma_prefill_npu(
        NO_ENV,
        prefill_policy_input(
            MediaTekPrefillCacheState::InProcessThreadLocalHot,
            MediaTekPrefillRequestMode::UserPath,
            false,
        ),
    );
    assert_eq!(hot, MediaTekPrefillNpuDecision::UseWarmNpu { max_cache_entries: 2 });

    for cache_state in
        [MediaTekPrefillCacheState::ColdMissing, MediaTekPrefillCacheState::DiskAotPresent]
    {
        let decision = decide_gemma_prefill_npu(
            NO_ENV,
            prefill_policy_input(cache_state, MediaTekPrefillRequestMode::UserPath, true),
        );
        assert_eq!(
            decision,
            MediaTekPrefillNpuDecision::FallbackCpu {
                reason: MediaTekPrefillFallbackReason::CacheMissUserPath
            }
        );
    }
}

#[test]
fn prefill_policy_explicit_prewarm_requires_sync_compile_opt_in() {
    let disabled = decide_gemma_prefill_npu(
        NO_ENV,
        prefill_policy_input(
            MediaTekPrefillCacheState::ColdMissing,
            MediaTekPrefillRequestMode::ExplicitPrewarm,
            false,
        ),
    );
    assert_eq!(
        disabled,
        MediaTekPrefillNpuDecision::FallbackCpu {
            reason: MediaTekPrefillFallbackReason::SyncCompileDisabled
        }
    );

    let enabled = decide_gemma_prefill_npu(
        NO_ENV,
        prefill_policy_input(
            MediaTekPrefillCacheState::DiskAotPresent,
            MediaTekPrefillRequestMode::ExplicitPrewarm,
            true,
        ),
    );
    assert_eq!(enabled, MediaTekPrefillNpuDecision::AllowPrewarmCompile { max_cache_entries: 2 });
}

#[test]
fn prefill_policy_bench_warmup_is_routed_and_invalid_user_mode_is_rejected() {
    let bench = decide_gemma_prefill_npu(
        NO_ENV,
        prefill_policy_input(
            MediaTekPrefillCacheState::ColdMissing,
            MediaTekPrefillRequestMode::BenchWarmup,
            true,
        ),
    );
    assert_eq!(bench, MediaTekPrefillNpuDecision::AllowPrewarmCompile { max_cache_entries: 2 });

    assert_eq!(
        MediaTekPrefillFallbackReason::CacheMissUserPath.trace_reason(),
        "prefill_cache_miss_user_path"
    );
}

#[test]
fn prefill_policy_layer_list_and_cap_are_runtime_owned() {
    let layers_and_cap = MediaTekPrefillEnv {
        layers: Some("1,2"),
        layer: None,
        cache_max_layers: Some("2"),
    };
    let layer0 = decide_gemma_prefill_npu(
        layers_and_cap,
        prefill_policy_input(
            MediaTekPrefillCacheState::InProcessThreadLocalHot,
            MediaTekPrefillRequestMode::UserPath,
            false,
        ),
    );
    assert_eq!(
        layer0,
        MediaTekPrefillNpuDecision::FallbackCpu {
            reason: MediaTekPrefillFallbackReason::LayerNotSelected
        }
    );

    let small_cap = MediaTekPrefillEnv {
        layers: Some("1,2"),
        layer: None,
        cache_max_layers: Some("1"),
    };
    let over_cap = decide_gemma_prefill_npu(
        small_cap,
        MediaTekPrefillPolicyInput {
            layer_idx: 1,
            ..prefill_policy_input(
                MediaTekPrefillCacheState::InProcessThreadLocalHot,
                MediaTekPrefillRequestMode::UserPath,
                false,
            )
        },
    );
    assert_eq!(
        over_cap,
        MediaTekPrefillNpuDecision::FallbackCpu {
            reason: MediaTekPrefillFallbackReason::ResidentCapExceeded
        }
    );
}

#[test]
fn prefill_policy_cache_state_derivation_keeps_disk_aot_non_hot() {
    assert_eq!(
        classify_gemma_prefill_cache_state(true, false),
        MediaTekPrefillCacheState::InProcessThreadLocalHot
    );
    assert_eq!(
        classify_gemma_prefill_cache_state(false, true),
        MediaTekPrefillCacheState::DiskAotPresent
    );
    assert_eq!(
        classify_gemma_prefill_cache_state(false, false),
        MediaTekPrefillCacheState::ColdMissing
    );

    for cache_state in [
        classify_gemma_prefill_cache_state(false, true),
        classify_gemma_prefill_cache_state(false, false),
    ] {
        let decision = decide_gemma_prefill_npu(
            NO_ENV,
            prefill_policy_input(cache_state, MediaTekPrefillRequestMode::UserPath, false),
        );
        assert_eq!(
            decision,
            MediaTekPrefillNpuDecision::FallbackCpu {
                reason: MediaTekPrefillFallbackReason::CacheMissUserPath
            }
        );
    }
}

#[test]
fn prefill_policy_settings_are_read_strictly() {
    assert_eq!(parse_prefill_layer_list(" 3, 1 ,2"), Some(vec![3, 1, 2]));
    assert_eq!(parse_prefill_layer_list("3,3"), None);
    assert_eq!(parse_prefill_layer_list("3,x"), None);
    assert_eq!(prefill_cache_max_layers_from_env_value(None), (2, false));
    assert_eq!(prefill_cache_max_layers_from_env_value(Some(" 10 ")), (10, false));
    assert_eq!(prefill_cache_max_layers_from_env_value(Some("11")), (2, true));
    assert_eq!(prefill_cache_max_layers_from_env_value(Some("x")), (2, true));

    let short = MediaTekPrefillPolicyInput {
        seq_len: 1,
        ..prefill_policy_input(
            MediaTekPrefillCacheState::InProcessThreadLocalHot,
            MediaTekPrefillRequestMode::UserPath,
            false,
        )
    };
    assert_eq!(
        decide_gemma_prefill_npu(NO_ENV, short),
        MediaTekPrefillNpuDecision::FallbackCpu {
            reason: MediaTekPrefillFallbackReason::PromptTooShort
        }
    );
}

#[test]
fn facade_rejects_empty_device_name_before_backend_call() {
    let err = ProbeGatedGeluFfnF32Request {
        device_name_substring: "  ".to_string(),
        input_size: 4,
        ffn_inner_size: 3,
        output_size: 2,
        gate_weight: &bits::<12>(0.1),
        up_weight: &bits::<12>(0.2),
        down_weight: &bits::<6>(0.3),
        input: &bits::<4>(0.4),
    }
    .validate()
    .expect_err("blank device name must be rejected");

    assert!(matches!(err, MediaTekProbeError::InvalidDeviceName));
}

#[test]
fn facade_rejects_nonfinite_input_before_backend_call() {
    let input = [0.0f32, f32::INFINITY, 0.0, 0.0].map(f32::to_bits);
    let err = ProbeGatedGeluFfnF32Request {
        device_name_substring: "mtk-neuron".to_string(),
        input_size: 4,
        ffn_inner_size: 3,
        output_size: 2,
        gate_weight: &bits::<12>(0.1),
        up_weight: &bits::<12>(0.2),
        down_weight: &bits::<6>(0.3),
        input: &input,
    }
    .validate()
    .expect_err("non-finite input must be rejected");

    assert!(matches!(
        err,
        MediaTekProbeError::InvalidShape { reason } if reason.contains("input")
    ));
}

#[test]
fn run_facade_rejects_empty_device_name_before_backend_call() {
    let err = RunGatedGeluFfnF32Request {
        device_name_substring: "  ".to_string(),
        input_size: 4,
        ffn_inner_size: 3,
        output_size: 2,
        gate_weight: &bits::<12>(0.1),
        up_weight: &bits::<12>(0.2),
        down_weight: &bits::<6>(0.3),
        input: &bits::<4>(0.4),
    }
    .validate()
    .expect_err("blank device name must be rejected");

    assert!(matches!(err, MediaTekRunError::InvalidDeviceName));
}

#[test]
fn run_facade_keeps_static_supported_op_labels() {
    let err = MediaTekRunError::UnsupportedOperation {
        supported_ops: vec![("gate_fc", true), ("down_fc", false)],
    };

    assert_eq!(
        err.text(),
        "MediaTek NNAPI gated GELU FFN op support failed: gate_fc=true down_fc=false"
    );
}

#[test]
fn run_facade_timing_breakdown_preserves_backend_fields() {
    let given = RunGatedGeluFfnF32Timings {
        model_build_ns: 11,
        supported_ops_query_ns: 22,
        compilation_ns: 33,
        execution_setup_ns: 44,
        execution_compute_ns: 55,
        token_hash_ns: 66,
    };
    let (gate, up, down, input) =
        (bits::<12>(0.1), bits::<12>(0.2), bits::<6>(0.3), bits::<4>(0.4));
    let timings = run_gated_gelu_ffn_f32(plain_request(&gate, &up, &down, &input), |_, _| {
        Ok(MediaTekGatedGeluFfnOutput { timings: given, ..output(0) })
    })
    .unwrap()
    .timings;

    assert_eq!(timings.model_build_ns, 11);
    assert_eq!(timings.supported_ops_query_ns, 22);
    assert_eq!(timings.compilation_ns, 33);
    assert_eq!(timings.execution_setup_ns, 44);
    assert_eq!(timings.execution_compute_ns, 55);
    assert_eq!(timings.token_hash_ns, 66);
}

#[test]
fn batched_cached_result_uses_compile_token_hash_timing() {
    let compile_timings = RunGatedGeluFfnF32Timings {
        model_build_ns: 10,
        supported_ops_query_ns: 20,
        compilation_ns: 30,
        execution_setup_ns: 40,
        execution_compute_ns: 50,
        token_hash_ns: 60,
    };

    let result =
        run_gated_gelu_ffn_f32_result_from_batched_backend(output(1), false, Some(compile_timings));

    assert_eq!(result.timings.model_build_ns, 10);
    assert_eq!(result.timings.supported_ops_query_ns, 20);
    assert_eq!(result.timings.compilation_ns, 30);
    assert_eq!(result.timings.execution_setup_ns, 4);
    assert_eq!(result.timings.execution_compute_ns, 5);
    assert_eq!(result.timings.token_hash_ns, 60);
}

#[test]
fn cache_key_distinguishes_weight_generation_ids() {
    let base = GatedGeluFfnF32WeightKey {
        generation_id: 1,
        raw_addr: 0x1000,
        raw_len: 144,
        rows: 3,
        cols: 4,
        ggml_type: 14,
    };
    let other_generation = GatedGeluFfnF32WeightKey { generation_id: 2, ..base };

    assert_ne!(base, other_generation);
}

#[test]
fn cache_key_distinguishes_layer_ids() {
    let layer0 = key_for_test(0, 4, 3, 2);
    let layer1 = key_for_test(1, 4, 3, 2);

    assert_ne!(layer0, layer1);
}

#[test]
fn batched_cache_key_distinguishes_batch_sizes() {
    let batch128 = batched_key_for_test(0, 4, 3, 2, 128);
    let batch256 = batched_key_for_test(0, 4, 3, 2, 256);

    assert_ne!(batch128, batch256);
}

#[test]
fn cached_lookup_and_clear_are_idempotent() {
    let key = key_for_test(0, 4, 3, 2);
    let mut cache = vec![(key.clone(), "compiled")];
    assert!(is_gated_gelu_ffn_f32_cached(&cache, &key));

    clear_gated_gelu_ffn_f32_cache(&mut cache);
    clear_gated_gelu_ffn_f32_cache(&mut cache);
    assert!(!is_gated_gelu_ffn_f32_cached(&cache, &key));
}

#[test]
fn batched_cached_lookup_and_clear_are_idempotent() {
    let key = batched_key_for_test(0, 4, 3, 2, 128);
    let mut cache = vec![(key.clone(), "compiled")];
    assert!(is_gated_gelu_ffn_f32_batched_cached(&cache, &key));

    clear_gated_gelu_ffn_f32_batched_cache(&mut cache);
    clear_gated_gelu_ffn_f32_batched_cache(&mut cache);
    assert!(!is_gated_gelu_ffn_f32_batched_cached(&cache, &key));
}

#[test]
fn cached_facade_requires_weights_on_miss_before_backend_call() {
    let key = key_for_test(0, 4, 3, 2);
    let mut cache: Vec<(GatedGeluFfnF32CacheKey, u32)> = vec![];

    let err = run_cached_gated_gelu_ffn_f32(
        &mut cache,
        RunCachedGatedGeluFfnF32Request {
            cache_key: key,
            weights: None,
            max_cache_entries: 1,
            measure_timing: true,
            input: &bits::<4>(0.4),
        },
        true,
        |_| unreachable!(),
        |_, _, _| unreachable!(),
    )
    .expect_err("miss without weights must be rejected before backend call");

    assert!(matches!(err, MediaTekRunError::CacheMissNeedsWeights));
}

#[test]
fn batched_cached_facade_requires_weights_on_miss_before_backend_call() {
    let key = batched_key_for_test(0, 4, 3, 2, 128);
    let mut cache: Vec<(GatedGeluFfnF32BatchedCacheKey, u32)> = vec![];

    let err = run_cached_gated_gelu_ffn_f32_batched(
        &mut cache,
        RunCachedGatedGeluFfnF32BatchedRequest {
            cache_key: key,
            weights: None,
            max_cache_entries: 1,
            measure_timing: true,
            input: &bits::<512>(0.4),
        },
        true,
        || unreachable!(),
        |_| unreachable!(),
        |_, _, _, _| unreachable!(),
    )
    .expect_err("batched miss without weights must be rejected before backend call");

    assert!(matches!(err, MediaTekRunError::CacheMissNeedsWeights));
}

fn batched_probe_request<'a>(
    gate_weight: &'a [u32],
    up_weight: &'a [u32],
    down_weight: &'a [u32],
    input: &'a [u32],
    zero_copy: bool,
    cache_dir: Option<&str>,
) -> ProbeGatedGeluFfnF32BatchedRequest<'a> {
    ProbeGatedGeluFfnF32BatchedRequest {
        device_name_substring: "mtk-neuron".to_string(),
        input_size: 4,
        ffn_inner_size: 3,
        output_size: 2,
        gate_weight,
        up_weight,
        down_weight,
        input,
        batch: 2,
        zero_copy,
        cache_dir: cache_dir.map(str::to_string),
    }
}

type Compiled = Result<(u32, RunGatedGeluFfnF32Timings), MediaTekNnapiError>;

#[test]
fn batched_probe_rejects_empty_cache_dir_before_backend_call() {
    let (gate, up, down, input) =
        (bits::<12>(0.1), bits::<12>(0.2), bits::<6>(0.3), bits::<8>(0.4));
    let err = probe_gated_gelu_ffn_f32_batched(
        batched_probe_request(&gate, &up, &down, &input, true, Some("  ")),
        |_| Ok(()),
        |_| Ok(()),
        |_: (), _, _, _| -> Compiled { unreachable!() },
        |_, _, _, _| unreachable!(),
        |_, _| unreachable!(),
    )
    .expect_err("blank cache dir must be rejected before backend call");

    assert!(matches!(
        err,
        MediaTekRunError::InvalidShape { reason } if reason.contains("cache_dir")
    ));
}

#[test]
fn quantized_cached_facade_requires_weights_on_miss_before_backend_call() {
    let key = key_for_test(0, 4, 3, 2);
    let mut cache: Vec<(GatedGeluFfnF32CacheKey, (u32, u32))> = vec![];

    let err = run_cached_quantized_gated_gelu_ffn(
        &mut cache,
        RunCachedQuantizedGatedGeluFfnRequest {
            cache_key: key,
            weights: None,
            max_cache_entries: 1,
            measure_timing: true,
            input: &bits::<4>(0.4),
        },
        true,
        |_| unreachable!(),
        |_, _, _, _| unreachable!(),
    )
    .expect_err("quantized miss without weights must be rejected before backend call");

    assert!(matches!(err, MediaTekRunError::CacheMissNeedsWeights));
}

fn valid_quantized_stage_probe_weights() -> RunCachedQuantizedGatedGeluFfnWeights<u32> {
    RunCachedQuantizedGatedGeluFfnWeights {
        quant_params: 5,
        gate_weight: vec![128; 12],
        up_weight: vec![128; 12],
        down_weight: vec![128; 6],
        down_weight_f32: Some(vec![0.0f32.to_bits(); 6]),
    }
}

fn stage_request<'a>(
    device: &str,
    input_size: usize,
    weights: RunCachedQuantizedGatedGeluFfnWeights<u32>,
    input: &'a [u32],
) -> RunQuantizedGatedGeluFfnStageProbeRequest<'a, u32, &'static str> {
    RunQuantizedGatedGeluFfnStageProbeRequest {
        device_name_substring: device.to_string(),
        shape: MediaTekGatedGeluFfnShape { input_size, ffn_inner_size: 3, output_size: 2 },
        weights,
        input,
        stage: "gate_fc",
    }
}

fn check_lengths(
    shape: MediaTekGatedGeluFfnShape,
    weights: &RunCachedQuantizedGatedGeluFfnWeights<u32>,
) -> Result<(), String> {
    if weights.gate_weight.len() == shape.input_size * shape.ffn_inner_size {
        Ok(())
    } else {
        Err("gate weight length".to_string())
    }
}

#[test]
fn quantized_stage_probe_request_rejects_empty_device() {
    let err = stage_request("  ", 4, valid_quantized_stage_probe_weights(), &bits::<4>(0.0))
        .validate(Ok(()))
        .expect_err("blank device must be rejected");

    assert!(matches!(err, MediaTekRunError::InvalidDeviceName));
}

#[test]
fn quantized_stage_probe_request_rejects_missing_hybrid_down() {
    let mut weights = valid_quantized_stage_probe_weights();
    weights.down_weight_f32 = None;
    let err = stage_request("mtk-neuron", 4, weights, &bits::<4>(0.0))
        .validate(Ok(()))
        .expect_err("missing hybrid down must be rejected");

    assert!(matches!(
        err,
        MediaTekRunError::InvalidShape { reason } if reason.contains("hybrid f32-down")
    ));
}

#[test]
fn quantized_stage_probe_request_rejects_invalid_shape_before_backend_call() {
    let err = stage_request("mtk-neuron", 0, valid_quantized_stage_probe_weights(), &bits::<4>(0.0))
        .validate(Ok(()))
        .expect_err("invalid shape must be rejected");

    assert!(matches!(err, MediaTekRunError::InvalidShape { .. }));
}

#[test]
fn quantized_stage_probe_request_rejects_invalid_weights_before_backend_call() {
    let mut weights = valid_quantized_stage_probe_weights();
    weights.gate_weight.pop();
    let input = bits::<4>(0.0);
    let request = stage_request("mtk-neuron", 4, weights, &input);
    let shape = request.shape;
    let checked = check_lengths(shape, &request.weights);
    let err = request.validate(checked).expect_err("invalid weights must be rejected");
    assert!(matches!(err, MediaTekRunError::InvalidShape { .. }));

    let err = run_quantized_gated_gelu_ffn_stage_probe(
        request,
        |weights| check_lengths(shape, weights),
        |_, _| unreachable!(),
    )
    .expect_err("invalid weights must be rejected");
    assert!(matches!(
        err,
        MediaTekRunError::InvalidShape { reason } if reason == "gate weight length"
    ));
}

#[test]
fn quantized_stage_probe_does_not_mutate_quantized_cache() {
    let key = key_for_test(0, 4, 3, 2);
    let mut cache: Vec<(GatedGeluFfnF32CacheKey, (u32, u32))> = vec![];
    clear_gated_gelu_ffn_quantized_cache(&mut cache);
    let input = bits::<4>(0.0);
    let result = run_quantized_gated_gelu_ffn_stage_probe(
        stage_request("mtk-neuron", 4, valid_quantized_stage_probe_weights(), &input),
        |_| Ok(()),
        |_, _| Err(DriverFailure::Driver(MediaTekNnapiError::UnsupportedPlatform)),
    );

    assert!(matches!(result, Err(MediaTekRunError::UnsupportedPlatform)));
    assert!(!is_gated_gelu_ffn_quantized_cached(&cache, &key));
}

#[test]
fn cached_facade_request_carries_measure_timing_policy() {
    let request = RunCachedGatedGeluFfnF32Request {
        cache_key: key_for_test(0, 4, 3, 2),
        weights: None,
        max_cache_entries: 1,
        measure_timing: false,
        input: &bits::<4>(0.4),
    };

    assert!(!request.measure_timing);
    request.validate().expect("measure flag must not affect validation");
}

#[test]
fn batched_cached_facade_request_carries_measure_timing_policy() {
    let request = RunCachedGatedGeluFfnF32BatchedRequest {
        cache_key: batched_key_for_test(0, 4, 3, 2, 128),
        weights: None,
        max_cache_entries: 1,
        measure_timing: false,
        input: &bits::<512>(0.4),
    };

    assert!(!request.measure_timing);
    request.validate().expect("measure flag must not affect batched validation");
}

#[test]
fn cached_execution_options_preserves_measure_timing_policy() {
    assert!(cached_execution_options(true).measure_timing);
    assert!(!cached_execution_options(false).measure_timing);
}

fn validate_cached(max_cache_entries: usize) -> Result<(), MediaTekRunError> {
    RunCachedGatedGeluFfnF32Request {
        cache_key: key_for_test(0, 4, 3, 2),
        weights: None,
        input: &bits::<4>(0.4),
        max_cache_entries,
        measure_timing: true,
    }
    .validate()
}

fn validate_batched(max_cache_entries: usize) -> Result<(), MediaTekRunError> {
    RunCachedGatedGeluFfnF32BatchedRequest {
        cache_key: batched_key_for_test(0, 4, 3, 2, 128),
        weights: None,
        input: &bits::<512>(0.4),
        max_cache_entries,
        measure_timing: true,
    }
    .validate()
}

#[test]
fn cached_facade_policy_rejects_zero_cache_entries() {
    let err = validate_cached(0)
        .expect_err("zero cache cap must be rejected before backend call");

    assert!(matches!(
        err,
        MediaTekRunError::InvalidShape { reason } if reason.contains("max_cache_entries")
    ));
}

#[test]
fn batched_cached_facade_policy_rejects_zero_cache_entries() {
    let err = validate_batched(0)
        .expect_err("zero batched cache cap must be rejected before backend call");

    assert!(matches!(
        err,
        MediaTekRunError::InvalidShape { reason } if reason.contains("max_cache_entries")
    ));
}

#[test]
fn cached_facade_policy_rejects_above_hard_max_cache_entries() {
    let err = validate_cached(5)
        .expect_err("cache cap above hard max must be rejected before backend call");

    assert!(matches!(
        err,
        MediaTekRunError::InvalidShape { reason } if reason.contains("max_cache_entries")
    ));
    assert!(validate_cached(4).is_ok());
}

#[test]
fn batched_cached_facade_policy_accepts_ten_cache_entries() {
    validate_batched(10).expect("ten batched cache entries must be accepted");
}

#[test]
fn batched_cached_facade_policy_rejects_above_hard_max_cache_entries() {
    let err = validate_batched(11)
        .expect_err("batched cache cap above hard max must be rejected before backend call");

    assert!(matches!(
        err,
        MediaTekRunError::InvalidShape { reason } if reason.contains("max_cache_entries")
    ));
}

#[test]
fn cache_order_promotes_hits_and_evicts_oldest() {
    let key0 = key_for_test(0, 4, 3, 2);
    let key1 = key_for_test(1, 4, 3, 2);
    let key2 = key_for_test(2, 4, 3, 2);
    let mut entries = vec![(key0.clone(), "layer0"), (key1.clone(), "layer1")];

    assert_eq!(cache_entry_position(&entries, &key0), Some(0));
    promote_cache_entry(&mut entries, 0);
    assert_eq!(entries[0].0, key1);
    assert_eq!(entries[1].0, key0);

    entries.push((key2.clone(), "layer2"));
    let evicted = evict_cache_to_capacity(&mut entries, 2);

    assert_eq!(evicted, vec![key1]);
    assert_eq!(entries[0].0, key0);
    assert_eq!(entries[1].0, key2);
}

#[test]
fn cache_order_preserves_hit_when_trimming_to_smaller_cap() {
    let key0 = key_for_test(0, 4, 3, 2);
    let key1 = key_for_test(1, 4, 3, 2);
    let mut entries = vec![(key0.clone(), "layer0"), (key1.clone(), "layer1")];

    let position = cache_entry_position(&entries, &key0).expect("key0 is cached");
    promote_cache_entry(&mut entries, position);
    let evicted = evict_cache_to_capacity(&mut entries, 1);

    assert_eq!(evicted, vec![key1]);
    assert_eq!(entries.len(), 1);
    assert_eq!(entries[0].0, key0);
}

#[test]
fn batched_probe_request_carries_zero_copy_flag_and_host_rejects_platform() {
    let (gate, up, down, input) =
        (bits::<12>(0.1), bits::<12>(0.2), bits::<6>(0.3), bits::<8>(0.4));
    let request = batched_probe_request(&gate, &up, &down, &input, true, None);
    assert!(request.zero_copy);

    let result = probe_gated_gelu_ffn_f32_batched(
        request,
        |_| Ok(()),
        |_| Ok(()),
        |_: (), _, _, options: BatchedCompileOptions| -> Compiled {
            assert!(options.zero_copy);
            Err(MediaTekNnapiError::UnsupportedPlatform)
        },
        |_, _, _, _| unreachable!(),
        |_, _| unreachable!(),
    );

    assert!(matches!(result, Err(MediaTekRunError::UnsupportedPlatform)));
}

fn block<'a>(gate: &'a [u32], up: &'a [u32], down: &'a [u32]) -> BlockWeights<'a> {
    BlockWeights {
        shape: MediaTekGatedGeluFfnShape { input_size: 4, ffn_inner_size: 3, output_size: 2 },
        gate_weight: gate,
        up_weight: up,
        down_weight: down,
    }
}

#[test]
fn batched_compile_with_facade_returns_host_unsupported_platform() {
    let (gate, up, down) = (bits::<12>(0.1), bits::<12>(0.2), bits::<6>(0.3));
    let result = compile_gated_gelu_ffn_f32_batched_with(
        "mtk-neuron",
        block(&gate, &up, &down),
        2,
        BatchedCompileOptions {
            zero_copy: true,
            cache_dir: Some("/tmp/rnb-mk28-cache".to_string()),
        },
        |_| Ok(()),
        |_: (), _, _, _| -> Result<u32, MediaTekNnapiError> {
            Err(MediaTekNnapiError::UnsupportedPlatform)
        },
    );

    assert!(matches!(result, Err(MediaTekRunError::UnsupportedPlatform)));
}

#[test]
fn batched_compile_with_facade_rejects_empty_cache_dir_before_backend_call() {
    let (gate, up, down) = (bits::<12>(0.1), bits::<12>(0.2), bits::<6>(0.3));
    let result = compile_gated_gelu_ffn_f32_batched_with(
        "mtk-neuron",
        block(&gate, &up, &down),
        2,
        BatchedCompileOptions { zero_copy: false, cache_dir: Some(" ".to_string()) },
        |_| -> Result<(), String> { unreachable!() },
        |_, _, _, _| -> Result<u32, MediaTekNnapiError> { unreachable!() },
    );

    assert!(matches!(result, Err(MediaTekRunError::InvalidShape { .. })));
}

fn plain_request<'a>(
    gate: &'a [u32],
    up: &'a [u32],
    down: &'a [u32],
    input: &'a [u32],
) -> RunGatedGeluFfnF32Request<'a> {
    RunGatedGeluFfnF32Request {
        device_name_substring: "mtk-neuron".to_string(),
        input_size: 4,
        ffn_inner_size: 3,
        output_size: 2,
        gate_weight: gate,
        up_weight: up,
        down_weight: down,
        input,
    }
}

#[test]
fn run_facade_returns_host_unsupported_platform() {
    let (gate, up, down, input) =
        (bits::<12>(0.1), bits::<12>(0.2), bits::<6>(0.3), bits::<4>(0.4));
    let result = run_gated_gelu_ffn_f32(plain_request(&gate, &up, &down, &input), |_, _| {
        Err(DriverFailure::Driver(MediaTekNnapiError::UnsupportedPlatform))
    });

    assert!(matches!(result, Err(MediaTekRunError::UnsupportedPlatform)));
}

#[test]
fn the_driver_gets_the_request_and_a_trimmed_device_name() {
    let (gate, up, down, input) =
        (bits::<12>(0.1), bits::<12>(0.2), bits::<6>(0.3), bits::<4>(0.4));
    let request = ProbeGatedGeluFfnF32Request {
        device_name_substring: "\t mtk-neuron \n".to_string(),
        input_size: 4,
        ffn_inner_size: 3,
        output_size: 2,
        gate_weight: &gate,
        up_weight: &up,
        down_weight: &down,
        input: &input,
    };
    let result = probe_gated_gelu_ffn_f32(request, |run, name| {
        assert_eq!(name, "mtk-neuron");
        assert_eq!((run.input_size, run.ffn_inner_size, run.output_size), (4, 3, 2));
        assert_eq!(run.input, input.as_slice());
        Ok(output(1))
    })
    .unwrap();
    assert_eq!(result.output, output(1).output);
    assert_eq!(result.chosen_device_feature_level, 1000008);
    assert_eq!(result.supported_ops, vec![("gate_fc", true)]);
    assert_eq!(result.duration_hardware_ns, Some(70));
    assert_eq!(result.timings, timings(1));
    assert!(!result.cache_hit);
}

fn cached_request<'a>(
    layer: usize,
    with_weights: bool,
    max_cache_entries: usize,
    input: &'a [u32],
) -> RunCachedGatedGeluFfnF32Request<'a> {
    RunCachedGatedGeluFfnF32Request {
        cache_key: key_for_test(layer, 4, 3, 2),
        weights: if with_weights {
            Some(RunCachedGatedGeluFfnF32Weights {
                gate_weight: vec![0; 12],
                up_weight: vec![0; 12],
                down_weight: vec![0; 6],
            })
        } else {
            None
        },
        max_cache_entries,
        measure_timing: false,
        input,
    }
}

fn run_model(
    model: &usize,
    input: &[u32],
    options: MediaTekNnapiExecutionOptions,
) -> Result<MediaTekGatedGeluFfnOutput, MediaTekNnapiError> {
    assert!(!options.measure_timing);
    assert_eq!(input.len(), 4);
    Ok(MediaTekGatedGeluFfnOutput { output: vec![*model as u32], ..output(1) })
}

#[test]
fn a_compiled_block_stays_resident_and_is_run_again() {
    let input = bits::<4>(0.4);
    let mut cache: Vec<(GatedGeluFfnF32CacheKey, usize)> = vec![];

    for layer in 0..3 {
        let result = run_cached_gated_gelu_ffn_f32(
            &mut cache,
            cached_request(layer, true, 2, &input),
            true,
            |call| {
                assert_eq!(call.device_name, "mtk-neuron");
                assert_eq!(call.shape.input_size, 4);
                assert_eq!(call.weights.down_weight.len(), 6);
                Ok((layer + 100, timings(10)))
            },
            run_model,
        )
        .unwrap();
        assert!(!result.cache_hit);
        assert_eq!(result.output, vec![layer as u32 + 100]);
        assert_eq!(result.timings.model_build_ns, 10);
        assert_eq!(result.timings.supported_ops_query_ns, 11);
        assert_eq!(result.timings.compilation_ns, 12);
        assert_eq!(result.timings.execution_setup_ns, 4);
        assert_eq!(result.timings.token_hash_ns, 6);
    }
    assert_eq!(cache.len(), 2);

    let hit = run_cached_gated_gelu_ffn_f32(
        &mut cache,
        cached_request(1, false, 2, &input),
        true,
        |_| unreachable!(),
        run_model,
    )
    .unwrap();
    assert!(hit.cache_hit);
    assert_eq!(hit.output, vec![101]);
    assert_eq!(hit.timings, timings(1));
    assert_eq!(cache[1].0.layer_idx, 1);

    let evicted = run_cached_gated_gelu_ffn_f32(
        &mut cache,
        cached_request(0, false, 2, &input),
        true,
        |_| unreachable!(),
        run_model,
    );
    assert!(matches!(evicted, Err(MediaTekRunError::CacheMissNeedsWeights)));
}

#[test]
fn a_failed_compilation_leaves_the_cache_alone() {
    let input = bits::<4>(0.4);
    let mut cache = vec![(key_for_test(7, 4, 3, 2), 7usize)];
    let failed = run_cached_gated_gelu_ffn_f32(
        &mut cache,
        cached_request(0, true, 1, &input),
        true,
        |_| Err(DriverFailure::Tensors("down weight".to_string())),
        run_model,
    );
    assert!(matches!(
        failed,
        Err(MediaTekRunError::InvalidShape { reason }) if reason == "down weight"
    ));
    assert_eq!(cache, vec![(key_for_test(7, 4, 3, 2), 7)]);

    let unsupported = run_cached_gated_gelu_ffn_f32(
        &mut cache,
        cached_request(0, true, 1, &input),
        false,
        |_| unreachable!(),
        run_model,
    );
    assert!(matches!(unsupported, Err(MediaTekRunError::UnsupportedPlatform)));
}

#[test]
fn a_batch_is_compiled_without_copies_into_the_given_directory() {
    let input = bits::<8>(0.4);
    let mut cache: Vec<(GatedGeluFfnF32BatchedCacheKey, usize)> = vec![];
    let request = |weights: bool| RunCachedGatedGeluFfnF32BatchedRequest {
        cache_key: batched_key_for_test(0, 4, 3, 2, 2),
        weights: cached_request(0, weights, 1, &input).weights,
        max_cache_entries: 1,
        measure_timing: true,
        input: &input,
    };
    let run = |model: &usize, input: &[u32], batch: usize, options: MediaTekNnapiExecutionOptions| {
        assert_eq!((*model, input.len(), batch, options.measure_timing), (5, 8, 2, true));
        Ok(output(1))
    };
    let first = run_cached_gated_gelu_ffn_f32_batched(
        &mut cache,
        request(true),
        true,
        || Some("/cache".to_string()),
        |call| {
            assert_eq!(call.batch, 2);
            assert!(call.options.zero_copy);
            assert_eq!(call.options.cache_dir.as_deref(), Some("/cache"));
            Ok((5, timings(20)))
        },
        run,
    )
    .unwrap();
    assert!(!first.cache_hit);
    assert_eq!(first.timings.token_hash_ns, 25);
    assert_eq!(first.timings.execution_compute_ns, 5);

    let second = run_cached_gated_gelu_ffn_f32_batched(
        &mut cache,
        request(false),
        true,
        || unreachable!(),
        |_| unreachable!(),
        run,
    )
    .unwrap();
    assert!(second.cache_hit);
    assert_eq!(second.timings, timings(1));
}

#[test]
fn a_quantized_block_is_run_only_with_its_own_parameters() {
    let input = bits::<4>(0.4);
    let mut cache: Vec<(GatedGeluFfnF32CacheKey, (u32, usize))> = vec![];
    let request = |quant_params: u32| RunCachedQuantizedGatedGeluFfnRequest {
        cache_key: key_for_test(0, 4, 3, 2),
        weights: Some(RunCachedQuantizedGatedGeluFfnWeights {
            quant_params,
            ..valid_quantized_stage_probe_weights()
        }),
        max_cache_entries: 2,
        measure_timing: false,
        input: &input,
    };
    let run = |params: &u32, model: &usize, _: &[u32], _: MediaTekNnapiExecutionOptions| {
        Ok(MediaTekGatedGeluFfnOutput { output: vec![*params, *model as u32], ..output(1) })
    };
    let first = run_cached_quantized_gated_gelu_ffn(
        &mut cache,
        request(1),
        true,
        |call| Ok((call.weights.quant_params as usize + 40, timings(30))),
        run,
    )
    .unwrap();
    assert_eq!((first.cache_hit, first.output), (false, vec![1, 41]));
    assert_eq!(first.timings.compilation_ns, 32);

    let again = run_cached_quantized_gated_gelu_ffn(
        &mut cache,
        request(1),
        true,
        |_| unreachable!(),
        run,
    )
    .unwrap();
    assert_eq!((again.cache_hit, again.output), (true, vec![1, 41]));
    let key = key_for_test(0, 4, 3, 2);
    assert!(is_gated_gelu_ffn_quantized_cached_with_params(&cache, &key, &1));
    assert!(!is_gated_gelu_ffn_quantized_cached_with_params(&cache, &key, &2));

    let failed = run_cached_quantized_gated_gelu_ffn(
        &mut cache,
        request(2),
        true,
        |_| Err(DriverFailure::Driver(MediaTekNnapiError::NnapiCall { call: "finish", code: -3 })),
        run,
    );
    assert!(matches!(failed, Err(MediaTekRunError::NnapiCall { call: "finish", code: -3 })));
    assert!(!is_gated_gelu_ffn_quantized_cached(&cache, &key));

    store_cache_entry(&mut cache, key.clone(), (9, 9), 2);
    remove_gated_gelu_ffn_quantized_cache_entry(&mut cache, &key);
    assert!(cache.is_empty());
}

#[test]
fn a_key_never_has_two_models() {
    let input = bits::<4>(0.4);
    let key = key_for_test(0, 4, 3, 2);
    let mut cache: Vec<(GatedGeluFfnF32CacheKey, (u32, u32))> = vec![];
    for quant_params in [1, 2, 1, 1] {
        let request = RunCachedQuantizedGatedGeluFfnRequest {
            cache_key: key.clone(),
            weights: Some(RunCachedQuantizedGatedGeluFfnWeights {
                quant_params,
                ..valid_quantized_stage_probe_weights()
            }),
            max_cache_entries: 4,
            measure_timing: false,
            input: &input,
        };
        run_cached_quantized_gated_gelu_ffn(
            &mut cache,
            request,
            true,
            |call| Ok((call.weights.quant_params, timings(1))),
            |_: &u32, _: &u32, _: &[u32], _: MediaTekNnapiExecutionOptions| Ok(output(1)),
        )
        .unwrap();
        assert_eq!(cache.len(), 1);
        assert_eq!(cache[0].1, (quant_params, quant_params));
    }
    remove_gated_gelu_ffn_quantized_cache_entry(&mut cache, &key);
    assert!(!is_gated_gelu_ffn_quantized_cached(&cache, &key));
}

#[test]
fn a_hit_survives_a_smaller_capacity() {
    let mut entries: Vec<(u32, &str)> = vec![(1, "a"), (2, "b"), (3, "c")];
    assert!(touch_cache_entry(&mut entries, &1, 2));
    assert_eq!(entries, vec![(3, "c"), (1, "a")]);
    assert!(!touch_cache_entry(&mut entries, &2, 1));
    assert_eq!(entries, vec![(3, "c"), (1, "a")]);
}

#[test]
fn a_batch_that_is_compiled_first_is_reported_with_its_compile_times() {
    let (gate, up, down, input) =
        (bits::<12>(0.1), bits::<12>(0.2), bits::<6>(0.3), bits::<8>(0.4));
    let answer = || MediaTekGatedGeluFfnBatchedOutput {
        output: vec![1, 2, 3, 4],
        batch: 2,
        supported: true,
        supported_ops: vec![("gate_fc", true), ("down_fc", false)],
        compile_ns: 900,
        execute_hw_ns: Some(33),
        timings: timings(1),
        device_name: "mtk-neuron".to_string(),
        device_type: 1,
        device_feature_level: 8,
        device_version: "v".to_string(),
    };
    let compiled = probe_gated_gelu_ffn_f32_batched(
        batched_probe_request(&gate, &up, &down, &input, false, Some("/cache")),
        |_| Ok(()),
        |block| {
            assert_eq!(block.shape.ffn_inner_size, 3);
            Ok(block.gate_weight.len())
        },
        |weights: usize, batch, name, options: BatchedCompileOptions| -> Compiled {
            assert_eq!((weights, batch, name), (12, 2, "mtk-neuron"));
            assert_eq!(options.cache_dir.as_deref(), Some("/cache"));
            Ok((77, timings(50)))
        },
        |model, input, batch, options| {
            assert_eq!((*model, input.len(), batch, options.measure_timing), (77, 8, 2, true));
            Ok(answer())
        },
        |_, _| unreachable!(),
    )
    .unwrap();
    assert_eq!(compiled.compile_ns, 52);
    assert_eq!(compiled.token_hash_ns, 55);
    assert_eq!(
        compiled.supported_ops,
        vec![("gate_fc".to_string(), true), ("down_fc".to_string(), false)]
    );

    let direct = probe_gated_gelu_ffn_f32_batched(
        batched_probe_request(&gate, &up, &down, &input, false, None),
        |_| Ok(()),
        |_| -> Result<(), String> { unreachable!() },
        |_, _, _, _| -> Compiled { unreachable!() },
        |_, _, _, _| unreachable!(),
        |request, name| {
            assert_eq!((request.batch, name), (2, "mtk-neuron"));
            Ok(answer())
        },
    )
    .unwrap();
    assert_eq!((direct.compile_ns, direct.token_hash_ns), (900, 6));

    let refused = probe_gated_gelu_ffn_f32_batched(
        batched_probe_request(&gate, &up, &down, &input, false, None),
        |_| Err("input length".to_string()),
        |_| -> Result<(), String> { unreachable!() },
        |_, _, _, _| -> Compiled { unreachable!() },
        |_, _, _, _| unreachable!(),
        |_, _| unreachable!(),
    );
    assert!(matches!(
        refused,
        Err(MediaTekRunError::InvalidShape { reason }) if reason == "input length"
    ));

    let run = run_compiled_gated_gelu_ffn_f32_batched(&77u32, &input, 2, |_, _, _, options| {
        assert!(options.measure_timing);
        Ok(answer())
    })
    .unwrap();
    assert_eq!((run.compile_ns, run.execution_compute_ns), (900, 5));
}

#[test]
fn a_batch_is_compiled_without_options_by_default() {
    let (gate, up, down) = (bits::<12>(0.1), bits::<12>(0.2), bits::<6>(0.3));
    let made = compile_gated_gelu_ffn_f32_batched(
        " mtk ",
        block(&gate, &up, &down),
        3,
        |block| Ok(block.down_weight.len()),
        |weights: usize, batch, name, options: BatchedCompileOptions| {
            assert_eq!((weights, batch, name), (6, 3, "mtk"));
            assert!(!options.zero_copy && options.cache_dir.is_none());
            Ok::<u32, MediaTekNnapiError>(1)
        },
    );
    assert_eq!(made.unwrap(), 1);

    let blank = compile_gated_gelu_ffn_f32_batched(
        "  ",
        block(&gate, &up, &down),
        3,
        |_| -> Result<(), String> { unreachable!() },
        |_, _, _, _| -> Result<u32, MediaTekNnapiError> { unreachable!() },
    );
    assert!(matches!(blank, Err(MediaTekRunError::InvalidDeviceName)));
}

#[test]
fn a_stage_is_reported_as_the_driver_gave_it() {
    let input = bits::<4>(0.0);
    let result = run_quantized_gated_gelu_ffn_stage_probe(
        stage_request(" mtk ", 4, valid_quantized_stage_probe_weights(), &input),
        |_| Ok(()),
        |request, name| {
            assert_eq!(name, "mtk");
            Ok(MediaTekStageOutput { stage: request.stage, answer: output(1) })
        },
    )
    .unwrap();
    assert_eq!(result.stage, "gate_fc");
    assert_eq!(result.output, output(1).output);
    assert_eq!(result.timings, timings(1));
}

#[test]
fn unquantized_down_weights_are_handed_over_where_there_are_any() {
    let shape = MediaTekGatedGeluFfnShape { input_size: 4, ffn_inner_size: 3, output_size: 2 };
    let own = |weights: QuantizedBlockWeights<u32>| {
        if weights.gate_weight.len() == 12 {
            Ok((weights.quant_params, 0))
        } else {
            Err("gate".to_string())
        }
    };
    let own_with = |weights: QuantizedBlockWeights<u32>, down: Vec<u32>| {
        Ok((weights.quant_params, down.len()))
    };
    let mut weights = valid_quantized_stage_probe_weights();
    assert_eq!(weights.clone().into_backend(shape, own, own_with).unwrap(), (5, 6));
    weights.down_weight_f32 = None;
    assert_eq!(weights.clone().into_backend(shape, own, own_with).unwrap(), (5, 0));
    weights.gate_weight.pop();
    assert!(matches!(
        weights.into_backend(shape, own, own_with),
        Err(MediaTekRunError::InvalidShape { reason }) if reason == "gate"
    ));
}

#[test]
fn driver_errors_keep_what_they_say() {
    let texts = [
        MediaTekNnapiError::NoMatchingAccelerator { requested: "mtk".to_string() },
        MediaTekNnapiError::CpuDeviceRejected { name: "nnapi-reference".to_string() },
        MediaTekNnapiError::InvalidOutputLength { expected: 4, actual: 3 },
        MediaTekNnapiError::InvalidInput { reason: "no rows".to_string() },
        MediaTekNnapiError::UnsupportedOperation { fc1: true, fc2: false },
    ]
    .map(MediaTekRunError::from_backend);
    assert!(matches!(
        &texts[0],
        MediaTekRunError::NoMatchingAccelerator { requested } if requested == "mtk"
    ));
    assert!(matches!(
        &texts[1],
        MediaTekRunError::CpuDeviceRejected { name } if name == "nnapi-reference"
    ));
    assert!(matches!(
        &texts[2],
        MediaTekRunError::InvalidOutputLength { expected: 4, actual: 3 }
    ));
    assert!(matches!(
        &texts[3],
        MediaTekRunError::InvalidShape { reason } if reason == "no rows"
    ));
    assert!(matches!(
        &texts[4],
        MediaTekRunError::UnsupportedOperation { supported_ops }
            if supported_ops == &vec![("fc1", true), ("fc2", false)]
    ));
}

#[test]
fn a_faulty_batch_key_is_reported_before_its_input_is_counted() {
    let mut key = batched_key_for_test(0, usize::MAX, 3, 2, 2);
    key.base.device_name_substring = "  ".to_string();
    let request = RunCachedGatedGeluFfnF32BatchedRequest {
        cache_key: key,
        weights: None,
        max_cache_entries: 1,
        measure_timing: false,
        input: &[],
    };
    assert!(matches!(request.validate_key(), Err(MediaTekRunError::InvalidDeviceName)));
    assert!(matches!(request.validate(), Err(MediaTekRunError::InvalidDeviceName)));
}
