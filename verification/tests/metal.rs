use rnb_runtime::metal_inference::chain_trace::{
    chain_reject_line, qwen_prefill_chain_gdn_weight_trace, qwen_prefill_chain_trace_gdn_reject,
};
use rnb_runtime::metal_inference::counters::{
    metal_decode_parity_counters_report, metal_decode_parity_counters_reset,
    metal_decode_parity_counters_snapshot, metal_decode_parity_record_chain_report,
    metal_decode_parity_record_expected_token, metal_decode_parity_record_opt_out,
    metal_prefill_atn_full_counters_report, metal_prefill_atn_full_counters_reset,
    metal_prefill_atn_full_expected_dense_layer, metal_prefill_atn_full_record_adapter_reject,
    metal_prefill_atn_o_tail_counters_report, metal_prefill_atn_o_tail_counters_reset,
    metal_prefill_atn_o_tail_expected_dense_layer, metal_prefill_atn_o_tail_record_hit,
    AtnFullCounters, AtnOTailCounters, MetalDecodeChainReport, MetalDecodeParityCounters,
    MetalOutputArgmaxReport,
};
use rnb_runtime::metal_inference::decode_chain::{
    gdn_moe_qwen_chain_ref_if_supported, gdn_quant_code, metal_decode_chain_run,
    metal_decode_parity_policy, ChainLayerCodes, DecodeChainCall, MetalChainLayer, MetalDecodeOutputArgmax, MetalDecodeParityEnv, MetalGdnMoeQwenChainLayer,
};
use rnb_runtime::metal_inference::gates::{
    decode_gemv_into_if_supported, metal_attn_decode_kv_resident_into_if_supported,
    metal_output_argmax_token_if_supported, metal_rope_mrope_into_if_supported, AttnDecodeRequest,
    FfnFormats, FfnWeights, GemvRequest, MropeCall, MropeSizes, ResidentAttnRequest,
};
use rnb_runtime::metal_inference::moe_gates::{
    metal_qwen_moe_llama_id_prefill, metal_qwen_moe_prefill_shared_sparse_accum_if_supported,
    metal_qwen_moe_prefill_sparse_accum_if_supported, qwen_moe_llama_id_quant_sets, AccumSkip,
    MetalQwenMoeLlamaIdPrefillRequest, SharedExpert, SparseExperts,
};
use rnb_runtime::metal_inference::prefill_atn::{
    metal_prefill_atn_core_if_supported, metal_prefill_atn_full_layer_if_supported,
    metal_prefill_atn_o_tail_if_supported, MetalPrefillAtnCoreRequest,
    MetalPrefillAtnFullLayerRequest, MetalPrefillAtnOTailOut, MetalPrefillAtnOTailRequest,
};
use rnb_runtime::metal_inference::prefill_chain::{
    metal_qwen_prefill_chain_run, qwen_prefill_chain_attention_spec, qwen_prefill_chain_specs,
    qwen_prefill_chain_gdn_elements_fit_u32, qwen_prefill_chain_gdn_spec,
    qwen_prefill_chain_layer_is_contiguous, qwen_prefill_chain_moe_spec,
    qwen_prefill_chain_norm_eps_supported, ChainReject, MetalGdnWeightRef, MetalGgmlQuantSet,
    MetalPrefillAtnCoreSpec, MetalPrefillAtnOTailSpec, MetalQuantWeightRef,
    MetalQwenMoePrefillWeights, MetalQwenPrefillChainLayer, MetalQwenPrefillChainOut,
    MetalQwenPrefillGdnSpec,
    Qwen35RouteAlgorithm, Qwen35RoutePolicy,
};
use rnb_runtime::metal_inference::prefill_gates::{
    metal_prefill_attention_flash_if_supported, metal_prefill_delta_net_scan_into_if_supported,
    metal_prefill_gdn_f32_dual_proj_if_supported,
    metal_prefill_gdn_proj_into_if_supported, pick_delta_scan_chunk_size, DualProjection,
    DualProjectionRequest, FlashRequest, ProjectionRequest, ScanRequest,
};
use rnb_runtime::metal_inference::state::{
    metal_attn_carrier_kv_filled, metal_clear_sequence_state, metal_sync_delta_state,
};
use rnb_runtime::metal_inference::switches::{
    metal_prefill_atn_full_layer_requested, metal_prefill_atn_full_timing_enabled,
    metal_prefill_atn_o_tail_requested, metal_prefill_gdn_full_ffn_enabled,
    metal_qwen_moe_expert_batch_enabled, metal_qwen_moe_llama_id_requested,
    metal_qwen_moe_prefill_accum_enabled, metal_qwen_moe_prefill_mulmmid_v3_requested,
    metal_qwen_moe_prefill_mulmmid_v4_requested, metal_qwen_moe_prefill_router_requested,
    metal_qwen_moe_prefill_shared_accum_enabled,
};
use rnb_runtime::quant::{GGMLType, QwenMoeLlamaIdQuant, QwenMoeLlamaIdQuantSet, TensoropsQuant};

const FALSEY: [&str; 4] = ["0", "false", "off", "no"];

const NO_ENV: MetalDecodeParityEnv<'static> = MetalDecodeParityEnv {
    parity_chain: None,
    parity_time: None,
    decode_chain: None,
    gdn_layer: None,
    attn_layer: None,
    qwen_moe_decode_chain: None,
    kv_int8: None,
    chain_gpu_time: None,
    delta_resident: None,
};

#[test]
fn gdn_quant_code_supports_f32() {
    assert_eq!(gdn_quant_code(GGMLType::F32), Some(4));
    assert_eq!(gdn_quant_code(GGMLType::Q4_K), Some(0));
    assert_eq!(gdn_quant_code(GGMLType::Q8_0), Some(3));
}

#[test]
fn gdn_proj_wrapper_quant_guard_rejects_unsupported_quant() {
    let weight = [0u8; 144];
    let offered = |inproj, weight_ggml, weight_raw: &[u8]| {
        let mut out = vec![0u32; 4];
        let done = metal_prefill_gdn_proj_into_if_supported(
            inproj,
            ProjectionRequest {
                weight_ggml,
                weight_raw,
                normed: &[0; 4],
                seq_len: 1,
                hidden_dim: 4,
                n_out: 4,
            },
            &mut out,
            |(quant, trace), request: ProjectionRequest<'_>| {
                assert_eq!(quant, TensoropsQuant::Q4K);
                assert!(trace.is_none());
                vec![request.weight_raw.len() as u32; request.n_out]
            },
        );
        (done, out)
    };
    assert_eq!(offered(Some("0"), GGMLType::Q4_K, &weight), (false, vec![0; 4]));
    assert_eq!(offered(None, GGMLType::Q8_0, &weight[..34]), (false, vec![0; 4]));
    assert_eq!(offered(None, GGMLType::Q4_K, &weight), (true, vec![144; 4]));
}

#[test]
fn gdn_dual_proj_quantized_obeys_inproj_opt_out_before_device() {
    let request = DualProjectionRequest {
        left_ggml: GGMLType::Q4_K,
        right_ggml: GGMLType::Q4_K,
        left_raw: &[0; 144],
        right_raw: &[0; 144],
        normed: &[0; 4],
        seq_len: 1,
        hidden_dim: 4,
        n_out: 4,
    };
    let offered = |inproj, f32_dual, request| {
        metal_prefill_gdn_f32_dual_proj_if_supported(inproj, f32_dual, request, |kind, given| {
            assert_eq!(given, request);
            kind
        })
    };
    assert_eq!(offered(Some("0"), None, request), None);
    assert_eq!(
        offered(None, None, request),
        Some(DualProjection::Quant { left: TensoropsQuant::Q4K, right: TensoropsQuant::Q4K })
    );
    assert_eq!(offered(None, None, DualProjectionRequest { normed: &[0; 5], ..request }), None);

    let plain = DualProjectionRequest {
        left_ggml: GGMLType::F32,
        right_ggml: GGMLType::F32,
        left_raw: &[0; 64],
        right_raw: &[0; 63],
        ..request
    };
    assert_eq!(offered(None, Some("1"), plain), None);
    let plain = DualProjectionRequest { right_raw: &[0; 64], ..plain };
    assert_eq!(
        offered(None, Some("1"), plain),
        Some(DualProjection::F32)
    );
    assert_eq!(offered(None, None, plain), None);
}

#[test]
fn gdn_full_ffn_defaults_on_and_supports_explicit_opt_out() {
    assert!(metal_prefill_gdn_full_ffn_enabled(None));

    for value in FALSEY {
        assert!(
            !metal_prefill_gdn_full_ffn_enabled(Some(value)),
            "{value} should opt out of GDN full+FFN default"
        );
    }

    assert!(metal_prefill_gdn_full_ffn_enabled(Some("1")));
}

#[test]
fn atn_full_layer_is_default_on_with_falsey_opt_out() {
    assert!(metal_prefill_atn_full_layer_requested(None));
    assert!(!metal_prefill_atn_full_timing_enabled(None));

    assert!(metal_prefill_atn_full_layer_requested(Some("1")));

    for value in FALSEY {
        assert!(
            !metal_prefill_atn_full_layer_requested(Some(value)),
            "{value} should reject ATN full-layer opt-in"
        );
    }

    assert!(metal_prefill_atn_full_timing_enabled(Some("1")));
}

#[test]
fn atn_full_adapter_reject_splits_opt_out_from_fallback() {
    let mut v = AtnFullCounters::default();
    metal_prefill_atn_full_counters_reset(&mut v);

    metal_prefill_atn_full_expected_dense_layer(&mut v);
    metal_prefill_atn_full_record_adapter_reject(
        &mut v,
        metal_prefill_atn_full_layer_requested(None),
    );
    assert_eq!(v.expected_dense_atn_layers, 1);
    assert_eq!(v.opt_out, 0);
    assert_eq!(v.fallback, 1);
    assert_eq!(v.skip_by_reason, 1);

    metal_prefill_atn_full_counters_reset(&mut v);
    metal_prefill_atn_full_expected_dense_layer(&mut v);
    metal_prefill_atn_full_record_adapter_reject(
        &mut v,
        metal_prefill_atn_full_layer_requested(Some("0")),
    );
    assert_eq!(v.expected_dense_atn_layers, 1);
    assert_eq!(v.opt_out, 1);
    assert_eq!(v.fallback, 0);
    assert_eq!(v.skip_by_reason, 0);
}

#[test]
fn atn_o_tail_is_exact_opt_in_and_independent_of_full_layer_gates() {
    assert!(!metal_prefill_atn_o_tail_requested(None));

    for value in ["0", "false", "off", "no", "true", "yes", "on"] {
        assert!(
            !metal_prefill_atn_o_tail_requested(Some(value)),
            "{value} must not enable exact opt-in o-tail"
        );
    }

    assert!(metal_prefill_atn_o_tail_requested(Some("1")));
}

#[test]
fn atn_o_tail_expected_counter_is_independent_from_hit_and_fallback() {
    let mut v = AtnOTailCounters::default();
    metal_prefill_atn_o_tail_counters_reset(&mut v);

    metal_prefill_atn_o_tail_expected_dense_layer(&mut v);
    assert_eq!(v.expected_dense_atn_layers, 1);
    assert_eq!(v.o_tail_hit, 0);
    assert_eq!(v.fallback, 0);

    metal_prefill_atn_o_tail_record_hit(&mut v);
    assert_eq!(v.expected_dense_atn_layers, 1);
    assert_eq!(v.o_tail_hit, 1);
    assert_eq!(v.fallback, 0);
}

fn qwen_moe_llama_id_request(
    gate_quant: GGMLType,
    up_quant: GGMLType,
    down_quant: GGMLType,
    shared_gate_quant: GGMLType,
    shared_up_quant: GGMLType,
    shared_down_quant: GGMLType,
) -> MetalQwenMoeLlamaIdPrefillRequest<'static> {
    MetalQwenMoeLlamaIdPrefillRequest {
        gate_all: &[],
        up_all: &[],
        down_all: &[],
        gate_expert_bytes: 0,
        up_expert_bytes: 0,
        down_expert_bytes: 0,
        selected_experts: &[],
        route_weights: &[],
        shared_gate: &[],
        shared_up: &[],
        shared_down: &[],
        shared_route_weights: &[],
        gate_quant,
        up_quant,
        down_quant,
        shared_gate_quant,
        shared_up_quant,
        shared_down_quant,
        norm_all: &[],
        seq_len: 0,
        hidden_dim: 0,
        ffn_dim: 0,
        layer_idx: 0,
    }
}

#[test]
fn qwen_moe_llama_id_type_positions_accept_only_product_tuple() {
    for (quants, expected_sparse_down, expected_shared) in [
        (
            [
                GGMLType::Q4_K,
                GGMLType::Q4_K,
                GGMLType::Q4_K,
                GGMLType::Q4_K,
                GGMLType::Q4_K,
                GGMLType::Q4_K,
            ],
            QwenMoeLlamaIdQuant::Q4K,
            QwenMoeLlamaIdQuantSet {
                gate: QwenMoeLlamaIdQuant::Q4K,
                up: QwenMoeLlamaIdQuant::Q4K,
                down: QwenMoeLlamaIdQuant::Q4K,
            },
        ),
        (
            [
                GGMLType::Q4_K,
                GGMLType::Q4_K,
                GGMLType::Q6_K,
                GGMLType::Q4_K,
                GGMLType::Q4_K,
                GGMLType::Q6_K,
            ],
            QwenMoeLlamaIdQuant::Q6K,
            QwenMoeLlamaIdQuantSet {
                gate: QwenMoeLlamaIdQuant::Q4K,
                up: QwenMoeLlamaIdQuant::Q4K,
                down: QwenMoeLlamaIdQuant::Q6K,
            },
        ),
        (
            [
                GGMLType::Q4_K,
                GGMLType::Q4_K,
                GGMLType::Q5_K,
                GGMLType::Q8_0,
                GGMLType::Q8_0,
                GGMLType::Q8_0,
            ],
            QwenMoeLlamaIdQuant::Q5K,
            QwenMoeLlamaIdQuantSet {
                gate: QwenMoeLlamaIdQuant::Q8Zero,
                up: QwenMoeLlamaIdQuant::Q8Zero,
                down: QwenMoeLlamaIdQuant::Q8Zero,
            },
        ),
    ] {
        let request = qwen_moe_llama_id_request(
            quants[0], quants[1], quants[2], quants[3], quants[4], quants[5],
        );
        let (sparse, shared) =
            qwen_moe_llama_id_quant_sets(&request).expect("supported product tuple");
        assert_eq!(sparse.gate, QwenMoeLlamaIdQuant::Q4K);
        assert_eq!(sparse.up, QwenMoeLlamaIdQuant::Q4K);
        assert_eq!(sparse.down, expected_sparse_down);
        assert_eq!(shared, expected_shared);
    }

    for quants in [
        [
            GGMLType::Q8_0,
            GGMLType::Q4_K,
            GGMLType::Q4_K,
            GGMLType::Q4_K,
            GGMLType::Q4_K,
            GGMLType::Q4_K,
        ],
        [
            GGMLType::Q4_K,
            GGMLType::Q8_0,
            GGMLType::Q4_K,
            GGMLType::Q4_K,
            GGMLType::Q4_K,
            GGMLType::Q4_K,
        ],
        [
            GGMLType::Q4_K,
            GGMLType::Q4_K,
            GGMLType::Q8_0,
            GGMLType::Q4_K,
            GGMLType::Q4_K,
            GGMLType::Q4_K,
        ],
        [
            GGMLType::Q4_K,
            GGMLType::Q4_K,
            GGMLType::Q4_K,
            GGMLType::Q4_K,
            GGMLType::Q8_0,
            GGMLType::Q4_K,
        ],
        [
            GGMLType::Q4_K,
            GGMLType::Q4_K,
            GGMLType::Q4_K,
            GGMLType::Q4_K,
            GGMLType::Q4_K,
            GGMLType::Q5_K,
        ],
        [
            GGMLType::Q4_K,
            GGMLType::Q4_K,
            GGMLType::Q4_K,
            GGMLType::Q8_0,
            GGMLType::Q8_0,
            GGMLType::Q4_K,
        ],
    ] {
        let request = qwen_moe_llama_id_request(
            quants[0], quants[1], quants[2], quants[3], quants[4], quants[5],
        );
        assert!(qwen_moe_llama_id_quant_sets(&request).is_none());
        assert!(metal_qwen_moe_llama_id_prefill(request, |_| Ok(Some(1)))
            .expect("unsupported quant tuple is a fallback")
            .is_none());
    }
}

#[test]
fn qwen_moe_llama_id_success_forwards_backend_output() {
    const HIDDEN_DIM: usize = 256;
    const FFN_DIM: usize = 256;
    const Q4_K_BLOCK_BYTES: usize = 144;
    const Q5_K_BLOCK_BYTES: usize = 176;
    const Q6_K_BLOCK_BYTES: usize = 210;
    const Q8_0_BLOCK_BYTES: usize = 34;

    let matrix_bytes = |quant| match quant {
        GGMLType::Q4_K => FFN_DIM * (HIDDEN_DIM / 256) * Q4_K_BLOCK_BYTES,
        GGMLType::Q5_K => FFN_DIM * (HIDDEN_DIM / 256) * Q5_K_BLOCK_BYTES,
        GGMLType::Q6_K => FFN_DIM * (HIDDEN_DIM / 256) * Q6_K_BLOCK_BYTES,
        GGMLType::Q8_0 => FFN_DIM * (HIDDEN_DIM / 32) * Q8_0_BLOCK_BYTES,
        other => panic!("unsupported test quant {other:?}"),
    };
    let q4_matrix_bytes = matrix_bytes(GGMLType::Q4_K);
    let gate_all = vec![0; q4_matrix_bytes];
    let up_all = vec![0; q4_matrix_bytes];
    let selected_experts = [0];
    let route_weights = [1.0f32.to_bits()];
    let shared_route_weights = [1.0f32.to_bits()];
    let norm_all = vec![0.0f32.to_bits(); HIDDEN_DIM];
    for (down_quant, shared_gate_quant, shared_up_quant, shared_down_quant) in [
        (GGMLType::Q4_K, GGMLType::Q4_K, GGMLType::Q4_K, GGMLType::Q4_K),
        (GGMLType::Q6_K, GGMLType::Q4_K, GGMLType::Q4_K, GGMLType::Q6_K),
        (GGMLType::Q5_K, GGMLType::Q8_0, GGMLType::Q8_0, GGMLType::Q8_0),
        (GGMLType::Q6_K, GGMLType::Q8_0, GGMLType::Q8_0, GGMLType::Q8_0),
    ] {
        let down_expert_bytes = matrix_bytes(down_quant);
        let down_all = vec![0; down_expert_bytes];
        let shared_gate = vec![0; matrix_bytes(shared_gate_quant)];
        let shared_up = vec![0; matrix_bytes(shared_up_quant)];
        let shared_down = vec![0; matrix_bytes(shared_down_quant)];
        let request = MetalQwenMoeLlamaIdPrefillRequest {
            gate_all: &gate_all,
            up_all: &up_all,
            down_all: &down_all,
            gate_expert_bytes: q4_matrix_bytes,
            up_expert_bytes: q4_matrix_bytes,
            down_expert_bytes,
            selected_experts: &selected_experts,
            route_weights: &route_weights,
            shared_gate: &shared_gate,
            shared_up: &shared_up,
            shared_down: &shared_down,
            shared_route_weights: &shared_route_weights,
            gate_quant: GGMLType::Q4_K,
            up_quant: GGMLType::Q4_K,
            down_quant,
            shared_gate_quant,
            shared_up_quant,
            shared_down_quant,
            norm_all: &norm_all,
            seq_len: 1,
            hidden_dim: HIDDEN_DIM,
            ffn_dim: FFN_DIM,
            layer_idx: 0,
        };
        let output = metal_qwen_moe_llama_id_prefill(request, |asked| {
            assert_eq!(asked.sparse_quant.gate, QwenMoeLlamaIdQuant::Q4K);
            assert_eq!(asked.down_all.len(), asked.down_expert_bytes);
            let weight: u32 = asked.down_all.iter().map(|&byte| byte as u32).sum();
            Ok(Some(asked.norm_all.iter().map(|bits| bits * weight).collect::<Vec<u32>>()))
        })
        .expect("supported product tuple must not error")
        .expect("TensorOps-capable Metal device must run the product seam");
        assert_eq!(output, vec![0.0f32.to_bits(); HIDDEN_DIM]);

        let failed: Result<Option<u32>, String> =
            metal_qwen_moe_llama_id_prefill(request, |_| Err("no device".to_string()));
        assert_eq!(failed.unwrap_err(), "no device");
    }
}

fn atn_core(q_weight_ggml: GGMLType) -> MetalPrefillAtnCoreRequest<'static> {
    MetalPrefillAtnCoreRequest {
        hidden: &[1, 2],
        attn_norm_w: &[],
        q_norm_w: &[],
        k_norm_w: &[],
        q_weight_ggml,
        q_weight_raw: &[3],
        q_weight_rows: 4,
        q_weight_cols: 5,
        k_weight_ggml: GGMLType::Q4_K,
        k_weight_raw: &[],
        k_weight_rows: 0,
        k_weight_cols: 0,
        v_weight_ggml: GGMLType::Q6_K,
        v_weight_raw: &[],
        v_weight_rows: 0,
        v_weight_cols: 0,
        seq_len: 6,
        num_heads: 0,
        num_kv_heads: 0,
        head_dim: 0,
        hidden_dim: 0,
        q_dim: 0,
        kv_dim: 0,
        n_rot: 0,
        rope_theta: 0,
        scale: 0,
        norm_eps: 7,
        pos_start: 8,
    }
}

#[test]
fn each_offered_layer_is_counted_once() {
    let mut full = AtnFullCounters::default();
    let mut core = |switch, ggml, reply: Result<Option<()>, String>| {
        metal_prefill_atn_core_if_supported(&mut full, switch, atn_core(ggml), |asked| {
            assert_eq!((asked.q_weight.quant, asked.q_weight.rows), (TensoropsQuant::Q4K, 4));
            assert_eq!((asked.seq_len, asked.norm_eps, asked.pos_start), (6, 7, 8));
            reply.map(|taken| taken.map(|()| (asked.hidden.to_vec(), vec![9], vec![])))
        })
    };
    assert_eq!(core(Some("0"), GGMLType::Q4_K, Ok(Some(()))), Ok(None));
    assert_eq!(core(None, GGMLType::F16, Ok(Some(()))), Ok(None));
    assert_eq!(core(None, GGMLType::Q4_K, Ok(None)), Ok(None));
    assert_eq!(core(None, GGMLType::Q4_K, Err("lost".to_string())), Err("lost".to_string()));
    let out = core(None, GGMLType::Q4_K, Ok(Some(()))).unwrap().unwrap();
    assert_eq!((out.attn_out, out.k_bits), (vec![1, 2], vec![9]));
    assert_eq!(
        full,
        AtnFullCounters {
            core_hit: 1,
            fallback: 3,
            opt_out: 1,
            skip_by_reason: 2,
            backend_err: 1,
            ..AtnFullCounters::default()
        }
    );

    let mut tail = AtnOTailCounters::default();
    let request = MetalPrefillAtnOTailRequest {
        core: atn_core(GGMLType::Q4_K),
        o_weight_ggml: GGMLType::Q6_K,
        o_weight_raw: &[],
        o_weight_rows: 2,
        o_weight_cols: 3,
    };
    let reply = (vec![1], vec![2], vec![3]);
    assert_eq!(
        metal_prefill_atn_o_tail_if_supported(&mut tail, None, request, |_| unreachable!()),
        Ok(None)
    );
    let out = metal_prefill_atn_o_tail_if_supported(&mut tail, Some("1"), request, |asked| {
        assert_eq!((asked.o_weight.quant, asked.o_weight.cols), (TensoropsQuant::Q6K, 3));
        Ok(Some(reply.clone()))
    });
    assert_eq!(
        out,
        Ok(Some(MetalPrefillAtnOTailOut { hidden: vec![1], k_bits: vec![2], v_bits: vec![3] }))
    );
    assert_eq!((tail.o_tail_hit, tail.opt_out, tail.fallback), (1, 1, 0));

    let layer = MetalPrefillAtnFullLayerRequest {
        core: atn_core(GGMLType::Q4_K),
        o_weight_ggml: GGMLType::Q4_K,
        o_weight_raw: &[],
        o_weight_rows: 0,
        o_weight_cols: 0,
        ffn_norm_w: &[],
        ffn_gate_weight_ggml: GGMLType::Q4_K,
        ffn_gate_weight_raw: &[],
        ffn_gate_weight_rows: 0,
        ffn_gate_weight_cols: 0,
        ffn_up_weight_ggml: GGMLType::Q4_K,
        ffn_up_weight_raw: &[],
        ffn_up_weight_rows: 0,
        ffn_up_weight_cols: 0,
        ffn_down_weight_ggml: GGMLType::Q6_K,
        ffn_down_weight_raw: &[],
        ffn_down_weight_rows: 0,
        ffn_down_weight_cols: 0,
        ffn_dim: 11,
    };
    let mut full = AtnFullCounters::default();
    let out = metal_prefill_atn_full_layer_if_supported(&mut full, None, layer, |asked| {
        assert_eq!((asked.ffn_down_weight.quant, asked.ffn_dim), (TensoropsQuant::Q6K, 11));
        Ok(Some(reply.clone()))
    });
    assert_eq!(out.unwrap().unwrap().v_bits, vec![3]);
    let unread =
        MetalPrefillAtnFullLayerRequest { ffn_up_weight_ggml: GGMLType::F64, ..layer };
    assert_eq!(
        metal_prefill_atn_full_layer_if_supported(&mut full, None, unread, |_| unreachable!()),
        Ok(None)
    );
    assert_eq!((full.full_layer_hit, full.fallback, full.skip_by_reason), (1, 1, 1));
}

#[test]
fn qwen_moe_prefill_accum_defaults_to_long_prefill_only_with_falsey_opt_out() {
    assert!(!metal_qwen_moe_prefill_accum_enabled(None, 5));
    assert!(!metal_qwen_moe_prefill_accum_enabled(None, 1023));
    assert!(metal_qwen_moe_prefill_accum_enabled(None, 1024));

    for value in FALSEY {
        assert!(
            !metal_qwen_moe_prefill_accum_enabled(Some(value), 4096),
            "{value} should opt out"
        );
    }

    assert!(metal_qwen_moe_prefill_accum_enabled(Some("1"), 5));
}

#[test]
fn qwen_moe_prefill_shared_accum_defaults_on_for_long_prefill_with_falsey_opt_out() {
    assert!(!metal_qwen_moe_prefill_shared_accum_enabled(None, None, 1023));
    assert!(metal_qwen_moe_prefill_shared_accum_enabled(None, None, 1024));

    for value in FALSEY {
        assert!(
            !metal_qwen_moe_prefill_shared_accum_enabled(None, Some(value), 4096),
            "{value} should opt out"
        );
    }

    assert!(
        !metal_qwen_moe_prefill_shared_accum_enabled(Some("0"), Some("1"), 4096),
        "base accum opt-out must disable shared accum too"
    );
}

#[test]
fn qwen_moe_prefill_mulmmid_v3_defaults_off_with_truthy_opt_in() {
    assert!(!metal_qwen_moe_prefill_mulmmid_v3_requested(None, None));

    for value in FALSEY {
        assert!(
            !metal_qwen_moe_prefill_mulmmid_v3_requested(Some(value), None),
            "{value} should opt out"
        );
    }

    assert!(metal_qwen_moe_prefill_mulmmid_v3_requested(Some("1"), None));

    for value in ["true", "on", "yes"] {
        assert!(metal_qwen_moe_prefill_mulmmid_v3_requested(Some(value), None), "{value}");
    }

    assert!(!metal_qwen_moe_prefill_mulmmid_v3_requested(Some("typo"), None));
}

#[test]
fn qwen_moe_llama_id_defaults_on_with_falsey_opt_out() {
    assert!(metal_qwen_moe_llama_id_requested(None));

    for value in FALSEY {
        assert!(!metal_qwen_moe_llama_id_requested(Some(value)), "{value} should opt out");
    }

    for value in ["1", "true", "on", "yes", "typo"] {
        assert!(
            metal_qwen_moe_llama_id_requested(Some(value)),
            "{value} should keep the default enabled"
        );
    }
}

#[test]
fn qwen_moe_llama_id_takes_priority_over_mulmmid_envs() {
    assert!(metal_qwen_moe_llama_id_requested(Some("1")));
    assert!(!metal_qwen_moe_prefill_mulmmid_v3_requested(Some("1"), Some("1")));
    assert!(!metal_qwen_moe_prefill_mulmmid_v4_requested(Some("true"), Some("1")));
}

#[test]
fn qwen_moe_prefill_mulmmid_v4_defaults_off_with_truthy_opt_in() {
    assert!(!metal_qwen_moe_prefill_mulmmid_v4_requested(None, None));

    for value in FALSEY {
        assert!(
            !metal_qwen_moe_prefill_mulmmid_v4_requested(Some(value), None),
            "{value} should opt out"
        );
    }

    for value in ["1", "true", "on", "yes"] {
        assert!(
            metal_qwen_moe_prefill_mulmmid_v4_requested(Some(value), None),
            "{value} should opt in"
        );
    }

    assert!(!metal_qwen_moe_prefill_mulmmid_v4_requested(Some("typo"), None));
}

#[test]
fn qwen_moe_expert_batch_defaults_to_long_prefill_only_with_falsey_opt_out() {
    assert!(!metal_qwen_moe_expert_batch_enabled(None, 5));
    assert!(!metal_qwen_moe_expert_batch_enabled(None, 15));
    assert!(metal_qwen_moe_expert_batch_enabled(None, 16));

    for value in FALSEY {
        assert!(
            !metal_qwen_moe_expert_batch_enabled(Some(value), 4096),
            "{value} should opt out"
        );
    }

    assert!(metal_qwen_moe_expert_batch_enabled(Some("1"), 5));
}

#[test]
fn qwen_moe_prefill_router_defaults_on_with_falsey_opt_out() {
    assert!(metal_qwen_moe_prefill_router_requested(None));

    for value in FALSEY {
        assert!(
            !metal_qwen_moe_prefill_router_requested(Some(value)),
            "{value} should opt out"
        );
    }

    assert!(metal_qwen_moe_prefill_router_requested(Some("1")));
}

#[test]
fn metal_decode_policy_keeps_parity_opt_in_and_defaults_qwen_moe_on() {
    let policy = metal_decode_parity_policy(NO_ENV);
    assert!(!policy.parity_requested);
    assert!(!policy.timing_enabled);
    assert!(policy.legacy_decode_chain_enabled);
    assert!(policy.legacy_gdn_layer_enabled);
    assert!(policy.legacy_attn_layer_enabled);
    assert!(policy.qwen_moe_decode_chain_enabled);
    assert!(policy.delta_resident);

    for value in FALSEY {
        let env = MetalDecodeParityEnv { parity_chain: Some(value), ..NO_ENV };
        assert!(
            !metal_decode_parity_policy(env).parity_requested,
            "{value} should opt out of pm51 parity chain"
        );
    }

    for value in FALSEY {
        let env = MetalDecodeParityEnv { qwen_moe_decode_chain: Some(value), ..NO_ENV };
        assert!(
            !metal_decode_parity_policy(env).qwen_moe_decode_chain_enabled,
            "{value} should opt out of the Qwen MoE decode chain"
        );
    }

    let policy = metal_decode_parity_policy(MetalDecodeParityEnv {
        parity_chain: Some("1"),
        parity_time: Some("1"),
        qwen_moe_decode_chain: Some("1"),
        ..NO_ENV
    });
    assert!(policy.parity_requested);
    assert!(policy.timing_enabled);
    assert!(policy.qwen_moe_decode_chain_enabled);
}

const F32_1: [u32; 1] = [0x3f80_0000];
const F32_4: [u32; 4] = [0x3f80_0000, 0, 0, 0x3f80_0000];

fn qwen_moe_base_layer<'a>(
    down_ggml: GGMLType,
    raw: &'a [u8],
    router: &'a [u32],
    scale: &'a [u32],
) -> MetalGdnMoeQwenChainLayer<'a> {
    MetalGdnMoeQwenChainLayer {
        layer: 3,
        conv_state: vec![0; 4],
        delta_state: vec![0; 4],
        attn_norm_weight: &F32_1,
        dt_bias_weight: &F32_1,
        ssm_a_weight: &F32_1,
        conv1d_weight: &F32_4,
        ssm_norm_weight: &F32_1,
        ffn_norm_weight: &F32_1,
        qkv_ggml: GGMLType::Q4_K,
        qkv_raw: raw,
        gate_ggml: GGMLType::Q4_K,
        gate_raw: raw,
        alpha_ggml: GGMLType::F32,
        alpha_raw: raw,
        beta_ggml: GGMLType::F32,
        beta_raw: raw,
        ssm_out_ggml: GGMLType::Q4_K,
        ssm_out_raw: raw,
        router_w: router,
        gate_exps_ggml: GGMLType::Q4_K,
        gate_exps_raw: raw,
        gate_expert_bytes: 256,
        up_exps_ggml: GGMLType::Q4_K,
        up_exps_raw: raw,
        up_expert_bytes: 256,
        down_exps_ggml: down_ggml,
        down_exps_raw: raw,
        down_expert_bytes: 256,
        shared_input_scale: scale,
        shared_gate_ggml: GGMLType::Q4_K,
        shared_gate_raw: &raw[..256],
        shared_up_ggml: GGMLType::Q4_K,
        shared_up_raw: &raw[..256],
        shared_down_ggml: down_ggml,
        shared_down_raw: &raw[..256],
        hidden_dim: 256,
        conv_channels: 1,
        conv_kernel: 4,
        z_dim: 1,
        num_v_heads: 1,
        num_k_heads: 1,
        head_k_dim: 1,
        head_v_dim: 1,
        n_ff: 256,
        n_expert: 16,
        n_expert_used: 2,
        eps: 1e-6f32.to_bits(),
    }
}

#[test]
fn qwen_moe_decode_chain_conversion_accepts_actual_down_tuples() {
    let (raw, router, scale) = (vec![0x11u8; 4096], vec![0u32; 4096], vec![0x3f80_0000u32; 256]);
    for (down, expected_code) in
        [(GGMLType::Q4_K, 0), (GGMLType::Q5_K, 1), (GGMLType::Q6_K, 2)]
    {
        let layer = qwen_moe_base_layer(down, &raw, &router, &scale);
        let spec = gdn_moe_qwen_chain_ref_if_supported(&layer).expect("supported down tuple");
        assert!(matches!(
            spec,
            ChainLayerCodes::GdnMoeQwen { down_quant, .. } if down_quant == expected_code
        ));
    }
}

#[test]
fn qwen_moe_decode_chain_conversion_rejects_mixed_down_tuple() {
    let (raw, router, scale) = (vec![0x11u8; 4096], vec![0u32; 4096], vec![0x3f80_0000u32; 256]);
    let mut layer = qwen_moe_base_layer(GGMLType::Q5_K, &raw, &router, &scale);
    layer.shared_down_ggml = GGMLType::Q6_K;
    let err = match gdn_moe_qwen_chain_ref_if_supported(&layer) {
        Ok(_) => panic!("mixed down quant must be rejected"),
        Err(err) => err,
    };
    assert_eq!(err, "unsupported qwen moe shared down quant");
}

#[test]
fn qwen_moe_decode_chain_conversion_rejects_too_many_active_experts() {
    let (raw, router, scale) = (vec![0x11u8; 4096], vec![0u32; 4096], vec![0x3f80_0000u32; 256]);
    let mut layer = qwen_moe_base_layer(GGMLType::Q6_K, &raw, &router, &scale);
    layer.n_expert = 64;
    layer.n_expert_used = 32;
    let err = match gdn_moe_qwen_chain_ref_if_supported(&layer) {
        Ok(_) => panic!("n_expert_used above route slot limit must be rejected"),
        Err(err) => err,
    };
    assert_eq!(err, "unsupported qwen moe shape");
}

#[test]
fn metal_decode_parity_policy_owns_legacy_chain_and_kv_int8_env() {
    let policy = metal_decode_parity_policy(MetalDecodeParityEnv {
        decode_chain: Some("0"),
        gdn_layer: Some("0"),
        attn_layer: Some("0"),
        kv_int8: Some("1"),
        chain_gpu_time: Some("1"),
        delta_resident: Some("0"),
        ..NO_ENV
    });
    assert!(!policy.legacy_decode_chain_enabled);
    assert!(!policy.legacy_gdn_layer_enabled);
    assert!(!policy.legacy_attn_layer_enabled);
    assert!(policy.kv_int8_requested);
    assert!(policy.collect_gpu_time);
    assert!(!policy.delta_resident);
    assert!(policy.kv_int8_requires_carrier_error(false, false).is_some());
    assert!(policy.kv_int8_requires_carrier_error(true, true).is_none());
    assert!(!policy.legacy_carrier_enabled());
}

#[test]
fn metal_decode_parity_counters_split_hit_fallback_and_backend_error() {
    let mut counters = MetalDecodeParityCounters::default();
    metal_decode_parity_counters_reset(&mut counters);

    metal_decode_parity_record_expected_token(&mut counters);
    metal_decode_parity_record_chain_report(
        &mut counters,
        MetalDecodeChainReport {
            did_run: true,
            pm51_extension_hit: true,
            legacy_chain_hit: false,
            qwen_moe_layers: 1,
            fallback_reason: None,
            cmd_buffers: 2,
            wait_us: 300,
            upload_bytes: 16,
            readback_bytes: 4,
            state_syncs: 1,
            output_argmax: MetalOutputArgmaxReport {
                attempted: true,
                did_run: true,
                token_id: Some(7),
                cmd_buffers: 1,
                wait_us: 50,
                readback_bytes: 4,
                fallback_reason: None,
            },
        },
    );
    metal_decode_parity_record_expected_token(&mut counters);
    metal_decode_parity_record_chain_report(
        &mut counters,
        MetalDecodeChainReport::fallback("unsupported quant", true),
    );

    let counters = metal_decode_parity_counters_snapshot(&counters);
    assert_eq!(counters.expected_decode_tokens, 2);
    assert_eq!(counters.chain_hit_tokens, 1);
    assert_eq!(counters.fallback_tokens, 1);
    assert_eq!(counters.backend_err, 1);
    assert_eq!(counters.cmd_buffers, 3);
    assert_eq!(counters.wait_us, 350);
    assert_eq!(counters.upload_bytes, 16);
    assert_eq!(counters.readback_bytes, 8);
    assert_eq!(counters.argmax_device_hits, 1);
    assert_eq!(counters.state_syncs, 1);
}

#[test]
fn metal_output_argmax_is_opt_in_and_quant_gated() {
    let mut counters = MetalDecodeParityCounters::default();
    let mut offered = |switch, ggml_type| {
        let request =
            GemvRequest { ggml_type, raw: &[], rows: 1, cols: 256, input: &[0; 256] };
        metal_output_argmax_token_if_supported(
            &mut counters,
            switch,
            request,
            |is_q6k, given: GemvRequest<'_>| MetalOutputArgmaxReport {
                attempted: true,
                did_run: is_q6k,
                token_id: Some(given.input.len() as u32),
                wait_us: 5,
                ..MetalOutputArgmaxReport::default()
            },
        )
    };
    assert_eq!(offered(None, GGMLType::Q6_K), None);
    assert_eq!(offered(Some("1"), GGMLType::F32), None);
    assert_eq!(offered(Some("1"), GGMLType::Q6_K), Some(256));
    assert_eq!(counters.argmax_device_hits, 1);
    assert_eq!(counters.wait_us, 5);
}

struct MoeBuffers {
    norm: Vec<u32>,
    router: Vec<u32>,
    shared_input_scale: Vec<u32>,
    sparse: Vec<u8>,
    shared_q8: Vec<u8>,
    shared_q4: Vec<u8>,
    shared_q6_down: Vec<u8>,
}

const HIDDEN_DIM: usize = 256;
const FFN_DIM: usize = 256;
const SPARSE_BYTES: usize = 256 * 144;

fn moe_buffers(n_expert: usize) -> MoeBuffers {
    MoeBuffers {
        norm: vec![1.0f32.to_bits(); HIDDEN_DIM],
        router: vec![0; n_expert * HIDDEN_DIM],
        shared_input_scale: vec![0; HIDDEN_DIM],
        sparse: vec![0; n_expert * SPARSE_BYTES],
        shared_q8: vec![0; 256 * (256 / 32) * 34],
        shared_q4: vec![0; 256 * 144],
        shared_q6_down: vec![0; 256 * 210],
    }
}

fn quant_set(gate: GGMLType, up: GGMLType, down: GGMLType) -> MetalGgmlQuantSet {
    MetalGgmlQuantSet { gate, up, down }
}

fn moe_weights(
    buffers: &MoeBuffers,
    n_expert: usize,
    n_expert_used: usize,
    norm_eps: f32,
) -> MetalQwenMoePrefillWeights<'_> {
    MetalQwenMoePrefillWeights {
        ffn_norm_w: &buffers.norm,
        router_w: &buffers.router,
        gate_all: &buffers.sparse,
        up_all: &buffers.sparse,
        down_all: &buffers.sparse,
        gate_expert_bytes: SPARSE_BYTES,
        up_expert_bytes: SPARSE_BYTES,
        down_expert_bytes: SPARSE_BYTES,
        shared_input_scale: &buffers.shared_input_scale,
        shared_gate: &buffers.shared_q8,
        shared_up: &buffers.shared_q8,
        shared_down: &buffers.shared_q8,
        sparse_quant: quant_set(GGMLType::Q4_K, GGMLType::Q4_K, GGMLType::Q4_K),
        shared_quant: quant_set(GGMLType::Q8_0, GGMLType::Q8_0, GGMLType::Q8_0),
        route: Qwen35RoutePolicy {
            algorithm: Qwen35RouteAlgorithm::SelectedSoftmaxTopKLowerExpertTieV1,
            n_expert,
            n_expert_used,
        },
        hidden_dim: HIDDEN_DIM,
        ffn_dim: FFN_DIM,
        norm_eps: norm_eps.to_bits(),
    }
}

#[test]
fn qwen_moe_llama_prefill_layer_chain_shared_quant_tuples() {
    let buffers = moe_buffers(1);
    let q8 = moe_weights(&buffers, 1, 1, 3.0e-5);
    let converted = qwen_prefill_chain_moe_spec(&q8, 1, HIDDEN_DIM).expect("exact Q8 tuple");
    assert!(matches!(converted.shared_quant.gate, QwenMoeLlamaIdQuant::Q8Zero));
    assert!(matches!(converted.shared_quant.up, QwenMoeLlamaIdQuant::Q8Zero));
    assert!(matches!(converted.shared_quant.down, QwenMoeLlamaIdQuant::Q8Zero));
    assert_eq!(converted.norm_eps, 3.0e-5f32.to_bits());

    let q4_q6 = MetalQwenMoePrefillWeights {
        shared_gate: &buffers.shared_q4,
        shared_up: &buffers.shared_q4,
        shared_down: &buffers.shared_q6_down,
        shared_quant: quant_set(GGMLType::Q4_K, GGMLType::Q4_K, GGMLType::Q6_K),
        ..q8
    };
    let converted = qwen_prefill_chain_moe_spec(&q4_q6, 1, HIDDEN_DIM).expect("Q4/Q4/Q6 tuple");
    assert!(matches!(converted.shared_quant.down, QwenMoeLlamaIdQuant::Q6K));

    let mixed = MetalQwenMoePrefillWeights {
        shared_gate: &buffers.shared_q8,
        shared_up: &buffers.shared_q8,
        shared_down: &buffers.shared_q4,
        shared_quant: quant_set(GGMLType::Q8_0, GGMLType::Q8_0, GGMLType::Q4_K),
        ..q4_q6
    };
    assert!(qwen_prefill_chain_moe_spec(&mixed, 1, HIDDEN_DIM).is_none());
}

#[test]
fn qwen_moe_llama_prefill_layer_chain_rejects_rank_nine() {
    let buffers = moe_buffers(9);
    let mut rank = moe_weights(&buffers, 9, 8, 1.0e-6);
    assert!(qwen_prefill_chain_moe_spec(&rank, 1, HIDDEN_DIM).is_some());
    rank.route.n_expert_used = 9;
    assert!(qwen_prefill_chain_moe_spec(&rank, 1, HIDDEN_DIM).is_none());
}

#[test]
fn qwen_moe_llama_prefill_layer_chain_contiguous_positions() {
    assert!(qwen_prefill_chain_layer_is_contiguous(None, 7));
    assert!(qwen_prefill_chain_layer_is_contiguous(Some(7), 8));
    assert!(qwen_prefill_chain_layer_is_contiguous(Some(39), 40));
    assert!(!qwen_prefill_chain_layer_is_contiguous(Some(7), 7));
    assert!(!qwen_prefill_chain_layer_is_contiguous(Some(7), 9));
    assert!(!qwen_prefill_chain_layer_is_contiguous(Some(7), 6));
    assert!(!qwen_prefill_chain_layer_is_contiguous(Some(usize::MAX), 0));
}

#[test]
fn qwen_moe_llama_prefill_layer_chain_preserves_non_default_norm_eps() {
    assert!(qwen_prefill_chain_norm_eps_supported(3.0e-5f32.to_bits()));
    assert!(qwen_prefill_chain_norm_eps_supported(f32::MIN_POSITIVE.to_bits()));
    assert!(!qwen_prefill_chain_norm_eps_supported(0.0f32.to_bits()));
    assert!(!qwen_prefill_chain_norm_eps_supported((-1.0e-6f32).to_bits()));
    assert!(!qwen_prefill_chain_norm_eps_supported(f32::NAN.to_bits()));
    assert!(!qwen_prefill_chain_norm_eps_supported(f32::INFINITY.to_bits()));
}

#[test]
fn qwen_moe_llama_prefill_layer_chain_gdn_rejects_u32_conv_data_overflow() {
    const SEQ_LEN: usize = 65_536;
    const CONV_CHANNELS: usize = 65_536;
    assert_eq!(SEQ_LEN.checked_mul(CONV_CHANNELS), Some(u32::MAX as usize + 1));
    assert!(!qwen_prefill_chain_gdn_elements_fit_u32(&[SEQ_LEN * CONV_CHANNELS]));
    assert!(qwen_prefill_chain_gdn_elements_fit_u32(&[(SEQ_LEN - 1) * CONV_CHANNELS]));
}

#[test]
fn qwen_moe_llama_prefill_layer_chain_gdn_rejects_u32_delta_state_overflow() {
    const D_INNER: usize = 16_777_216;
    const D_STATE: usize = 256;
    assert_eq!(D_INNER.checked_mul(D_STATE), Some(u32::MAX as usize + 1));
    assert!(!qwen_prefill_chain_gdn_elements_fit_u32(&[D_INNER * D_STATE]));
}

#[test]
fn qwen_moe_llama_prefill_layer_chain_gdn_rejects_u32_conv_input_overflow() {
    const SEQ_LEN: usize = 1;
    const CONV_KERNEL: usize = 65_536;
    const CONV_CHANNELS: usize = 65_536;
    let conv_rows = SEQ_LEN + CONV_KERNEL - 1;
    assert_eq!(conv_rows.checked_mul(CONV_CHANNELS), Some(u32::MAX as usize + 1));
    assert!(!qwen_prefill_chain_gdn_elements_fit_u32(&[conv_rows * CONV_CHANNELS]));
}

#[test]
fn qwen_moe_llama_prefill_layer_chain_gdn_rejects_u32_final_qk_overflow() {
    const SEQ_LEN: usize = 65_536;
    const DT_RANK: usize = 256;
    const D_STATE: usize = 256;
    assert_eq!(SEQ_LEN.checked_mul(DT_RANK * D_STATE), Some(u32::MAX as usize + 1));
    assert!(!qwen_prefill_chain_gdn_elements_fit_u32(&[SEQ_LEN * DT_RANK * D_STATE]));
}

struct AttentionBuffers {
    norm: Vec<u32>,
    q_raw: Vec<u8>,
    k_raw: Vec<u8>,
    o_raw: Vec<u8>,
}

fn attention_buffers() -> AttentionBuffers {
    AttentionBuffers {
        norm: vec![1.0f32.to_bits(); 256],
        q_raw: vec![0; 256 * 2 * 144],
        k_raw: vec![0; 256 * 144],
        o_raw: vec![0; 256 * 144],
    }
}

fn attention_spec(buffers: &AttentionBuffers) -> MetalPrefillAtnOTailSpec<'_> {
    MetalPrefillAtnOTailSpec {
        core: MetalPrefillAtnCoreSpec {
            attn_norm_w: &buffers.norm,
            q_norm_w: &buffers.norm,
            k_norm_w: &buffers.norm,
            q_weight: MetalQuantWeightRef {
                ggml_type: GGMLType::Q4_K,
                raw: &buffers.q_raw,
                rows: 512,
                cols: HIDDEN_DIM,
            },
            k_weight: MetalQuantWeightRef {
                ggml_type: GGMLType::Q4_K,
                raw: &buffers.k_raw,
                rows: 256,
                cols: HIDDEN_DIM,
            },
            v_weight: MetalQuantWeightRef {
                ggml_type: GGMLType::Q4_K,
                raw: &buffers.k_raw,
                rows: 256,
                cols: HIDDEN_DIM,
            },
            seq_len: 1,
            num_heads: 1,
            num_kv_heads: 1,
            head_dim: 256,
            hidden_dim: HIDDEN_DIM,
            q_dim: 256,
            kv_dim: 256,
            n_rot: 64,
            rope_theta: 10_000_000.0f32.to_bits(),
            scale: 0.0625f32.to_bits(),
            norm_eps: 1.0e-6f32.to_bits(),
            pos_start: 0,
        },
        o_weight: MetalQuantWeightRef {
            ggml_type: GGMLType::Q4_K,
            raw: &buffers.o_raw,
            rows: HIDDEN_DIM,
            cols: 256,
        },
    }
}

#[test]
fn qwen_moe_llama_prefill_layer_chain_attention_rejects_odd_n_rot() {
    let buffers = attention_buffers();
    let mut spec = attention_spec(&buffers);
    assert!(qwen_prefill_chain_attention_spec(&spec).is_some());
    spec.core.n_rot = 63;
    assert!(qwen_prefill_chain_attention_spec(&spec).is_none());
    spec.core.n_rot = 64;
    spec.core.norm_eps = f32::NAN.to_bits();
    assert!(qwen_prefill_chain_attention_spec(&spec).is_none());
    spec.core.norm_eps = 0.0f32.to_bits();
    assert!(qwen_prefill_chain_attention_spec(&spec).is_none());
    spec.core.norm_eps = 1.0e-6f32.to_bits();
    spec.core.rope_theta = f32::NAN.to_bits();
    assert!(qwen_prefill_chain_attention_spec(&spec).is_none());
    spec.core.rope_theta = 0.0f32.to_bits();
    assert!(qwen_prefill_chain_attention_spec(&spec).is_none());
    spec.core.rope_theta = 10_000_000.0f32.to_bits();
    spec.core.scale = f32::NAN.to_bits();
    assert!(qwen_prefill_chain_attention_spec(&spec).is_none());
    spec.core.scale = f32::INFINITY.to_bits();
    assert!(qwen_prefill_chain_attention_spec(&spec).is_none());
    spec.core.scale = 0.0625f32.to_bits();
    assert!(qwen_prefill_chain_attention_spec(&spec).is_some());
}

#[test]
fn qwen_moe_llama_prefill_layer_chain_gdn_rejects_kernel_one() {
    let (d_inner, d_state, n_group, dt_rank) = (256, 1, 1, 1);
    let conv_channels = d_inner + 2 * n_group * d_state;
    let attn_norm = vec![1.0f32.to_bits(); HIDDEN_DIM];
    let qkv = vec![0; conv_channels * HIDDEN_DIM];
    let gate = vec![0; d_inner * HIDDEN_DIM];
    let alpha = vec![0; dt_rank * HIDDEN_DIM];
    let beta = vec![0; dt_rank * HIDDEN_DIM];
    let conv_state = vec![0; conv_channels];
    let conv_kernel = vec![0; 2 * conv_channels];
    let dt_bias = vec![0; dt_rank];
    let ssm_a = vec![0; dt_rank];
    let delta_state = vec![0; d_inner * d_state];
    let ssm_norm = vec![1.0f32.to_bits(); d_inner / dt_rank];
    let ssm_out = vec![0; HIDDEN_DIM * d_inner];
    let post_norm = vec![1.0f32.to_bits(); HIDDEN_DIM];
    let mut spec = MetalQwenPrefillGdnSpec {
        seq_len: 1,
        hidden_dim: HIDDEN_DIM,
        d_inner,
        d_state,
        n_group,
        dt_rank,
        conv_kernel_size: 2,
        attn_norm_w: &attn_norm,
        qkv_weight: MetalGdnWeightRef::F32 { values: &qkv, rows: conv_channels, cols: HIDDEN_DIM },
        gate_weight: MetalGdnWeightRef::F32 { values: &gate, rows: d_inner, cols: HIDDEN_DIM },
        alpha_weight: MetalGdnWeightRef::F32 { values: &alpha, rows: dt_rank, cols: HIDDEN_DIM },
        beta_weight: MetalGdnWeightRef::F32 { values: &beta, rows: dt_rank, cols: HIDDEN_DIM },
        conv_state: &conv_state,
        conv_kernel: &conv_kernel,
        dt_bias: &dt_bias,
        ssm_a: &ssm_a,
        delta_state: &delta_state,
        ssm_norm: &ssm_norm,
        ssm_out_weight: MetalGdnWeightRef::F32 {
            values: &ssm_out,
            rows: HIDDEN_DIM,
            cols: d_inner,
        },
        post_attn_norm_w: &post_norm,
        norm_eps: 1.0e-6f32.to_bits(),
    };
    assert!(qwen_prefill_chain_gdn_spec(&spec).is_some());
    spec.conv_kernel_size = 1;
    assert!(qwen_prefill_chain_gdn_spec(&spec).is_none());
}

#[test]
fn a_prefill_chain_is_contiguous_and_stops_at_its_first_misfit() {
    let attention = attention_buffers();
    let experts = moe_buffers(1);
    let layer = |layer_idx: usize| MetalQwenPrefillChainLayer::Attention {
        layer_idx,
        core: attention_spec(&attention),
        moe: moe_weights(&experts, 1, 1, 1.0e-6),
    };
    let rejected = |hidden_len, layers: &[MetalQwenPrefillChainLayer<'_>]| {
        qwen_prefill_chain_specs(hidden_len, layers).unwrap_err()
    };
    assert_eq!(rejected(256, &[]), ChainReject::EmptyLayers);
    assert_eq!(
        qwen_prefill_chain_specs(256, &[layer(4), layer(5), layer(6)]).unwrap().len(),
        3
    );
    assert_eq!(
        rejected(256, &[layer(4), layer(6), layer(6)]),
        ChainReject::NonContiguousLayer { layer_idx: 6, previous: 4 }
    );
    assert_eq!(rejected(255, &[layer(4)]), ChainReject::HiddenLength { layer_idx: 4 });
    let mut odd = attention_spec(&attention);
    odd.core.n_rot = 63;
    let odd = MetalQwenPrefillChainLayer::Attention {
        layer_idx: 5,
        core: odd,
        moe: moe_weights(&experts, 1, 1, 1.0e-6),
    };
    assert_eq!(rejected(256, &[layer(4), odd]), ChainReject::Attention { layer_idx: 5 });
}

#[test]
fn a_chain_that_is_not_run_says_why() {
    let attention = attention_buffers();
    let experts = moe_buffers(2);
    let core = attention_spec(&attention);
    let moe = moe_weights(&experts, 2, 1, 1.0e-6);
    let layer = |layer_idx: usize| MetalQwenPrefillChainLayer::Attention { layer_idx, core, moe };
    let line = |hidden_len, layers: &[MetalQwenPrefillChainLayer<'_>]| {
        let reject = qwen_prefill_chain_specs(hidden_len, layers).unwrap_err();
        chain_reject_line(layers, hidden_len, reject).unwrap()
    };
    assert_eq!(
        line(256, &[]),
        "RNB_METAL_QWEN_PREFILL_CHAIN reject layer=none reason=conversion_empty_layers"
    );
    assert_eq!(
        chain_reject_line(&[], 0, ChainReject::BackendReturnedNone).unwrap(),
        "RNB_METAL_QWEN_PREFILL_CHAIN reject layer=none reason=backend_returned_none"
    );
    assert_eq!(
        line(256, &[layer(4), layer(6)]),
        "RNB_METAL_QWEN_PREFILL_CHAIN reject layer=6 \
         reason=conversion_non_contiguous_layer previous=Some(4) actual=6"
    );
    assert_eq!(
        line(255, &[layer(4)]),
        "RNB_METAL_QWEN_PREFILL_CHAIN reject layer=4 \
         reason=conversion_hidden_len actual=255 expected=Some(256)"
    );
    let mut wide = core;
    wide.core.seq_len = 3;
    let wide = MetalQwenPrefillChainLayer::Attention { layer_idx: 5, core: wide, moe };
    assert_eq!(
        line(256, &[layer(4), wide]),
        "RNB_METAL_QWEN_PREFILL_CHAIN reject layer=5 \
         reason=conversion_chain_shape expected=(1, 256) actual=(3,256)"
    );
    let mut odd = core;
    odd.core.n_rot = 63;
    odd.core.k_weight.ggml_type = GGMLType::F32;
    let odd = MetalQwenPrefillChainLayer::Attention { layer_idx: 5, core: odd, moe };
    assert_eq!(
        line(256, &[layer(4), odd]),
        "RNB_METAL_QWEN_PREFILL_CHAIN reject layer=5 stage=attention \
         seq=1 hidden=256 heads=1 kv_heads=1 head_dim=256 pos_start=0 n_rot=63 \
         q_dim=256/expected=Some(256) kv_dim=256/expected=Some(256) \
         norms=256/256/256 expected=256/256/256 \
         q=Q4_K:Some(512)x256 bytes=73728/expected=Some(73728) \
         k=F32:256x256 bytes=36864/expected=None \
         v=Q4_K:256x256 bytes=36864/expected=Some(36864) \
         o=Q4_K:256x256 bytes=36864/expected=Some(36864)"
    );
    let mut few = moe;
    few.shared_quant.up = GGMLType::F16;
    let few = MetalQwenPrefillChainLayer::Attention { layer_idx: 5, core, moe: few };
    assert_eq!(
        line(256, &[layer(4), few]),
        "RNB_METAL_QWEN_PREFILL_CHAIN reject layer=5 stage=moe \
         seq=1 hidden=256/chain_hidden=256 ffn=256 experts=2/used=1 \
         norms=256/expected=256 router=512/expected=Some(512) shared_scale=256/expected=256 \
         sparse=Q4_K/Q4_K/Q4_K bytes_per=36864/36864/36864 \
         expected=Some(36864)/Some(36864)/Some(36864) \
         arenas=73728/73728/73728 expected=Some(73728)/Some(73728)/Some(73728) \
         shared=Q8_0/F16/Q8_0 bytes=69632/69632/69632 expected=Some(69632)/None/Some(69632)"
    );
    assert_eq!(chain_reject_line(&[layer(4)], 256, ChainReject::Moe { layer_idx: 9 }), None);
    assert_eq!(chain_reject_line(&[layer(4)], 256, ChainReject::Gdn { layer_idx: 4 }), None);
}

#[test]
fn a_delta_net_that_is_not_run_says_what_it_has() {
    let plain = MetalGdnWeightRef::F32 { values: &[0; 6], rows: 2, cols: 3 };
    let quant = MetalGdnWeightRef::Quant(MetalQuantWeightRef {
        ggml_type: GGMLType::Q6_K,
        raw: &[0; 5],
        rows: 2,
        cols: 256,
    });
    assert_eq!(qwen_prefill_chain_gdn_weight_trace(&plain), "F32:2x3:values=6");
    assert_eq!(
        qwen_prefill_chain_gdn_weight_trace(&quant),
        "Q6_K:2x256:bytes=5:expected=Some(420)"
    );
    let spec = MetalQwenPrefillGdnSpec {
        seq_len: 1,
        hidden_dim: 2,
        d_inner: 12,
        d_state: 4,
        n_group: 3,
        dt_rank: 5,
        conv_kernel_size: 4,
        attn_norm_w: &[0],
        qkv_weight: plain,
        gate_weight: quant,
        alpha_weight: plain,
        beta_weight: plain,
        conv_state: &[0; 2],
        conv_kernel: &[0; 3],
        dt_bias: &[0; 4],
        ssm_a: &[0; 5],
        delta_state: &[0; 6],
        ssm_norm: &[0; 7],
        ssm_out_weight: plain,
        post_attn_norm_w: &[0; 8],
        norm_eps: 0,
    };
    assert_eq!(
        qwen_prefill_chain_trace_gdn_reject(7, &spec),
        "RNB_METAL_QWEN_PREFILL_CHAIN reject layer=7 stage=gdn \
         seq=1 hidden=2 d_inner=12 d_state=4 n_group=3 dt_rank=5 kernel=4 \
         conv_channels=Some(36) conv_state=2/expected=Some(108) conv_kernel=3/expected=Some(144) \
         delta_state=6/expected=Some(48) attn_norm=1/expected=2 dt_bias=4/expected=5 \
         ssm_a=5/expected=5 ssm_norm=7/expected=Some(2) post_norm=8/expected=2 \
         qkv=F32:2x3:values=6 gate=Q6_K:2x256:bytes=5:expected=Some(420) \
         alpha=F32:2x3:values=6 beta=F32:2x3:values=6 ssm_out=F32:2x3:values=6"
    );
    let huge = MetalQwenPrefillGdnSpec {
        n_group: usize::MAX,
        dt_rank: 0,
        conv_kernel_size: 0,
        ..spec
    };
    let line = qwen_prefill_chain_trace_gdn_reject(0, &huge);
    assert!(line.contains("conv_channels=None conv_state=2/expected=None conv_kernel=3/expected=None"));
    assert!(line.contains("ssm_norm=7/expected=None"));
}

#[test]
fn a_prefill_chain_is_run_whole_or_traced() {
    let attention = attention_buffers();
    let experts = moe_buffers(1);
    let layer = |layer_idx: usize| MetalQwenPrefillChainLayer::Attention {
        layer_idx,
        core: attention_spec(&attention),
        moe: moe_weights(&experts, 1, 1, 1.0e-6),
    };
    let hidden = vec![0u32; 256];
    let out = |hidden_readbacks| MetalQwenPrefillChainOut {
        hidden: vec![1],
        attention_kv: vec![],
        gdn_states: vec![],
        hidden_uploads: 1,
        hidden_readbacks,
        intermediate_hidden_transfers: 0,
    };
    let ran = metal_qwen_prefill_chain_run(
        &hidden,
        &[layer(4), layer(5)],
        |_| panic!("not rejected"),
        |given, specs| Ok(Some(out(given.len() + specs.len()))),
    );
    assert_eq!(ran, Ok(Some(out(258))));

    let mut traced = None;
    let declined =
        metal_qwen_prefill_chain_run(&hidden, &[layer(4)], |why| traced = Some(why), |_, _| {
            Ok(None)
        });
    assert_eq!(declined, Ok(None));
    assert_eq!(traced, Some(ChainReject::BackendReturnedNone));

    let mut traced = None;
    let rejected =
        metal_qwen_prefill_chain_run(&hidden, &[], |why| traced = Some(why), |_, _| {
            panic!("nothing to run")
        });
    assert_eq!(rejected, Ok(None));
    assert_eq!(traced, Some(ChainReject::EmptyLayers));

    let failed = metal_qwen_prefill_chain_run(&hidden, &[layer(4)], |_| (), |_, _| {
        Err("no device".to_string())
    });
    assert_eq!(failed, Err("no device".to_string()));
}

fn must_fall_back(_: DecodeChainCall<'_, '_>, _: ()) -> MetalDecodeChainReport {
    panic!("must fall back")
}

#[test]
fn a_decode_chain_runs_only_if_every_layer_is_supported() {
    let (raw, router, scale) = (vec![0x11u8; 4096], vec![0u32; 4096], vec![0x3f80_0000u32; 256]);
    let policy = metal_decode_parity_policy(NO_ENV);
    let mut counters = MetalDecodeParityCounters::default();
    let good =
        || MetalChainLayer::GdnMoeQwen(qwen_moe_base_layer(GGMLType::Q6_K, &raw, &router, &scale));
    let bad = || {
        let mut layer = qwen_moe_base_layer(GGMLType::Q6_K, &raw, &router, &scale);
        layer.n_expert_used = 0;
        MetalChainLayer::GdnMoeQwen(layer)
    };
    let ran = MetalDecodeChainReport { did_run: true, ..MetalDecodeChainReport::default() };
    let report =
        metal_decode_chain_run(&mut counters, policy, &[good(), good()], None, 5, |call, state| {
            assert_eq!(call.layers.len(), 2);
            assert_eq!(call.codes.len(), 2);
            assert!(call.output.is_none());
            assert!(!call.options.collect_timing && call.options.delta_resident);
            assert_eq!(state, 5);
            ran
        });
    assert!(report.did_run && report.legacy_chain_hit);
    assert_eq!(counters.chain_hit_tokens, 1);

    let before = metal_decode_parity_counters_snapshot(&counters);
    let report = metal_decode_chain_run(
        &mut counters,
        policy,
        &[good(), bad()],
        None,
        (),
        must_fall_back,
    );
    assert_eq!(report.fallback_reason, Some("unsupported qwen moe shape"));
    assert!(!report.did_run);
    let output = MetalDecodeOutputArgmax {
        norm_weight: &F32_1,
        output_ggml: GGMLType::F16,
        output_raw: &raw,
        rows: 1,
        cols: 1,
        eps: 0,
    };
    let report = metal_decode_chain_run(
        &mut counters,
        policy,
        &[good()],
        Some(output),
        (),
        must_fall_back,
    );
    assert_eq!(report.fallback_reason, Some("unsupported output quant"));
    let report =
        metal_decode_chain_run(&mut counters, policy, &[], None, (), must_fall_back);
    assert!(report.did_run);
    assert_eq!(metal_decode_parity_counters_snapshot(&counters), before);

    let output = MetalDecodeOutputArgmax { output_ggml: GGMLType::Q6_K, ..output };
    metal_decode_chain_run(&mut counters, policy, &[good()], Some(output), (), |call, ()| {
        assert_eq!(call.output.unwrap().1, 2);
        ran
    });
}

#[test]
fn a_chain_that_ran_counts_for_the_chain_that_was_asked_for() {
    let mut counters = MetalDecodeParityCounters::default();
    let (raw, router, scale) = (vec![0x11u8; 4096], vec![0u32; 4096], vec![0x3f80_0000u32; 256]);
    let layers =
        [MetalChainLayer::GdnMoeQwen(qwen_moe_base_layer(GGMLType::Q6_K, &raw, &router, &scale))];
    let ran = MetalDecodeChainReport { did_run: true, ..MetalDecodeChainReport::default() };
    let legacy = metal_decode_chain_run(
        &mut counters,
        metal_decode_parity_policy(NO_ENV),
        &layers,
        None,
        (),
        |_, ()| ran,
    );
    assert!(legacy.legacy_chain_hit && !legacy.pm51_extension_hit);
    let parity = metal_decode_parity_policy(MetalDecodeParityEnv {
        parity_chain: Some("1"),
        ..NO_ENV
    });
    let extended = metal_decode_chain_run(&mut counters, parity, &layers, None, (), |_, ()| ran);
    assert!(extended.pm51_extension_hit && !extended.legacy_chain_hit);
    metal_decode_parity_record_opt_out(&mut counters);
    assert_eq!(counters.chain_hit_tokens, 2);
    assert_eq!(counters.opt_out_tokens, 1);
}

#[test]
fn counter_lines_are_written_only_with_timing() {
    let mut full = AtnFullCounters::default();
    metal_prefill_atn_full_expected_dense_layer(&mut full);
    assert_eq!(metal_prefill_atn_full_counters_report(&full, "prefill", false), None);
    let line = metal_prefill_atn_full_counters_report(&full, "prefill", true).unwrap();
    assert!(line.contains("prefill") && line.contains(" expected_dense_atn_layers=1"));

    let tail = AtnOTailCounters::default();
    assert_eq!(metal_prefill_atn_o_tail_counters_report(&tail, "prefill", false), None);
    assert!(metal_prefill_atn_o_tail_counters_report(&tail, "prefill", true)
        .unwrap()
        .ends_with(" backend_err=0"));

    let decode = MetalDecodeParityCounters::default();
    assert_eq!(metal_decode_parity_counters_report(&decode, "decode", "0.00", false), None);
    assert!(metal_decode_parity_counters_report(&decode, "decode", "1.25", true)
        .unwrap()
        .contains("1.25"));
}

#[test]
fn accumulation_says_why_it_is_skipped() {
    let q4k = FfnFormats { gate: GGMLType::Q4_K, up: GGMLType::Q4_K, down: GGMLType::Q4_K };
    let q6k_down = FfnFormats { down: GGMLType::Q6_K, ..q4k };
    let norm = vec![0u32; 4096];
    let sparse = SparseExperts {
        formats: q4k,
        gate_all: &[1],
        up_all: &[2],
        down_all: &[3],
        gate_expert_bytes: 1,
        up_expert_bytes: 1,
        down_expert_bytes: 1,
        expert_ids: &[0; 4],
        route_weights: &[0; 4],
        token_ids: &[0; 4],
        seq_len: 1024,
        hidden_dim: 4,
        ffn_dim: 8,
        norm_all: &norm,
    };
    let start = |accum, sparse: SparseExperts<'_>, supported: bool| {
        metal_qwen_moe_prefill_sparse_accum_if_supported(
            accum,
            sparse,
            |_| supported,
            |q6k_down, given: SparseExperts<'_>| (q6k_down, given.ffn_dim),
        )
    };
    assert_eq!(start(None, sparse, true), Ok((false, 8)));
    assert_eq!(start(None, SparseExperts { formats: q6k_down, ..sparse }, true), Ok((true, 8)));
    assert_eq!(start(Some("0"), sparse, true), Err(AccumSkip::Policy));
    let formats = FfnFormats { gate: GGMLType::Q8_0, ..q4k };
    assert_eq!(
        start(None, SparseExperts { formats, ..sparse }, true),
        Err(AccumSkip::GateUpQuant)
    );
    let formats = FfnFormats { down: GGMLType::Q8_0, ..q4k };
    assert_eq!(start(None, SparseExperts { formats, ..sparse }, true), Err(AccumSkip::DownQuant));
    assert_eq!(
        start(None, SparseExperts { token_ids: &[0; 3], ..sparse }, true),
        Err(AccumSkip::Shape)
    );
    assert_eq!(start(None, sparse, false), Err(AccumSkip::BackendUnsupported));

    let ids = vec![0u32; 1024];
    let shared = SharedExpert {
        weights: FfnWeights { formats: q4k, gate_raw: &[4], up_raw: &[5], down_raw: &[6] },
        route_weights: &ids,
        token_ids: &ids,
    };
    let shared_start = |accum, shared_accum, shared: SharedExpert<'_>| {
        metal_qwen_moe_prefill_shared_sparse_accum_if_supported(
            accum,
            shared_accum,
            shared,
            sparse,
            |_| true,
            |q6k_down, (shared, sparse): (SharedExpert<'_>, SparseExperts<'_>)| {
                (q6k_down, shared.weights.down_raw[0], sparse.down_all[0])
            },
        )
    };
    assert_eq!(shared_start(None, None, shared), Ok((false, 6, 3)));
    assert_eq!(shared_start(Some("0"), Some("1"), shared), Err(AccumSkip::Policy));
    assert_eq!(
        shared_start(None, None, SharedExpert { token_ids: &[], ..shared }),
        Err(AccumSkip::Shape)
    );
}

#[test]
fn the_scan_chunk_is_the_longest_that_fits() {
    let fits = |chunk: usize, dim: usize| (chunk * dim + 2 * chunk * chunk + 256) * 4 <= 32 * 1024;
    let offered = |switch, head_v_dim| {
        let (mut state, mut out) = (vec![1], vec![0, 0]);
        let done = metal_prefill_delta_net_scan_into_if_supported(
            switch,
            None,
            ScanRequest {
                q: &[],
                k: &[],
                v: &[],
                gate: &[],
                beta: &[],
                seq_len: 1,
                num_heads: 1,
                head_k_dim: 1,
                head_v_dim,
            },
            &mut state,
            &mut out,
            |chunk, request: ScanRequest<'_>, before: &Vec<u32>| {
                assert_eq!((request.head_v_dim, before), (head_v_dim, &vec![1]));
                (vec![chunk as u32; 2], vec![9])
            },
        );
        assert_eq!(state, vec![if done { 9 } else { 1 }]);
        done.then_some(out[1] as usize)
    };
    for dim in [64, 128, 256, 512] {
        let chunk = pick_delta_scan_chunk_size(None, dim);
        assert!(fits(chunk, dim));
        assert_eq!(offered(None, dim), Some(chunk));
    }
    assert_eq!(offered(None, 1 << 20), None);
    assert_eq!(offered(Some("0"), 128), None);
}

#[test]
fn decode_gemv_is_opt_in_and_reads_q4k_only() {
    let offered = |decode, simd_gemv, ggml_type| {
        let mut out = vec![0, 0];
        decode_gemv_into_if_supported(
            decode,
            simd_gemv,
            GemvRequest { ggml_type, raw: &[7], rows: 2, cols: 1, input: &[5] },
            &mut out,
            |simd, given: GemvRequest<'_>| vec![given.input[0] + simd as u32; given.rows],
        )
        .then_some(out)
    };
    assert_eq!(offered(None, None, GGMLType::Q4_K), None);
    assert_eq!(offered(Some("1"), None, GGMLType::Q6_K), None);
    assert_eq!(offered(Some("1"), None, GGMLType::Q4_K), Some(vec![5, 5]));
    assert_eq!(offered(Some("1"), Some("1"), GGMLType::Q4_K), Some(vec![6, 6]));
}

#[test]
fn a_device_that_declines_leaves_the_output_alone() {
    let attention = AttnDecodeRequest {
        q: &[1],
        k_cache: &[2],
        v_cache: &[3],
        num_heads: 8,
        num_kv_heads: 2,
        head_dim: 256,
        kv_len: 1,
        scale: 4,
    };
    let attend = |switch, reply: Option<Vec<u32>>| {
        let mut out = vec![1, 2, 3];
        let done = metal_attn_decode_kv_resident_into_if_supported(
            switch,
            ResidentAttnRequest { layer: 5, attention, capacity: 6 },
            &mut out,
            None,
            false,
            |given: ResidentAttnRequest<'_>| {
                assert_eq!((given.layer, given.attention, given.capacity), (5, attention, 6));
                reply
            },
        );
        (done, out)
    };
    assert_eq!(attend(None, Some(vec![9, 8])), (false, vec![1, 2, 3]));
    assert_eq!(attend(Some("1"), Some(vec![9, 8])), (true, vec![9, 8, 3]));
    assert_eq!(attend(Some("1"), None), (false, vec![1, 2, 3]));

    let flash = |switch, reply: Option<u32>| {
        let request = FlashRequest {
            q: &[1],
            k_f16: &[2],
            v_f16: &[3],
            seq_len: 7,
            kv_len: 7,
            num_heads: 8,
            num_kv_heads: 2,
            head_dim: 256,
            scale: 4,
        };
        metal_prefill_attention_flash_if_supported(
            switch,
            request,
            false,
            false,
            |given: FlashRequest<'_>| reply.map(|value| value + given.seq_len as u32),
        )
    };
    assert_eq!(flash(Some("1"), Some(1)), Some(8));
    assert_eq!(flash(Some("1"), None), None);
    assert_eq!(flash(None, Some(1)), None);
}

#[test]
fn keys_are_rotated_only_where_asked() {
    let sizes =
        MropeSizes { head_dim: 2, q_dim: 10, kv_dim: 20, mrope_dim: 2, theta: 5, pos: 6 };
    let rotate = |switch, apply_k| {
        let (mut queries, mut keys) = (vec![1], vec![2, 2]);
        let rotated = metal_rope_mrope_into_if_supported(
            switch,
            sizes,
            apply_k,
            &mut queries,
            &mut keys,
            &|call: MropeCall, before: &Vec<u32>| {
                assert_eq!((call.head_dim, call.mrope_dim, call.theta, call.pos), (2, 2, 5, 6));
                before.iter().map(|float| float + call.dim as u32).collect()
            },
        );
        (rotated, queries, keys)
    };
    assert_eq!(rotate(None, true), (false, vec![1], vec![2, 2]));
    assert_eq!(rotate(Some("1"), false), (true, vec![11], vec![2, 2]));
    assert_eq!(rotate(Some("1"), true), (true, vec![11], vec![22, 22]));
}

#[test]
fn sequence_state_is_asked_of_the_device() {
    let mut cleared = 0;
    assert_eq!(metal_clear_sequence_state(|| cleared += 1), Ok(()));
    assert_eq!(cleared, 1);

    let mut out = vec![7, 8];
    assert_eq!(metal_sync_delta_state(1, &mut out, |_| None), Ok(false));
    assert_eq!(out, vec![7, 8]);
    assert_eq!(metal_sync_delta_state(2, &mut out, |layer| Some(vec![layer as u32])), Ok(true));
    assert_eq!(out, vec![2]);

    assert_eq!(metal_attn_carrier_kv_filled(3, |layer| Some(layer * 10)), Some(30));
    assert_eq!(metal_attn_carrier_kv_filled(3, |_| None), None);
}
