use rnb_runtime::backend_api::{
    BackendKind, DeviceTensorDesc, DeviceTensorId, DeviceTensorRole, ScalarType,
};
use rnb_runtime::cuda_inference::attention::{
    prefill_attention_f16kv_dense_chain_if_supported, prefill_attention_f16kv_if_supported,
    prefill_attention_f16kv_window_dense_chain_if_supported,
    prefill_attention_f16kv_window_if_supported, try_delta_step_if_supported, AttentionChain,
    AttentionHeads, DeltaStep, F16KvAttention, F16KvSwitches, WindowKernel,
};
use rnb_runtime::cuda_inference::caches::{
    download_device_tensor_f32_row, reset_state_for_engine_init,
};
use rnb_runtime::cuda_inference::carriers::{
    acquire_decode_attn_out_carrier, launch_attention_decode_device,
};
use rnb_runtime::cuda_inference::gdn::{
    begin_nemotron_prefill_workspace, ensure_gdn_prefill_chunk_supported,
    gdn_prefill_gated_norm_silu, gdn_prefill_gated_norm_silu_project,
    ssm_prefill_delta_net_resident, DeltaState, GatedNorm, GatedNormProjection,
    NemotronPrefillWorkspaceConfig,
};
use rnb_runtime::cuda_inference::glm_moe::{
    glm_moe_decode_shared_expert_q5k_q6k, glm_register_stream_region_sequence, FileBackedRegion,
};
use rnb_runtime::cuda_inference::nemotron::nemotron_q5_register_layer;
use rnb_runtime::cuda_inference::prefill::{
    prefill_q4k_f16_gemm_allowed,
    prefill_q4k_f16_q_attention_hd256_cached_f16kv_window_dense_chain,
    prefill_q4k_f16_q_attention_hd512_cached_f16kv_dense_chain,
    prefill_q4k_f16_q_attention_hd512_cached_f16kv_dense_chain_device_output,
    prefill_q4k_f16_qkv_attention_hd512, prefill_q4k_f16_qkv_attention_hd512_dense_chain,
    prefill_q4k_f16_qkv_attention_hd512_dense_chain_device_output, prefill_q4k_f16_qkv_gemm,
    prefill_q4k_f16_qkv_postprocess_hd256,
    prefill_q4k_f16_qkv_postprocess_hd256_window_dense_chain, seq_len_from_input,
    seq_len_from_input_or_device, DeviceLayer, GemmQuery, Hd256Attention, Hd256CachedLayer,
    Hd256WindowLayer, Hd512Attention, Hd512CachedLayer, Hd512Layer, LayerEmbedding, PrefillBlock,
    PrefillQkv, PrefillQueries, QkvGemmRequest, QkvLayerReply, QkvTuning,
};
use rnb_runtime::cuda_inference::qwen_moe::{
    qwen_moe_decode_expert,
    qwen_moe_prefill_combined_f32_shared_sparse_by_token,
    qwen_moe_prefill_combined_f32_shared_sparse_device_topk_selected_base_device_input,
    qwen_moe_prefill_combined_f32_shared_sparse_device_topk_selected_base_device_input_reuse_residual,
    qwen_moe_prefill_combined_f32_shared_sparse_device_topk_selected_base_by_token,
    qwen_moe_prefill_combined_f32_shared_sparse_full_layer_by_token,
    qwen_moe_prefill_combined_f32_shared_sparse_selected_base_by_token,
    ChosenExperts, CombinedPrompt, DeviceInputCall, DeviceInputPrompt, DeviceRouter, LayerExperts,
    OneExpert, PromptRoutes, QwenMoeDeviceInputOutput, SharedExpert, SharedExpertFloats,
};
use rnb_runtime::cuda_inference::switches::{
    kvarn_attention_enabled, qwen_moe_decode_sparse_batch_enabled, KvarnAttention,
};
use rnb_runtime::device_prefill::{
    plan_nemotron_prefill_workspace, NemotronPrefillWorkspaceRequest,
};
use rnb_runtime::quant::{dequant_type, quant_format_of, DequantType, GGMLType};

fn floats(rows: usize, cols: usize) -> DeviceTensorDesc {
    DeviceTensorDesc::new(rows, cols, ScalarType::F32, DeviceTensorRole::Hidden)
}

fn always(_: GemmQuery) -> bool {
    true
}

const TUNING: QkvTuning = QkvTuning { qkv_gemm: true, flash_attention: true };

/// The shortest prompt that is taken, for heads of 512 and of 256.
fn least(head_dim: usize) -> usize {
    if head_dim == 512 {
        4
    } else {
        3
    }
}

const NORM: [u32; 512] = [1; 512];

const INPUT: [u32; 41] = [2; 41];

const QUERIES: PrefillQueries<'static> = PrefillQueries {
    q_weights: &[1, 2],
    q_rows: 1024,
    cols: 8,
    q_norm: &NORM,
    num_heads: 2,
    num_kv_heads: 1,
    rope_theta: 9,
    pos_start: 0,
    norm_eps: 8,
    q_unit_offset: true,
};

const QKV: PrefillQkv<'static> = PrefillQkv {
    q: QUERIES,
    k_weights: &[3],
    v_weights: &[4],
    kv_rows: 512,
    k_norm: &NORM,
    k_unit_offset: false,
    v_no_scale_norm: true,
};

const BLOCK: PrefillBlock<'static> = PrefillBlock {
    attn_norm_weight: &[1, 2, 3, 4, 5, 6, 7, 8],
    o: &[5],
    gate: &[6],
    up: &[7],
    down: &[8],
    down_quant: GGMLType::Q4_K,
    post_attn_norm_weight: None,
    ffn_norm_weight: &[9],
    post_ffn_norm_weight: None,
    o_cols: 1024,
    n_ff: 16,
    n_embd: 10,
    unit_offset_attn_norm: false,
    unit_offset_post_attn_norm: false,
    unit_offset_ffn_norm: false,
    unit_offset_post_ffn_norm: false,
};

const EMBEDDING: LayerEmbedding<'static> = LayerEmbedding {
    ple_gate: None,
    ple_proj: None,
    ple_post_norm_weight: None,
    ple_input: Some(&[77]),
    ple_dim: 1,
};

#[test]
fn an_input_must_divide_into_rows() {
    assert_eq!(seq_len_from_input(&INPUT[..32], 8), Ok(4));
    assert_eq!(
        seq_len_from_input(&INPUT[..32], 0),
        Err("CUDA prefill input cols must be non-zero".to_string())
    );
    assert_eq!(
        seq_len_from_input(&INPUT[..33], 8),
        Err("CUDA prefill input length 33 is not divisible by cols 8".to_string())
    );
}

#[test]
fn an_input_counts_the_same_tokens_on_host_and_device() {
    let id = DeviceTensorId::new(BackendKind::Cuda, 3);
    let count = |desc: DeviceTensorDesc, cols: usize| {
        seq_len_from_input_or_device(&[], Some((id, desc)), cols)
    };
    assert_eq!(seq_len_from_input_or_device(&INPUT[..32], None, 8), Ok(Some(4)));
    assert_eq!(count(floats(4, 8), 8), Ok(Some(4)));
    assert_eq!(count(floats(4, 9), 8), Ok(None));
    let halves = DeviceTensorDesc::new(4, 8, ScalarType::F16, DeviceTensorRole::Hidden);
    assert_eq!(count(halves, 8), Ok(None));
    assert!(count(floats(4, 0), 0).is_err());
    assert!(seq_len_from_input_or_device(&INPUT[..33], None, 8).is_err());
}

#[test]
fn a_switched_off_product_asks_no_tuning() {
    let asked = |query: GemmQuery| {
        assert_eq!(
            query,
            GemmQuery { quant_supported: true, seq_len: 4, rows: 16, cols: 8 }
        );
        true
    };
    assert!(prefill_q4k_f16_gemm_allowed(true, &asked, 4, 16, 8));
    let never = |_: GemmQuery| -> bool { panic!("the tuning was asked") };
    assert!(!prefill_q4k_f16_gemm_allowed(false, &never, 4, 16, 8));

    let request = QkvGemmRequest {
        q_weights: &[1],
        k_weights: &[2],
        v_weights: &[3],
        q_rows: 16,
        kv_rows: 8,
        cols: 8,
        input: &INPUT[..32],
    };
    let project = |enabled: bool| {
        prefill_q4k_f16_qkv_gemm(enabled, &asked, 4, request, |given: QkvGemmRequest<'_>| {
            Ok(Some((given.q_weights.to_vec(), given.input.len())))
        })
    };
    assert_eq!(project(true), Ok(Some((vec![1], 32))));
    assert_eq!(project(false), Ok(None));
}

#[test]
fn a_prompt_attends_only_in_its_shape() {
    let run = |tuning: QkvTuning, qkv: PrefillQkv<'_>, input_len: usize| {
        let request =
            Hd512Attention { qkv, freq_factors: None, scale: 5, input: &INPUT[..input_len] };
        prefill_q4k_f16_qkv_attention_hd512(
            tuning,
            &always,
            &least,
            request,
            |given: Hd512Attention<'_>| Ok(Some((given.scale, given.qkv.k_weights.to_vec()))),
        )
    };
    assert_eq!(run(TUNING, QKV, 32), Ok(Some((5, vec![3]))));
    assert_eq!(run(TUNING, QKV, 24), Ok(None));
    assert_eq!(run(QkvTuning { flash_attention: false, ..TUNING }, QKV, 32), Ok(None));
    assert_eq!(run(QkvTuning { qkv_gemm: false, ..TUNING }, QKV, 32), Ok(None));
    let odd_rows = PrefillQkv { q: PrefillQueries { q_rows: 1023, ..QUERIES }, ..QKV };
    assert_eq!(run(TUNING, odd_rows, 32), Ok(None));
    assert_eq!(run(TUNING, PrefillQkv { kv_rows: 511, ..QKV }, 32), Ok(None));
    assert_eq!(run(TUNING, PrefillQkv { k_norm: &[1], ..QKV }, 32), Ok(None));
    assert!(run(TUNING, QKV, 33).is_err());

    let failed: Result<Option<u32>, String> = prefill_q4k_f16_qkv_attention_hd512(
        TUNING,
        &always,
        &least,
        Hd512Attention { qkv: QKV, freq_factors: None, scale: 5, input: &INPUT[..32] },
        |_| Err("lost".to_string()),
    );
    assert_eq!(
        failed,
        Err("CUDA prefill Q4_K F16 QKV attention hd512 failed: lost".to_string())
    );

    let narrow = PrefillQkv {
        q: PrefillQueries { q_rows: 512, q_norm: &NORM[..256], ..QUERIES },
        kv_rows: 256,
        k_norm: &NORM[..256],
        ..QKV
    };
    let rotate = |input_len: usize| {
        prefill_q4k_f16_qkv_postprocess_hd256(
            TUNING,
            &always,
            &least,
            Hd256Attention { qkv: narrow, input: &INPUT[..input_len] },
            |given: Hd256Attention<'_>| Ok(Some(given.input.len())),
        )
    };
    assert_eq!(rotate(24), Ok(Some(24)));
    assert_eq!(rotate(16), Ok(None));
}

#[test]
fn a_layer_starts_at_the_first_token() {
    let run = |pos_start: usize, block: PrefillBlock<'_>, hidden_len: usize| {
        let qkv = PrefillQkv { q: PrefillQueries { pos_start, ..QUERIES }, ..QKV };
        let mut hidden = vec![0; hidden_len];
        let output = prefill_q4k_f16_qkv_attention_hd512_dense_chain(
            TUNING,
            &always,
            &least,
            Hd512Layer {
                qkv,
                freq_factors: None,
                scale: 5,
                hidden_input: &INPUT[..32],
                block,
            },
            &mut hidden,
            |given: Hd512Layer<'_>, before: &Vec<u32>| {
                assert_eq!(before.len(), 40);
                (Ok(Some(given.block.n_ff)), vec![3; 40])
            },
        );
        (output, hidden[0])
    };
    assert_eq!(run(0, BLOCK, 40), (Ok(Some(16)), 3));
    assert_eq!(run(1, BLOCK, 40), (Ok(None), 0));
    assert_eq!(run(0, BLOCK, 41), (Ok(None), 0));
    let odd_norm = PrefillBlock { attn_norm_weight: &[1], ..BLOCK };
    assert_eq!(run(0, odd_norm, 40), (Ok(None), 0));
}

#[test]
fn a_windowed_layer_needs_a_window_and_its_queries() {
    let narrow = PrefillQkv {
        q: PrefillQueries { q_rows: 512, q_norm: &NORM[..256], ..QUERIES },
        kv_rows: 256,
        k_norm: &NORM[..256],
        ..QKV
    };
    let run = |window: usize, o_cols: usize| {
        let mut hidden = vec![0; 40];
        prefill_q4k_f16_qkv_postprocess_hd256_window_dense_chain(
            TUNING,
            &always,
            &least,
            Hd256WindowLayer {
                qkv: narrow,
                v_quant: GGMLType::Q6_K,
                scale: 5,
                window,
                hidden_input: &INPUT[..32],
                block: PrefillBlock { o_cols, ..BLOCK },
            },
            &mut hidden,
            |given: Hd256WindowLayer<'_>, _: &Vec<u32>| (Ok(Some(given.window)), vec![0; 40]),
        )
    };
    assert_eq!(run(7, 512), Ok(Some(7)));
    assert_eq!(run(0, 512), Ok(None));
    assert_eq!(run(7, 511), Ok(None));
}

#[test]
fn a_layer_on_the_device_describes_its_output() {
    let id = DeviceTensorId::new(BackendKind::Cuda, 3);
    let on_device = |desc: DeviceTensorDesc| DeviceLayer {
        hidden_input_device: Some((id, desc)),
        embedding: EMBEDDING,
        layer_out_scale: Some(&[6]),
    };
    let mut hidden = vec![0; 40];
    let output = prefill_q4k_f16_qkv_attention_hd512_dense_chain_device_output(
        TUNING,
        &always,
        &least,
        Hd512Layer { qkv: QKV, freq_factors: None, scale: 5, hidden_input: &[], block: BLOCK },
        on_device(floats(4, 8)),
        &mut hidden,
        |((request, layer), desc): ((Hd512Layer<'_>, DeviceLayer<'_>), DeviceTensorDesc),
         before: &Vec<u32>| {
            assert_eq!(request.scale, 5);
            assert_eq!(layer.embedding.ple_input, Some(&[77][..]));
            assert_eq!(layer.layer_out_scale, Some(&[6][..]));
            assert_eq!(desc, floats(4, 10));
            let reply = QkvLayerReply { k_bits: vec![1], v_bits: vec![2], output_id: id };
            (Ok(Some(reply)), before.iter().map(|float| float + 9).collect())
        },
    )
    .unwrap()
    .unwrap();
    assert_eq!(output.k_bits, vec![1]);
    assert_eq!(output.v_bits, vec![2]);
    assert_eq!(output.output_id, id);
    assert_eq!(output.output_desc, floats(4, 10));
    assert_eq!(hidden, vec![9; 40]);

    let cached = |layer: DeviceLayer<'_>, hidden_input: &[u32]| {
        prefill_q4k_f16_q_attention_hd512_cached_f16kv_dense_chain_device_output(
            TUNING,
            &always,
            &least,
            Hd512CachedLayer { hidden_input, ..CACHED },
            layer,
            &mut vec![0; 40],
            |_, before: &Vec<u32>| (Ok(Some(id)), before.clone()),
        )
        .unwrap()
        .map(|output| (output.output_id, output.output_desc))
    };
    let on_host = DeviceLayer { hidden_input_device: None, ..on_device(floats(4, 8)) };
    assert_eq!(cached(on_host, &INPUT[..32]), Some((id, floats(4, 10))));
    assert_eq!(cached(on_host, &INPUT[..40]), None);
    assert_eq!(cached(on_device(floats(4, 8)), &[]), Some((id, floats(4, 10))));
    assert_eq!(cached(on_device(floats(5, 8)), &[]), None);
}

const CACHED: Hd512CachedLayer<'static> = Hd512CachedLayer {
    q: QUERIES,
    freq_factors: None,
    scale: 5,
    hidden_input: &[],
    cached_k_f16: &[1],
    cached_v_f16: &[2],
    seq_len: 4,
    kv_len: 9,
    block: BLOCK,
};

#[test]
fn cached_keys_need_no_shape_of_their_own() {
    let run = |input_len: usize| {
        let mut hidden = vec![0; 40];
        let done = prefill_q4k_f16_q_attention_hd512_cached_f16kv_dense_chain(
            TUNING,
            &always,
            &least,
            Hd512CachedLayer { hidden_input: &INPUT[..input_len], ..CACHED },
            EMBEDDING,
            &mut hidden,
            |(given, _): (Hd512CachedLayer<'_>, LayerEmbedding<'_>), _: &Vec<u32>| {
                assert_eq!((given.cached_k_f16, given.cached_v_f16), (&[1][..], &[2][..]));
                (Ok(true), vec![4; 40])
            },
        );
        (done, hidden[39])
    };
    assert_eq!(run(32), (Ok(true), 4));
    assert_eq!(run(40), (Ok(false), 0));

    let windowed = |window: usize| {
        prefill_q4k_f16_q_attention_hd256_cached_f16kv_window_dense_chain(
            TUNING,
            &always,
            &least,
            Hd256CachedLayer {
                q: PrefillQueries { q_rows: 512, q_norm: &NORM[..256], ..QUERIES },
                scale: 5,
                window,
                hidden_input: &INPUT[..32],
                cached_k_f16: &[1],
                cached_v_f16: &[2],
                seq_len: 4,
                kv_len: 9,
                block: BLOCK,
            },
            EMBEDDING,
            &mut vec![0; 40],
            |_, before: &Vec<u32>| (Ok(true), before.clone()),
        )
    };
    assert_eq!(windowed(128), Ok(true));
    assert_eq!(windowed(0), Ok(false));
}

fn workspace_request() -> NemotronPrefillWorkspaceRequest {
    NemotronPrefillWorkspaceRequest {
        seq_len: 128,
        hidden_dim: 16,
        n_expert: 8,
        expert_used: 2,
        n_ff: 64,
        shared_ff: 32,
        free_vram_bytes: 10_000_000,
        total_vram_bytes: 10_000_000,
        reserve_bytes: 0,
    }
}

#[test]
fn a_workspace_holds_the_middle_values() {
    let mut plan = plan_nemotron_prefill_workspace(workspace_request()).unwrap();
    let config = begin_nemotron_prefill_workspace(&plan, |config: NemotronPrefillWorkspaceConfig| {
        Ok(config)
    })
    .unwrap();
    assert_eq!(config.hidden_bytes, 8192);
    assert_eq!(config.moe_sparse_mid_bytes, 256 * 64 * 4);
    assert_eq!(config.moe_shared_mid_bytes, 128 * 32 * 4);
    assert!(config.enabled);

    let failed: Result<(), String> =
        begin_nemotron_prefill_workspace(&plan, |_| Err("full".to_string()));
    assert_eq!(
        failed,
        Err("CUDA Nemotron prefill workspace begin failed: full".to_string())
    );

    plan.shared_ff = usize::MAX;
    let shared: Result<(), String> = begin_nemotron_prefill_workspace(&plan, |_| Ok(()));
    assert_eq!(shared, Err("Nemotron workspace shared mid byte overflow".to_string()));
    plan.n_ff = usize::MAX;
    let sparse: Result<(), String> = begin_nemotron_prefill_workspace(&plan, |_| Ok(()));
    assert_eq!(sparse, Err("Nemotron workspace sparse mid byte overflow".to_string()));
}

#[test]
fn a_workspace_too_small_is_left_disabled() {
    let plan = plan_nemotron_prefill_workspace(NemotronPrefillWorkspaceRequest {
        free_vram_bytes: 20_000,
        ..workspace_request()
    })
    .unwrap();
    let config = begin_nemotron_prefill_workspace(&plan, |config| Ok(config)).unwrap();
    assert!(!config.enabled);
}

const QUANTIZED: SharedExpert<'static> = SharedExpert {
    gate: &[1],
    gate_quant: GGMLType::Q4_K,
    up: &[2],
    up_quant: GGMLType::Q4_K,
    down: &[3],
    down_quant: GGMLType::Q6_K,
};

const ROUTES: PromptRoutes<'static> =
    PromptRoutes { expert_ids: &[0], route_weights: &[1], token_ids: &[2] };

const ROUTER: DeviceRouter<'static> =
    DeviceRouter { router_w: &[1, 2], n_expert: 2, hidden_dim: 1, n_expert_used: 1 };

const LAYER: LayerExperts<'static> =
    LayerExperts { gate_all: &[4], up_all: &[5], down_all: &[6] };

fn combined<E, R>(experts: E, routes: R) -> CombinedPrompt<'static, E, R> {
    CombinedPrompt {
        experts,
        routes,
        shared_route_weights: &[7],
        seq_len: 1,
        down_quant: GGMLType::Q5_K,
        n_ff: 8,
        n_embd: 9,
        norm_all: &[10],
    }
}

/// The byte and the format that it is expanded from.
fn spelled(raw: &[u8], dequant: DequantType) -> Vec<u32> {
    let format: u32 = match dequant {
        DequantType::F32 => 0,
        DequantType::Q4K => 40,
        DequantType::Q6K => 60,
        _ => panic!("not asked for"),
    };
    vec![raw[0] as u32 + format]
}

fn first_floats(floats: &SharedExpertFloats) -> (u32, u32, u32) {
    (floats.gate[0], floats.up[0], floats.down[0])
}

#[test]
fn a_quantized_shared_expert_is_looked_up_first() {
    let request =
        combined(ChosenExperts { gate: &[&[1]], up: &[&[2]], down: &[&[3]] }, ROUTES);
    let hit = qwen_moe_prefill_combined_f32_shared_sparse_by_token(
        QUANTIZED,
        request,
        &|_: &[u8], _: DequantType| panic!("the cache had it"),
        |(shared, asked)| {
            assert_eq!((shared, asked), (QUANTIZED, request));
            Ok(Some(6u32))
        },
        |_| panic!("the cache had it"),
    );
    assert_eq!(hit, Ok(6));

    let miss = qwen_moe_prefill_combined_f32_shared_sparse_by_token(
        QUANTIZED,
        request,
        &spelled,
        |_| Ok(None),
        |(floats, asked)| {
            assert_eq!(asked, request);
            Ok(first_floats(&floats))
        },
    );
    assert_eq!(miss, Ok((41, 42, 63)));

    let broken: Result<u32, String> = qwen_moe_prefill_combined_f32_shared_sparse_by_token(
        QUANTIZED,
        request,
        &spelled,
        |_| Err("gone".to_string()),
        |_| Ok(9),
    );
    assert_eq!(
        broken.unwrap_err(),
        "CUDA prefill MoE cached Q4 shared+sparse failed: gone"
    );

    let expanded = qwen_moe_prefill_combined_f32_shared_sparse_by_token(
        SharedExpert { gate_quant: GGMLType::F32, ..QUANTIZED },
        request,
        &spelled,
        |_| panic!("the cache holds no such expert"),
        |(floats, _)| Ok(first_floats(&floats)),
    );
    assert_eq!(expanded, Ok((1, 42, 63)));
}

#[test]
fn each_way_to_combine_experts_names_its_failures() {
    let lost = || "lost".to_string();
    let base = combined(LAYER, ROUTES);
    let routed = combined(LAYER, ROUTER);
    let refuse = SharedExpert { up_quant: GGMLType::F32, ..QUANTIZED };

    let cached: Result<u8, String> =
        qwen_moe_prefill_combined_f32_shared_sparse_selected_base_by_token(
            QUANTIZED,
            base,
            &spelled,
            |_| Err(lost()),
            |_| Ok(1),
        );
    assert_eq!(
        cached.unwrap_err(),
        "CUDA prefill MoE cached selected-base Q4 shared+sparse failed: lost"
    );
    let plain: Result<u8, String> =
        qwen_moe_prefill_combined_f32_shared_sparse_selected_base_by_token(
            refuse,
            base,
            &spelled,
            |_| Ok(None),
            |_| Err(lost()),
        );
    assert_eq!(
        plain.unwrap_err(),
        "CUDA prefill MoE selected-base combined shared+sparse failed: lost"
    );

    let cached: Result<u8, String> =
        qwen_moe_prefill_combined_f32_shared_sparse_device_topk_selected_base_by_token(
            QUANTIZED,
            routed,
            &spelled,
            |_| Err(lost()),
            |_| Ok(1),
        );
    assert_eq!(
        cached.unwrap_err(),
        "CUDA prefill MoE cached device-topk selected-base Q4 shared+sparse failed: lost"
    );
    let plain: Result<u8, String> =
        qwen_moe_prefill_combined_f32_shared_sparse_device_topk_selected_base_by_token(
            refuse,
            routed,
            &spelled,
            |_| Ok(None),
            |(floats, asked)| {
                assert_eq!(first_floats(&floats), (41, 2, 63));
                assert_eq!(asked, routed);
                Err(lost())
            },
        );
    assert_eq!(
        plain.unwrap_err(),
        "CUDA prefill MoE device-topk selected-base combined shared+sparse failed: lost"
    );

    let cached: Result<u8, String> =
        qwen_moe_prefill_combined_f32_shared_sparse_full_layer_by_token(
            QUANTIZED,
            base,
            &spelled,
            |_| Err(lost()),
            |_| Ok(1),
        );
    assert_eq!(
        cached.unwrap_err(),
        "CUDA prefill MoE cached full-layer Q4 shared+sparse failed: lost"
    );
    let plain: Result<u8, String> =
        qwen_moe_prefill_combined_f32_shared_sparse_full_layer_by_token(
            refuse,
            base,
            &spelled,
            |_| Ok(None),
            |_| Err(lost()),
        );
    assert_eq!(
        plain.unwrap_err(),
        "CUDA prefill MoE full-layer combined shared+sparse failed: lost"
    );
}

#[test]
fn experts_on_device_tensors_may_take_the_residual() {
    let done = QwenMoeDeviceInputOutput {
        output_id: DeviceTensorId::new(BackendKind::Cuda, 4),
        output_desc: floats(2, 8),
    };
    let request = DeviceInputPrompt {
        shared_input_scale: &[1],
        experts: LAYER,
        router: ROUTER,
        input_id: DeviceTensorId::new(BackendKind::Cuda, 2),
        input_desc: floats(2, 8),
        residual_id: DeviceTensorId::new(BackendKind::Cuda, 3),
        residual_desc: floats(2, 8),
        seq_len: 2,
        down_quant: GGMLType::Q5_K,
        n_ff: 4,
        n_embd: 8,
    };
    let kept =
        qwen_moe_prefill_combined_f32_shared_sparse_device_topk_selected_base_device_input(
            QUANTIZED,
            request,
            &spelled,
            |call: DeviceInputCall<'_>| {
                assert!(!call.reuse_residual_output);
                assert_eq!(call.request, request);
                assert_eq!(first_floats(&call.shared), (41, 42, 63));
                Ok(Some(done))
            },
        );
    assert_eq!(kept, Ok(Some(done)));
    let reused = qwen_moe_prefill_combined_f32_shared_sparse_device_topk_selected_base_device_input_reuse_residual(
        QUANTIZED,
        request,
        &spelled,
        |call: DeviceInputCall<'_>| {
            assert!(call.reuse_residual_output);
            Ok(Some(done))
        },
    );
    assert_eq!(reused, Ok(Some(done)));
    let refused =
        qwen_moe_prefill_combined_f32_shared_sparse_device_topk_selected_base_device_input(
            SharedExpert { down_quant: GGMLType::Q5_K, ..QUANTIZED },
            request,
            &spelled,
            |_: DeviceInputCall<'_>| panic!("no kernel takes it"),
        );
    assert_eq!(refused, Ok(None));
}

#[test]
fn every_format_expands_in_its_own_way() {
    let formats = [
        GGMLType::F32,
        GGMLType::F16,
        GGMLType::BF16,
        GGMLType::Q4_0,
        GGMLType::Q4_1,
        GGMLType::Q5_0,
        GGMLType::Q5_1,
        GGMLType::Q8_0,
        GGMLType::Q8_1,
        GGMLType::Q2_K,
        GGMLType::Q3_K,
        GGMLType::Q4_K,
        GGMLType::Q5_K,
        GGMLType::Q6_K,
        GGMLType::IQ2_XXS,
        GGMLType::IQ2_S,
        GGMLType::IQ3_XXS,
        GGMLType::IQ4_XS,
    ];
    for (index, &first) in formats.iter().enumerate() {
        for &second in &formats[..index] {
            assert_ne!(dequant_type(first), dequant_type(second));
            if quant_format_of(first).is_some() {
                assert_ne!(quant_format_of(first), quant_format_of(second));
            }
        }
    }
    assert_eq!(dequant_type(GGMLType::Q6_K), DequantType::Q6K);
    assert_eq!(quant_format_of(GGMLType::IQ1_M), None);
}

#[test]
fn experts_are_read_ahead_from_their_regions() {
    let region = |path: &str, file_offset: u64, len: usize| FileBackedRegion {
        path: path.to_string(),
        file_offset,
        len,
    };
    let sequence = [
        [region("a", 0, 10), region("a", 10, 20), region("b", 0, 30)],
        [region("b", 30, 1), region("c", 0, 2), region("c", 2, 3)],
    ];
    glm_register_stream_region_sequence(&sequence, |spans| {
        let named: Vec<Vec<(&str, u64, usize)>> = spans
            .iter()
            .map(|layer| layer.iter().map(|span| (span.0.as_str(), span.1, span.2)).collect())
            .collect();
        assert_eq!(
            named,
            vec![
                vec![("a", 0, 10), ("a", 10, 20), ("b", 0, 30)],
                vec![("b", 30, 1), ("c", 0, 2), ("c", 2, 3)],
            ]
        );
    });
}

#[test]
fn a_shared_expert_names_its_formats() {
    let output = glm_moe_decode_shared_expert_q5k_q6k(
        3u32,
        |call: (u32, GGMLType, GGMLType)| {
            assert_eq!(call, (3, GGMLType::Q5_K, GGMLType::Q6_K));
            Err::<(), String>("cold".to_string())
        },
    );
    assert_eq!(output, Err("CUDA GLM shared Q5_K/Q6_K expert failed: cold".to_string()));
}

#[test]
fn device_calls_pass_their_operands_and_name_their_failures() {
    assert_eq!(acquire_decode_attn_out_carrier(64, |bytes| Ok(bytes as u64 + 1)), Ok(65));
    assert_eq!(
        acquire_decode_attn_out_carrier(64, |_| Err("full".to_string())),
        Err("CUDA acquire_decode_attn_out_carrier failed: full".to_string())
    );
    let launched = launch_attention_decode_device(1, 2, 3, 4, 5, 6, 7, |call| {
        assert_eq!(call, (1, 2, 3, 4, 5, 6, 7));
        Ok(())
    });
    assert_eq!(launched, Ok(()));
    let id = DeviceTensorId::new(BackendKind::Cuda, 8);
    let row = download_device_tensor_f32_row(id, 2, |call| Ok(call));
    assert_eq!(row, Ok((id, 2)));
    let registered = nemotron_q5_register_layer(&[1], &[2], 3, 4, 5, |call| {
        Ok(call == (&[1u8][..], &[2u8][..], 3, 4, 5))
    });
    assert_eq!(registered, Ok(true));
}

#[test]
fn an_engine_starts_with_no_layers_and_no_states() {
    assert_eq!(reset_state_for_engine_init(|| Ok(()), || Ok(())), Ok(()));
    assert_eq!(
        reset_state_for_engine_init(
            || Err("layers".to_string()),
            || panic!("the states come second"),
        ),
        Err("layers".to_string())
    );
    assert_eq!(
        reset_state_for_engine_init(|| Ok(()), || Err("states".to_string())),
        Err("states".to_string())
    );
}

#[test]
fn switches_follow_the_policy_and_the_routes() {
    let enabled = kvarn_attention_enabled(true, 128, 16, 256, |asked: KvarnAttention| {
        assert_eq!(
            asked,
            KvarnAttention {
                backend: BackendKind::Cuda,
                device_output: true,
                kv_len: 128,
                num_heads: 16,
                head_dim: 256,
            }
        );
        true
    });
    assert!(enabled);
    assert!(qwen_moe_decode_sparse_batch_enabled(true, true, 31, true));
    assert!(!qwen_moe_decode_sparse_batch_enabled(true, true, 32, true));
    assert!(!qwen_moe_decode_sparse_batch_enabled(true, true, 31, false));
    assert!(!qwen_moe_decode_sparse_batch_enabled(false, true, 31, true));
}

const F16_KV: F16KvAttention<'static> = F16KvAttention {
    q: &[1],
    k: &[2],
    v: &[3],
    seq_len: 16,
    kv_len: 20,
    heads: AttentionHeads { num_heads: 4, num_kv_heads: 2, head_dim: 512 },
    scale: 4,
};

const FLASH: F16KvSwitches = F16KvSwitches { flash_enabled: true, has_softcap: false };

const CHAIN: AttentionChain<'static> = AttentionChain {
    o: &[1],
    gate: &[2],
    up: &[3],
    down: &[4],
    down_quant: GGMLType::Q4_K,
    post_attn_norm_weight: None,
    ffn_norm_weight: &[5],
    post_ffn_norm_weight: None,
    o_cols: 6,
    n_ff: 7,
    n_embd: 8,
    norm_eps: 9,
    unit_offset_post_attn_norm: false,
    unit_offset_ffn_norm: false,
    unit_offset_post_ffn_norm: false,
};

fn sixteen(head_dim: usize) -> usize {
    assert!(head_dim == 128 || head_dim == 256 || head_dim == 512);
    16
}

#[test]
fn a_half_precision_cache_is_attended_in_its_shape() {
    let run = |switches: F16KvSwitches, attention: F16KvAttention<'static>, window: bool| {
        prefill_attention_f16kv_if_supported(switches, &sixteen, attention, window, |given| {
            Ok(given)
        })
    };
    assert_eq!(run(FLASH, F16_KV, false), Ok(Some(F16_KV)));
    assert_eq!(run(FLASH, F16_KV, true), Ok(None));
    assert_eq!(run(FLASH, F16KvAttention { seq_len: 15, ..F16_KV }, false), Ok(None));
    assert_eq!(run(F16KvSwitches { has_softcap: true, ..FLASH }, F16_KV, false), Ok(None));
    assert_eq!(run(F16KvSwitches { flash_enabled: false, ..FLASH }, F16_KV, false), Ok(None));
    let uneven = AttentionHeads { num_heads: 3, ..F16_KV.heads };
    assert_eq!(run(FLASH, F16KvAttention { heads: uneven, ..F16_KV }, false), Ok(None));
    let chain = |window: bool, reply: Result<(), String>| {
        let mut hidden = vec![0, 0];
        let done = prefill_attention_f16kv_dense_chain_if_supported(
            FLASH,
            &sixteen,
            F16_KV,
            window,
            CHAIN,
            &mut hidden,
            |given: (F16KvAttention<'static>, AttentionChain<'static>), before: &Vec<u32>| {
                assert_eq!(given, (F16_KV, CHAIN));
                (reply, before.iter().map(|float| float + 1).collect())
            },
        );
        (done, hidden)
    };
    assert_eq!(chain(false, Ok(())), (Ok(true), vec![1, 1]));
    assert_eq!(chain(true, Ok(())), (Ok(false), vec![0, 0]));
    let failed = "CUDA prefill f16KV attention dense chain failed: lost".to_string();
    assert_eq!(chain(false, Err("lost".to_string())), (Err(failed), vec![1, 1]));
}

#[test]
fn a_window_chooses_its_kernel_by_the_head() {
    let run = |head_dim: usize, window: Option<usize>| {
        let heads = AttentionHeads { head_dim, ..F16_KV.heads };
        prefill_attention_f16kv_window_if_supported(
            FLASH,
            &sixteen,
            F16KvAttention { heads, ..F16_KV },
            window,
            |(kernel, window, given): (WindowKernel, usize, F16KvAttention<'static>)| {
                assert_eq!(given.heads, heads);
                Ok((kernel, window))
            },
        )
    };
    assert_eq!(run(256, Some(8)), Ok(Some((WindowKernel::Hd256, 8))));
    assert_eq!(run(512, Some(8)), Ok(Some((WindowKernel::Hd512, 8))));
    assert_eq!(run(128, Some(8)), Ok(None));
    assert_eq!(run(256, Some(0)), Ok(None));
    assert_eq!(run(256, None), Ok(None));
    let mut hidden = vec![0];
    let done = prefill_attention_f16kv_window_dense_chain_if_supported(
        FLASH,
        &sixteen,
        F16_KV,
        Some(8),
        CHAIN,
        &mut hidden,
        |(kernel, window, _, chain): (
            WindowKernel,
            usize,
            F16KvAttention<'static>,
            AttentionChain<'static>,
        ),
         _: &Vec<u32>| {
            assert_eq!((kernel, window, chain), (WindowKernel::Hd512, 8, CHAIN));
            (Ok(()), vec![5])
        },
    );
    assert_eq!((done, hidden), (Ok(true), vec![5]));
}

#[test]
fn delta_nets_follow_their_switches() {
    let step = DeltaStep {
        q: &[1],
        k: &[2],
        v: &[3],
        gate: &[4],
        beta: &[5],
        num_heads: 1,
        head_k_dim: 1,
        head_v_dim: 1,
    };
    let run = |enabled: bool| {
        let mut state = vec![6];
        let reply = try_delta_step_if_supported(
            enabled,
            step,
            &mut state,
            |given: DeltaStep<'static>, before: &Vec<u32>| {
                assert_eq!((given, before), (step, &vec![6]));
                (Ok(1u32), vec![7])
            },
        );
        (reply, state)
    };
    assert_eq!(run(false), (None, vec![6]));
    assert_eq!(run(true), (Some(Ok(1)), vec![7]));
    let resident = |enabled: bool, sync: bool| {
        ssm_prefill_delta_net_resident(enabled, sync, (), |(state, _)| Ok(state))
    };
    assert_eq!(resident(true, true), Ok(Some(DeltaState::Synced)));
    assert_eq!(resident(true, false), Ok(Some(DeltaState::Resident)));
    assert_eq!(resident(false, false), Ok(None));
    assert_eq!(
        ensure_gdn_prefill_chunk_supported(true, 3, 4, |(tokens, width)| {
            format!("{tokens} of {width}")
        }),
        Err("3 of 4".to_string())
    );
    assert_eq!(ensure_gdn_prefill_chunk_supported(false, 3, 4, |_| unreachable!()), Ok(()));
}

const GATED: GatedNorm<'static> =
    GatedNorm { output: &[1], z: &[2], norm: &[3], rows: 4, cols: 5, norm_eps: 6 };

#[test]
fn a_gated_norm_needs_more_than_one_token() {
    let norm = |seq_len: usize| gdn_prefill_gated_norm_silu(true, seq_len, GATED, |given| Ok(given));
    assert_eq!(norm(2), Ok(Some(GATED)));
    assert_eq!(norm(1), Ok(None));
    let project = |weight_ggml_type: GGMLType, weight_bytes: Option<&'static [u8]>, gemm: bool| {
        let request = GatedNormProjection {
            gated: GATED,
            seq_len: 2,
            head_dim: 7,
            weight_ggml_type,
            weight_bytes,
        };
        gdn_prefill_gated_norm_silu_project(
            request,
            |seq_len| {
                assert_eq!(seq_len, 2);
                gemm
            },
            |raw: &[u8], dequant: DequantType| {
                assert_eq!(dequant, DequantType::Q5K);
                raw.iter().map(|&byte| byte as u32 + 10).collect()
            },
            |(given, weights): (GatedNormProjection<'static>, Vec<u32>)| {
                assert_eq!(given, request);
                Ok(weights)
            },
        )
    };
    assert_eq!(project(GGMLType::Q5_K, Some(&[1, 2]), true), Ok(Some(vec![11, 12])));
    assert_eq!(project(GGMLType::Q5_K, Some(&[1, 2]), false), Ok(None));
    assert_eq!(
        project(GGMLType::Q5_K, None, true),
        Err("GDN ssm_out has no quantized bytes".to_string())
    );
    assert_eq!(project(GGMLType::Q8_0, None, true), Ok(None));
}

#[test]
fn one_expert_runs_only_where_switched_on() {
    let expert = OneExpert {
        gate: &[1],
        up: &[2],
        down: &[3],
        down_quant: GGMLType::Q6_K,
        n_ff: 4,
        n_embd: 5,
        input: &[6],
    };
    assert_eq!(qwen_moe_decode_expert(true, expert, |asked| Ok(asked)), Some(expert));
    assert_eq!(qwen_moe_decode_expert(false, expert, |asked| Ok(asked)), None);
    assert_eq!(
        qwen_moe_decode_expert(true, expert, |_| Err::<u32, String>("lost".to_string())),
        None
    );
}
