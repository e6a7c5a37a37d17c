use rnb_runtime::backend_api::{
    BackendKind, DeviceTensorDesc, DeviceTensorId, DeviceTensorRole, ScalarType,
};
use rnb_runtime::cuda_inference::attention::{
    decode_attention_hd256_if_supported, prefill_attention_hd256_if_supported,
    qwen35_gdn_decode_core_chain, AttentionHeads, DecodeAttention, DecodeAttentionCall,
    DecodeAttentionTuning, PrefillAttention, PrefillAttentionCall, QwenGdnDecodeChainCall,
};
use rnb_runtime::cuda_inference::expert_major::{
    describe_routes, group_by_expert, log_qwen_moe_prefill_route_hist,
    qwen_moe_prefill_sparse_slots_expert_major,
};
use rnb_runtime::cuda_inference::gdn::{
    gdn_prefill_batch_quant_supported, gdn_prefill_chain, gdn_prefill_chain_q4k,
    gdn_prefill_effective_gemv_mode, gdn_prefill_quantized_projection, nemotron_device_route_pack_expert_ids,
    nemotron_device_route_pack_from_logits, nemotron_reorder_device_route_pack,
    release_nemotron_device_route_pack, BackendRoutePack, DeviceTensor, GdnChainTuning,
    GdnPrefillChainOutput, GdnPrefillChainPlan, GdnPrefillChainQ4KRequest, GdnPrefillChainShape,
    ProjectionCall,
};
use rnb_runtime::cuda_inference::mtp::{
    qwen35_mtp_device_verify_window, MtpDeviceVerifyGdnMoeLayer, MtpDeviceVerifyWindowRequest,
    MtpDeviceVerifyWindowResult, VerifyWindow,
};
use rnb_runtime::cuda_inference::output::{
    find_last_largest, prefill_output_logits, prewarm_output_weight, sparse_argmax_logits,
    try_output_argmax_token, try_output_logits, try_output_logits_into_if_enabled, ArgmaxKernel,
    OutputTuning,
};
use rnb_runtime::cuda_inference::prefill::GemmQuery;
use rnb_runtime::cuda_inference::products::{
    decode_gemv, decode_gemv_into_if_supported, embedding_gather, gemv_batch, prefill_gemv,
    WeightMatrix,
};
use rnb_runtime::cuda_inference::qwen_moe::{
    qwen_moe_decode_down, qwen_moe_decode_gate_up, qwen_moe_decode_sparse_experts,
    qwen_moe_device_roundtrip_supports_quant, qwen_moe_prefill_shared_expert_batch,
    qwen_moe_prefill_sparse_slots_device_topk, ChosenExperts, DeviceRouter, RouteArrays,
    SharedExpert, SharedExpertCall, SharedPrompt, SparseExpertsPath, SparseToken, UnroutedPrompt,
};
use rnb_runtime::cuda_inference::routes::{qwen_moe_prefill_sparse_slots, MoeRouteSlot};
use rnb_runtime::cuda_inference::vectors::{rope_f32_inplace, CudaRopeMode};
use rnb_runtime::packed_weights::{open_shadow_model, open_sidecar_v3_packed_model};
use rnb_runtime::quant::{dequant_type, quant_format_of, DequantType, GGMLType};

fn f32_bits(values: &[f32]) -> Vec<u32> {
    values.iter().map(|value| value.to_bits()).collect()
}

fn softmax_weight(selected: &[u32], index: usize) -> u32 {
    let values: Vec<f32> = selected.iter().map(|&bits| f32::from_bits(bits)).collect();
    let max = values.iter().copied().fold(f32::NEG_INFINITY, f32::max);
    let sum: f32 = values.iter().map(|value| (value - max).exp()).sum();
    ((values[index] - max).exp() / sum).to_bits()
}

#[test]
fn gdn_prefill_batch_quant_supports_iq4_xs() {
    assert!(gdn_prefill_batch_quant_supported(GGMLType::IQ4_XS));
}

#[test]
fn short_verify_window_prefers_quant_batch_mode() {
    assert_eq!(gdn_prefill_effective_gemv_mode(GGMLType::Q4_K, 2, "f32"), "q");
    assert_eq!(gdn_prefill_effective_gemv_mode(GGMLType::IQ4_XS, 2, "f32"), "q");
    assert_eq!(gdn_prefill_effective_gemv_mode(GGMLType::Q4_K, 512, "f32"), "f32");
}

fn qwen35_chain_shape(seq_len: usize) -> GdnPrefillChainShape {
    GdnPrefillChainShape {
        seq_len,
        hidden_dim: 2048,
        d_inner: 4096,
        d_state: 128,
        n_group: 16,
        dt_rank: 32,
        conv_kernel: 4,
        conv_state_len: 3 * (4096 + 2 * 16 * 128),
        delta_state_len: 4096 * 128,
    }
}

#[test]
fn gdn_prefill_chain_facade_defaults_on_and_allows_opt_out() {
    let shape = qwen35_chain_shape(32);
    let plan_for = |setting: Option<&'static str>| {
        move |_: GdnPrefillChainShape| {
            Ok(if setting == Some("0") {
                GdnPrefillChainPlan::Disabled
            } else {
                GdnPrefillChainPlan::Q4KDeviceChain
            })
        }
    };
    assert_eq!(
        gdn_prefill_chain(&shape, plan_for(None)).expect("default chain facade"),
        Some(GdnPrefillChainOutput)
    );
    assert_eq!(
        gdn_prefill_chain(&shape, plan_for(Some("0"))).expect("explicit off chain facade"),
        None
    );
    assert_eq!(
        gdn_prefill_chain(&shape, plan_for(Some("1"))).expect("enabled chain facade"),
        Some(GdnPrefillChainOutput)
    );
}

#[test]
fn nemotron_device_route_pack_facade_downloads_experts() {
    let seq_len = 2usize;
    let n_expert = 4usize;
    let expert_used = 2usize;
    let logits = [0.5_f32, -0.25, 1.0, 0.125, -0.5, 0.75, 0.25, 1.25];
    let bias = [0.0_f32, 0.1, -0.2, 0.0];
    let desc =
        DeviceTensorDesc::new(seq_len, n_expert, ScalarType::F32, DeviceTensorRole::RouterLogits);
    let uploaded = DeviceTensor { id: DeviceTensorId::new(BackendKind::Cuda, 9), desc };
    let scored: Vec<u32> = logits
        .chunks(n_expert)
        .flat_map(|row| {
            let mut order: Vec<u32> = (0..n_expert as u32).collect();
            order.sort_by(|&a, &b| {
                let score = |e: u32| row[e as usize] + bias[e as usize];
                score(b).total_cmp(&score(a))
            });
            order.truncate(expert_used);
            order
        })
        .collect();

    let route = nemotron_device_route_pack_from_logits(uploaded, (), |(tensor, ())| {
        assert_eq!(tensor, uploaded);
        Ok(BackendRoutePack { raw: 1, slots: seq_len * expert_used, seq_len, expert_used })
    })
    .expect("route pack");

    assert_eq!(route.slots(), seq_len * expert_used);
    assert_eq!(route.seq_len(), seq_len);
    assert_eq!(route.expert_used(), expert_used);
    let experts = nemotron_device_route_pack_expert_ids(&route, |pack| {
        assert_eq!(pack.raw, 1);
        Ok(scored.clone())
    })
    .expect("download experts");
    assert_eq!(experts.len(), seq_len * expert_used);
    let order = [1_u32, 0, 3, 2];
    let mut sorted_on_device = Vec::new();
    let sorted = nemotron_reorder_device_route_pack(&route, &order, |(pack, order)| {
        sorted_on_device = order.iter().map(|&idx| scored[idx as usize]).collect();
        Ok(BackendRoutePack { raw: 2, ..pack })
    })
    .expect("reorder route pack");
    let sorted_experts = nemotron_device_route_pack_expert_ids(&sorted, |pack| {
        assert_eq!(pack.raw, 2);
        Ok(sorted_on_device.clone())
    })
    .expect("download sorted experts");
    assert_eq!(
        sorted_experts,
        order.iter().map(|&idx| experts[idx as usize]).collect::<Vec<_>>()
    );

    release_nemotron_device_route_pack(sorted, |_| Ok(())).expect("release sorted route");
    release_nemotron_device_route_pack(route, |_| Ok(())).expect("release route");
}

fn q8_0_rows_i8(rows: &[&[i8; 32]]) -> Vec<u8> {
    let mut raw = Vec::with_capacity(rows.len() * 34);
    for row in rows {
        raw.extend_from_slice(&[0x00, 0x3c]);
        raw.extend(row.iter().map(|&value| value as u8));
    }
    raw
}

fn best_row(matrix: WeightMatrix<'_>, input: &[u32]) -> (u32, u32) {
    let dots: Vec<f32> = matrix
        .raw
        .chunks_exact(34)
        .map(|row| {
            let values = row[2..].iter().map(|&byte| byte as i8 as f32);
            values.zip(input).map(|(value, &bits)| value * f32::from_bits(bits)).sum()
        })
        .collect();
    assert_eq!(dots.len(), matrix.rows);
    let best = (0..dots.len()).max_by(|&a, &b| dots[a].total_cmp(&dots[b])).unwrap();
    (best as u32, dots[best].to_bits())
}

fn q8_0_matrix(raw: &[u8]) -> WeightMatrix<'_> {
    WeightMatrix { ggml_type: GGMLType::Q8_0, address: 0, raw, rows: 3, cols: 32 }
}

const Q8DOT: OutputTuning = OutputTuning { logits: true, argmax: true, q8dot: true };

#[test]
fn q8_0_output_argmax_returns_sparse_logits() {
    let row0 = [1i8; 32];
    let row1 = [2i8; 32];
    let row2 = [-1i8; 32];
    let weights = q8_0_rows_i8(&[&row0, &row1, &row2]);
    let input = f32_bits(&[1.0f32; 32]);
    let logits = try_output_logits(
        Q8DOT,
        q8_0_matrix(&weights),
        &input,
        |(kernel, matrix, input)| {
            assert_eq!(kernel, ArgmaxKernel::Q8ZeroQ8Dot);
            Ok(best_row(matrix, input))
        },
        |_| unreachable!(),
    )
    .expect("CUDA Q8_0 sparse output logits");

    let finite = logits
        .iter()
        .enumerate()
        .filter(|(_, &value)| f32::from_bits(value).is_finite())
        .collect::<Vec<_>>();
    assert_eq!(finite.len(), 1);
    assert_eq!(finite[0].0, 1);
}

#[test]
fn q8_0_output_argmax_token_returns_best_row() {
    let row0 = [1i8; 32];
    let row1 = [3i8; 32];
    let row2 = [-1i8; 32];
    let weights = q8_0_rows_i8(&[&row0, &row1, &row2]);
    let input = f32_bits(&[1.0f32; 32]);
    let token = try_output_argmax_token(
        Q8DOT,
        q8_0_matrix(&weights),
        &input,
        |(_, matrix, input)| Ok(best_row(matrix, input)),
        |_| unreachable!(),
    )
    .expect("CUDA Q8_0 output argmax token");

    assert_eq!(token, 1);
}

#[test]
fn a_best_token_is_written_over_the_logits_that_are_wanted() {
    let weights = q8_0_rows_i8(&[&[1i8; 32], &[3i8; 32], &[-1i8; 32]]);
    let input = f32_bits(&[1.0f32; 32]);
    let best = |write_logits: bool, out: &mut Vec<u32>| {
        try_output_logits_into_if_enabled(
            Q8DOT,
            q8_0_matrix(&weights),
            &input,
            false,
            out,
            write_logits,
            |(_, matrix, input)| Ok(best_row(matrix, input)),
        )
    };
    let mut out = vec![7u32; 4];
    assert_eq!(best(false, &mut out), Some(1));
    assert_eq!(out, vec![7; 4]);
    assert_eq!(best(true, &mut out), Some(1));
    assert_eq!(out, vec![0xff80_0000, 96.0f32.to_bits(), 0xff80_0000, 7]);
    assert_eq!(best(true, &mut vec![7u32; 2]), None);

    assert!(prewarm_output_weight(Q8DOT, q8_0_matrix(&weights), |raw| Ok(raw.len())));
    let empty = WeightMatrix { rows: 0, ..q8_0_matrix(&weights) };
    assert!(!prewarm_output_weight(Q8DOT, empty, |_| unreachable!()));
}

const ALL_WEIGHT_TYPES: [(GGMLType, DequantType, usize, usize); 18] = [
    (GGMLType::F32, DequantType::F32, 4, 32),
    (GGMLType::F16, DequantType::F16, 2, 32),
    (GGMLType::BF16, DequantType::BF16, 2, 32),
    (GGMLType::Q4_0, DequantType::Q4_0, 18, 32),
    (GGMLType::Q4_1, DequantType::Q4_1, 20, 32),
    (GGMLType::Q5_0, DequantType::Q5_0, 22, 32),
    (GGMLType::Q5_1, DequantType::Q5_1, 24, 32),
    (GGMLType::Q8_0, DequantType::Q8_0, 34, 32),
    (GGMLType::Q8_1, DequantType::Q8_1, 36, 32),
    (GGMLType::Q2_K, DequantType::Q2K, 84, 256),
    (GGMLType::Q3_K, DequantType::Q3K, 110, 256),
    (GGMLType::Q4_K, DequantType::Q4K, 144, 256),
    (GGMLType::Q5_K, DequantType::Q5K, 176, 256),
    (GGMLType::Q6_K, DequantType::Q6K, 210, 256),
    (GGMLType::IQ2_XXS, DequantType::IQ2XXS, 66, 256),
    (GGMLType::IQ2_S, DequantType::IQ2S, 82, 256),
    (GGMLType::IQ3_XXS, DequantType::IQ3XXS, 98, 256),
    (GGMLType::IQ4_XS, DequantType::IQ4XS, 136, 256),
];

fn byte_matmul(matrix: WeightMatrix<'_>, input: &[u32]) -> Vec<u32> {
    let mut products = Vec::new();
    for token in input.chunks_exact(matrix.cols) {
        for row in 0..matrix.rows {
            let sum: f32 = token
                .iter()
                .enumerate()
                .map(|(col, &bits)| {
                    let place = (row * matrix.cols + col) % matrix.raw.len();
                    matrix.raw[place] as f32 * f32::from_bits(bits)
                })
                .sum();
            products.push(sum.to_bits());
        }
    }
    products
}

#[test]
fn every_model_weight_type_runs_decode_and_prefill_on_cuda() {
    let rows = 5usize;
    for (ggml_type, expansion, block_bytes, block_elems) in ALL_WEIGHT_TYPES {
        let cols = block_elems;
        let bytes = if ggml_type == GGMLType::F32 {
            rows * cols * 4
        } else {
            rows * (cols / block_elems) * block_bytes
        };
        let weights: Vec<u8> = (0..bytes).map(|index| ((index * 29 + 7) % 251) as u8).collect();
        let matrix = WeightMatrix { ggml_type, address: 4096, raw: &weights, rows, cols };
        let format = quant_format_of(ggml_type).expect("model weight type must have a kernel");
        assert_eq!(dequant_type(ggml_type), expansion);

        let decode_input = (0..cols)
            .map(|index| (((index * 13 + 3) % 23) as f32 - 11.0) * 0.015625)
            .collect::<Vec<_>>();
        let decode_bits = f32_bits(&decode_input);
        let decoded = decode_gemv(matrix, &decode_bits, |(asked, matrix, input)| {
            assert_eq!(asked, format);
            Ok(byte_matmul(matrix, input))
        })
        .expect("model weight type must have a CUDA decode route")
        .unwrap_or_else(|err| panic!("{ggml_type:?} CUDA decode failed: {err}"));
        assert_eq!(decoded, byte_matmul(matrix, &decode_bits));
        assert_eq!(decoded.len(), rows);

        let seq_len = 3usize;
        let prefill_input = (0..seq_len * cols)
            .map(|index| (((index * 11 + 7) % 29) as f32 - 14.0) * 0.01171875)
            .collect::<Vec<_>>();
        let prefill_bits = f32_bits(&prefill_input);
        let prefilled = gemv_batch(matrix, &prefill_bits, |(asked, matrix, input)| {
            assert_eq!(asked, format);
            Ok(byte_matmul(matrix, input))
        })
        .unwrap_or_else(|| panic!("{ggml_type:?} has no CUDA prefill route"))
        .unwrap_or_else(|err| panic!("{ggml_type:?} CUDA prefill failed: {err}"));
        assert_eq!(prefilled, byte_matmul(matrix, &prefill_bits));
        assert_eq!(prefilled.len(), seq_len * rows);
    }
}

fn verify_request(
    gdn_moe_layers: Vec<MtpDeviceVerifyGdnMoeLayer<'static, Vec<u32>>>,
) -> MtpDeviceVerifyWindowRequest<'static, Vec<u32>> {
    MtpDeviceVerifyWindowRequest {
        verify_tokens: &[10, 11],
        prefix_tokens: &[1],
        pos_start: 1139,
        hidden_dim: 256,
        rope_dim: 256,
        rope_neox: true,
        rope_theta: 10000.0f32.to_bits(),
        include_bonus: false,
        token_embd_q4k: &[0; 12 * 144],
        token_embd_quant: 12,
        token_embd_rows: 12,
        token_embd_cols: 256,
        layer_order: &[],
        attention_moe_layers: &[],
        gdn_moe_layers,
        output_q6k: &[0; 8 * 210],
        output_quant: 14,
        output_rows: 8,
        output_cols: 256,
        output_norm: &[0x3f80_0000; 256],
        norm_eps: 1.0e-5f32.to_bits(),
    }
}

fn empty_gdn_layer(n_embd: usize) -> MtpDeviceVerifyGdnMoeLayer<'static, Vec<u32>> {
    MtpDeviceVerifyGdnMoeLayer {
        layer_index: 0,
        attn_norm: &[],
        qkv_q4k: &[],
        qkv_quant: GGMLType::Q4_K,
        qkv_rows: 0,
        qkv_cols: 0,
        gate_q4k: &[],
        gate_rows: 0,
        gate_cols: 0,
        alpha_q4k: &[],
        alpha_f32: &[],
        alpha_quant: GGMLType::Q4_K,
        alpha_rows: 0,
        alpha_cols: 0,
        beta_q4k: &[],
        beta_f32: &[],
        beta_quant: GGMLType::Q4_K,
        beta_rows: 0,
        beta_cols: 0,
        conv_state: &[],
        conv_kernel: &[],
        kernel_size: 0,
        dt_bias: &[],
        ssm_a: &[],
        num_k_heads: 0,
        num_v_heads: 0,
        head_k_dim: 0,
        head_v_dim: 0,
        delta_state: vec![],
        sync_delta_state_to_host: false,
        ssm_norm: &[],
        ssm_out_q4k: &[],
        ssm_out_quant: GGMLType::Q4_K,
        ssm_out_rows: 0,
        ssm_out_cols: 0,
        post_attn_norm: &[],
        router_w: &[],
        n_expert: 0,
        n_expert_used: 0,
        gate_all: &[],
        up_all: &[],
        down_all: &[],
        down_quant: GGMLType::Q4_K,
        shared_input_scale: &[],
        shared_gate: &[],
        shared_up: &[],
        shared_down: &[],
        shared_down_quant: GGMLType::Q4_K,
        n_ff: 0,
        n_embd,
        ffn_gate_q4k: &[],
        ffn_gate_rows: 0,
        ffn_gate_cols: 0,
        ffn_up_q4k: &[],
        ffn_up_rows: 0,
        ffn_up_cols: 0,
        ffn_down: &[],
        ffn_down_quant: GGMLType::Q4_K,
        ffn_down_rows: 0,
        ffn_down_cols: 0,
    }
}

fn code(quant: GGMLType) -> u32 {
    match quant {
        GGMLType::Q4_K => 12,
        GGMLType::Q6_K => 14,
        _ => 0,
    }
}

fn stub_device(
    asked: VerifyWindow<'_, Vec<u32>>,
) -> Result<MtpDeviceVerifyWindowResult, String> {
    for (i, layer) in asked.gdn_moe_layers.iter().enumerate() {
        if layer.n_embd != asked.hidden_dim {
            return Err(format!("gdn_moe_layers[{i}] n_embd {}", layer.n_embd));
        }
        if layer.attn_norm.len() != asked.hidden_dim {
            return Err("GDN attn_norm length mismatch".to_string());
        }
    }
    Err(format!("not implemented bytes={} pos_start={}", asked.output_q6k.len(), asked.pos_start))
}

#[test]
fn qwen35_mtp_device_verify_refuses_stub_execution() {
    let err =
        qwen35_mtp_device_verify_window(verify_request(vec![]), &code, stub_device).unwrap_err();

    assert!(err.contains("not implemented"));
    assert!(err.contains("bytes="));
    assert!(err.contains("pos_start=1139"));
}

#[test]
fn qwen35_mtp_device_verify_request_carries_gdn_moe_layer_graph() {
    let err = qwen35_mtp_device_verify_window(
        verify_request(vec![empty_gdn_layer(256)]),
        &code,
        stub_device,
    )
    .unwrap_err();

    assert!(err.contains("GDN attn_norm length mismatch"));
}

#[test]
fn qwen35_mtp_device_verify_validates_layer_graph_before_stub_error() {
    let err = qwen35_mtp_device_verify_window(
        verify_request(vec![empty_gdn_layer(128)]),
        &code,
        stub_device,
    )
    .unwrap_err();

    assert!(err.contains("gdn_moe_layers[0] n_embd"));
    assert!(!err.contains("not implemented"));
}

#[test]
fn a_verify_window_reaches_the_device_with_numbered_formats() {
    let mut last = empty_gdn_layer(7);
    last.down_quant = GGMLType::Q6_K;
    last.ssm_norm = &[4, 5];
    last.delta_state = vec![6];
    let request = verify_request(vec![empty_gdn_layer(256), last]);
    let result = qwen35_mtp_device_verify_window(request, &code, |asked| {
        assert_eq!(asked.verify_tokens, vec![10, 11]);
        assert_eq!(asked.gdn_moe_layers.len(), 2);
        assert_eq!(asked.gdn_moe_layers[0].qkv_quant, 12);
        assert_eq!(asked.gdn_moe_layers[1].down_quant, 14);
        assert_eq!(asked.gdn_moe_layers[1].n_embd, 7);
        assert_eq!(asked.gdn_moe_layers[1].ssm_norm, [4, 5]);
        assert_eq!(asked.gdn_moe_layers[1].delta_state, vec![6]);
        assert_eq!(asked.token_embd_q4k.len(), 12 * 144);
        assert_eq!(asked.output_norm.len(), 256);
        Ok(MtpDeviceVerifyWindowResult {
            target_tokens: vec![3],
            mtp_hidden_rows: vec![],
            hidden_dim: asked.hidden_dim,
            prefix_states: vec![],
            ssm_final_states: vec![],
            attention_kv_states: vec![],
        })
    })
    .unwrap();
    assert_eq!(result.target_tokens, vec![3]);
    assert_eq!(result.hidden_dim, 256);
}

#[test]
fn device_roundtrip_quant_capability_matches_backend_kernel_table() {
    for quant in [GGMLType::Q4_K, GGMLType::Q5_K, GGMLType::Q6_K] {
        assert!(qwen_moe_device_roundtrip_supports_quant(quant));
    }
    for quant in [
        GGMLType::F32,
        GGMLType::F16,
        GGMLType::BF16,
        GGMLType::Q4_0,
        GGMLType::Q4_1,
        GGMLType::Q5_0,
        GGMLType::Q5_1,
        GGMLType::Q8_0,
        GGMLType::Q8_1,
        GGMLType::Q2_K,
        GGMLType::Q3_K,
        GGMLType::IQ4_XS,
        GGMLType::I32,
    ] {
        assert!(!qwen_moe_device_roundtrip_supports_quant(quant));
    }
}

#[test]
fn expert_major_prefill_sparse_slots_match_sorted_token_major_slots() {
    let router_logits = f32_bits(&[
        0.1f32, 3.0, 1.0, 2.0, //
        4.0, 0.5, 2.5, 1.5, //
        0.0, 2.0, 5.0, 1.0,
    ]);
    let mut expected = qwen_moe_prefill_sparse_slots(&router_logits, 3, 4, 2, &softmax_weight);
    expected.sort_unstable_by_key(|slot| (slot.expert, slot.token));

    let actual =
        qwen_moe_prefill_sparse_slots_expert_major(&router_logits, 3, 4, 2, &softmax_weight);

    assert_eq!(actual, expected);
}

#[test]
fn prefill_sparse_slots_break_tied_logits_by_lower_expert_id() {
    let n_expert = 64usize;
    let router_logits = vec![0.0f32.to_bits(); n_expert];
    let mut actual =
        qwen_moe_prefill_sparse_slots(&router_logits, 1, n_expert, 2, &softmax_weight);
    actual.sort_unstable_by_key(|slot| (slot.expert, slot.token));

    let experts = actual.iter().map(|slot| slot.expert).collect::<Vec<_>>();
    assert_eq!(experts, vec![0, 1]);
}

#[test]
fn device_topk_prefill_sparse_slots_match_host_for_tied_logits() {
    let (n_expert, hidden_dim, seq_len, n_expert_used) = (64usize, 1usize, 2usize, 2usize);
    let router_logits = vec![0.0f32.to_bits(); seq_len * n_expert];
    let mut expected = qwen_moe_prefill_sparse_slots(
        &router_logits,
        seq_len,
        n_expert,
        n_expert_used,
        &softmax_weight,
    );
    expected.sort_unstable_by_key(|slot| (slot.expert, slot.token));

    let router_w = vec![0.0f32.to_bits(); n_expert * hidden_dim];
    let norm_all = vec![1.0f32.to_bits(); seq_len * hidden_dim];
    let request = UnroutedPrompt {
        router: DeviceRouter { router_w: &router_w, n_expert, hidden_dim, n_expert_used },
        norm_all: &norm_all,
        seq_len,
    };
    let mut actual = qwen_moe_prefill_sparse_slots_device_topk(request, |asked| {
        assert_eq!(asked, request);
        Ok(RouteArrays {
            expert_ids: vec![0, 1, 0, 1],
            route_weights: f32_bits(&[0.5, 0.5, 0.5, 0.5]),
            token_ids: vec![0, 0, 1, 1],
        })
    })
    .unwrap();
    actual.sort_unstable_by_key(|slot| (slot.expert, slot.token));

    assert_eq!(
        actual.iter().map(|slot| (slot.expert, slot.token)).collect::<Vec<_>>(),
        expected.iter().map(|slot| (slot.expert, slot.token)).collect::<Vec<_>>()
    );
    for (actual, expected) in actual.iter().zip(expected.iter()) {
        let distance = f32::from_bits(actual.weight) - f32::from_bits(expected.weight);
        assert!(distance.abs() < 1.0e-6);
    }
}

#[test]
fn a_nan_logit_counts_as_equal() {
    let experts = |logits: &[f32], used| {
        qwen_moe_prefill_sparse_slots(&f32_bits(logits), 1, logits.len(), used, &|_: &[u32], _| 0)
            .iter()
            .map(|slot| slot.expert)
            .collect::<Vec<_>>()
    };
    assert_eq!(experts(&[1.0, f32::NAN], 1), vec![0]);
    assert_eq!(experts(&[f32::NAN, 1.0], 1), vec![0]);
    assert_eq!(experts(&[f32::NAN, f32::NAN, f32::NAN], 2), vec![0, 1]);
    assert_eq!(experts(&[2.0, 1.0, -f32::NAN], 2), vec![0, 1]);

    let mut unordered = experts(&[0.0, f32::NAN, 1.0], 3);
    unordered.sort();
    assert_eq!(unordered, vec![0, 1, 2]);
}

#[test]
fn the_leading_experts_are_the_highest_logits() {
    let router_logits = f32_bits(&[-1.0, 0.25, 7.0, -0.0, 0.0, 3.5]);
    let slots = qwen_moe_prefill_sparse_slots(&router_logits, 1, 6, 3, &softmax_weight);
    let mut experts: Vec<usize> = slots.iter().map(|slot| slot.expert).collect();
    experts.sort_unstable();
    assert_eq!(experts, vec![1, 2, 5]);
    let sum: f32 = slots.iter().map(|slot| f32::from_bits(slot.weight)).sum();
    assert!((sum - 1.0).abs() < 1.0e-6);
    assert!(slots.iter().all(|slot| slot.token == 0));
}

#[test]
fn grouping_keeps_every_slot_in_order() {
    let slots: Vec<MoeRouteSlot> = [(2, 0), (0, 0), (2, 1), (1, 1), (0, 2), (2, 2)]
        .iter()
        .map(|&(expert, token)| MoeRouteSlot::new(expert, token, token + 100))
        .collect();
    let groups = group_by_expert(&slots, 3);
    let order: Vec<(usize, u32)> = groups.iter().map(|slot| (slot.expert, slot.token)).collect();
    assert_eq!(order, vec![(0, 0), (0, 2), (1, 1), (2, 0), (2, 1), (2, 2)]);
    assert!(groups.iter().all(|slot| slot.weight == slot.token + 100));

    let histogram = describe_routes(&slots, 3);
    assert_eq!((histogram.slots, histogram.unique, histogram.max), (6, 3, 3));
    assert_eq!(log_qwen_moe_prefill_route_hist(false, 0, 3, 3, &slots), None);
    assert_eq!(log_qwen_moe_prefill_route_hist(true, 1, 3, 3, &slots), None);
    let line = log_qwen_moe_prefill_route_hist(true, 3, 3, 3, &slots).unwrap();
    assert!(line.starts_with("[cuda-route-hist] layer=3 tokens=3 slots=6 unique=3 max=3"));
}

#[test]
fn failed_products_say_what_failed() {
    let bytes = vec![0u8; 1020];
    let matrix = WeightMatrix {
        ggml_type: GGMLType::Q4_K,
        address: 0,
        raw: &bytes[..144],
        rows: 1,
        cols: 256,
    };
    let input = [0u32; 256];
    let fail = |_| -> Result<Vec<u32>, String> { Err("no memory".to_string()) };
    assert_eq!(
        gemv_batch(matrix, &input, fail).unwrap().unwrap_err(),
        "CUDA prefill Q4_K GEMV failed: no memory"
    );
    assert_eq!(
        decode_gemv(matrix, &input, fail).unwrap().unwrap_err(),
        "CUDA decode Q4_K GEMV failed: no memory"
    );
    assert_eq!(
        embedding_gather(matrix, &[3], fail).unwrap().unwrap_err(),
        "CUDA Q4_K embedding gather failed: no memory"
    );
    let integers = WeightMatrix { ggml_type: GGMLType::I32, ..matrix };
    assert!(decode_gemv(integers, &input, fail).is_none());
    let crooked =
        WeightMatrix { ggml_type: GGMLType::F32, address: 2, raw: &bytes, ..matrix };
    assert_eq!(
        decode_gemv(crooked, &input, fail).unwrap().unwrap_err(),
        "CUDA decode F32 weight layout mismatch: bytes=1020 expected=1024 alignment=2"
    );
    let short = |query: GemmQuery| {
        assert_eq!((query.quant_supported, query.rows, query.cols), (true, 1, 256));
        query.seq_len < 3
    };
    assert!(prefill_gemv(matrix, &input, 1, true, &short, |_| unreachable!(), fail).is_none());
    let half = |seq_len: usize, enabled: bool| {
        prefill_gemv(
            matrix,
            &input,
            seq_len,
            enabled,
            &short,
            |(matrix, input)| Ok(Some(vec![matrix.rows as u32, input.len() as u32])),
            fail,
        )
    };
    assert_eq!(half(2, true), Some(Ok(vec![1, 256])));
    assert!(half(3, true).unwrap().is_err());
    assert!(half(2, false).unwrap().is_err());
    assert_eq!(
        prefill_gemv(matrix, &input, 2, true, &short, |_| Err("busy".to_string()), fail)
            .unwrap()
            .unwrap_err(),
        "CUDA prefill Q4_K F16 GEMM failed: busy"
    );
}

#[test]
fn a_product_is_written_by_the_device_or_copied() {
    let raw = [0u8; 4];
    let input = [1u32, 2];
    let matrix =
        |ggml_type| WeightMatrix { ggml_type, address: 0, raw: &raw, rows: 2, cols: 256 };
    let mut out = vec![7u32, 8, 9];
    let direct = decode_gemv_into_if_supported(
        matrix(GGMLType::Q6_K),
        &input,
        &mut out,
        "nemotron_shared",
        |(product, matrix, input), mut out| {
            assert!(product.six_bit && product.touch_resident_hit);
            out[0] = (matrix.rows + input.len()) as u32;
            (out, Ok(()))
        },
        |_| unreachable!(),
    );
    assert_eq!(direct, Ok(true));
    assert_eq!(out, vec![4, 8, 9]);
    let failed = decode_gemv_into_if_supported(
        matrix(GGMLType::Q4_K),
        &input,
        &mut out,
        "o",
        |(product, _, _), out| {
            assert!(!product.six_bit && !product.touch_resident_hit);
            (out, Err("no memory".to_string()))
        },
        |_| unreachable!(),
    );
    assert_eq!(failed.unwrap_err(), "CUDA o Q4_K GEMV failed: no memory");
    let copied = |ggml_type, values: Vec<u32>, out: &mut Vec<u32>| {
        decode_gemv_into_if_supported(
            matrix(ggml_type),
            &input,
            out,
            "o",
            |_, _| unreachable!(),
            move |_| Ok(values),
        )
    };
    assert_eq!(copied(GGMLType::Q8_0, vec![5, 6], &mut out), Ok(true));
    assert_eq!(out, vec![5, 6, 9]);
    assert_eq!(
        copied(GGMLType::Q8_0, vec![1], &mut out).unwrap_err(),
        "CUDA o Q8_0 GEMV output mismatch: got 1 expected 2"
    );
    assert_eq!(
        copied(GGMLType::Q8_K, vec![], &mut out).unwrap_err(),
        "CUDA o Q8_K GEMV is unsupported"
    );
    assert_eq!(copied(GGMLType::I32, vec![], &mut out), Ok(false));
    assert_eq!(out, vec![5, 6, 9]);
}

#[test]
fn only_the_last_of_equal_logits_is_the_largest() {
    assert_eq!(find_last_largest(&f32_bits(&[1.0, 3.0, -2.0, 3.0])), Some(3));
    assert_eq!(find_last_largest(&f32_bits(&[-0.0, 0.0, -0.0])), Some(1));
    assert_eq!(find_last_largest(&vec![]), None);
    assert_eq!(
        sparse_argmax_logits(3, 2, 7, true),
        Some(vec![0xff80_0000, 0xff80_0000, 7])
    );
    assert_eq!(sparse_argmax_logits(3, 3, 7, true), None);
    assert_eq!(sparse_argmax_logits(1, 3, 7, false), Some(vec![0xff80_0000]));
    assert_eq!(
        prefill_output_logits(
            false,
            Q8DOT,
            q8_0_matrix(&[0; 102]),
            &[],
            |_| unreachable!(),
            |_| unreachable!()
        ),
        None
    );
}

#[test]
fn a_sliding_window_is_the_end_of_the_cache() {
    let k: Vec<u16> = (0..10 * 512).collect();
    let v: Vec<u16> = (0..10 * 512).map(|i| i + 1).collect();
    let attention = DecodeAttention {
        q: &[1, 2],
        k: &k,
        v: &v,
        kv_len: 10,
        heads: AttentionHeads { num_heads: 4, num_kv_heads: 2, head_dim: 256 },
        scale: 3,
    };
    let tuning =
        DecodeAttentionTuning { enabled: true, kv_cache: false, sliding_window: true, hd512: true };
    let ask = |window: Option<usize>| {
        decode_attention_hd256_if_supported(tuning, Some(1), attention, window, false, |asked| {
            Ok(asked)
        })
    };
    let part =
        DecodeAttentionCall::Part { head_dim: 256, start: 6 * 512, end: 10 * 512, kv_len: 4 };
    let end = DecodeAttention { k: &k[6 * 512..], v: &v[6 * 512..], kv_len: 4, ..attention };
    assert_eq!(ask(Some(4)), Some(Ok((part, end))));
    let whole = DecodeAttentionCall::Whole { head_dim: 256, kv_len: 10 };
    assert_eq!(ask(Some(10)), Some(Ok((whole, attention))));
    assert_eq!(ask(None), Some(Ok((whole, attention))));
    let short = DecodeAttention { k: &k[1..], ..attention };
    assert_eq!(
        decode_attention_hd256_if_supported(tuning, None, short, Some(4), false, |_| Ok(())),
        None
    );

    let cached = decode_attention_hd256_if_supported(
        DecodeAttentionTuning { kv_cache: true, ..tuning },
        Some(1),
        attention,
        Some(4),
        false,
        |asked| Ok(asked),
    );
    let window =
        DecodeAttentionCall::CachedWindow { layer_index: 1, window_start: 6, window_len: 4 };
    assert_eq!(cached, Some(Ok((window, attention))));

    let prompt = PrefillAttention {
        q: &[1],
        k: &[2],
        v: &[3],
        seq_len: 1,
        kv_len: 1,
        heads: AttentionHeads { num_heads: 1, num_kv_heads: 1, head_dim: 128 },
        scale: 4,
    };
    assert_eq!(
        prefill_attention_hd256_if_supported(true, prompt, None, None, |asked| Ok(asked)),
        Ok(Some((PrefillAttentionCall::Hd128, prompt)))
    );
}

#[test]
fn a_short_window_is_projected_without_expanding_its_weights() {
    let raw = [0u8; 144];
    let project = |seq_len: usize| {
        let matrix =
            WeightMatrix { ggml_type: GGMLType::Q4_K, address: 0, raw: &raw, rows: 8, cols: 256 };
        gdn_prefill_quantized_projection(
            matrix,
            &vec![0; seq_len * 256],
            |asked| {
                assert_eq!(asked, seq_len);
                Some("f32".to_string())
            },
            false,
            |_| Ok(None),
            |(call, matrix, input)| {
                assert_eq!((matrix.rows, input.len()), (8, seq_len * 256));
                Ok(call)
            },
        )
    };
    assert_eq!(project(2), Ok(Some(ProjectionCall::Quantized(GGMLType::Q4_K))));
    assert_eq!(project(512), Ok(Some(ProjectionCall::Expanded(DequantType::Q4K))));
}

#[test]
fn rope_modes_go_by_different_numbers() {
    let modes = [
        CudaRopeMode::Adjacent,
        CudaRopeMode::Neox,
        CudaRopeMode::PartialAdjacent,
        CudaRopeMode::PartialProportional,
        CudaRopeMode::MropeText,
    ];
    for (i, a) in modes.iter().enumerate() {
        for b in &modes[i + 1..] {
            assert_ne!(a.code(), b.code());
        }
    }
    let done = rope_f32_inplace("rows", CudaRopeMode::Neox, |(request, mode)| {
        assert_eq!((request, mode), ("rows", CudaRopeMode::Neox.code()));
        Ok(())
    });
    assert_eq!(done, Ok(()));
}

#[test]
fn sparse_experts_take_the_roundtrip_where_there_is_a_kernel() {
    let path = |enabled, quant| {
        let request = SparseToken {
            experts: ChosenExperts { gate: &[&[1]], up: &[&[2]], down: &[&[3]] },
            route_weights: &[4],
            layer_idx: Some(5),
            selected_expert_ids: &[6],
            down_quant: quant,
            n_ff: 7,
            n_embd: 8,
            input: &[9],
        };
        let mut seen = 0u32;
        let path = qwen_moe_decode_sparse_experts(
            enabled,
            request,
            &mut seen,
            |(path, asked, seen): (SparseExpertsPath, SparseToken<'_>, &mut u32)| {
                assert_eq!(asked, request);
                *seen += 1;
                Ok(path)
            },
        )
        .unwrap();
        assert_eq!(seen, 1);
        path
    };
    assert_eq!(path(true, GGMLType::Q6_K), SparseExpertsPath::DeviceRoundtrip);
    assert_eq!(path(false, GGMLType::Q6_K), SparseExpertsPath::Plain);
}

fn chain_request(states: u32) -> GdnPrefillChainQ4KRequest<'static, u32> {
    GdnPrefillChainQ4KRequest {
        shape: qwen35_chain_shape(32),
        hidden: &[],
        hidden_device: None,
        attn_norm: &[],
        qkv_q4k: &[],
        qkv_quant: GGMLType::Q4_K,
        gate_q4k: &[],
        gate_quant: GGMLType::Q4_K,
        alpha_q4k: &[1, 2],
        alpha_f32: &[7],
        alpha_quant: GGMLType::Q8_0,
        beta_q4k: &[3],
        beta_f32: &[4],
        beta_quant: GGMLType::F32,
        conv_kernel: &[],
        dt_bias: &[],
        ssm_a: &[],
        ssm_norm: &[],
        ssm_out_q4k: &[],
        ssm_out_quant: GGMLType::Q4_K,
        ssm_out_rows: 2048,
        ssm_out_cols: 4096,
        norm_eps: 0,
        keep_host_output: true,
        post_attn_norm: None,
        states,
    }
}

#[test]
fn a_chain_expands_its_gates_only_in_single_precision() {
    let tuning = GdnChainTuning { keep_device_output: true, keep_device_moe_input: false };
    let run = |plan: GdnPrefillChainPlan, mode: Option<&str>| {
        gdn_prefill_chain_q4k(
            chain_request(9),
            tuning,
            |_| Ok(plan),
            |seq_len| {
                assert_eq!(seq_len, 32);
                mode.map(str::to_string)
            },
            &|raw: &[u8], dequant: DequantType| {
                assert_eq!(dequant, DequantType::Q8_0);
                raw.iter().map(|&byte| byte as u32 + 100).collect()
            },
            |call| {
                assert_eq!(call.request.states, 9);
                assert_eq!(call.tuning, tuning);
                Ok((call.alpha_floats().to_vec(), call.beta_floats().to_vec()))
            },
        )
    };
    let device_chain = GdnPrefillChainPlan::Q4KDeviceChain;
    assert_eq!(run(GdnPrefillChainPlan::Disabled, Some("f32")), Ok(None));
    assert_eq!(run(device_chain, Some("f32")), Ok(Some((vec![101, 102], vec![4]))));
    assert_eq!(run(device_chain, Some("q")), Ok(Some((vec![7], vec![4]))));
    assert_eq!(run(device_chain, None), Ok(Some((vec![7], vec![4]))));
}

#[test]
fn a_decoded_delta_net_is_asked_for_by_codes() {
    let call = QwenGdnDecodeChainCall {
        attn_norm: &[1],
        qkv_weights: &[],
        qkv_quant: GGMLType::Q4_K,
        gate_weights: &[],
        alpha_weights: &[],
        beta_weights: &[],
        dt_bias: &[],
        ssm_a: &[],
        conv_kernel_weights: &[],
        ssm_norm: &[],
        ssm_out_weights: &[],
        ssm_out_quant: GGMLType::Q6_K,
        n_embd: 2,
        conv_channels: 0,
        conv_kernel: 0,
        d_inner: 0,
        num_k_heads: 0,
        num_v_heads: 0,
        head_k_dim: 0,
        head_v_dim: 0,
        norm_eps: 3,
        states: "states",
    };
    let code = |quant| if quant == GGMLType::Q4_K { 12 } else { 14 };
    let failed = qwen35_gdn_decode_core_chain(call, &code, |args| {
        assert_eq!((args.qkv_quant, args.ssm_out_quant), (12, 14));
        assert_eq!((args.attn_norm, args.n_embd, args.norm_eps), (&[1u32][..], 2, 3));
        assert_eq!(args.states, "states");
        Err("busy".to_string())
    });
    assert_eq!(failed.unwrap_err(), "CUDA Qwen GDN decode chain failed: busy");
}

#[test]
fn a_shared_expert_must_expand_to_its_shape() {
    let shared = SharedExpert {
        gate: &[1; 6],
        gate_quant: GGMLType::Q4_K,
        up: &[2; 6],
        up_quant: GGMLType::Q4_K,
        down: &[3; 6],
        down_quant: GGMLType::Q6_K,
    };
    let run = |expanded: bool, n_ff: usize| {
        let request = SharedPrompt {
            experts: ChosenExperts { gate: &[&[1]], up: &[&[2]], down: &[&[3]] },
            route_weights: &[4, 5],
            token_ids: &[0, 1],
            seq_len: 2,
            shared,
            n_ff,
            n_embd: 3,
            norm_all: &[6],
        };
        qwen_moe_prefill_shared_expert_batch(
            expanded,
            request,
            &|raw: &[u8], dequant: DequantType| {
                let format: u32 = if dequant == DequantType::Q6K { 60 } else { 40 };
                raw.iter().map(|&byte| byte as u32 + format).collect()
            },
            |call| {
                Ok(match call {
                    SharedExpertCall::Expanded(asked) => {
                        assert_eq!((asked.route_weights, asked.norm_all), (&[4, 5][..], &[6][..]));
                        assert_eq!((asked.n_ff, asked.n_embd), (n_ff, 3));
                        (asked.weights.gate[0], asked.weights.up[0], asked.weights.down[0])
                    }
                    SharedExpertCall::Sparse(asked) => {
                        assert_eq!(asked.down_quant, GGMLType::Q6_K);
                        assert_eq!(asked.experts, request.experts);
                        assert_eq!((asked.token_ids, asked.seq_len), (&[0, 1][..], 2));
                        (0, 0, 0)
                    }
                })
            },
        )
    };
    assert_eq!(run(true, 2), Ok((41, 42, 63)));
    assert_eq!(run(true, 3).unwrap_err(), "CUDA shared f32 MoE dequant shape mismatch");
    assert_eq!(run(false, 3), Ok((0, 0, 0)));
}

#[test]
fn one_expert_is_multiplied_gate_first() {
    let multiply = |raw: &'static [u8], rows: usize, cols: usize, input: &'static [u32]| {
        if raw.is_empty() {
            Err("no bytes".to_string())
        } else {
            Ok(raw[0] as usize * 1000 + rows * 100 + cols * 10 + input.len())
        }
    };
    assert_eq!(
        qwen_moe_decode_gate_up(true, &[1], &[2], 3, 4, &[0, 0], &multiply),
        Some((1342, 2342))
    );
    assert_eq!(qwen_moe_decode_gate_up(true, &[], &[2], 3, 4, &[0], &multiply), None);
    assert_eq!(qwen_moe_decode_gate_up(true, &[1], &[], 3, 4, &[0], &multiply), None);
    assert_eq!(qwen_moe_decode_gate_up(false, &[1], &[2], 3, 4, &[0], &multiply), None);

    let down = |enabled, quant| {
        qwen_moe_decode_down(enabled, quant, &[5], 6, 7, &[8], |quant, raw, rows, cols, input| {
            Ok((quant, raw[0], rows, cols, input[0]))
        })
    };
    assert_eq!(down(true, GGMLType::Q5_K), Some((GGMLType::Q5_K, 5, 6, 7, 8)));
    assert_eq!(down(true, GGMLType::Q8_0), None);
    assert_eq!(down(false, GGMLType::Q5_K), None);
}

#[test]
fn packed_weights_that_do_not_open_are_left_aside() {
    let open = |path: &'static str| -> Result<usize, String> { Ok(path.len()) };
    let torn = |_: &'static str| -> Result<usize, String> { Err("torn".to_string()) };
    assert_eq!(open_sidecar_v3_packed_model(true, "a.rnb", open), None);
    assert_eq!(open_sidecar_v3_packed_model(false, "a.rnb", open), Some(5));
    assert_eq!(open_sidecar_v3_packed_model(false, "a.rnb", torn), None);
    assert_eq!(open_shadow_model(false, "b.rnb", |_| unreachable!(), open), None);
    assert_eq!(open_shadow_model(true, "b.rnb", |_| false, open), None);
    assert_eq!(open_shadow_model(true, "b.rnb", |path| *path == "b.rnb", open), Some(5));
    assert_eq!(open_shadow_model(true, "b.rnb", |_| true, torn), None);
}
