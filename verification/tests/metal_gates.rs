use rnb_runtime::cuda_inference::glm_moe::FileBackedRegion;
use rnb_runtime::metal_inference::decode_chain::{FfnQuantCodes, GdnQuantCodes};
use rnb_runtime::metal_inference::gates::{
    metal_attention_o_chain_into_if_supported, metal_attention_qkv_chain_into_if_supported,
    metal_attn_decode_into_if_supported, metal_attn_layer_into_if_supported,
    metal_ffn_chain_into_if_supported, metal_gdn_core_into_if_supported,
    metal_gdn_inproj_chain_into_if_supported, metal_gdn_layer_into_if_supported,
    metal_gdn_moe_layer_into_if_supported, metal_prefill_ffn_chain_into_if_supported,
    metal_qwen_moe_expert_ffn_into_if_supported, metal_qwen_moe_prefill_route_arrays_if_supported,
    metal_qwen_moe_prefill_router_logits_if_supported, AttnDecodeRequest, AttnLayerRequest,
    FfnBatchRequest, FfnChainRequest, FfnFormats, FfnWeights, GdnBuffers, GdnCoreRequest,
    GdnInputBuffers, GdnInputRequest, GdnLayerRequest, GdnMoeRequest, GemvRequest,
    OutputChainRequest, QkvBuffers, QkvChainRequest,
};
use rnb_runtime::metal_inference::mla_gates::{
    metal_glm_mla_back_into_if_supported, metal_glm_mla_front_into_if_supported,
    metal_glm_mla_gemv_into_if_supported, metal_glm_mla_head_gemv_into_if_supported,
    metal_glm_mla_head_slots_gemv_into_if_supported, HeadGemvRequest, HeadSlotsGemvRequest, MlaBack,
    MlaFront, MlaFrontBuffers, MlaGemvKernel, MlaSizes,
};
use rnb_runtime::metal_inference::moe_gates::{
    metal_glm_moe_decode_iq2xxs_iq3xxs_into_if_supported,
    metal_glm_moe_prefill_iq_batch_into_if_supported,
    metal_qwen_moe_decode_sparse_experts_id_into_if_supported,
    metal_qwen_moe_decode_sparse_experts_into_if_supported,
    metal_qwen_moe_prefill_shared_sparse_selected_base_v4_if_supported, AccumSkip, DecodeExperts,
    DecodeExpertsById, GlmDecodeExperts, GlmMoeQuantSelect, GlmPrefillBatch, GlmPrefillDirectFile,
    MappedRegion, SharedExpert, SparseExperts,
};
use rnb_runtime::metal_inference::prefill_gates::{
    metal_prefill_attn_chain_if_supported, metal_prefill_gated_norm_silu_into_if_supported,
    metal_prefill_gated_norm_silu_project_into_if_supported,
    metal_prefill_gdn_conv_delta_chain_into_if_supported,
    metal_prefill_gdn_full_chain_into_if_supported,
    metal_prefill_gdn_full_ffn_chain_into_if_supported, AttnChainRequest, ConvDeltaRequest,
    GatedNormRequest, GatedProjectionRequest, GdnFullFfnRequest, GdnFullFfnRun, GdnFullRequest,
};
use rnb_runtime::quant::{GGMLType, TensoropsQuant};

const FORMATS: FfnFormats =
    FfnFormats { gate: GGMLType::Q4_K, up: GGMLType::Q4_K, down: GGMLType::Q6_K };

const FFN: FfnWeights<'static> =
    FfnWeights { formats: FORMATS, gate_raw: &[1], up_raw: &[2], down_raw: &[3] };

fn with_down(down: GGMLType) -> FfnWeights<'static> {
    FfnWeights { formats: FfnFormats { down, ..FORMATS }, ..FFN }
}

const CORE: GdnCoreRequest<'static> = GdnCoreRequest {
    layer: 3,
    attn_norm_weight: &[1],
    qkv_ggml: GGMLType::Q5_K,
    qkv_raw: &[1],
    gate_ggml: GGMLType::Q4_K,
    gate_raw: &[2],
    alpha_ggml: GGMLType::F32,
    alpha_raw: &[3],
    beta_ggml: GGMLType::Q8_0,
    beta_raw: &[4],
    dt_bias_weight: &[5],
    ssm_a_weight: &[6],
    conv1d_weight: &[7],
    ssm_norm_weight: &[8],
    ssm_out_ggml: GGMLType::Q6_K,
    ssm_out_raw: &[9],
    hidden_dim: 4,
    conv_channels: 1,
    conv_kernel: 1,
    z_dim: 1,
    num_v_heads: 4,
    num_k_heads: 2,
    head_k_dim: 128,
    head_v_dim: 128,
    eps: 1,
};

const CODES: GdnQuantCodes = GdnQuantCodes { qkv: 1, gate: 0, alpha: 4, beta: 3, ssm_out: 2 };

fn buffers(value: u32) -> GdnBuffers {
    GdnBuffers { hidden: vec![value; 4], conv_state: vec![value; 2], delta_state: vec![value] }
}

#[test]
fn an_attention_layer_tells_its_two_open_formats() {
    let layer = AttnLayerRequest {
        layer: 1,
        norm_weight: &[1],
        q_ggml: GGMLType::Q4_K,
        k_ggml: GGMLType::Q4_K,
        v_ggml: GGMLType::Q6_K,
        o_ggml: GGMLType::Q4_K,
        q_raw: &[1],
        k_raw: &[2],
        v_raw: &[3],
        q_norm_weight: &[2],
        k_norm_weight: &[3],
        o_raw: &[4],
        ffn_norm_weight: &[4],
        ffn: with_down(GGMLType::Q4_K),
        prior_k: &[],
        prior_v: &[],
        pos: 0,
        hidden_dim: 2,
        q_dim: 2,
        q_out_dim: 2,
        kv_dim: 2,
        head_dim: 256,
        num_heads: 4,
        num_kv_heads: 2,
        n_rot: 2,
        capacity: 8,
        ffn_dim: 2,
        eps: 1,
        theta: 2,
        scale: 3,
    };
    let run = |switch: Option<&str>, request: AttnLayerRequest<'static>| {
        let mut hidden = vec![5, 6];
        let done = metal_attn_layer_into_if_supported(
            switch,
            request,
            &mut hidden,
            |reads, given: AttnLayerRequest<'static>, before: &Vec<u32>| {
                assert_eq!(reads, (true, false));
                assert_eq!(given, request);
                before.iter().map(|float| float + 1).collect()
            },
        );
        (done, hidden)
    };
    assert_eq!(run(None, layer), (true, vec![6, 7]));
    assert_eq!(run(Some("0"), layer), (false, vec![5, 6]));
    assert_eq!(run(None, AttnLayerRequest { num_heads: 3, ..layer }), (false, vec![5, 6]));
    assert_eq!(run(None, AttnLayerRequest { head_dim: 257, ..layer }), (false, vec![5, 6]));
    assert_eq!(
        run(None, AttnLayerRequest { o_ggml: GGMLType::Q6_K, ..layer }),
        (false, vec![5, 6])
    );
}

#[test]
fn a_delta_net_layer_is_handed_its_codes() {
    let run = |switch: Option<&str>, core: GdnCoreRequest<'static>| {
        let mut held = buffers(0);
        let request = GdnLayerRequest { core, ffn_norm_weight: &[1], ffn: FFN, ffn_dim: 8 };
        let done = metal_gdn_layer_into_if_supported(
            switch,
            request,
            &mut held,
            |reads, given: GdnLayerRequest<'static>, before: &GdnBuffers| {
                assert_eq!(reads, (CODES, FfnQuantCodes { gate: 0, up: 0, down: 2 }));
                assert_eq!((given, before), (request, &buffers(0)));
                buffers(7)
            },
        );
        (done, held)
    };
    assert_eq!(run(None, CORE), (true, buffers(7)));
    assert_eq!(run(Some("0"), CORE), (false, buffers(0)));
    let other = GdnCoreRequest { qkv_ggml: GGMLType::Q4_0, ..CORE };
    assert_eq!(run(None, other), (false, buffers(0)));
    let uneven = GdnCoreRequest { num_v_heads: 3, ..CORE };
    assert_eq!(run(None, uneven), (false, buffers(0)));
}

#[test]
fn a_delta_net_core_is_opt_in() {
    let run = |switch: Option<&str>| {
        let mut held = buffers(0);
        let done = metal_gdn_core_into_if_supported(
            switch,
            CORE,
            &mut held,
            |reads, given: GdnCoreRequest<'static>, _: &GdnBuffers| {
                assert_eq!((reads, given), (CODES, CORE));
                buffers(1)
            },
        );
        (done, held)
    };
    assert_eq!(run(Some("1")), (true, buffers(1)));
    assert_eq!(run(None), (false, buffers(0)));
    assert_eq!(run(Some("true")), (false, buffers(0)));
}

#[test]
fn a_delta_net_layer_with_experts_must_hold_all_of_them() {
    let experts = GdnMoeRequest {
        core: CORE,
        ffn_norm_weight: &[1],
        router_w: &[0; 32],
        sparse: FFN,
        gate_expert_bytes: 1,
        up_expert_bytes: 1,
        down_expert_bytes: 1,
        shared_input_scale: &[0; 4],
        shared: FFN,
        n_ff: 8,
        n_expert: 8,
        n_expert_used: 2,
    };
    let run = |switch: Option<&str>, request: GdnMoeRequest<'static>| {
        let mut held = buffers(0);
        metal_gdn_moe_layer_into_if_supported(
            switch,
            request,
            &mut held,
            |reads, given: GdnMoeRequest<'static>, _: &GdnBuffers| {
                assert_eq!(given, request);
                buffers(reads.1 as u32)
            },
        );
        held.hidden[0]
    };
    assert_eq!(run(Some("1"), experts), 2);
    assert_eq!(run(None, experts), 0);
    assert_eq!(run(Some("1"), GdnMoeRequest { n_expert_used: 32, ..experts }), 0);
    assert_eq!(run(Some("1"), GdnMoeRequest { router_w: &[0; 31], ..experts }), 0);
    assert_eq!(run(Some("1"), GdnMoeRequest { shared: with_down(GGMLType::Q5_K), ..experts }), 0);
    let empty = FfnWeights { up_raw: &[], ..FFN };
    assert_eq!(run(Some("1"), GdnMoeRequest { sparse: empty, ..experts }), 0);
    let plain = with_down(GGMLType::Q4_K);
    assert_eq!(run(Some("1"), GdnMoeRequest { sparse: plain, shared: plain, ..experts }), 0);
}

#[test]
fn chains_of_projections_are_opt_in_and_read_q4k() {
    let project = |o_ggml: GGMLType| {
        let mut hidden = vec![3];
        let request =
            OutputChainRequest { o_ggml, attn_out: &[1], o_raw: &[2], hidden_dim: 1, q_dim: 1 };
        metal_attention_o_chain_into_if_supported(
            Some("1"),
            request,
            &mut hidden,
            |given: OutputChainRequest<'_>, before: &Vec<u32>| vec![before[0] + given.attn_out[0]],
        );
        hidden
    };
    assert_eq!(project(GGMLType::Q4_K), vec![4]);
    assert_eq!(project(GGMLType::Q6_K), vec![3]);

    let qkv = |switch: Option<&str>| {
        let mut out = QkvBuffers { q: vec![0], k: vec![0], v: vec![0] };
        metal_attention_qkv_chain_into_if_supported(
            switch,
            QkvChainRequest {
                q_ggml: GGMLType::Q4_K,
                k_ggml: GGMLType::Q4_K,
                v_ggml: GGMLType::Q4_K,
                norm_input: &[1],
                q_raw: &[2],
                k_raw: &[3],
                v_raw: &[4],
                hidden_dim: 1,
                q_out_dim: 1,
                kv_dim: 1,
            },
            &mut out,
            |given: QkvChainRequest<'_>| QkvBuffers {
                q: vec![given.q_raw[0] as u32],
                k: vec![given.k_raw[0] as u32],
                v: vec![given.v_raw[0] as u32],
            },
        );
        out
    };
    assert_eq!(qkv(Some("1")), QkvBuffers { q: vec![2], k: vec![3], v: vec![4] });
    assert_eq!(qkv(None), QkvBuffers { q: vec![0], k: vec![0], v: vec![0] });

    let inputs = |gate_ggml: GGMLType| {
        let mut out = GdnInputBuffers { qkv: vec![0], gate: vec![0] };
        metal_gdn_inproj_chain_into_if_supported(
            Some("1"),
            GdnInputRequest {
                qkv_ggml: GGMLType::Q4_K,
                gate_ggml,
                norm_input: &[1],
                qkv_raw: &[2],
                gate_raw: &[3],
                hidden_dim: 1,
                qkv_dim: 1,
                gate_dim: 1,
            },
            &mut out,
            |given: GdnInputRequest<'_>| GdnInputBuffers {
                qkv: vec![given.qkv_raw[0] as u32],
                gate: vec![given.gate_raw[0] as u32],
            },
        );
        out
    };
    assert_eq!(inputs(GGMLType::Q4_K), GdnInputBuffers { qkv: vec![2], gate: vec![3] });
    assert_eq!(inputs(GGMLType::Q6_K), GdnInputBuffers { qkv: vec![0], gate: vec![0] });
}

#[test]
fn an_attention_lies_over_the_start_of_its_buffer() {
    let run = |switch: Option<&str>, window: Option<usize>, head_dim: usize| {
        let mut out = vec![1, 2, 3];
        metal_attn_decode_into_if_supported(
            switch,
            AttnDecodeRequest {
                q: &[8],
                k_cache: &[1],
                v_cache: &[2],
                num_heads: 2,
                num_kv_heads: 1,
                head_dim,
                kv_len: 1,
                scale: 9,
            },
            &mut out,
            window,
            false,
            |given: AttnDecodeRequest<'_>| vec![given.q[0], given.scale],
        );
        out
    };
    assert_eq!(run(Some("1"), None, 256), vec![8, 9, 3]);
    assert_eq!(run(None, None, 256), vec![1, 2, 3]);
    assert_eq!(run(Some("1"), Some(4), 256), vec![1, 2, 3]);
    assert_eq!(run(Some("1"), None, 257), vec![1, 2, 3]);
}

#[test]
fn a_feed_forward_chain_tells_its_down_format() {
    let token = |switch: Option<&str>, ffn: FfnWeights<'static>| {
        let mut hidden = vec![4];
        metal_ffn_chain_into_if_supported(
            switch,
            FfnChainRequest { ffn, norm_weight: &[1], hidden_dim: 1, ffn_dim: 1, norm_eps: 2 },
            &mut hidden,
            |is_q6k, _, before: &Vec<u32>| vec![before[0] + 1 + is_q6k as u32],
        );
        hidden[0]
    };
    assert_eq!(token(Some("1"), FFN), 6);
    assert_eq!(token(Some("1"), with_down(GGMLType::Q4_K)), 5);
    assert_eq!(token(None, FFN), 4);
    let prompt = |switch: Option<&str>, ffn: FfnWeights<'static>| {
        let mut out = vec![0];
        metal_prefill_ffn_chain_into_if_supported(
            switch,
            FfnBatchRequest { ffn, normed: &[5], tokens: 1, hidden_dim: 1, ffn_dim: 1 },
            &mut out,
            |is_q6k, given: FfnBatchRequest<'_>| vec![given.normed[0] + is_q6k as u32],
        );
        out[0]
    };
    assert_eq!(prompt(None, with_down(GGMLType::Q4_K)), 5);
    assert_eq!(prompt(None, FFN), 6);
    assert_eq!(prompt(Some("0"), FFN), 0);
}

#[test]
fn a_group_of_tokens_fills_its_expert() {
    let run = |batch: Option<&str>, tokens: usize, floats: usize| {
        let normed = vec![1u32; floats];
        let mut out = vec![0u32; floats];
        let done = metal_qwen_moe_expert_ffn_into_if_supported(
            batch,
            FfnBatchRequest { ffn: FFN, normed: &normed, tokens, hidden_dim: 8, ffn_dim: 16 },
            &mut out,
            |is_q6k, given: FfnBatchRequest<'_>| {
                vec![if is_q6k { 6 } else { 4 }; given.normed.len()]
            },
        );
        assert_eq!(out, vec![if done { 6 } else { 0 }; floats]);
        done
    };
    assert!(run(None, 16, 128));
    assert!(!run(None, 15, 120));
    assert!(run(Some("1"), 15, 120));
    assert!(!run(Some("0"), 16, 128));
    assert!(!run(Some("1"), 0, 0));
    assert!(!run(Some("1"), 15, 121));
}

#[test]
fn a_router_checks_the_lengths_around_the_device() {
    let weights = [1u32; 6];
    let normed = [2u32; 4];
    let run = |switch: Option<&str>, n_expert: usize, seq_len: usize, reply: usize| {
        metal_qwen_moe_prefill_router_logits_if_supported(
            switch,
            &weights,
            n_expert,
            2,
            &normed,
            seq_len,
            |w, x, experts, hidden, tokens| {
                assert_eq!((w, x, experts, hidden, tokens), (&weights[..], &normed[..], 3, 2, 2));
                vec![9; reply]
            },
        )
    };
    assert_eq!(run(None, 3, 2, 6), Ok(Some(vec![9; 6])));
    assert_eq!(run(Some("0"), 3, 2, 6), Ok(None));
    assert_eq!(run(Some("off"), usize::MAX, usize::MAX, 6), Ok(None));
    assert_eq!(
        run(None, 4, 2, 6),
        Err("metal qwen moe router weight len mismatch: got 6, expected 8".to_string())
    );
    assert_eq!(
        run(None, 3, 1, 6),
        Err("metal qwen moe router norm len mismatch: got 4, expected 2".to_string())
    );
    assert_eq!(
        run(None, 3, 2, 5),
        Err("metal qwen moe router logits len mismatch: got 5, expected 6".to_string())
    );
}

#[test]
fn routes_must_fill_every_slot() {
    let weights = [1u32; 6];
    let normed = [2u32; 4];
    let run = |topk: Option<&str>, used: usize, tokens: usize| {
        metal_qwen_moe_prefill_route_arrays_if_supported(
            None,
            topk,
            &weights,
            3,
            2,
            &normed,
            2,
            used,
            |_, _, _, _, _, _| (vec![1; 4], vec![2; 4], vec![3; tokens]),
        )
    };
    assert_eq!(run(Some("1"), 2, 4), Ok(Some((vec![1; 4], vec![2; 4], vec![3; 4]))));
    assert_eq!(run(None, 2, 4), Ok(None));
    assert_eq!(run(Some("1"), 0, 4), Ok(None));
    assert_eq!(run(Some("1"), 33, 4), Ok(None));
    assert_eq!(
        run(Some("1"), 2, 3),
        Err("metal qwen moe route arrays len mismatch: experts=4 weights=4 tokens=3 expected=4"
            .to_string())
    );
    assert_eq!(
        run(Some("1"), 32, 4),
        Err("metal qwen moe route arrays len mismatch: experts=4 weights=4 tokens=4 expected=6"
            .to_string())
    );
}

#[test]
fn a_latent_projection_reads_whole_blocks() {
    let run = |switch: Option<&str>, ggml_type: GGMLType, cols: usize| {
        let input = vec![1u32; cols];
        let mut out = vec![0u32; 4];
        let mut read = None;
        metal_glm_mla_gemv_into_if_supported(
            switch,
            GemvRequest { ggml_type, raw: &[1], rows: 4, cols, input: &input },
            &mut out,
            |kernel, given: GemvRequest<'_>| {
                read = Some(kernel);
                vec![given.cols as u32; 4]
            },
        );
        assert_eq!(out, vec![if read.is_some() { cols as u32 } else { 0 }; 4]);
        read
    };
    assert_eq!(run(None, GGMLType::Q5_K, 256), Some(MlaGemvKernel::Q5K));
    assert_eq!(run(None, GGMLType::Q8_0, 32), Some(MlaGemvKernel::Q8Zero));
    assert_eq!(run(None, GGMLType::Q5_K, 32), None);
    assert_eq!(run(None, GGMLType::Q4_K, 256), None);
    assert_eq!(run(Some("0"), GGMLType::Q5_K, 256), None);

    let head = HeadGemvRequest {
        ggml_type: GGMLType::Q8_0,
        raw: &[1],
        heads: 2,
        rows_per_head: 3,
        cols: 32,
        input: &[0; 64],
    };
    let by_head = |switch: Option<&str>, request: HeadGemvRequest<'static>| {
        let mut out = vec![0u32; 6];
        metal_glm_mla_head_gemv_into_if_supported(switch, request, &mut out, |_| vec![1; 6])
    };
    assert!(by_head(None, head));
    assert!(!by_head(Some("0"), head));
    assert!(!by_head(None, HeadGemvRequest { input: &[0; 63], ..head }));
    let by_slot = |slots: usize| {
        let mut out = vec![0u32; 6];
        metal_glm_mla_head_slots_gemv_into_if_supported(
            None,
            HeadSlotsGemvRequest { slots, head },
            &mut out,
            |_| vec![1; 6],
        )
    };
    assert!(by_slot(2));
    assert!(!by_slot(3));
    assert!(!by_slot(0));
}

const SIZES: MlaSizes = MlaSizes {
    hidden: 512,
    q_rank: 256,
    q_dim: 256,
    kv_dim: 96,
    heads: 4,
    kv_rank: 64,
    q_nope: 32,
    value_dim: 64,
    eps: 1,
};

#[test]
fn both_halves_of_a_latent_attention_check_their_shape() {
    let front = MlaFront {
        qa_quant: GGMLType::Q5_K,
        qb_quant: GGMLType::Q8_0,
        kva_quant: GGMLType::Q8_0,
        kb_quant: GGMLType::Q8_0,
        qa: &[1],
        qa_norm: &[0; 1024],
        qb: &[2],
        kva: &[3],
        kb: &[4],
        sizes: SIZES,
        input: &[0; 512],
    };
    let run = |switch: Option<&str>, front: MlaFront<'static>, q: usize, qabs: usize| {
        let filled = |value: u32| MlaFrontBuffers {
            q: vec![value; q],
            kv: vec![value; 96],
            qabs: vec![value; qabs],
        };
        let mut out = filled(0);
        let done = metal_glm_mla_front_into_if_supported(
            switch,
            front,
            &mut out,
            |given: MlaFront<'static>, _: &MlaFrontBuffers| {
                assert_eq!(given, front);
                filled(1)
            },
        );
        assert_eq!(out, filled(done as u32));
        done
    };
    assert!(run(None, front, 256, 256));
    assert!(!run(Some("off"), front, 256, 256));
    assert!(!run(None, front, 256, 255));
    let sizes = MlaSizes { q_dim: 255, ..SIZES };
    assert!(!run(None, MlaFront { sizes, ..front }, 255, 256));
    let sizes = MlaSizes { heads: 0, ..SIZES };
    assert!(!run(None, MlaFront { sizes, ..front }, 256, 256));

    let back = MlaBack {
        vb_quant: GGMLType::Q8_0,
        o_quant: GGMLType::Q5_K,
        vb: &[1],
        o: &[2],
        sizes: SIZES,
        latent: &[0; 256],
    };
    let run = |switch: Option<&str>, back: MlaBack<'static>| {
        let mut out = vec![0u32; 512];
        let done = metal_glm_mla_back_into_if_supported(
            switch,
            back,
            &mut out,
            |given: MlaBack<'static>, before: &Vec<u32>| vec![given.vb[0] as u32; before.len()],
        );
        assert_eq!(out, vec![done as u32; 512]);
        done
    };
    assert!(run(None, back));
    assert!(!run(Some("0"), back));
    assert!(!run(None, MlaBack { latent: &[0; 255], ..back }));
    assert!(!run(None, MlaBack { o_quant: GGMLType::Q8_0, ..back }));
}

const QUANTS: GlmMoeQuantSelect = GlmMoeQuantSelect {
    gate_up_iq2s: true,
    down_iq4xs: false,
    shared_gate_up_q6k: true,
    shared_down_q8_0: false,
};

#[test]
fn a_token_finds_its_experts_by_id_or_by_weights() {
    let by_id = DecodeExpertsById {
        gate_all: &[1],
        up_all: &[2],
        down_all: &[3],
        gate_expert_bytes: 1,
        up_expert_bytes: 1,
        down_expert_bytes: 1,
        shared_gate: &[4],
        shared_up: &[5],
        shared_down: &[6],
        expert_ids: &[0, 1],
        route_weights: &[7, 8],
        shared_expert_id: 2,
        down_ggml: GGMLType::Q6_K,
        n_ff: 16,
        n_embd: 8,
        input: &[0; 8],
    };
    let run = |id: Option<&str>, experts: DecodeExpertsById<'static>| {
        let mut out = vec![9u32; 8];
        metal_qwen_moe_decode_sparse_experts_id_into_if_supported(
            Some("1"),
            id,
            experts,
            &mut out,
            |code, given: DecodeExpertsById<'static>| {
                assert_eq!(given, experts);
                vec![code as u32; 8]
            },
        );
        out[7]
    };
    assert_eq!(run(None, DecodeExpertsById { down_ggml: GGMLType::Q5_K, ..by_id }), 1);
    assert_eq!(run(None, by_id), 2);
    assert_eq!(run(None, DecodeExpertsById { down_ggml: GGMLType::Q4_K, ..by_id }), 9);
    assert_eq!(run(Some("0"), by_id), 9);
    assert_eq!(run(None, DecodeExpertsById { shared_up: &[], ..by_id }), 9);

    let two: [&[u8]; 2] = [&[1], &[2]];
    let nine: [&[u8]; 9] = [&[1]; 9];
    let input = vec![0u32; 256];
    let by_weights = DecodeExperts {
        gate: &two,
        up: &two,
        down: &two,
        route_weights: &[1, 2],
        n_ff: 512,
        n_embd: 256,
        input: &input,
    };
    let run = |switch: Option<&str>| {
        let mut out = vec![9u32; 256];
        metal_qwen_moe_decode_sparse_experts_into_if_supported(
            switch,
            by_weights,
            GGMLType::Q4_K,
            &mut out,
            |code, given: DecodeExperts<'_>| vec![code as u32; given.n_embd],
        );
        out[0]
    };
    assert_eq!(run(Some("1")), 0);
    assert_eq!(run(None), 9);

    let glm = |sparse: DecodeExperts<'_>| {
        let mut out = vec![0u32; 256];
        let done = metal_glm_moe_decode_iq2xxs_iq3xxs_into_if_supported(
            None,
            GlmDecodeExperts {
                sparse,
                shared_gate: &[1],
                shared_up: &[2],
                shared_down: &[3],
                shared_route_weight: 4,
                quants: QUANTS,
            },
            &mut out,
            |given: GlmDecodeExperts<'_>| {
                assert_eq!(given.quants, QUANTS);
                vec![given.shared_route_weight; 256]
            },
        );
        assert_eq!(out[0], if done { 4 } else { 0 });
        done
    };
    assert!(glm(by_weights));
    assert!(!glm(DecodeExperts { n_ff: 500, ..by_weights }));
    assert!(!glm(DecodeExperts { up: &nine[..3], ..by_weights }));
    assert!(!glm(DecodeExperts {
        gate: &nine,
        up: &nine,
        down: &nine,
        route_weights: &[0; 9],
        ..by_weights
    }));
}

#[test]
fn a_prompt_has_a_slot_for_the_shared_expert_too() {
    let weights: [&[u8]; 15] = [&[1]; 15];
    let batch = GlmPrefillBatch {
        gate: &weights,
        up: &weights,
        down: &weights,
        route_weights: &[0; 15],
        seq_len: 3,
        sparse_slots: 4,
        n_ff: 256,
        n_embd: 256,
        input_all: &[0; 768],
        quants: QUANTS,
    };
    let run = |switch: Option<&str>, decode: Option<&str>, batch: GlmPrefillBatch<'_>| {
        let mut out = vec![0u32; 768];
        metal_glm_moe_prefill_iq_batch_into_if_supported(
            switch,
            decode,
            batch,
            None::<&[MappedRegion<&str>; 3]>,
            &mut out,
            |(_, direct)| {
                assert!(direct.is_none());
                vec![1; 768]
            },
        )
    };
    assert!(run(None, None, batch));
    assert!(!run(Some("0"), None, batch));
    assert!(!run(None, Some("0"), batch));
    assert!(!run(None, None, GlmPrefillBatch { gate: &weights[..12], ..batch }));
    assert!(!run(None, None, GlmPrefillBatch { sparse_slots: usize::MAX, ..batch }));
}

#[test]
fn experts_in_files_are_named_in_their_order() {
    let region = |path: &'static str, file_offset: u64, len: usize, host_address: usize| {
        MappedRegion { region: FileBackedRegion { path, file_offset, len }, host_address }
    };
    let regions = [region("gate", 1, 10, 100), region("up", 2, 20, 200), region("down", 3, 30, 300)];
    let weights: [&[u8]; 2] = [&[1]; 2];
    let mut out = vec![0u32; 256];
    assert!(metal_glm_moe_prefill_iq_batch_into_if_supported(
        None,
        None,
        GlmPrefillBatch {
            gate: &weights,
            up: &weights,
            down: &weights,
            route_weights: &[0; 2],
            seq_len: 1,
            sparse_slots: 1,
            n_ff: 256,
            n_embd: 256,
            input_all: &[0; 256],
            quants: QUANTS,
        },
        Some(&regions),
        &mut out,
        |(given, direct): (
            GlmPrefillBatch<'_>,
            Option<GlmPrefillDirectFile<'_, &'static str>>,
        )| {
            let direct = direct.unwrap();
            assert_eq!(direct.paths, [&"gate", &"up", &"down"]);
            assert_eq!(direct.base_offsets, [1, 2, 3]);
            assert_eq!(direct.base_addrs, [100, 200, 300]);
            assert_eq!(direct.lens, [10, 20, 30]);
            vec![5; given.input_all.len()]
        },
    ));
    assert_eq!(out, vec![5; 256]);
}

#[test]
fn a_matrix_path_says_why_it_is_skipped() {
    let sparse = SparseExperts {
        formats: FORMATS,
        gate_all: &[1],
        up_all: &[2],
        down_all: &[3],
        gate_expert_bytes: 1,
        up_expert_bytes: 1,
        down_expert_bytes: 1,
        expert_ids: &[0; 4],
        route_weights: &[0; 4],
        token_ids: &[0; 4],
        seq_len: 2,
        hidden_dim: 8,
        ffn_dim: 5,
        norm_all: &[0; 16],
    };
    let shared = SharedExpert { weights: FFN, route_weights: &[0; 2], token_ids: &[0; 2] };
    let run = |v4: Option<&str>, sparse: SparseExperts<'static>, supported: bool| {
        metal_qwen_moe_prefill_shared_sparse_selected_base_v4_if_supported(
            v4,
            Some("0"),
            shared,
            sparse,
            |_| supported,
            |is_q6k, given: (SharedExpert<'static>, SparseExperts<'static>)| {
                assert_eq!(given, (shared, sparse));
                (is_q6k, given.1.ffn_dim)
            },
        )
    };
    assert_eq!(run(Some("1"), sparse, true), Ok((true, 5)));
    assert_eq!(run(None, sparse, true), Err(AccumSkip::Policy));
    let formats = FfnFormats { down: GGMLType::Q5_K, ..FORMATS };
    assert_eq!(
        run(Some("1"), SparseExperts { formats, ..sparse }, true),
        Err(AccumSkip::DownQuant)
    );
    let formats = FfnFormats { up: GGMLType::Q5_K, ..FORMATS };
    assert_eq!(
        run(Some("1"), SparseExperts { formats, ..sparse }, true),
        Err(AccumSkip::GateUpQuant)
    );
    assert_eq!(
        run(Some("1"), SparseExperts { norm_all: &[0; 15], ..sparse }, true),
        Err(AccumSkip::Shape)
    );
    assert_eq!(run(Some("1"), sparse, false), Err(AccumSkip::BackendUnsupported));
}

const CONV_DELTA: ConvDeltaRequest<'static> = ConvDeltaRequest {
    conv_input: &[1],
    conv_weight: &[2],
    gate: &[3],
    beta: &[4],
    state: &[5],
    seq_len: 1,
    conv_channels: 1,
    conv_kernel: 1,
    num_k_heads: 1,
    num_v_heads: 1,
    head_k_dim: 128,
    head_v_dim: 128,
    norm_eps: 6,
};

#[test]
fn prompt_kernels_follow_their_switches() {
    let attend = |head_dim: usize, pos_start: usize, window: bool| {
        let request = AttnChainRequest {
            q_in: &[1],
            k_in: &[2],
            v_in: &[3],
            q_norm_w: &[4],
            k_norm_w: &[5],
            seq_len: 1,
            num_heads: 4,
            num_kv_heads: 2,
            head_dim,
            n_rot: 2,
            theta: 6,
            eps: 7,
            pos_start,
            scale: 8,
            layer_idx: 9,
            timing_enabled: false,
        };
        metal_prefill_attn_chain_if_supported(Some("1"), request, window, false, |given| {
            assert_eq!(given, request);
            Some(2)
        })
    };
    assert_eq!(attend(256, 0, false), Some(2));
    assert_eq!(attend(128, 0, false), None);
    assert_eq!(attend(256, 1, false), None);
    assert_eq!(attend(256, 0, true), None);

    let gated =
        GatedNormRequest { output: &[1], z: &[2], norm: &[3], rows: 1, cols: 1, norm_eps: 4 };
    assert_eq!(
        metal_prefill_gated_norm_silu_into_if_supported(Some("1"), gated, |given| given),
        Some(gated)
    );
    assert_eq!(
        metal_prefill_gated_norm_silu_into_if_supported(Some("0"), gated, |given| given),
        None
    );
    let project = GatedProjectionRequest {
        output: &[1],
        z: &[2],
        norm: &[3],
        weight_ggml: GGMLType::Q5_K,
        weight_raw: &[4],
        seq_len: 1,
        head_v_dim: 1,
        n_out: 1,
        norm_eps: 5,
    };
    assert_eq!(
        metal_prefill_gated_norm_silu_project_into_if_supported(
            Some("1"),
            project,
            |quant, given| (quant, given),
        ),
        Some((TensoropsQuant::Q5K, project))
    );
    assert_eq!(
        metal_prefill_gdn_conv_delta_chain_into_if_supported(
            Some("1"),
            Some("8"),
            CONV_DELTA,
            |chunk, given| (chunk, given),
        ),
        Some((8, CONV_DELTA))
    );
    let full = |ssm_out_ggml: GGMLType| {
        metal_prefill_gdn_full_chain_into_if_supported(
            Some("1"),
            Some("8"),
            GdnFullRequest {
                conv_delta: CONV_DELTA,
                z: &[1],
                ssm_norm: &[2],
                ssm_out_ggml,
                ssm_out_raw: &[3],
                n_out: 4,
            },
            |reads, given: GdnFullRequest<'_>| (reads, given.n_out),
        )
    };
    assert_eq!(full(GGMLType::Q6_K), Some(((TensoropsQuant::Q6K, 8), 4)));
    assert_eq!(full(GGMLType::Q8_0), None);
    let with_ffn = |full_ffn: Option<&str>| {
        metal_prefill_gdn_full_ffn_chain_into_if_supported(
            full_ffn,
            None,
            Some("8"),
            GdnFullFfnRequest {
                hidden: &[1],
                conv_delta: CONV_DELTA,
                z: &[2],
                ssm_norm: &[3],
                ssm_out_ggml: GGMLType::Q4_K,
                ssm_out_raw: &[4],
                post_norm_w: &[5],
                ffn: FFN,
                hidden_dim: 1,
                ffn_dim: 6,
            },
            |reads, given: GdnFullFfnRequest<'_>| Some((reads, given.ffn_dim)),
        )
    };
    let run =
        GdnFullFfnRun { ssm_out: TensoropsQuant::Q4K, ffn_down_is_q6k: true, chunk_size: 8 };
    assert_eq!(with_ffn(None), Some((run, 6)));
    assert_eq!(with_ffn(Some("off")), None);
}
