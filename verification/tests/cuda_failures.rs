use rnb_runtime::backend_api::DeviceTensorId;
use rnb_runtime::cuda_inference::caches::{
    upload_device_tensor_f32,
};
use rnb_runtime::cuda_inference::carriers::{
    attention_decode_cached_to_device,
    attention_decode_cached_to_device_len_device,
    attention_decode_cached_to_device_len_device_graph,
    attention_decode_kvarn,
    attention_decode_kvarn_to_device,
    decode_device_qkv_rope_kv,
    decode_device_qkv_rope_kv_graph,
    decode_full_layer_device_resident,
    dense_q4k_attention_qkv_with_device_input,
    download_from_decode_hidden_carrier,
    sync_decode_stream,
};
use rnb_runtime::cuda_inference::gdn::{
    free_delta_state_snapshot,
    nemotron_mamba2_decode_scan,
    nemotron_mamba2_prefill_scan,
    restore_delta_state_cache,
    snapshot_delta_state_cache,
    ssm_prefill_delta_net_resident_snapshot,
    ssm_prefill_delta_net_resident_snapshots,
};
use rnb_runtime::cuda_inference::glm_moe::{
    glm_moe_decode_sparse_experts_iq2xxs_iq3xxs,
    glm_moe_prefill_shared_expert_iq,
    glm_moe_prefill_sparse_experts_iq_by_token,
    moe_prefill_sparse_experts_iq2xxs_iq3xxs_clamped_swiglu,
    mxfp4_sparse_experts_by_token_clamped_swiglu,
    sparse_experts_by_token_clamped_swiglu_resident,
};
use rnb_runtime::cuda_inference::nemotron::{
    nemotron_q5_decode_moe_shared_sparse,
    nemotron_q5_q8_sparse_relu_sqr_by_token,
    nemotron_q5_q8_sparse_relu_sqr_cached_layer_by_token,
    nemotron_q5_sparse_relu_sqr_cached_layer_by_token,
    nemotron_q5_sparse_relu_sqr_full_layer_by_token,
    nemotron_q8_shared_prefill,
    nemotron_q8_shared_q5_sparse_decode_moe,
    nemotron_q8_shared_q5_sparse_decode_moe_cached_layer,
    nemotron_q8_shared_q5_sparse_prefill_moe,
    nemotron_q8_shared_q5_sparse_prefill_moe_cached_layer,
    nemotron_q8_shared_q5_sparse_prefill_moe_device,
    nemotron_q8_shared_q5_sparse_prefill_moe_device_with_residual_desc,
};
use rnb_runtime::cuda_inference::qwen_moe::{
    RouteArrays,
    qwen_moe_prefill_router_logits,
    qwen_moe_prefill_sparse_experts_by_token,
    qwen_moe_prefill_sparse_experts_selected_base_by_token,
    qwen_moe_prefill_sparse_route_arrays_device_topk,
    qwen_moe_register_layer,
    ChosenExperts, DeviceRouter, ExpertLayer, LayerExperts, PromptRoutes, RouterPrompt,
    SelectedPrompt, SparsePrompt, UnroutedPrompt,
};
use rnb_runtime::cuda_inference::vectors::{
    activation_mul_f32_inplace,
    add_f32_inplace,
    add_rows_f32_inplace,
    axpby_f32_inplace,
    gdn_prepare_delta_gate_beta_f32,
    hadamard_f32_inplace,
    l2_norm_rows_f32,
    moe_route_topk_f32,
    mul_rows_f32_inplace,
    relu_sqr_f32_inplace,
    rms_norm_f32_dev_input_to_carrier,
    rms_norm_f32_to_carrier,
    rms_norm_rows_f32,
    scale_f32_inplace,
    sigmoid_f32_inplace,
    sigmoid_mul_f32_inplace,
};
use rnb_runtime::cuda_inference::weights::{
    bf16_gemv,
    dense_q4k_attention_output_gelu_ffn_batch_norm_residual,
    dense_q4k_attention_output_gelu_ffn_norm_residual,
    dense_q4k_attention_qkv,
    dense_q4k_attention_qkv_rope_hd128_decode,
    dense_q4k_attention_qkv_rope_hd128_prefill,
    dense_q4k_gelu_ffn,
    dense_q4k_gelu_ffn_batch,
    dense_q4k_gelu_ffn_norm_residual,
    dense_q4k_silu_ffn_batch,
    f16_gemv,
    gemma4_ple_q4k_batch_norm_residual,
    iq4_xs_gemv,
    q2k_gemv,
    q3k_gemv,
    q4k_gemv,
    q4k_gemv_with_device_input,
    q5_0_gemv,
    q5_1_gemv,
    q5k_gemv,
    q6k_gemv,
    q6k_gemv_with_device_input,
    q8_0_gemv,
};
use rnb_runtime::quant::GGMLType;

fn lost<T>() -> Result<T, String> {
    Err("lost".to_string())
}

fn says<T: std::fmt::Debug>(output: Result<T, String>, context: &str) {
    assert_eq!(output.unwrap_err(), format!("{context}lost"));
}

#[test]
fn failed_cache_calls_are_named() {
    says(
        upload_device_tensor_f32((), |_| lost::<DeviceTensorId>()),
        "CUDA device tensor upload failed: ",
    );
}

#[test]
fn failed_decode_steps_are_named() {
    says(
        download_from_decode_hidden_carrier((), |_| lost::<()>()),
        "CUDA download from decode hidden carrier failed: ",
    );
    says(sync_decode_stream(|| lost::<()>()), "CUDA sync decode stream failed: ");
    says(
        decode_full_layer_device_resident((), |_| lost::<()>()),
        "CUDA decode_full_layer_device_resident failed: ",
    );
    says(
        decode_device_qkv_rope_kv((), |_| lost::<u64>()),
        "CUDA decode_device_qkv_rope_kv failed: ",
    );
    says(decode_device_qkv_rope_kv_graph((), |_| lost::<u64>()), "CUDA graph QKV failed: ");
    says(
        attention_decode_cached_to_device((), |_| lost::<()>()),
        "CUDA attention_decode_cached_to_device failed: ",
    );
    says(
        attention_decode_cached_to_device_len_device((), |_| lost::<()>()),
        "CUDA attention_decode_cached_to_device_len_device failed: ",
    );
    says(
        attention_decode_cached_to_device_len_device_graph((), |_| lost::<()>()),
        "CUDA attention_decode_cached_to_device_len_device_graph failed: ",
    );
    says(attention_decode_kvarn((), |_| lost::<u8>()), "CUDA attention_decode_kvarn failed: ");
    says(
        attention_decode_kvarn_to_device((), |_| lost::<()>()),
        "CUDA attention_decode_kvarn_to_device failed: ",
    );
    says(
        dense_q4k_attention_qkv_with_device_input((), |_| lost::<()>()),
        "CUDA dense_q4k_attention_qkv_with_device_input failed: ",
    );
}

#[test]
fn failed_delta_net_calls_are_named() {
    says(
        ssm_prefill_delta_net_resident_snapshot((), |_| lost::<u8>()),
        "CUDA resident prefill delta-net snapshot failed: ",
    );
    says(
        ssm_prefill_delta_net_resident_snapshots((), |_| lost::<u8>()),
        "CUDA resident prefill delta-net snapshots failed: ",
    );
    says(snapshot_delta_state_cache((), |_| lost::<u8>()), "CUDA delta state snapshot failed: ");
    says(restore_delta_state_cache((), |_| lost::<bool>()), "CUDA delta state restore failed: ");
    says(
        free_delta_state_snapshot((), |_| lost::<()>()),
        "CUDA delta state snapshot free failed: ",
    );
    says(
        nemotron_mamba2_decode_scan((), |_| lost::<u8>()),
        "CUDA Nemotron Mamba2 decode scan failed: ",
    );
    says(
        nemotron_mamba2_prefill_scan((), |_| lost::<u8>()),
        "CUDA Nemotron Mamba2 prefill scan failed: ",
    );
}

#[test]
fn failed_latent_experts_are_named() {
    says(
        glm_moe_decode_sparse_experts_iq2xxs_iq3xxs((), |_| lost::<u8>()),
        "CUDA GLM sparse IQ2_XXS/IQ3_XXS MoE failed: ",
    );
    says(
        glm_moe_prefill_sparse_experts_iq_by_token((), |_| lost::<u8>()),
        "CUDA GLM batched sparse IQ MoE failed: ",
    );
    says(
        moe_prefill_sparse_experts_iq2xxs_iq3xxs_clamped_swiglu((), |_| lost::<u8>()),
        "CUDA batched sparse clamped SwiGLU MoE failed: ",
    );
    says(
        mxfp4_sparse_experts_by_token_clamped_swiglu((), |_| lost::<u8>()),
        "CUDA batched sparse MXFP4 MoE failed: ",
    );
    says(
        sparse_experts_by_token_clamped_swiglu_resident((), |_| lost::<u8>()),
        "CUDA resident sparse clamped SwiGLU MoE failed: ",
    );
    says(
        glm_moe_prefill_shared_expert_iq((), |_| lost::<u8>()),
        "CUDA GLM batched shared IQ expert failed: ",
    );
}

#[test]
fn failed_hybrid_steps_are_named() {
    says(
        nemotron_q5_q8_sparse_relu_sqr_by_token((), |_| lost::<u8>()),
        "CUDA Nemotron Q5/Q8 sparse batch failed: ",
    );
    says(
        nemotron_q5_q8_sparse_relu_sqr_cached_layer_by_token((), |_| lost::<u8>()),
        "CUDA Nemotron Q5/Q8 cached-layer sparse batch failed: ",
    );
    says(
        nemotron_q5_decode_moe_shared_sparse((), |_| lost::<u8>()),
        "CUDA Nemotron Q5 decode shared+sparse failed: ",
    );
    says(
        nemotron_q8_shared_prefill((), |_| lost::<u8>()),
        "CUDA Nemotron Q8 shared prefill failed: ",
    );
    says(
        nemotron_q8_shared_q5_sparse_prefill_moe((), |_| lost::<u8>()),
        "CUDA Nemotron Q8 shared + Q5 sparse prefill MoE failed: ",
    );
    says(
        nemotron_q8_shared_q5_sparse_prefill_moe_device((), |_| lost::<Option<DeviceTensorId>>()),
        "CUDA Nemotron device Q8 shared + Q5 sparse prefill MoE failed: ",
    );
    says(
        nemotron_q8_shared_q5_sparse_prefill_moe_device_with_residual_desc((), |_| lost::<Option<DeviceTensorId>>()),
        "CUDA Nemotron device Q8 shared + Q5 sparse prefill MoE failed: ",
    );
    says(
        nemotron_q8_shared_q5_sparse_prefill_moe_cached_layer((), |_| lost::<u8>()),
        "CUDA cached Nemotron Q8 shared + Q5 sparse prefill MoE failed: ",
    );
    says(
        nemotron_q8_shared_q5_sparse_decode_moe((), |_| lost::<u8>()),
        "CUDA Nemotron Q8 shared + Q5 sparse decode MoE failed: ",
    );
    says(
        nemotron_q8_shared_q5_sparse_decode_moe_cached_layer((), |_| lost::<u8>()),
        "CUDA Nemotron cached Q8 shared + Q5 sparse decode MoE failed: ",
    );
    says(
        nemotron_q5_sparse_relu_sqr_full_layer_by_token((), |_| lost::<u8>()),
        "CUDA Nemotron full-layer Q5 sparse batch failed: ",
    );
    says(
        nemotron_q5_sparse_relu_sqr_cached_layer_by_token((), |_| lost::<u8>()),
        "CUDA Nemotron cached-layer Q5 sparse batch failed: ",
    );
}

#[test]
fn failed_expert_calls_are_named() {
    let router = DeviceRouter { router_w: &[1], n_expert: 1, hidden_dim: 1, n_expert_used: 1 };
    let experts = LayerExperts { gate_all: &[1], up_all: &[2], down_all: &[3] };
    says(
        qwen_moe_prefill_router_logits(
            RouterPrompt { router_w: &[1], n_expert: 1, hidden_dim: 1, norm_all: &[2] },
            |_| lost::<u8>(),
        ),
        "CUDA prefill MoE router failed: ",
    );
    says(
        qwen_moe_prefill_sparse_route_arrays_device_topk(
            UnroutedPrompt { router, norm_all: &[2], seq_len: 1 },
            |_| lost::<RouteArrays>(),
        ),
        "CUDA prefill MoE device top-k route failed: ",
    );
    says(
        qwen_moe_register_layer(
            ExpertLayer { experts, down_quant: GGMLType::Q6_K, n_ff: 1, n_embd: 1 },
            |_| lost::<bool>(),
        ),
        "CUDA MoE layer registration failed: ",
    );
    says(
        qwen_moe_prefill_sparse_experts_by_token(
            SparsePrompt {
                experts: ChosenExperts { gate: &[&[1]], up: &[&[2]], down: &[&[3]] },
                route_weights: &[4],
                token_ids: &[0],
                seq_len: 1,
                down_quant: GGMLType::Q6_K,
                n_ff: 1,
                n_embd: 1,
                norm_all: &[5],
            },
            |_| lost::<u8>(),
        ),
        "CUDA prefill MoE sparse batch failed: ",
    );
    says(
        qwen_moe_prefill_sparse_experts_selected_base_by_token(
            SelectedPrompt {
                experts,
                routes: PromptRoutes { expert_ids: &[0], route_weights: &[4], token_ids: &[0] },
                seq_len: 1,
                down_quant: GGMLType::Q6_K,
                n_ff: 1,
                n_embd: 1,
                norm_all: &[5],
            },
            |_| lost::<u8>(),
        ),
        "CUDA prefill MoE selected-base sparse batch failed: ",
    );
}

#[test]
fn failed_vector_steps_are_named() {
    says(rms_norm_f32_to_carrier((), |_| lost::<()>()), "CUDA rms_norm_f32_to_carrier failed: ");
    says(rms_norm_rows_f32((), |_| lost::<()>()), "CUDA batched RMS norm failed: ");
    says(activation_mul_f32_inplace((), |_| lost::<()>()), "CUDA activation multiply failed: ");
    says(add_f32_inplace((), |_| lost::<()>()), "CUDA residual add failed: ");
    says(add_rows_f32_inplace((), |_| lost::<()>()), "CUDA broadcast add failed: ");
    says(mul_rows_f32_inplace((), |_| lost::<()>()), "CUDA broadcast multiply failed: ");
    says(scale_f32_inplace((), |_| lost::<()>()), "CUDA scale failed: ");
    says(sigmoid_f32_inplace((), |_| lost::<()>()), "CUDA sigmoid failed: ");
    says(
        gdn_prepare_delta_gate_beta_f32((), |_| lost::<()>()),
        "CUDA GDN delta gate preparation failed: ",
    );
    says(l2_norm_rows_f32((), |_| lost::<()>()), "CUDA L2 norm failed: ");
    says(axpby_f32_inplace((), |_| lost::<()>()), "CUDA axpby failed: ");
    says(sigmoid_mul_f32_inplace((), |_| lost::<()>()), "CUDA sigmoid multiply failed: ");
    says(relu_sqr_f32_inplace((), |_| lost::<()>()), "CUDA relu-squared failed: ");
    says(hadamard_f32_inplace((), |_| lost::<()>()), "CUDA Hadamard transform failed: ");
    says(moe_route_topk_f32((), |_| lost::<u8>()), "CUDA MoE top-k routing failed: ");
    says(
        rms_norm_f32_dev_input_to_carrier((), |_| lost::<()>()),
        "CUDA rms_norm_f32_dev_input_to_carrier failed: ",
    );
}

#[test]
fn failed_products_of_one_weight_are_named() {
    says(
        q4k_gemv_with_device_input((), |_| lost::<()>()),
        "CUDA q4k_gemv_with_device_input failed: ",
    );
    says(
        q6k_gemv_with_device_input((), |_| lost::<()>()),
        "CUDA q6k_gemv_with_device_input failed: ",
    );
    says(q2k_gemv((), |_| lost::<u8>()), "CUDA Q2_K GEMV failed: ");
    says(q3k_gemv((), |_| lost::<u8>()), "CUDA Q3_K GEMV failed: ");
    says(q4k_gemv((), |_| lost::<u8>()), "CUDA Q4_K GEMV failed: ");
    says(q5_0_gemv((), |_| lost::<u8>()), "CUDA Q5_0 GEMV failed: ");
    says(bf16_gemv((), |_| lost::<u8>()), "CUDA BF16 GEMV failed: ");
    says(f16_gemv((), |_| lost::<u8>()), "CUDA F16 GEMV failed: ");
    says(q5_1_gemv((), |_| lost::<u8>()), "CUDA Q5_1 GEMV failed: ");
    says(q5k_gemv((), |_| lost::<u8>()), "CUDA Q5_K GEMV failed: ");
    says(q6k_gemv((), |_| lost::<u8>()), "CUDA Q6_K GEMV failed: ");
    says(q8_0_gemv((), |_| lost::<u8>()), "CUDA Q8_0 GEMV failed: ");
    says(iq4_xs_gemv((), |_| lost::<u8>()), "CUDA IQ4_XS GEMV failed: ");
    says(dense_q4k_gelu_ffn((), |_| lost::<u8>()), "CUDA dense Q4_K GELU FFN failed: ");
    says(
        dense_q4k_gelu_ffn_batch((), |_| lost::<u8>()),
        "CUDA dense Q4_K GELU FFN batch failed: ",
    );
    says(
        dense_q4k_silu_ffn_batch((), |_| lost::<u8>()),
        "CUDA dense Q4_K SiLU FFN batch failed: ",
    );
    says(
        dense_q4k_gelu_ffn_norm_residual((), |_| lost::<u8>()),
        "CUDA dense Q4_K GELU FFN norm residual failed: ",
    );
    says(
        dense_q4k_attention_output_gelu_ffn_norm_residual((), |_| lost::<()>()),
        "CUDA dense Q4_K attention+FFN failed: ",
    );
    says(
        dense_q4k_attention_output_gelu_ffn_batch_norm_residual((), |_| lost::<()>()),
        "CUDA dense Q4_K attention+FFN batch failed: ",
    );
    says(
        gemma4_ple_q4k_batch_norm_residual((), |_| lost::<()>()),
        "CUDA Gemma4 PLE Q4_K batch failed: ",
    );
    says(dense_q4k_attention_qkv((), |_| lost::<()>()), "CUDA dense Q4_K QKV failed: ");
    says(
        dense_q4k_attention_qkv_rope_hd128_decode((), |_| lost::<()>()),
        "CUDA dense Q4_K QKV+RoPE hd128 failed: ",
    );
    says(
        dense_q4k_attention_qkv_rope_hd128_prefill((), |_| lost::<()>()),
        "CUDA dense Q4_K QKV+RoPE hd128 prefill failed: ",
    );
}
