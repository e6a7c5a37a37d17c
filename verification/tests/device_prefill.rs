use rnb_runtime::backend_api::{
    BackendKind, DeviceTensorDesc, DeviceTensorId, DeviceTensorRole, ScalarType,
};
use rnb_runtime::device_prefill::{
    plan_nemotron_prefill_workspace, DevicePrefillSession, DevicePrefillSessionConfig,
    NemotronPrefillWorkspaceDecision, NemotronPrefillWorkspaceRequest,
};

fn session(seq_len: usize, hidden_dim: usize) -> DevicePrefillSession {
    DevicePrefillSession::new(DevicePrefillSessionConfig {
        backend: BackendKind::Cuda,
        seq_len,
        hidden_dim,
    })
    .unwrap()
}

#[test]
fn session_tracks_current_hidden_and_transfer_bytes() {
    let mut session = session(2, 4);
    let id = DeviceTensorId::new(BackendKind::Cuda, 7);
    let desc = DeviceTensorDesc::new(2, 4, ScalarType::F32, DeviceTensorRole::Hidden);

    session.set_current_hidden(id, desc).unwrap();
    session.record_h2d(desc.byte_len().unwrap());

    assert_eq!(session.current_hidden(), Some(id));
    assert_eq!(session.profile().transfers.h2d_bytes(), 32);
}

#[test]
fn session_records_transfer_breakdown() {
    let mut session = session(2, 4);

    session.record_hidden_d2h(32);
    session.record_router_logits_d2h(16);
    session.record_route_h2d(24);
    session.record_state_d2h(8);

    assert_eq!(session.profile().transfers.d2h_bytes(), 56);
    assert_eq!(session.profile().transfers.h2d_bytes(), 24);
    assert_eq!(session.profile().transfer_breakdown.hidden_d2h_bytes, 32);
    assert_eq!(session.profile().transfer_breakdown.router_logits_d2h_bytes, 16);
    assert_eq!(session.profile().transfer_breakdown.route_h2d_bytes, 24);
    assert_eq!(session.profile().transfer_breakdown.state_d2h_bytes, 8);
}

#[test]
fn session_records_fallback_reason() {
    let mut session = session(1, 4);

    session.record_fallback("unsupported mamba layer".to_string());

    assert_eq!(session.profile().fallback_reasons, vec!["unsupported mamba layer"]);
}

fn workspace_request_with_free_vram(free_vram_bytes: usize) -> NemotronPrefillWorkspaceRequest {
    NemotronPrefillWorkspaceRequest {
        seq_len: 128,
        hidden_dim: 16,
        n_expert: 8,
        expert_used: 2,
        n_ff: 64,
        shared_ff: 32,
        free_vram_bytes,
        total_vram_bytes: 10_000_000,
        reserve_bytes: 0,
    }
}

#[test]
fn nemotron_prefill_workspace_plan_fits_when_usable_covers_required() {
    let request = NemotronPrefillWorkspaceRequest {
        reserve_bytes: 1_000_000,
        ..workspace_request_with_free_vram(10_000_000)
    };

    let plan = plan_nemotron_prefill_workspace(request).unwrap();

    assert_eq!(plan.decision, NemotronPrefillWorkspaceDecision::Fits);
    assert_eq!(plan.seq_len, 128);
    assert_eq!(plan.chunk_len, 128);
    assert_eq!(plan.route_slots, 256);
    assert_eq!(plan.hidden_bytes, 8192);
    assert_eq!(plan.normalized_bytes, 8192);
    assert_eq!(plan.router_logits_bytes, 4096);
    assert_eq!(plan.route_bytes, 3072);
    assert_eq!(plan.moe_intermediate_bytes, 81920);
    assert_eq!(plan.attention_handoff_bytes, 8192);
    assert_eq!(plan.persistent_hidden_bytes, 16384);
    assert_eq!(plan.required_workspace_bytes, 113664);
    assert_eq!(plan.usable_vram_bytes, 9_000_000);
}

#[test]
fn nemotron_prefill_workspace_plan_chunks_when_full_sequence_does_not_fit() {
    let plan = plan_nemotron_prefill_workspace(workspace_request_with_free_vram(50_000)).unwrap();

    assert_eq!(plan.decision, NemotronPrefillWorkspaceDecision::Chunk { chunk_len: 56 });
    assert_eq!(plan.chunk_len, 56);
    assert_eq!(plan.route_slots, 112);
    assert_eq!(plan.required_workspace_bytes, 49728);
}

#[test]
fn nemotron_prefill_workspace_plan_falls_back_when_min_chunk_does_not_fit() {
    let plan = plan_nemotron_prefill_workspace(workspace_request_with_free_vram(20_000)).unwrap();

    assert_eq!(plan.decision, NemotronPrefillWorkspaceDecision::Fallback);
    assert_eq!(plan.chunk_len, 22);
    assert_eq!(plan.required_workspace_bytes, 19536);
}

#[test]
fn nemotron_prefill_workspace_plan_rejects_zero_shape() {
    let err = plan_nemotron_prefill_workspace(NemotronPrefillWorkspaceRequest {
        seq_len: 0,
        ..workspace_request_with_free_vram(10_000_000)
    })
    .unwrap_err();

    assert!(err.contains("seq_len must be > 0"));
}

#[test]
fn an_empty_shape_has_no_session() {
    let refused = DevicePrefillSession::new(DevicePrefillSessionConfig {
        backend: BackendKind::Cuda,
        seq_len: 3,
        hidden_dim: 0,
    });
    assert_eq!(
        refused.unwrap_err(),
        "invalid device prefill shape: seq_len=3 hidden_dim=0"
    );
}

#[test]
fn a_hidden_state_on_another_backend_is_refused() {
    let mut session = session(2, 4);
    let id = DeviceTensorId::new(BackendKind::Vulkan, 7);
    let desc = DeviceTensorDesc::new(2, 4, ScalarType::F32, DeviceTensorRole::Hidden);
    assert!(session.set_current_hidden(id, desc).is_err());
    assert_eq!(session.current_hidden(), None);
}

#[test]
fn a_hidden_state_of_another_shape_is_refused() {
    let mut session = session(2, 4);
    let id = DeviceTensorId::new(BackendKind::Cuda, 7);
    let desc = DeviceTensorDesc::new(4, 2, ScalarType::F32, DeviceTensorRole::Hidden);
    assert!(session.set_current_hidden(id, desc).is_err());
    assert_eq!(session.current_hidden(), None);
}

#[test]
fn transfer_counts_stop_at_the_largest_number() {
    let mut session = session(2, 4);
    session.record_hidden_h2d(usize::MAX);
    session.record_hidden_h2d(5);
    session.record_d2h(3);
    assert_eq!(session.profile().transfers.h2d_bytes(), usize::MAX);
    assert_eq!(session.profile().transfer_breakdown.hidden_h2d_bytes, usize::MAX);
    assert_eq!(session.profile().transfers.d2h_bytes(), 3);
}

#[test]
fn more_memory_never_shortens_the_chunk() {
    let mut last = 0;
    for free in (0..130_000).step_by(1_000) {
        let plan = plan_nemotron_prefill_workspace(workspace_request_with_free_vram(free)).unwrap();
        let planned = match plan.decision {
            NemotronPrefillWorkspaceDecision::Fits => 128,
            NemotronPrefillWorkspaceDecision::Chunk { chunk_len } => chunk_len,
            NemotronPrefillWorkspaceDecision::Fallback => 0,
        };
        assert!(planned >= last);
        if planned > 0 {
            assert!(plan.required_workspace_bytes <= plan.usable_vram_bytes);
        }
        last = planned;
    }
    assert_eq!(last, 128);
}

#[test]
fn a_workspace_that_cannot_be_counted_is_refused() {
    let request = NemotronPrefillWorkspaceRequest {
        hidden_dim: usize::MAX,
        ..workspace_request_with_free_vram(10_000_000)
    };
    assert!(plan_nemotron_prefill_workspace(request).is_err());
}

#[test]
fn the_total_memory_decides_nothing() {
    for free in [20_000, 50_000, 200_000] {
        let request = workspace_request_with_free_vram(free);
        let plan = plan_nemotron_prefill_workspace(request).unwrap();
        let other = NemotronPrefillWorkspaceRequest { total_vram_bytes: 7, ..request };
        let other = plan_nemotron_prefill_workspace(other).unwrap();
        assert_eq!((other.decision, other.chunk_len), (plan.decision, plan.chunk_len));
        assert_eq!(other.total_vram_bytes, 7);
    }
}
