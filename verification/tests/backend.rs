use rnb_runtime::backend::execution::execute_backend_request;
use rnb_runtime::backend::gpu::{
    compiled_accelerators, CompiledFeatures, GpuBackend, ACCELERATOR_BACKENDS,
};
use rnb_runtime::backend::moe_jit::{default_moe_jit_loader, moe_jit_report, MoeJitStats};
use rnb_runtime::backend::registry::{compiled_capabilities_for, BackendRegistry};
use rnb_runtime::backend_api::{
    BackendError, BackendErrorKind, BackendKind, BackendOp, BackendRequest,
};
use std::sync::Arc;

const NONE: CompiledFeatures = CompiledFeatures {
    cpu: false,
    cuda: false,
    vulkan: false,
    opencl: false,
    metal: false,
    mediatek: false,
};

const ALL: CompiledFeatures = CompiledFeatures {
    cpu: true,
    cuda: true,
    vulkan: true,
    opencl: true,
    metal: true,
    mediatek: true,
};

const KINDS: [BackendKind; 6] = [
    BackendKind::Cpu,
    BackendKind::Cuda,
    BackendKind::Vulkan,
    BackendKind::OpenCl,
    BackendKind::Metal,
    BackendKind::MediaTekNpu,
];

const MATMUL: BackendRequest<()> = BackendRequest { op: BackendOp::MatMul, operands: () };

fn answer_with_op(
    _backend: BackendKind,
    request: BackendRequest<()>,
) -> Result<BackendOp, BackendError> {
    Ok(request.op)
}

fn refuse(backend: BackendKind, request: BackendRequest<()>) -> Result<BackendOp, BackendError> {
    Err(BackendError {
        kind: BackendErrorKind::UnsupportedOp,
        backend,
        op: Some(request.op),
        message: "no kernel".to_string(),
    })
}

#[test]
fn backend_registry_contains_compiled_backend_kinds() {
    let registry = BackendRegistry::compiled(ALL);
    assert!(registry.contains(BackendKind::Cpu));
    assert!(registry.contains(BackendKind::Cuda));
    assert!(registry.contains(BackendKind::Vulkan));
    assert!(registry.contains(BackendKind::OpenCl));
    assert!(registry.contains(BackendKind::Metal));
    assert!(registry.contains(BackendKind::MediaTekNpu));

    let registry = BackendRegistry::compiled(CompiledFeatures { mediatek: false, ..ALL });
    assert!(!registry.contains(BackendKind::MediaTekNpu));

    let registry = BackendRegistry::compiled(NONE);
    assert!(registry.backends().is_empty());
}

#[test]
fn gpu_backend_support_reports_compile_time_feature() {
    for cuda in [false, true] {
        let support = GpuBackend::Cuda.support(CompiledFeatures { cuda, ..NONE });

        assert_eq!(support.backend, GpuBackend::Cuda);
        assert_eq!(support.name, "cuda");
        assert_eq!(support.feature_name, Some("cuda"));
        assert_eq!(support.compiled, cuda);
        assert_eq!(support.runtime_entrypoints, cuda);
    }
}

#[test]
fn opencl_is_capability_only_until_runtime_exists() {
    for opencl in [false, true] {
        let support = GpuBackend::OpenCl.support(CompiledFeatures { opencl, ..NONE });

        assert_eq!(support.backend, GpuBackend::OpenCl);
        assert_eq!(support.name, "opencl");
        assert_eq!(support.feature_name, Some("opencl"));
        assert_eq!(support.compiled, opencl);
        assert!(!support.runtime_entrypoints);
    }
}

#[test]
fn metal_reports_compile_time_feature_and_no_runtime_entrypoint_yet() {
    for metal in [false, true] {
        let support = GpuBackend::Metal.support(CompiledFeatures { metal, ..NONE });
        assert_eq!(support.name, "metal");
        assert_eq!(support.feature_name, Some("metal"));
        assert_eq!(support.compiled, metal);
        assert!(!support.runtime_entrypoints);
        assert_eq!(GpuBackend::Metal.backend_kind(), Some(BackendKind::Metal));
    }
}

#[test]
fn gpu_backend_env_parses_backend_axis_only() {
    assert_eq!(GpuBackend::from_env_var(Some("vulkan")), Some(GpuBackend::Vulkan));
    assert_eq!(GpuBackend::from_env_var(Some("mobile")), None);
    assert_eq!(GpuBackend::from_env_var(None), None);
}

#[test]
fn runtime_executes_typed_request_through_compiled_backend_adapter() {
    let result = execute_backend_request(
        CompiledFeatures { cpu: true, ..NONE },
        BackendKind::Cpu,
        MATMUL,
        answer_with_op,
    );
    assert_eq!(result.expect("cpu backend should execute matmul"), BackendOp::MatMul);

    let result = execute_backend_request(
        NONE,
        BackendKind::Cpu,
        MATMUL,
        answer_with_op,
    );
    assert!(matches!(
        result,
        Err(err)
            if err.kind == BackendErrorKind::UnsupportedOp
                && err.backend == BackendKind::Cpu
                && err.op == Some(BackendOp::MatMul)
    ));
}

#[test]
fn mediatek_npu_request_reports_backend_not_compiled() {
    let result = execute_backend_request(
        NONE,
        BackendKind::MediaTekNpu,
        MATMUL,
        answer_with_op,
    );

    assert!(matches!(
        result,
        Err(err)
            if err.kind == BackendErrorKind::UnsupportedOp
                && err.backend == BackendKind::MediaTekNpu
                && err.op == Some(BackendOp::MatMul)
                && err.message == "MediaTekNpu backend is not compiled into this runtime"
    ));
}

#[test]
fn mediatek_feature_registers_backend_without_fake_capabilities() {
    let features = CompiledFeatures { mediatek: true, ..NONE };
    let registry = BackendRegistry::compiled(features);
    assert!(registry.contains(BackendKind::MediaTekNpu));

    let matmul_supported = false;
    let capabilities =
        compiled_capabilities_for(features, BackendKind::MediaTekNpu, |kind| (kind, matmul_supported))
            .expect("mediatek feature should register a backend capability contract");
    assert_eq!(capabilities.0, BackendKind::MediaTekNpu);
    assert!(!capabilities.1);

    assert_eq!(compiled_capabilities_for(features, BackendKind::Cpu, |kind| kind), None);
}

#[test]
fn mediatek_feature_dispatches_to_backend_but_stays_unsupported() {
    let result = execute_backend_request(
        CompiledFeatures { mediatek: true, ..NONE },
        BackendKind::MediaTekNpu,
        MATMUL,
        refuse,
    );

    assert!(matches!(
        result,
        Err(err)
            if err.kind == BackendErrorKind::UnsupportedOp
                && err.backend == BackendKind::MediaTekNpu
                && err.op == Some(BackendOp::MatMul)
                && err.message == "no kernel"
    ));
}

#[test]
fn each_backend_is_asked_itself_and_named_when_it_is_missing() {
    for kind in KINDS {
        let request = BackendRequest { op: BackendOp::Moe, operands: 7u32 };
        let executed = execute_backend_request(ALL, kind, request, |backend, request| {
            Ok((backend, request))
        });
        assert_eq!(executed.unwrap(), (kind, request));

        let missing =
            execute_backend_request(NONE, kind, request, |_, request| Ok(request)).unwrap_err();
        assert_eq!(missing.backend, kind);
        assert_eq!(missing.op, Some(BackendOp::Moe));
        assert_eq!(
            missing.message,
            format!("{kind:?} backend is not compiled into this runtime")
        );
    }
}

#[test]
fn settings_select_families_in_any_case() {
    assert_eq!(GpuBackend::from_env_var(Some("CUDA")), Some(GpuBackend::Cuda));
    assert_eq!(GpuBackend::from_env_var(Some("OpenCL")), Some(GpuBackend::OpenCl));
    assert_eq!(GpuBackend::from_env_var(Some("metal")), Some(GpuBackend::Metal));
    for off in ["off", "0", "None"] {
        assert_eq!(GpuBackend::from_env_var(Some(off)), Some(GpuBackend::Off));
        assert_eq!(GpuBackend::from_moe_jit_env(Some(off)), None);
        assert_eq!(GpuBackend::from_env(Some(off)), None);
    }
    assert_eq!(GpuBackend::from_moe_jit_env(Some("Vulkan")), Some(GpuBackend::Vulkan));
    assert_eq!(GpuBackend::from_env(None), None);
    assert_eq!(GpuBackend::from_env_var(Some(" cuda")), None);
}

#[test]
fn no_accelerator_is_always_compiled_and_has_no_feature() {
    let support = GpuBackend::Off.support(NONE);
    assert_eq!(support.name, "none");
    assert_eq!(support.feature_name, None);
    assert!(support.compiled);
    assert!(!support.runtime_entrypoints);
    assert!(!GpuBackend::Off.is_accelerator());
    assert_eq!(GpuBackend::Off.backend_kind(), None);
}

#[test]
fn compiled_accelerators_keep_the_order_of_preference() {
    assert_eq!(compiled_accelerators(ALL), ACCELERATOR_BACKENDS.to_vec());
    assert!(compiled_accelerators(NONE).is_empty());
    assert_eq!(
        compiled_accelerators(CompiledFeatures { vulkan: true, metal: true, ..NONE }),
        vec![GpuBackend::Vulkan, GpuBackend::Metal]
    );
}

#[test]
fn families_agree_with_their_kinds() {
    for backend in ACCELERATOR_BACKENDS {
        let kind = backend.backend_kind().unwrap();
        for features in [NONE, ALL] {
            assert_eq!(backend.compiled(features), features.has(kind));
            if backend.runtime_entrypoints(features) {
                assert!(backend.compiled(features));
            }
        }
    }
}

#[test]
fn registering_a_backend_again_changes_nothing() {
    let mut registry = BackendRegistry::default();
    registry.push(BackendKind::Metal);
    registry.push(BackendKind::Cpu);
    registry.push(BackendKind::Metal);
    assert_eq!(registry.backends(), [BackendKind::Metal, BackendKind::Cpu].as_slice());
}

#[test]
fn the_default_loader_is_made_once_and_only_for_cuda() {
    let cuda = CompiledFeatures { cuda: true, ..NONE };
    let mut shared: Option<Arc<u32>> = None;
    assert_eq!(default_moe_jit_loader(cuda, &mut shared, None, || 1), None);
    assert_eq!(default_moe_jit_loader(cuda, &mut shared, Some(BackendKind::Vulkan), || 1), None);
    assert_eq!(default_moe_jit_loader(NONE, &mut shared, Some(BackendKind::Cuda), || 1), None);
    assert_eq!(shared, None);
    assert_eq!(
        default_moe_jit_loader(cuda, &mut shared, Some(BackendKind::Cuda), || 1),
        Some(Arc::new(1))
    );
    assert_eq!(
        default_moe_jit_loader(cuda, &mut shared, Some(BackendKind::Cuda), || 2),
        Some(Arc::new(1))
    );
}

#[test]
fn the_loader_report_names_every_count() {
    let stats = MoeJitStats {
        requests: 1,
        requested_experts: 2,
        requested_bytes: 3,
        copied_bytes: 4,
        resident_bytes: 5,
        cuda_failures: 6,
        cache_lookups: 8,
        cache_hits: 7,
        cache_misses: 1,
        cache_evictions: 9,
        resident_upload_bytes: 10,
        temp_upload_bytes: 18446744073709551615,
    };
    let percent =
        |hits: u64, lookups: u64| format!("{:.1}", hits as f64 * 100.0 / lookups as f64);
    let report = moe_jit_report(&Some(Arc::new(stats)), |loader| *loader, percent).unwrap();
    assert_eq!(
        report,
        "moe_jit_cuda requests=1 experts=2 requested_bytes=3 copied_bytes=4 resident_bytes=5 \
         failures=6 cache_lookups=8 cache_hits=7 cache_misses=1 cache_hit_rate=87.5% \
         cache_evictions=9 resident_upload_bytes=10 temp_upload_bytes=18446744073709551615"
    );

    let idle = MoeJitStats { cache_lookups: 0, cache_hits: 0, ..stats };
    let report = moe_jit_report(&Some(Arc::new(idle)), |loader| *loader, percent).unwrap();
    assert!(report.contains(" cache_hit_rate=0.0% "));

    let none: Option<Arc<MoeJitStats>> = None;
    assert_eq!(moe_jit_report(&none, |loader| *loader, percent), None);
}
