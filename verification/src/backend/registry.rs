//! The set of backends that a runtime knows.

use crate::backend::gpu::CompiledFeatures;
use crate::backend_api::BackendKind;
use vstd::prelude::*;

verus! {

/// Backends in the order in which they were registered, none twice.
#[derive(Debug, Clone, PartialEq, Eq)]
pub struct BackendRegistry {
    backends: Vec<BackendKind>,
}

impl View for BackendRegistry {
    type V = Seq<BackendKind>;

    closed spec fn view(&self) -> Seq<BackendKind> {
        self.backends@
    }
}

/// `backends` with `backend` behind it, unless it is there already.
pub open spec fn registered(backends: Seq<BackendKind>, backend: BackendKind) -> Seq<BackendKind> {
    if backends.contains(backend) {
        backends
    } else {
        backends.push(backend)
    }
}

/// `backends` with `backend` registered where `compiled` holds.
pub open spec fn registered_if(
    backends: Seq<BackendKind>,
    backend: BackendKind,
    compiled: bool,
) -> Seq<BackendKind> {
    if compiled {
        registered(backends, backend)
    } else {
        backends
    }
}

/// The backends of a build, from the CPU to the NPU.
pub open spec fn compiled_backends(features: CompiledFeatures) -> Seq<BackendKind> {
    let none = Seq::<BackendKind>::empty();
    let cpu = registered_if(none, BackendKind::Cpu, features.cpu);
    let cuda = registered_if(cpu, BackendKind::Cuda, features.cuda);
    let vulkan = registered_if(cuda, BackendKind::Vulkan, features.vulkan);
    let opencl = registered_if(vulkan, BackendKind::OpenCl, features.opencl);
    let metal = registered_if(opencl, BackendKind::Metal, features.metal);
    registered_if(metal, BackendKind::MediaTekNpu, features.mediatek)
}

impl Default for BackendRegistry {
    fn default() -> (registry: Self)
        ensures
            registry@ == Seq::<BackendKind>::empty(),
    {
        BackendRegistry { backends: Vec::new() }
    }
}

impl BackendRegistry {
    /// The registry of a build.
    pub fn compiled(features: CompiledFeatures) -> (registry: Self)
        ensures
            registry@ == compiled_backends(features),
            registry@.no_duplicates(),
            forall|backend: BackendKind|
                registry@.contains(backend) <==> features.spec_has(backend),
    {
        let mut registry = BackendRegistry { backends: Vec::new() };
        if features.cpu {
            registry.push(BackendKind::Cpu);
        }
        if features.cuda {
            registry.push(BackendKind::Cuda);
        }
        if features.vulkan {
            registry.push(BackendKind::Vulkan);
        }
        if features.opencl {
            registry.push(BackendKind::OpenCl);
        }
        if features.metal {
            registry.push(BackendKind::Metal);
        }
        if features.mediatek {
            registry.push(BackendKind::MediaTekNpu);
        }
        proof {
            lemma_compiled_backends(features);
        }
        registry
    }

    /// Registers `backend` unless it is registered already.
    pub fn push(&mut self, backend: BackendKind)
        ensures
            final(self)@ == registered(old(self)@, backend),
            old(self)@.no_duplicates() ==> final(self)@.no_duplicates(),
    {
        if !self.contains(backend) {
            self.backends.push(backend);
        }
    }

    pub fn contains(&self, backend: BackendKind) -> (known: bool)
        ensures
            known == self@.contains(backend),
    {
        let mut i: usize = 0;
        while i < self.backends.len()
            invariant
                i <= self.backends@.len(),
                forall|k: int| 0 <= k < i ==> self.backends@[k] != backend,
            decreases self.backends@.len() - i,
        {
            if self.backends[i] == backend {
                assert(self@[i as int] == backend);
                return true;
            }
            i += 1;
        }
        false
    }

    pub fn backends(&self) -> (backends: &[BackendKind])
        ensures
            backends@ == self@,
    {
        self.backends.as_slice()
    }
}

proof fn lemma_registered(backends: Seq<BackendKind>, backend: BackendKind)
    ensures
        backends.no_duplicates() ==> registered(backends, backend).no_duplicates(),
        forall|other: BackendKind|
            registered(backends, backend).contains(other) <==> backends.contains(other) || other
                == backend,
{
    let after = registered(backends, backend);
    assert forall|other: BackendKind| after.contains(other) <==> backends.contains(other) || other
        == backend by {
        if !backends.contains(backend) {
            if backends.contains(other) {
                let k = choose|k: int| 0 <= k < backends.len() && backends[k] == other;
                assert(after[k] == other);
            }
            if other == backend {
                assert(after[backends.len() as int] == other);
            }
        }
    }
}

proof fn lemma_compiled_backends(features: CompiledFeatures)
    ensures
        compiled_backends(features).no_duplicates(),
        forall|backend: BackendKind|
            compiled_backends(features).contains(backend) <==> features.spec_has(backend),
{
    let none = Seq::<BackendKind>::empty();
    let cpu = registered_if(none, BackendKind::Cpu, features.cpu);
    let cuda = registered_if(cpu, BackendKind::Cuda, features.cuda);
    let vulkan = registered_if(cuda, BackendKind::Vulkan, features.vulkan);
    let opencl = registered_if(vulkan, BackendKind::OpenCl, features.opencl);
    let metal = registered_if(opencl, BackendKind::Metal, features.metal);
    lemma_registered(none, BackendKind::Cpu);
    lemma_registered(cpu, BackendKind::Cuda);
    lemma_registered(cuda, BackendKind::Vulkan);
    lemma_registered(vulkan, BackendKind::OpenCl);
    lemma_registered(opencl, BackendKind::Metal);
    lemma_registered(metal, BackendKind::MediaTekNpu);
    assert forall|backend: BackendKind|
        compiled_backends(features).contains(backend) <==> features.spec_has(backend) by {
        match backend {
            BackendKind::Cpu => {},
            BackendKind::Cuda => {},
            BackendKind::Vulkan => {},
            BackendKind::OpenCl => {},
            BackendKind::Metal => {},
            BackendKind::MediaTekNpu => {},
        }
    }
}

/// Registering a backend twice is registering it once, and afterwards it is
/// known along with everything that was known before.
pub proof fn law_registration_is_idempotent(backends: Seq<BackendKind>, backend: BackendKind)
    ensures
        registered(registered(backends, backend), backend) == registered(backends, backend),
        registered(backends, backend).contains(backend),
        forall|other: BackendKind|
            backends.contains(other) ==> registered(backends, backend).contains(other),
{
    lemma_registered(backends, backend);
}

/// What `backend` reports of itself, where the build contains it.
pub fn compiled_capabilities_for<T, D: FnOnce(BackendKind) -> T>(
    features: CompiledFeatures,
    backend: BackendKind,
    report: D,
) -> (capabilities: Option<T>)
    requires
        call_requires(report, (backend,)),
    ensures
        match capabilities {
            Some(reported) => {
                &&& features.spec_has(backend)
                &&& call_ensures(report, (backend,), reported)
            },
            None => !features.spec_has(backend),
        },
{
    if features.has(backend) {
        Some(report(backend))
    } else {
        None
    }
}

/// Whether `a` is named before `b`: the CPU before the accelerators, in their order of
/// preference, and these before the NPU.
pub open spec fn named_before(a: BackendKind, b: BackendKind) -> bool {
    match a {
        BackendKind::Cpu => !(b is Cpu),
        BackendKind::Cuda => !(b is Cpu || b is Cuda),
        BackendKind::Vulkan => b is OpenCl || b is Metal || b is MediaTekNpu,
        BackendKind::OpenCl => b is Metal || b is MediaTekNpu,
        BackendKind::Metal => b is MediaTekNpu,
        BackendKind::MediaTekNpu => false,
    }
}

/// Whether backends stand in the order in which they are named.
pub open spec fn in_order(backends: Seq<BackendKind>) -> bool {
    forall|i: int, j: int|
        0 <= i < j < backends.len() ==> named_before(#[trigger] backends[i], #[trigger] backends[j])
}

proof fn lemma_registered_in_order(backends: Seq<BackendKind>, backend: BackendKind, compiled: bool)
    requires
        in_order(backends),
        forall|i: int|
            0 <= i < backends.len() ==> named_before(#[trigger] backends[i], backend),
    ensures
        in_order(registered_if(backends, backend, compiled)),
        forall|other: BackendKind, i: int|
            #![trigger named_before(backend, other), registered_if(backends, backend, compiled)[i]]
            named_before(backend, other) && 0 <= i < registered_if(
                backends,
                backend,
                compiled,
            ).len() ==> named_before(registered_if(backends, backend, compiled)[i], other),
{
}

/// A build's backends stand in the order in which they are named: a backend is behind
/// another exactly if it is named behind it.
pub proof fn law_a_builds_backends_stand_in_order(features: CompiledFeatures)
    ensures
        in_order(compiled_backends(features)),
        compiled_backends(features).no_duplicates(),
        forall|backend: BackendKind| #[trigger]
            compiled_backends(features).contains(backend) <==> features.spec_has(backend),
{
    let none = Seq::<BackendKind>::empty();
    let cpu = registered_if(none, BackendKind::Cpu, features.cpu);
    let cuda = registered_if(cpu, BackendKind::Cuda, features.cuda);
    let vulkan = registered_if(cuda, BackendKind::Vulkan, features.vulkan);
    let opencl = registered_if(vulkan, BackendKind::OpenCl, features.opencl);
    let metal = registered_if(opencl, BackendKind::Metal, features.metal);
    assert(named_before(BackendKind::Cpu, BackendKind::Cuda));
    assert(named_before(BackendKind::Cuda, BackendKind::Vulkan));
    assert(named_before(BackendKind::Vulkan, BackendKind::OpenCl));
    assert(named_before(BackendKind::OpenCl, BackendKind::Metal));
    assert(named_before(BackendKind::Metal, BackendKind::MediaTekNpu));
    lemma_registered_in_order(none, BackendKind::Cpu, features.cpu);
    lemma_registered_in_order(cpu, BackendKind::Cuda, features.cuda);
    lemma_registered_in_order(cuda, BackendKind::Vulkan, features.vulkan);
    lemma_registered_in_order(vulkan, BackendKind::OpenCl, features.opencl);
    lemma_registered_in_order(opencl, BackendKind::Metal, features.metal);
    lemma_registered_in_order(metal, BackendKind::MediaTekNpu, features.mediatek);
    lemma_compiled_backends(features);
}

/// Registering a backend leaves those before it where they are, and puts a new one behind
/// them.
pub proof fn law_a_new_backend_stands_last(backends: Seq<BackendKind>, backend: BackendKind, i: int)
    ensures
        0 <= i < backends.len() ==> registered(backends, backend)[i] == backends[i],
        backends.contains(backend) ==> registered(backends, backend).len() == backends.len(),
        !backends.contains(backend) ==> registered(backends, backend).len() == backends.len() + 1
            && registered(backends, backend).last() == backend,
{
}

} // verus!
