//! The accelerator axis: names, build features and environment selection.

use crate::backend_api::BackendKind;
use crate::text::{lowered, reads_as};
use vstd::prelude::*;

verus! {

/// The accelerator families, in order of preference.
pub const ACCELERATOR_BACKENDS: [GpuBackend; 4] = [
    GpuBackend::Cuda,
    GpuBackend::Vulkan,
    GpuBackend::OpenCl,
    GpuBackend::Metal,
];

/// An accelerator family, or none.
#[derive(Debug, Clone, Copy, PartialEq, Eq, Hash, Structural)]
pub enum GpuBackend {
    Cuda,
    Vulkan,
    OpenCl,
    Metal,
    Off,
}

/// The backends that a build contains.
#[derive(Debug, Clone, Copy, PartialEq, Eq, Structural)]
pub struct CompiledFeatures {
    pub cpu: bool,
    pub cuda: bool,
    pub vulkan: bool,
    pub opencl: bool,
    pub metal: bool,
    pub mediatek: bool,
}

impl CompiledFeatures {
    pub open spec fn spec_has(self, backend: BackendKind) -> bool {
        match backend {
            BackendKind::Cpu => self.cpu,
            BackendKind::Cuda => self.cuda,
            BackendKind::Vulkan => self.vulkan,
            BackendKind::OpenCl => self.opencl,
            BackendKind::Metal => self.metal,
            BackendKind::MediaTekNpu => self.mediatek,
        }
    }

    /// Whether the build contains `backend`.
    pub fn has(self, backend: BackendKind) -> (compiled: bool)
        ensures
            compiled == self.spec_has(backend),
    {
        match backend {
            BackendKind::Cpu => self.cpu,
            BackendKind::Cuda => self.cuda,
            BackendKind::Vulkan => self.vulkan,
            BackendKind::OpenCl => self.opencl,
            BackendKind::Metal => self.metal,
            BackendKind::MediaTekNpu => self.mediatek,
        }
    }
}

/// What a build offers of an accelerator family.
#[derive(Debug, Clone, Copy, PartialEq, Eq)]
pub struct GpuBackendSupport {
    pub backend: GpuBackend,
    pub name: &'static str,
    pub feature_name: Option<&'static str>,
    pub compiled: bool,
    pub runtime_entrypoints: bool,
}

impl GpuBackend {
    pub open spec fn spec_name(self) -> Seq<char> {
        match self {
            GpuBackend::Cuda => "cuda"@,
            GpuBackend::Vulkan => "vulkan"@,
            GpuBackend::OpenCl => "opencl"@,
            GpuBackend::Metal => "metal"@,
            GpuBackend::Off => "none"@,
        }
    }

    pub open spec fn spec_compiled(self, features: CompiledFeatures) -> bool {
        match self {
            GpuBackend::Cuda => features.cuda,
            GpuBackend::Vulkan => features.vulkan,
            GpuBackend::OpenCl => features.opencl,
            GpuBackend::Metal => features.metal,
            GpuBackend::Off => true,
        }
    }

    /// Only CUDA and Vulkan have runtime entry points so far.
    pub open spec fn spec_entrypoints(self, features: CompiledFeatures) -> bool {
        ||| self is Cuda && features.cuda
        ||| self is Vulkan && features.vulkan
    }

    /// The family that a setting selects, in any ASCII case: an accelerator by
    /// name, none by `off`, `0` or `none`.
    pub open spec fn spec_selected(setting: Seq<char>) -> Option<GpuBackend> {
        let word = lowered(setting);
        if word == "cuda"@ {
            Some(GpuBackend::Cuda)
        } else if word == "vulkan"@ {
            Some(GpuBackend::Vulkan)
        } else if word == "opencl"@ {
            Some(GpuBackend::OpenCl)
        } else if word == "metal"@ {
            Some(GpuBackend::Metal)
        } else if word == "off"@ || word == "0"@ || word == "none"@ {
            Some(GpuBackend::Off)
        } else {
            None
        }
    }

    /// The accelerator that a setting selects.
    pub open spec fn spec_accelerator(setting: Option<&str>) -> Option<GpuBackend> {
        match setting {
            Some(text) => match GpuBackend::spec_selected(text@) {
                Some(GpuBackend::Off) => None,
                selected => selected,
            },
            None => None,
        }
    }

    pub fn name(self) -> (name: &'static str)
        ensures
            name@ == self.spec_name(),
    {
        match self {
            GpuBackend::Cuda => "cuda",
            GpuBackend::Vulkan => "vulkan",
            GpuBackend::OpenCl => "opencl",
            GpuBackend::Metal => "metal",
            GpuBackend::Off => "none",
        }
    }

    /// The build feature that brings the family in.
    pub fn feature_name(self) -> (feature: Option<&'static str>)
        ensures
            feature is None <==> self is Off,
            feature matches Some(name) ==> name@ == self.spec_name(),
    {
        match self {
            GpuBackend::Cuda => Some("cuda"),
            GpuBackend::Vulkan => Some("vulkan"),
            GpuBackend::OpenCl => Some("opencl"),
            GpuBackend::Metal => Some("metal"),
            GpuBackend::Off => None,
        }
    }

    pub fn is_accelerator(self) -> (accelerator: bool)
        ensures
            accelerator == !(self is Off),
    {
        !matches!(self, GpuBackend::Off)
    }

    pub fn compiled(self, features: CompiledFeatures) -> (compiled: bool)
        ensures
            compiled == self.spec_compiled(features),
    {
        match self {
            GpuBackend::Cuda => features.cuda,
            GpuBackend::Vulkan => features.vulkan,
            GpuBackend::OpenCl => features.opencl,
            GpuBackend::Metal => features.metal,
            GpuBackend::Off => true,
        }
    }

    pub fn runtime_entrypoints(self, features: CompiledFeatures) -> (available: bool)
        ensures
            available == self.spec_entrypoints(features),
    {
        match self {
            GpuBackend::Cuda => features.cuda,
            GpuBackend::Vulkan => features.vulkan,
            GpuBackend::OpenCl => false,
            GpuBackend::Metal => false,
            GpuBackend::Off => false,
        }
    }

    pub fn support(self, features: CompiledFeatures) -> (support: GpuBackendSupport)
        ensures
            support.backend == self,
            support.name@ == self.spec_name(),
            support.feature_name is None <==> self is Off,
            support.feature_name matches Some(name) ==> name@ == self.spec_name(),
            support.compiled == self.spec_compiled(features),
            support.runtime_entrypoints == self.spec_entrypoints(features),
    {
        GpuBackendSupport {
            backend: self,
            name: self.name(),
            feature_name: self.feature_name(),
            compiled: self.compiled(features),
            runtime_entrypoints: self.runtime_entrypoints(features),
        }
    }

    /// The family that the value of an environment variable selects.
    pub fn from_env_var(value: Option<&str>) -> (selected: Option<Self>)
        ensures
            selected == (match value {
                Some(text) => GpuBackend::spec_selected(text@),
                None => None,
            }),
    {
        let text = match value {
            Some(text) => text,
            None => return None,
        };
        if reads_as(text, "cuda") {
            Some(GpuBackend::Cuda)
        } else if reads_as(text, "vulkan") {
            Some(GpuBackend::Vulkan)
        } else if reads_as(text, "opencl") {
            Some(GpuBackend::OpenCl)
        } else if reads_as(text, "metal") {
            Some(GpuBackend::Metal)
        } else if reads_as(text, "off") || reads_as(text, "0") || reads_as(text, "none") {
            Some(GpuBackend::Off)
        } else {
            None
        }
    }

    /// The accelerator that the value of `RNB_MOE_JIT_BACKEND` selects.
    pub fn from_moe_jit_env(value: Option<&str>) -> (selected: Option<Self>)
        ensures
            selected == GpuBackend::spec_accelerator(value),
    {
        match GpuBackend::from_env_var(value) {
            Some(GpuBackend::Off) | None => None,
            Some(backend) => Some(backend),
        }
    }

    /// The accelerator that the environment selects.
    pub fn from_env(value: Option<&str>) -> (selected: Option<Self>)
        ensures
            selected == GpuBackend::spec_accelerator(value),
    {
        GpuBackend::from_moe_jit_env(value)
    }

    pub open spec fn spec_backend_kind(self) -> Option<BackendKind> {
        match self {
            GpuBackend::Cuda => Some(BackendKind::Cuda),
            GpuBackend::Vulkan => Some(BackendKind::Vulkan),
            GpuBackend::OpenCl => Some(BackendKind::OpenCl),
            GpuBackend::Metal => Some(BackendKind::Metal),
            GpuBackend::Off => None,
        }
    }

    pub fn backend_kind(self) -> (kind: Option<BackendKind>)
        ensures
            kind == self.spec_backend_kind(),
    {
        match self {
            GpuBackend::Cuda => Some(BackendKind::Cuda),
            GpuBackend::Vulkan => Some(BackendKind::Vulkan),
            GpuBackend::OpenCl => Some(BackendKind::OpenCl),
            GpuBackend::Metal => Some(BackendKind::Metal),
            GpuBackend::Off => None,
        }
    }
}

/// The accelerator families that a build contains, in order of preference.
pub fn compiled_accelerators(features: CompiledFeatures) -> (accelerators: Vec<GpuBackend>)
    ensures
        accelerators@ == ACCELERATOR_BACKENDS@.filter(
            |backend: GpuBackend| backend.spec_compiled(features),
        ),
{
    let all: [GpuBackend; 4] = ACCELERATOR_BACKENDS;
    let ghost wanted = |backend: GpuBackend| backend.spec_compiled(features);
    let mut accelerators: Vec<GpuBackend> = Vec::new();
    let mut i: usize = 0;
    proof {
        reveal_with_fuel(Seq::filter, 2);
        assert(all@.take(0) =~= Seq::<GpuBackend>::empty());
    }
    while i < 4
        invariant
            i <= 4,
            all@ == ACCELERATOR_BACKENDS@,
            wanted == (|backend: GpuBackend| backend.spec_compiled(features)),
            accelerators@ == all@.take(i as int).filter(wanted),
        decreases 4 - i,
    {
        proof {
            reveal_with_fuel(Seq::filter, 2);
            assert(all@.take(i + 1).drop_last() =~= all@.take(i as int));
            assert(all@.take(i + 1).last() == all@[i as int]);
        }
        if all[i].compiled(features) {
            accelerators.push(all[i]);
        }
        i += 1;
    }
    assert(all@.take(4) =~= all@);
    accelerators
}

/// A backend kind stands for at most one accelerator family, and that family is
/// compiled in exactly when its kind is.
pub proof fn law_families_and_kinds_agree(
    a: GpuBackend,
    b: GpuBackend,
    features: CompiledFeatures,
)
    ensures
        a.spec_backend_kind() is Some && a.spec_backend_kind() == b.spec_backend_kind() ==> a == b,
        a.spec_backend_kind() matches Some(kind) ==> (a.spec_compiled(features)
            <==> features.spec_has(kind)),
{
}

/// A family with runtime entry points is compiled in.
pub proof fn law_entrypoints_need_a_compiled_family(a: GpuBackend, features: CompiledFeatures)
    ensures
        a.spec_entrypoints(features) ==> a.spec_compiled(features) && !(a is Off),
{
}

/// A family is selected by its own name and by no other word, and selecting none takes one
/// of three words; the case does not matter.
pub proof fn law_a_family_is_selected_by_its_name(setting: Seq<char>)
    ensures
        GpuBackend::spec_selected(setting) == Some(GpuBackend::Cuda) <==> lowered(setting)
            == "cuda"@,
        GpuBackend::spec_selected(setting) == Some(GpuBackend::Vulkan) <==> lowered(setting)
            == "vulkan"@,
        GpuBackend::spec_selected(setting) == Some(GpuBackend::OpenCl) <==> lowered(setting)
            == "opencl"@,
        GpuBackend::spec_selected(setting) == Some(GpuBackend::Metal) <==> lowered(setting)
            == "metal"@,
        GpuBackend::spec_selected(setting) == Some(GpuBackend::Off) <==> lowered(setting) == "off"@
            || lowered(setting) == "0"@ || lowered(setting) == "none"@,
{
    reveal_strlit("cuda");
    reveal_strlit("vulkan");
    reveal_strlit("opencl");
    reveal_strlit("metal");
    reveal_strlit("off");
    reveal_strlit("0");
    reveal_strlit("none");
    let word = lowered(setting);
    assert("cuda"@.len() == 4 && "vulkan"@.len() == 6 && "opencl"@.len() == 6);
    assert("metal"@.len() == 5 && "off"@.len() == 3 && "0"@.len() == 1 && "none"@.len() == 4);
    assert(word == "cuda"@ ==> word[0] == 'c');
    assert(word == "none"@ ==> word[0] == 'n');
    assert(word == "vulkan"@ ==> word[0] == 'v');
    assert(word == "opencl"@ ==> word[0] == 'o');
}

/// The name of a family selects that family, and so does the name of none.
pub proof fn law_names_select_their_families(a: GpuBackend, setting: Seq<char>)
    requires
        lowered(setting) == a.spec_name(),
    ensures
        GpuBackend::spec_selected(setting) == Some(a),
{
    law_a_family_is_selected_by_its_name(setting);
}

/// The names of the families.
pub proof fn law_names_of_the_families()
    ensures
        GpuBackend::Cuda.spec_name() == "cuda"@,
        GpuBackend::Vulkan.spec_name() == "vulkan"@,
        GpuBackend::OpenCl.spec_name() == "opencl"@,
        GpuBackend::Metal.spec_name() == "metal"@,
        GpuBackend::Off.spec_name() == "none"@,
{
}

/// An accelerator is what a setting selects, where it selects one: no setting, an unknown
/// word and a word for none select none.
pub proof fn law_which_accelerator_is_selected(text: &str, a: GpuBackend)
    ensures
        GpuBackend::spec_accelerator(None) is None,
        GpuBackend::spec_accelerator(Some(text)) == Some(a) <==> GpuBackend::spec_selected(text@)
            == Some(a) && !(a is Off),
        GpuBackend::spec_accelerator(Some(text)) is None <==> GpuBackend::spec_selected(text@) is None
            || GpuBackend::spec_selected(text@) == Some(GpuBackend::Off),
{
}

/// Each family stands for the backend of its name, is compiled in by its own feature, and
/// only CUDA and Vulkan have entry points; none stands for no backend and is always there.
pub proof fn law_each_family_has_its_own_feature(features: CompiledFeatures)
    ensures
        GpuBackend::Cuda.spec_backend_kind() == Some(BackendKind::Cuda),
        GpuBackend::Vulkan.spec_backend_kind() == Some(BackendKind::Vulkan),
        GpuBackend::OpenCl.spec_backend_kind() == Some(BackendKind::OpenCl),
        GpuBackend::Metal.spec_backend_kind() == Some(BackendKind::Metal),
        GpuBackend::Off.spec_backend_kind() is None,
        GpuBackend::Cuda.spec_compiled(features) == features.cuda,
        GpuBackend::Vulkan.spec_compiled(features) == features.vulkan,
        GpuBackend::OpenCl.spec_compiled(features) == features.opencl,
        GpuBackend::Metal.spec_compiled(features) == features.metal,
        GpuBackend::Off.spec_compiled(features),
        GpuBackend::Cuda.spec_entrypoints(features) == features.cuda,
        GpuBackend::Vulkan.spec_entrypoints(features) == features.vulkan,
        !GpuBackend::OpenCl.spec_entrypoints(features),
        !GpuBackend::Metal.spec_entrypoints(features),
        !GpuBackend::Off.spec_entrypoints(features),
        features.spec_has(BackendKind::Cpu) == features.cpu,
        features.spec_has(BackendKind::Cuda) == features.cuda,
        features.spec_has(BackendKind::Vulkan) == features.vulkan,
        features.spec_has(BackendKind::OpenCl) == features.opencl,
        features.spec_has(BackendKind::Metal) == features.metal,
        features.spec_has(BackendKind::MediaTekNpu) == features.mediatek,
{
}

/// Accelerators are preferred in this order.
pub proof fn law_accelerators_in_order_of_preference()
    ensures
        ACCELERATOR_BACKENDS@[0] is Cuda,
        ACCELERATOR_BACKENDS@[1] is Vulkan,
        ACCELERATOR_BACKENDS@[2] is OpenCl,
        ACCELERATOR_BACKENDS@[3] is Metal,
        ACCELERATOR_BACKENDS@.len() == 4,
{
}

} // verus!
