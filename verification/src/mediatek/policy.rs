//! When a Gemma prefill layer may run on the NPU.

use crate::policy::copy_range;
use crate::text::{
    chars_of, parse_usize, parsed_usize, pieces, slices_of, split_ranges, trim_range, trimmed,
};
use vstd::prelude::*;

verus! {

const DEFAULT_PREFILL_CACHE_MAX_LAYERS: usize = 2;

const HARD_MAX_PREFILL_CACHE_LAYERS: usize = 10;

/// The shortest prompt that is worth a trip to the NPU.
const MIN_PREFILL_SEQ_LEN: usize = 128;

#[derive(Debug, Clone, Copy, PartialEq, Eq, Structural)]
pub enum MediaTekPrefillRequestMode {
    UserPath,
    ExplicitPrewarm,
    BenchWarmup,
}

#[derive(Debug, Clone, Copy, PartialEq, Eq, Structural)]
pub enum MediaTekPrefillCacheState {
    InProcessThreadLocalHot,
    DiskAotPresent,
    ColdMissing,
}

#[derive(Debug, Clone, Copy, PartialEq, Eq, Structural)]
pub enum MediaTekPrefillFallbackReason {
    CacheMissUserPath,
    SyncCompileDisabled,
    LayerNotSelected,
    ResidentCapExceeded,
    PromptTooShort,
    AllLayersRequireCompiledCache,
}

impl MediaTekPrefillFallbackReason {
    pub open spec fn spec_trace_reason(self) -> Seq<char> {
        match self {
            MediaTekPrefillFallbackReason::CacheMissUserPath => "prefill_cache_miss_user_path"@,
            MediaTekPrefillFallbackReason::SyncCompileDisabled => "prefill_sync_compile_disabled"@,
            MediaTekPrefillFallbackReason::LayerNotSelected => "prefill_layer_not_selected"@,
            MediaTekPrefillFallbackReason::ResidentCapExceeded => "prefill_resident_cap_exceeded"@,
            MediaTekPrefillFallbackReason::PromptTooShort => "prefill_prompt_too_short"@,
            MediaTekPrefillFallbackReason::AllLayersRequireCompiledCache =>
                "all_layers_require_compiled_cache"@,
        }
    }

    /// The word by which traces name the reason.
    pub fn trace_reason(self) -> (word: &'static str)
        ensures
            word@ == self.spec_trace_reason(),
    {
        match self {
            MediaTekPrefillFallbackReason::CacheMissUserPath => "prefill_cache_miss_user_path",
            MediaTekPrefillFallbackReason::SyncCompileDisabled => "prefill_sync_compile_disabled",
            MediaTekPrefillFallbackReason::LayerNotSelected => "prefill_layer_not_selected",
            MediaTekPrefillFallbackReason::ResidentCapExceeded => "prefill_resident_cap_exceeded",
            MediaTekPrefillFallbackReason::PromptTooShort => "prefill_prompt_too_short",
            MediaTekPrefillFallbackReason::AllLayersRequireCompiledCache =>
                "all_layers_require_compiled_cache",
        }
    }
}

#[derive(Debug, Clone, Copy, PartialEq, Eq, Structural)]
pub enum MediaTekPrefillNpuDecision {
    UseWarmNpu { max_cache_entries: usize },
    AllowPrewarmCompile { max_cache_entries: usize },
    FallbackCpu { reason: MediaTekPrefillFallbackReason },
}

#[derive(Debug, Clone, Copy, PartialEq, Eq, Structural)]
pub struct MediaTekPrefillPolicyInput {
    pub layer_idx: usize,
    pub seq_len: usize,
    pub cache_state: MediaTekPrefillCacheState,
    pub request_mode: MediaTekPrefillRequestMode,
    pub sync_compile_enabled: bool,
}

/// The values of the environment variables that steer the policy.
#[derive(Debug, Clone, Copy)]
pub struct MediaTekPrefillEnv<'a> {
    /// `RNB_MEDIATEK_GEMMA_FFN_LAYERS`: a list of layers.
    pub layers: Option<&'a str>,
    /// `RNB_MEDIATEK_GEMMA_FFN_LAYER`: one layer, or `all`.
    pub layer: Option<&'a str>,
    /// `RNB_MEDIATEK_GEMMA_FFN_CACHE_MAX_LAYERS`: how many layers stay resident.
    pub cache_max_layers: Option<&'a str>,
}

/// The number of layers that may stay resident: from 1 to 10 where the setting
/// says so, else 2.
pub open spec fn cache_max_layers(value: Option<&str>) -> int {
    match value {
        Some(text) => match parsed_usize(trimmed(text@)) {
            Some(number) if 1 <= number <= 10 => number as int,
            _ => 2,
        },
        None => 2,
    }
}

/// Reads the resident cap; the flag says that the setting was not usable.
pub fn prefill_cache_max_layers_from_env_value(value: Option<&str>) -> (cap: (usize, bool))
    ensures
        cap.0 == cache_max_layers(value),
        1 <= cap.0 <= 10,
        cap.1 <==> (value matches Some(text) && !(parsed_usize(trimmed(text@)) matches Some(number)
            && 1 <= number <= 10)),
{
    let text = match value {
        Some(text) => text,
        None => return (DEFAULT_PREFILL_CACHE_MAX_LAYERS, false),
    };
    match parse_trimmed(text) {
        Some(number) => if 1 <= number && number <= HARD_MAX_PREFILL_CACHE_LAYERS {
            (number, false)
        } else {
            (DEFAULT_PREFILL_CACHE_MAX_LAYERS, true)
        },
        None => (DEFAULT_PREFILL_CACHE_MAX_LAYERS, true),
    }
}

fn parse_trimmed(text: &str) -> (number: Option<usize>)
    ensures
        number == parsed_usize(trimmed(text@)),
{
    let chars = chars_of(text);
    let (from, to) = trim_range(&chars, 0, chars.len());
    assert(chars@.subrange(0, chars@.len() as int) =~= text@);
    parse_usize(&chars, from, to)
}

/// The layers that a comma-separated list names: `None` where an entry is no
/// number or stands there twice.
pub open spec fn layer_list(entries: Seq<Seq<char>>) -> Option<Seq<usize>>
    decreases entries.len(),
{
    if entries.len() == 0 {
        Some(Seq::empty())
    } else {
        match (layer_list(entries.drop_last()), parsed_usize(trimmed(entries.last()))) {
            (Some(layers), Some(layer)) if !layers.contains(layer) => Some(layers.push(layer)),
            _ => None,
        }
    }
}

proof fn lemma_layer_list_prefix(entries: Seq<Seq<char>>, i: int)
    requires
        0 <= i <= entries.len(),
        layer_list(entries.take(i)) is None,
    ensures
        layer_list(entries) is None,
    decreases entries.len(),
{
    if i < entries.len() {
        assert(entries.drop_last().take(i) =~= entries.take(i));
        lemma_layer_list_prefix(entries.drop_last(), i);
    } else {
        assert(entries.take(i) =~= entries);
    }
}

/// An empty entry spells no number.
proof fn lemma_empty_is_no_number(s: Seq<char>)
    requires
        s.len() == 0,
    ensures
        parsed_usize(s) is None,
{
}

fn holds_layer(layers: &Vec<usize>, layer: usize) -> (found: bool)
    ensures
        found == layers@.contains(layer),
{
    let mut i: usize = 0;
    while i < layers.len()
        invariant
            i <= layers@.len(),
            forall|k: int| 0 <= k < i ==> layers@[k] != layer,
        decreases layers@.len() - i,
    {
        if layers[i] == layer {
            return true;
        }
        i += 1;
    }
    false
}

/// Reads a list of layers.
pub fn parse_prefill_layer_list(value: &str) -> (layers: Option<Vec<usize>>)
    ensures
        match layers {
            Some(layers) => layer_list(pieces(value@, ',')) == Some(layers@),
            None => layer_list(pieces(value@, ',')) is None,
        },
{
    let chars = chars_of(value);
    let ranges = split_ranges(&chars, ',');
    let ghost entries = pieces(value@, ',');
    let mut layers: Vec<usize> = Vec::new();
    let mut k: usize = 0;
    assert(entries.take(0) =~= Seq::<Seq<char>>::empty());
    while k < ranges.len()
        invariant
            chars@ == value@,
            entries == pieces(value@, ','),
            entries == slices_of(chars@, ranges@),
            k <= ranges@.len(),
            forall|j: int|
                0 <= j < ranges@.len() ==> (#[trigger] ranges@[j]).0 <= ranges@[j].1
                    && ranges@[j].1 <= chars@.len(),
            layer_list(entries.take(k as int)) == Some(layers@),
        decreases ranges@.len() - k,
    {
        let (from, to) = ranges[k];
        let (from, to) = trim_range(&chars, from, to);
        proof {
            assert(entries.take(k + 1).drop_last() =~= entries.take(k as int));
            assert(entries.take(k + 1).last() == entries[k as int]);
            if layer_list(entries.take(k + 1)) is None {
                lemma_layer_list_prefix(entries, k + 1);
            }
        }
        if from == to {
            proof {
                lemma_empty_is_no_number(trimmed(entries[k as int]));
            }
            return None;
        }
        let layer = match parse_usize(&chars, from, to) {
            Some(layer) => layer,
            None => return None,
        };
        if holds_layer(&layers, layer) {
            return None;
        }
        layers.push(layer);
        k += 1;
    }
    assert(entries.take(k as int) =~= entries);
    Some(layers)
}

/// Which layers a list selects, where one is set: every one it names, if they do
/// not exceed the cap.
pub open spec fn list_selection(list: Seq<char>, layer: usize, cap: int) -> Result<
    bool,
    MediaTekPrefillFallbackReason,
> {
    match layer_list(pieces(list, ',')) {
        None => Err(MediaTekPrefillFallbackReason::LayerNotSelected),
        Some(layers) => if layers.len() > cap {
            Err(MediaTekPrefillFallbackReason::ResidentCapExceeded)
        } else {
            Ok(layers.contains(layer))
        },
    }
}

/// Whether the environment selects a layer: by the list where it is set, else by
/// the single setting, else the first layer only.
pub open spec fn layer_selection(env: MediaTekPrefillEnv<'_>, layer: usize, cap: int) -> Result<
    bool,
    MediaTekPrefillFallbackReason,
> {
    match env.layers {
        Some(list) => list_selection(list@, layer, cap),
        None => match env.layer {
            Some(text) => if trimmed(text@) == "all"@ {
                Err(MediaTekPrefillFallbackReason::AllLayersRequireCompiledCache)
            } else {
                Ok(parsed_usize(trimmed(text@)) == Some(layer))
            },
            None => Ok(layer == 0),
        },
    }
}

fn trims_to_all(text: &str) -> (all: bool)
    ensures
        all == (trimmed(text@) == "all"@),
{
    let chars = chars_of(text);
    let (from, to) = trim_range(&chars, 0, chars.len());
    assert(chars@.subrange(0, chars@.len() as int) =~= text@);
    let kept = copy_range(&chars, from, to);
    proof {
        reveal_strlit("all");
    }
    if kept.len() == 3 && kept[0] == 'a' && kept[1] == 'l' && kept[2] == 'l' {
        assert(kept@ =~= "all"@);
        true
    } else {
        false
    }
}

/// Whether the environment selects a layer for the NPU.
pub fn prefill_layer_selection(
    env: MediaTekPrefillEnv<'_>,
    layer_idx: usize,
    max_cache_entries: usize,
) -> (selected: Result<bool, MediaTekPrefillFallbackReason>)
    ensures
        selected == layer_selection(env, layer_idx, max_cache_entries as int),
{
    if let Some(list) = env.layers {
        let layers = match parse_prefill_layer_list(list) {
            Some(layers) => layers,
            None => return Err(MediaTekPrefillFallbackReason::LayerNotSelected),
        };
        if layers.len() > max_cache_entries {
            return Err(MediaTekPrefillFallbackReason::ResidentCapExceeded);
        }
        return Ok(holds_layer(&layers, layer_idx));
    }
    match env.layer {
        Some(text) => {
            if trims_to_all(text) {
                return Err(MediaTekPrefillFallbackReason::AllLayersRequireCompiledCache);
            }
            match parse_trimmed(text) {
                Some(layer) => Ok(layer == layer_idx),
                None => Ok(false),
            }
        },
        None => Ok(layer_idx == 0),
    }
}

pub open spec fn spec_cache_state(
    in_process_thread_local_hot: bool,
    disk_aot_present: bool,
) -> MediaTekPrefillCacheState {
    if in_process_thread_local_hot {
        MediaTekPrefillCacheState::InProcessThreadLocalHot
    } else if disk_aot_present {
        MediaTekPrefillCacheState::DiskAotPresent
    } else {
        MediaTekPrefillCacheState::ColdMissing
    }
}

pub fn classify_gemma_prefill_cache_state(
    in_process_thread_local_hot: bool,
    disk_aot_present: bool,
) -> (state: MediaTekPrefillCacheState)
    ensures
        state == spec_cache_state(in_process_thread_local_hot, disk_aot_present),
{
    if in_process_thread_local_hot {
        MediaTekPrefillCacheState::InProcessThreadLocalHot
    } else if disk_aot_present {
        MediaTekPrefillCacheState::DiskAotPresent
    } else {
        MediaTekPrefillCacheState::ColdMissing
    }
}

/// What is done with a selected layer: a hot model runs, a prewarm may compile,
/// everything else stays on the CPU.
pub open spec fn selected_layer_decision(
    input: MediaTekPrefillPolicyInput,
    cap: int,
) -> MediaTekPrefillNpuDecision {
    if input.cache_state is InProcessThreadLocalHot {
        MediaTekPrefillNpuDecision::UseWarmNpu { max_cache_entries: cap as usize }
    } else if input.request_mode is UserPath {
        MediaTekPrefillNpuDecision::FallbackCpu {
            reason: MediaTekPrefillFallbackReason::CacheMissUserPath,
        }
    } else if input.sync_compile_enabled {
        MediaTekPrefillNpuDecision::AllowPrewarmCompile { max_cache_entries: cap as usize }
    } else {
        MediaTekPrefillNpuDecision::FallbackCpu {
            reason: MediaTekPrefillFallbackReason::SyncCompileDisabled,
        }
    }
}

/// The whole policy: short prompts first, then the layer selection, then the
/// state of the cache.
pub open spec fn npu_decision(
    env: MediaTekPrefillEnv<'_>,
    input: MediaTekPrefillPolicyInput,
) -> MediaTekPrefillNpuDecision {
    let cap = cache_max_layers(env.cache_max_layers);
    if input.seq_len < 128 {
        MediaTekPrefillNpuDecision::FallbackCpu {
            reason: MediaTekPrefillFallbackReason::PromptTooShort,
        }
    } else {
        match layer_selection(env, input.layer_idx, cap) {
            Err(reason) => MediaTekPrefillNpuDecision::FallbackCpu { reason },
            Ok(false) => MediaTekPrefillNpuDecision::FallbackCpu {
                reason: MediaTekPrefillFallbackReason::LayerNotSelected,
            },
            Ok(true) => selected_layer_decision(input, cap),
        }
    }
}

/// Decides where a Gemma prefill layer runs.
pub fn decide_gemma_prefill_npu(
    env: MediaTekPrefillEnv<'_>,
    input: MediaTekPrefillPolicyInput,
) -> (decision: MediaTekPrefillNpuDecision)
    ensures
        decision == npu_decision(env, input),
{
    if input.seq_len < MIN_PREFILL_SEQ_LEN {
        return MediaTekPrefillNpuDecision::FallbackCpu {
            reason: MediaTekPrefillFallbackReason::PromptTooShort,
        };
    }
    let (max_cache_entries, _) = prefill_cache_max_layers_from_env_value(env.cache_max_layers);
    let selected = match prefill_layer_selection(env, input.layer_idx, max_cache_entries) {
        Ok(selected) => selected,
        Err(reason) => return MediaTekPrefillNpuDecision::FallbackCpu { reason },
    };
    if !selected {
        return MediaTekPrefillNpuDecision::FallbackCpu {
            reason: MediaTekPrefillFallbackReason::LayerNotSelected,
        };
    }
    let hot: bool = input.cache_state == MediaTekPrefillCacheState::InProcessThreadLocalHot;
    match input.request_mode {
        MediaTekPrefillRequestMode::UserPath => {
            if hot {
                MediaTekPrefillNpuDecision::UseWarmNpu { max_cache_entries }
            } else {
                MediaTekPrefillNpuDecision::FallbackCpu {
                    reason: MediaTekPrefillFallbackReason::CacheMissUserPath,
                }
            }
        },
        MediaTekPrefillRequestMode::ExplicitPrewarm | MediaTekPrefillRequestMode::BenchWarmup => {
            if hot {
                return MediaTekPrefillNpuDecision::UseWarmNpu { max_cache_entries };
            }
            if input.sync_compile_enabled {
                MediaTekPrefillNpuDecision::AllowPrewarmCompile { max_cache_entries }
            } else {
                MediaTekPrefillNpuDecision::FallbackCpu {
                    reason: MediaTekPrefillFallbackReason::SyncCompileDisabled,
                }
            }
        },
    }
}

/// A user's request never compiles: it runs on a hot model or on the CPU.
pub proof fn law_user_path_never_compiles(
    env: MediaTekPrefillEnv<'_>,
    input: MediaTekPrefillPolicyInput,
)
    requires
        input.request_mode is UserPath,
    ensures
        !(npu_decision(env, input) is AllowPrewarmCompile),
        npu_decision(env, input) is UseWarmNpu ==> input.cache_state is InProcessThreadLocalHot,
{
}

/// A model that is only on disk is not hot: no request runs on it as it is.
pub proof fn law_disk_cache_is_not_hot(
    env: MediaTekPrefillEnv<'_>,
    input: MediaTekPrefillPolicyInput,
    disk_aot_present: bool,
)
    requires
        input.cache_state == spec_cache_state(false, disk_aot_present),
    ensures
        !(npu_decision(env, input) is UseWarmNpu),
{
}

/// Whatever the environment says, between 1 and 10 layers stay resident, and a
/// layer list that is run holds no more than that.
pub proof fn law_resident_layers_are_capped(
    env: MediaTekPrefillEnv<'_>,
    input: MediaTekPrefillPolicyInput,
)
    ensures
        1 <= cache_max_layers(env.cache_max_layers) <= 10,
        !(npu_decision(env, input) is FallbackCpu) ==> (env.layers matches Some(list)
            ==> layer_list(pieces(list@, ',')) matches Some(layers) && layers.len()
            <= cache_max_layers(env.cache_max_layers) && layers.contains(input.layer_idx)),
{
}

/// A layer list that is accepted names no layer twice.
pub proof fn law_layer_lists_hold_no_duplicates(entries: Seq<Seq<char>>)
    ensures
        layer_list(entries) matches Some(layers) ==> layers.no_duplicates() && layers.len()
            == entries.len(),
    decreases entries.len(),
{
    if entries.len() > 0 {
        law_layer_lists_hold_no_duplicates(entries.drop_last());
    }
}

/// A layer list is accepted exactly if each of its entries is a number, none of them twice;
/// it then names those numbers in their order.
pub proof fn law_which_layer_lists_are_accepted(entries: Seq<Seq<char>>)
    ensures
        layer_list(entries) matches Some(layers) ==> layers.len() == entries.len() && forall|k: int|
            0 <= k < entries.len() ==> parsed_usize(trimmed(#[trigger] entries[k])) == Some(
                layers[k],
            ),
        layer_list(entries) is Some <==> (forall|k: int|
            0 <= k < entries.len() ==> parsed_usize(trimmed(#[trigger] entries[k])) is Some) && (
        forall|j: int, k: int|
            0 <= j < k < entries.len() ==> parsed_usize(trimmed(#[trigger] entries[j]))
                != parsed_usize(trimmed(#[trigger] entries[k]))),
    decreases entries.len(),
{
    if entries.len() > 0 {
        let less = entries.drop_last();
        let n = less.len() as int;
        law_which_layer_lists_are_accepted(less);
        assert(forall|k: int| 0 <= k < n ==> #[trigger] entries[k] == less[k]);
        assert(entries[n] == entries.last());
        if layer_list(less) is None {
            if forall|k: int| 0 <= k < n ==> parsed_usize(trimmed(#[trigger] less[k])) is Some {
                let (j, k) = choose|j: int, k: int|
                    0 <= j < k < n && parsed_usize(trimmed(#[trigger] less[j])) == parsed_usize(
                        trimmed(#[trigger] less[k]),
                    );
                assert(entries[j] == less[j] && entries[k] == less[k]);
            } else {
                let k = choose|k: int|
                    0 <= k < n && parsed_usize(trimmed(#[trigger] less[k])) is None;
                assert(entries[k] == less[k]);
            }
        } else {
            let layers = layer_list(less)->0;
            if let Some(layer) = parsed_usize(trimmed(entries.last())) {
                if layers.contains(layer) {
                    let k = choose|k: int| 0 <= k < layers.len() && layers[k] == layer;
                    assert(parsed_usize(trimmed(entries[k])) == parsed_usize(trimmed(entries[n])));
                } else {
                    assert forall|j: int, k: int| 0 <= j < k < entries.len() implies parsed_usize(
                        trimmed(#[trigger] entries[j]),
                    ) != parsed_usize(trimmed(#[trigger] entries[k])) by {
                        assert(entries[j] == less[j]);
                        if k < n {
                            assert(entries[k] == less[k]);
                        } else {
                            assert(layers[j] != layer);
                        }
                    }
                }
            } else {
                assert(parsed_usize(trimmed(entries[n])) is None);
            }
        }
    }
}

/// The number of resident layers is the one that is set, where that is from 1 to 10, and 2
/// where it is anything else or is not set.
pub proof fn law_the_resident_cap_is_the_one_that_is_set(value: Option<&str>, n: usize)
    ensures
        value is None ==> cache_max_layers(value) == 2,
        value is Some && parsed_usize(trimmed(value->0@)) == Some(n) ==> cache_max_layers(value) == (
        if 1 <= n <= 10 {
            n as int
        } else {
            2
        }),
        value is Some && parsed_usize(trimmed(value->0@)) is None ==> cache_max_layers(value) == 2,
{
}

/// Whether the settings pick a layer: a list that names it, no more layers than may stay and
/// none twice; without a list the one number that is set; without either the first layer.
pub open spec fn picked(env: MediaTekPrefillEnv<'_>, layer: usize, cap: int) -> bool {
    match (env.layers, env.layer) {
        (Some(list), _) => {
            let entries = pieces(list@, ',');
            &&& entries.len() <= cap
            &&& forall|k: int|
                0 <= k < entries.len() ==> parsed_usize(trimmed(#[trigger] entries[k])) is Some
            &&& forall|j: int, k: int|
                0 <= j < k < entries.len() ==> parsed_usize(trimmed(#[trigger] entries[j]))
                    != parsed_usize(trimmed(#[trigger] entries[k]))
            &&& exists|k: int|
                0 <= k < entries.len() && parsed_usize(trimmed(#[trigger] entries[k])) == Some(layer)
        },
        (None, Some(text)) => parsed_usize(trimmed(text@)) == Some(layer),
        (None, None) => layer == 0,
    }
}

proof fn lemma_picked(env: MediaTekPrefillEnv<'_>, layer: usize, cap: int)
    ensures
        layer_selection(env, layer, cap) == Ok::<bool, MediaTekPrefillFallbackReason>(true)
            <==> picked(env, layer, cap),
{
    if let Some(list) = env.layers {
        let entries = pieces(list@, ',');
        law_which_layer_lists_are_accepted(entries);
        if let Some(layers) = layer_list(entries) {
            if layers.contains(layer) {
                let k = choose|k: int| 0 <= k < layers.len() && layers[k] == layer;
                assert(parsed_usize(trimmed(entries[k])) == Some(layer));
            }
            if exists|k: int|
                0 <= k < entries.len() && parsed_usize(trimmed(#[trigger] entries[k])) == Some(
                    layer,
                ) {
                let k = choose|k: int|
                    0 <= k < entries.len() && parsed_usize(trimmed(#[trigger] entries[k])) == Some(
                        layer,
                    );
                assert(layers[k] == layer);
            }
        }
    } else if let Some(text) = env.layer {
        if trimmed(text@) == "all"@ {
            reveal_strlit("all");
            crate::text::law_only_digits_spell_numbers(trimmed(text@));
            assert(trimmed(text@)[0] == 'a');
        }
    }
}

/// Where a layer runs. On the NPU: a prompt of at least 128 tokens, a layer that is picked
/// and a model that is hot. Compiled for it: the same without a hot model, where the request
/// is to warm up and may compile. On the CPU: everything else. What may stay resident is
/// handed on.
pub proof fn law_when_a_layer_runs_on_the_npu(
    env: MediaTekPrefillEnv<'_>,
    input: MediaTekPrefillPolicyInput,
)
    ensures
        ({
            let cap = cache_max_layers(env.cache_max_layers);
            let open = input.seq_len >= 128 && picked(env, input.layer_idx, cap);
            let hot = input.cache_state is InProcessThreadLocalHot;
            let decision = npu_decision(env, input);
            &&& decision is UseWarmNpu <==> open && hot
            &&& decision is AllowPrewarmCompile <==> open && !hot && input.sync_compile_enabled && (
            input.request_mode is ExplicitPrewarm || input.request_mode is BenchWarmup)
            &&& decision matches MediaTekPrefillNpuDecision::UseWarmNpu { max_cache_entries: n }
                ==> n == cap
            &&& decision matches MediaTekPrefillNpuDecision::AllowPrewarmCompile {
                max_cache_entries: n,
            } ==> n == cap
        }),
{
    lemma_picked(env, input.layer_idx, cache_max_layers(env.cache_max_layers));
}

/// Why a layer stays on the CPU: a prompt below 128 tokens before all; a request for all
/// layers, or for more than may stay; a layer that is not picked otherwise; a user's request
/// without a hot model; a warm-up that may not compile.
pub proof fn law_why_a_layer_stays_on_the_cpu(
    env: MediaTekPrefillEnv<'_>,
    input: MediaTekPrefillPolicyInput,
    reason: MediaTekPrefillFallbackReason,
)
    requires
        npu_decision(env, input) == (MediaTekPrefillNpuDecision::FallbackCpu { reason }),
    ensures
        ({
            let cap = cache_max_layers(env.cache_max_layers);
            &&& reason is PromptTooShort <==> input.seq_len < 128
            &&& reason is AllLayersRequireCompiledCache ==> env.layers is None && env.layer is Some
                && trimmed(env.layer->0@) == "all"@
            &&& reason is ResidentCapExceeded ==> env.layers is Some && pieces(
                env.layers->0@,
                ',',
            ).len() > cap
            &&& reason is CacheMissUserPath ==> picked(env, input.layer_idx, cap)
                && input.request_mode is UserPath && !(input.cache_state is InProcessThreadLocalHot)
            &&& reason is SyncCompileDisabled ==> picked(env, input.layer_idx, cap) && !(
            input.request_mode is UserPath) && !input.sync_compile_enabled && !(
            input.cache_state is InProcessThreadLocalHot)
            &&& reason is LayerNotSelected ==> !picked(env, input.layer_idx, cap)
        }),
{
    lemma_picked(env, input.layer_idx, cache_max_layers(env.cache_max_layers));
    if let Some(list) = env.layers {
        law_layer_lists_hold_no_duplicates(pieces(list@, ','));
    }
}

/// A model in the process is hot whatever is on disk; one that is only on disk is not.
pub proof fn law_what_state_a_cache_is_in(hot: bool, on_disk: bool)
    ensures
        spec_cache_state(hot, on_disk) is InProcessThreadLocalHot <==> hot,
        spec_cache_state(hot, on_disk) is DiskAotPresent <==> !hot && on_disk,
        spec_cache_state(hot, on_disk) is ColdMissing <==> !hot && !on_disk,
{
}

/// Each reason to stay on the CPU is traced by its own name.
pub proof fn law_reasons_are_traced_by_their_names()
    ensures
        MediaTekPrefillFallbackReason::CacheMissUserPath.spec_trace_reason()
            == "prefill_cache_miss_user_path"@,
        MediaTekPrefillFallbackReason::SyncCompileDisabled.spec_trace_reason()
            == "prefill_sync_compile_disabled"@,
        MediaTekPrefillFallbackReason::LayerNotSelected.spec_trace_reason()
            == "prefill_layer_not_selected"@,
        MediaTekPrefillFallbackReason::ResidentCapExceeded.spec_trace_reason()
            == "prefill_resident_cap_exceeded"@,
        MediaTekPrefillFallbackReason::PromptTooShort.spec_trace_reason()
            == "prefill_prompt_too_short"@,
        MediaTekPrefillFallbackReason::AllLayersRequireCompiledCache.spec_trace_reason()
            == "all_layers_require_compiled_cache"@,
{
}

} // verus!
