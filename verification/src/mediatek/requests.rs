//! Requests to the NPU, and what is checked before a backend sees them.
//!
//! Tensors hold single-precision floats as bit patterns.

use crate::float_bits::{find_nonfinite, finite, first_nonfinite, law_first_nonfinite};
use crate::mediatek::cache::{
    GatedGeluFfnF32BatchedCacheKey, GatedGeluFfnF32CacheKey,
    MAX_GATED_GELU_FFN_BATCHED_CACHE_ENTRIES, MAX_GATED_GELU_FFN_CACHE_ENTRIES,
};
use crate::mediatek::error::{invalid_shape, MediaTekProbeError, MediaTekRunError, RequestFault};
use crate::text::{decimal, is_blank, push_decimal, trimmed};
use vstd::prelude::*;

verus! {

/// A run of one feed-forward block.
#[derive(Debug, Clone)]
pub struct RunGatedGeluFfnF32Request<'a> {
    pub device_name_substring: String,
    pub input_size: usize,
    pub ffn_inner_size: usize,
    pub output_size: usize,
    pub gate_weight: &'a [u32],
    pub up_weight: &'a [u32],
    pub down_weight: &'a [u32],
    pub input: &'a [u32],
}

/// A trial run of one feed-forward block.
#[derive(Debug, Clone)]
pub struct ProbeGatedGeluFfnF32Request<'a> {
    pub device_name_substring: String,
    pub input_size: usize,
    pub ffn_inner_size: usize,
    pub output_size: usize,
    pub gate_weight: &'a [u32],
    pub up_weight: &'a [u32],
    pub down_weight: &'a [u32],
    pub input: &'a [u32],
}

/// The weights of a block that is compiled into a cache.
#[derive(Debug, Clone, PartialEq)]
pub struct RunCachedGatedGeluFfnF32Weights {
    pub gate_weight: Vec<u32>,
    pub up_weight: Vec<u32>,
    pub down_weight: Vec<u32>,
}

/// The weights of a quantized block; `Q` holds its quantization parameters.
#[derive(Debug, Clone, PartialEq)]
pub struct RunCachedQuantizedGatedGeluFfnWeights<Q> {
    pub quant_params: Q,
    pub gate_weight: Vec<u8>,
    pub up_weight: Vec<u8>,
    pub down_weight: Vec<u8>,
    pub down_weight_f32: Option<Vec<u32>>,
}

/// A run of a block that may be resident.
#[derive(Debug, Clone, PartialEq)]
pub struct RunCachedGatedGeluFfnF32Request<'a> {
    pub cache_key: GatedGeluFfnF32CacheKey,
    pub weights: Option<RunCachedGatedGeluFfnF32Weights>,
    pub max_cache_entries: usize,
    pub measure_timing: bool,
    pub input: &'a [u32],
}

/// A run of a quantized block that may be resident.
#[derive(Debug, Clone, PartialEq)]
pub struct RunCachedQuantizedGatedGeluFfnRequest<'a, Q> {
    pub cache_key: GatedGeluFfnF32CacheKey,
    pub weights: Option<RunCachedQuantizedGatedGeluFfnWeights<Q>>,
    pub max_cache_entries: usize,
    pub measure_timing: bool,
    pub input: &'a [u32],
}

/// A run of a batch of blocks that may be resident.
#[derive(Debug, Clone, PartialEq)]
pub struct RunCachedGatedGeluFfnF32BatchedRequest<'a> {
    pub cache_key: GatedGeluFfnF32BatchedCacheKey,
    pub weights: Option<RunCachedGatedGeluFfnF32Weights>,
    pub max_cache_entries: usize,
    pub measure_timing: bool,
    pub input: &'a [u32],
}

/// The sizes of a feed-forward block.
#[derive(Debug, Clone, Copy, PartialEq, Eq, Structural)]
pub struct MediaTekGatedGeluFfnShape {
    pub input_size: usize,
    pub ffn_inner_size: usize,
    pub output_size: usize,
}

/// A trial of one stage of a quantized block.
#[derive(Debug, Clone, PartialEq)]
pub struct RunQuantizedGatedGeluFfnStageProbeRequest<'a, Q, S> {
    pub device_name_substring: String,
    pub shape: MediaTekGatedGeluFfnShape,
    pub weights: RunCachedQuantizedGatedGeluFfnWeights<Q>,
    pub input: &'a [u32],
    pub stage: S,
}

/// The first of `first` and `rest` that finds a fault.
pub open spec fn fault_or(first: Option<RequestFault>, rest: Option<RequestFault>) -> Option<
    RequestFault,
> {
    match first {
        Some(fault) => Some(fault),
        None => rest,
    }
}

pub open spec fn shape_fault(wrong: bool, reason: Seq<char>) -> Option<RequestFault> {
    if wrong {
        Some(RequestFault::Shape(reason))
    } else {
        None
    }
}

pub open spec fn device_fault(device: Seq<char>) -> Option<RequestFault> {
    if trimmed(device).len() == 0 {
        Some(RequestFault::DeviceName)
    } else {
        None
    }
}

/// A tensor that does not have the length it must have.
pub open spec fn length_fault(tensor: Seq<char>, expected: int, actual: int) -> Option<
    RequestFault,
> {
    shape_fault(
        expected != actual,
        tensor + " length mismatch: expected "@ + decimal(expected as nat) + ", got "@ + decimal(
            actual as nat,
        ),
    )
}

/// A tensor that holds an infinity or a NaN.
pub open spec fn finite_fault(tensor: Seq<char>, data: Seq<u32>) -> Option<RequestFault> {
    match first_nonfinite(data, 0) {
        Some(place) => Some(
            RequestFault::Shape(
                tensor + " has non-finite value at index "@ + decimal(place as nat),
            ),
        ),
        None => None,
    }
}

/// A resident cap outside of `1..=hard_max`.
pub open spec fn cap_fault(max_entries: int, hard_max: int) -> Option<RequestFault> {
    shape_fault(
        !(1 <= max_entries <= hard_max),
        "max_cache_entries must be in 1..="@ + decimal(hard_max as nat),
    )
}

/// An empty device name or size.
pub open spec fn size_fault(
    device: Seq<char>,
    input_size: int,
    ffn_inner_size: int,
    output_size: int,
) -> Option<RequestFault> {
    fault_or(
        device_fault(device),
        fault_or(
            shape_fault(input_size == 0, "input_size must be non-zero"@),
            fault_or(
                shape_fault(ffn_inner_size == 0, "ffn_inner_size must be non-zero"@),
                shape_fault(output_size == 0, "output_size must be non-zero"@),
            ),
        ),
    )
}

/// Whether `checked` is the outcome that reports `fault`.
pub open spec fn reports_fault(
    checked: Result<(), MediaTekRunError>,
    fault: Option<RequestFault>,
) -> bool {
    match (checked, fault) {
        (Ok(()), None) => true,
        (Err(error), Some(fault)) => error.reports(fault),
        _ => false,
    }
}

fn check_sizes(
    device: &str,
    input_size: usize,
    ffn_inner_size: usize,
    output_size: usize,
) -> (checked: Result<(), MediaTekRunError>)
    ensures
        reports_fault(
            checked,
            size_fault(
                device@,
                input_size as int,
                ffn_inner_size as int,
                output_size as int,
            ),
        ),
{
    if is_blank(device) {
        return Err(MediaTekRunError::InvalidDeviceName);
    }
    if input_size == 0 {
        return Err(invalid_shape("input_size must be non-zero"));
    }
    if ffn_inner_size == 0 {
        return Err(invalid_shape("ffn_inner_size must be non-zero"));
    }
    if output_size == 0 {
        return Err(invalid_shape("output_size must be non-zero"));
    }
    Ok(())
}

fn expect_len(tensor: &str, expected: usize, actual: usize) -> (checked: Result<
    (),
    MediaTekRunError,
>)
    ensures
        reports_fault(checked, length_fault(tensor@, expected as int, actual as int)),
{
    if expected != actual {
        let mut reason = String::from_str(tensor);
        reason.append(" length mismatch: expected ");
        push_decimal(&mut reason, expected);
        reason.append(", got ");
        push_decimal(&mut reason, actual);
        return Err(MediaTekRunError::InvalidShape { reason });
    }
    Ok(())
}

fn expect_finite(tensor: &str, data: &[u32]) -> (checked: Result<(), MediaTekRunError>)
    ensures
        reports_fault(checked, finite_fault(tensor@, data@)),
{
    match find_nonfinite(data) {
        Some(index) => {
            let mut reason = String::from_str(tensor);
            reason.append(" has non-finite value at index ");
            push_decimal(&mut reason, index);
            Err(MediaTekRunError::InvalidShape { reason })
        },
        None => Ok(()),
    }
}

fn validate_cache_entry_cap_with_max(max_entries: usize, hard_max: usize) -> (checked: Result<
    (),
    MediaTekRunError,
>)
    ensures
        reports_fault(checked, cap_fault(max_entries as int, hard_max as int)),
{
    if max_entries < 1 || max_entries > hard_max {
        let mut reason = String::from_str("max_cache_entries must be in 1..=");
        push_decimal(&mut reason, hard_max);
        return Err(MediaTekRunError::InvalidShape { reason });
    }
    Ok(())
}

fn validate_cache_entry_cap(max_entries: usize) -> (checked: Result<(), MediaTekRunError>)
    ensures
        reports_fault(checked, cap_fault(max_entries as int, 4)),
{
    validate_cache_entry_cap_with_max(max_entries, MAX_GATED_GELU_FFN_CACHE_ENTRIES)
}

fn validate_batched_cache_entry_cap(max_entries: usize) -> (checked: Result<(), MediaTekRunError>)
    ensures
        reports_fault(checked, cap_fault(max_entries as int, 10)),
{
    validate_cache_entry_cap_with_max(max_entries, MAX_GATED_GELU_FFN_BATCHED_CACHE_ENTRIES)
}

impl<'a> RunGatedGeluFfnF32Request<'a> {
    /// The first thing wrong with the request: an empty name or size, a size
    /// that overflows, a tensor of the wrong length, a tensor that is not finite.
    pub open spec fn fault(self) -> Option<RequestFault> {
        fault_or(
            size_fault(
                self.device_name_substring@,
                self.input_size as int,
                self.ffn_inner_size as int,
                self.output_size as int,
            ),
            fault_or(
                shape_fault(
                    self.ffn_inner_size * self.input_size > usize::MAX,
                    "gate/up length overflow"@,
                ),
                fault_or(
                    shape_fault(
                        self.output_size * self.ffn_inner_size > usize::MAX,
                        "down length overflow"@,
                    ),
                    fault_or(self.tensor_length_fault(), self.tensor_finite_fault()),
                ),
            ),
        )
    }

    pub open spec fn tensor_length_fault(self) -> Option<RequestFault> {
        let gate_up = self.ffn_inner_size * self.input_size;
        let down = self.output_size * self.ffn_inner_size;
        fault_or(
            length_fault("gate_weight"@, gate_up, self.gate_weight@.len() as int),
            fault_or(
                length_fault("up_weight"@, gate_up, self.up_weight@.len() as int),
                fault_or(
                    length_fault("down_weight"@, down, self.down_weight@.len() as int),
                    length_fault("input"@, self.input_size as int, self.input@.len() as int),
                ),
            ),
        )
    }

    pub open spec fn tensor_finite_fault(self) -> Option<RequestFault> {
        fault_or(
            finite_fault("gate_weight"@, self.gate_weight@),
            fault_or(
                finite_fault("up_weight"@, self.up_weight@),
                fault_or(
                    finite_fault("down_weight"@, self.down_weight@),
                    finite_fault("input"@, self.input@),
                ),
            ),
        )
    }

    /// Refuses a request that no backend should see.
    pub fn validate(&self) -> (checked: Result<(), MediaTekRunError>)
        ensures
            reports_fault(checked, self.fault()),
    {
        check_sizes(
            self.device_name_substring.as_str(),
            self.input_size,
            self.ffn_inner_size,
            self.output_size,
        )?;
        let gate_up_len = match self.ffn_inner_size.checked_mul(self.input_size) {
            Some(len) => len,
            None => return Err(invalid_shape("gate/up length overflow")),
        };
        let down_len = match self.output_size.checked_mul(self.ffn_inner_size) {
            Some(len) => len,
            None => return Err(invalid_shape("down length overflow")),
        };
        expect_len("gate_weight", gate_up_len, self.gate_weight.len())?;
        expect_len("up_weight", gate_up_len, self.up_weight.len())?;
        expect_len("down_weight", down_len, self.down_weight.len())?;
        expect_len("input", self.input_size, self.input.len())?;
        expect_finite("gate_weight", self.gate_weight)?;
        expect_finite("up_weight", self.up_weight)?;
        expect_finite("down_weight", self.down_weight)?;
        expect_finite("input", self.input)?;
        Ok(())
    }
}

impl<'a> ProbeGatedGeluFfnF32Request<'a> {
    /// The request as a run.
    pub open spec fn as_run(self) -> RunGatedGeluFfnF32Request<'a> {
        RunGatedGeluFfnF32Request {
            device_name_substring: self.device_name_substring,
            input_size: self.input_size,
            ffn_inner_size: self.ffn_inner_size,
            output_size: self.output_size,
            gate_weight: self.gate_weight,
            up_weight: self.up_weight,
            down_weight: self.down_weight,
            input: self.input,
        }
    }

    /// Refuses a request that no backend should see.
    pub fn validate(&self) -> (checked: Result<(), MediaTekProbeError>)
        ensures
            reports_fault(checked, self.as_run().fault()),
    {
        RunGatedGeluFfnF32Request {
            device_name_substring: self.device_name_substring.clone(),
            input_size: self.input_size,
            ffn_inner_size: self.ffn_inner_size,
            output_size: self.output_size,
            gate_weight: self.gate_weight,
            up_weight: self.up_weight,
            down_weight: self.down_weight,
            input: self.input,
        }.validate()
    }
}

impl<'a> From<ProbeGatedGeluFfnF32Request<'a>> for RunGatedGeluFfnF32Request<'a> {
    fn from(request: ProbeGatedGeluFfnF32Request<'a>) -> (run: Self) {
        RunGatedGeluFfnF32Request {
            device_name_substring: request.device_name_substring,
            input_size: request.input_size,
            ffn_inner_size: request.ffn_inner_size,
            output_size: request.output_size,
            gate_weight: request.gate_weight,
            up_weight: request.up_weight,
            down_weight: request.down_weight,
            input: request.input,
        }
    }
}

impl<'a> vstd::std_specs::convert::FromSpecImpl<ProbeGatedGeluFfnF32Request<'a>> for RunGatedGeluFfnF32Request<'a> {
    open spec fn obeys_from_spec() -> bool {
        true
    }

    open spec fn from_spec(request: ProbeGatedGeluFfnF32Request<'a>) -> Self {
        request.as_run()
    }
}

/// What a cached request asks for apart from its weights: the first thing wrong
/// with its key, its cap or its input.
pub open spec fn cached_fault(
    key: GatedGeluFfnF32CacheKey,
    max_cache_entries: usize,
    input: Seq<u32>,
) -> Option<RequestFault> {
    fault_or(
        size_fault(
            key.device_name_substring@,
            key.input_size as int,
            key.ffn_inner_size as int,
            key.output_size as int,
        ),
        fault_or(
            shape_fault(!key.weights_match_sizes(), "cache key weight dimensions mismatch"@),
            fault_or(
                cap_fault(max_cache_entries as int, 4),
                fault_or(
                    length_fault("input"@, key.input_size as int, input.len() as int),
                    finite_fault("input"@, input),
                ),
            ),
        ),
    )
}

fn weights_match(key: &GatedGeluFfnF32CacheKey) -> (matching: bool)
    ensures
        matching == key.weights_match_sizes(),
{
    key.gate.rows == key.ffn_inner_size && key.gate.cols == key.input_size && key.up.rows
        == key.ffn_inner_size && key.up.cols == key.input_size && key.down.rows == key.output_size
        && key.down.cols == key.ffn_inner_size
}

fn validate_cached(
    key: &GatedGeluFfnF32CacheKey,
    max_cache_entries: usize,
    input: &[u32],
) -> (checked: Result<(), MediaTekRunError>)
    ensures
        reports_fault(checked, cached_fault(*key, max_cache_entries, input@)),
{
    check_sizes(
        key.device_name_substring.as_str(),
        key.input_size,
        key.ffn_inner_size,
        key.output_size,
    )?;
    if !weights_match(key) {
        return Err(invalid_shape("cache key weight dimensions mismatch"));
    }
    validate_cache_entry_cap(max_cache_entries)?;
    expect_len("input", key.input_size, input.len())?;
    expect_finite("input", input)?;
    Ok(())
}

impl<'a> RunCachedGatedGeluFfnF32Request<'a> {
    pub open spec fn fault(self) -> Option<RequestFault> {
        cached_fault(self.cache_key, self.max_cache_entries, self.input@)
    }

    /// Refuses a request that no backend should see.
    pub fn validate(&self) -> (checked: Result<(), MediaTekRunError>)
        ensures
            reports_fault(checked, self.fault()),
    {
        validate_cached(&self.cache_key, self.max_cache_entries, self.input)
    }
}

impl<'a, Q> RunCachedQuantizedGatedGeluFfnRequest<'a, Q> {
    pub open spec fn fault(self) -> Option<RequestFault> {
        cached_fault(self.cache_key, self.max_cache_entries, self.input@)
    }

    /// Refuses a request that no backend should see.
    pub fn validate(&self) -> (checked: Result<(), MediaTekRunError>)
        ensures
            reports_fault(checked, self.fault()),
    {
        validate_cached(&self.cache_key, self.max_cache_entries, self.input)
    }
}

impl<'a> RunCachedGatedGeluFfnF32BatchedRequest<'a> {
    /// The first thing wrong with the request's key or its cap.
    pub open spec fn key_fault(self) -> Option<RequestFault> {
        let base = self.cache_key.base;
        fault_or(
            size_fault(
                base.device_name_substring@,
                base.input_size as int,
                base.ffn_inner_size as int,
                base.output_size as int,
            ),
            fault_or(
                shape_fault(self.cache_key.batch == 0, "batch must be non-zero"@),
                fault_or(
                    shape_fault(
                        !base.weights_match_sizes(),
                        "cache key weight dimensions mismatch"@,
                    ),
                    cap_fault(self.max_cache_entries as int, 10),
                ),
            ),
        )
    }

    /// The length of the batch's input can be counted, where the key comes so far.
    pub open spec fn input_countable(self) -> bool {
        self.key_fault() is None ==> self.cache_key.base.input_size * self.cache_key.batch
            <= usize::MAX
    }

    pub open spec fn fault(self) -> Option<RequestFault> {
        fault_or(
            self.key_fault(),
            fault_or(
                length_fault(
                    "input"@,
                    self.cache_key.base.input_size * self.cache_key.batch,
                    self.input@.len() as int,
                ),
                finite_fault("input"@, self.input@),
            ),
        )
    }

    /// Refuses a key or a cap that no backend should see.
    pub fn validate_key(&self) -> (checked: Result<(), MediaTekRunError>)
        ensures
            reports_fault(checked, self.key_fault()),
    {
        let base = &self.cache_key.base;
        check_sizes(
            base.device_name_substring.as_str(),
            base.input_size,
            base.ffn_inner_size,
            base.output_size,
        )?;
        if self.cache_key.batch == 0 {
            return Err(invalid_shape("batch must be non-zero"));
        }
        if !weights_match(base) {
            return Err(invalid_shape("cache key weight dimensions mismatch"));
        }
        validate_batched_cache_entry_cap(self.max_cache_entries)
    }

    /// Refuses a request that no backend should see.
    pub fn validate(&self) -> (checked: Result<(), MediaTekRunError>)
        requires
            self.input_countable(),
        ensures
            reports_fault(checked, self.fault()),
    {
        self.validate_key()?;
        let input_len: usize = self.cache_key.base.input_size * self.cache_key.batch;
        expect_len("input", input_len, self.input.len())?;
        expect_finite("input", self.input)?;
        Ok(())
    }
}

impl<'a, Q, S> RunQuantizedGatedGeluFfnStageProbeRequest<'a, Q, S> {
    /// The first thing wrong with the request; the backend's own check of the
    /// weights, `weights`, comes last.
    pub open spec fn fault(self, weights: Result<(), String>) -> Option<RequestFault> {
        fault_or(
            device_fault(self.device_name_substring@),
            fault_or(
                shape_fault(
                    self.weights.down_weight_f32 is None,
                    "quantized stage probe requires hybrid f32-down weights"@,
                ),
                fault_or(
                    length_fault("input"@, self.shape.input_size as int, self.input@.len() as int),
                    fault_or(
                        finite_fault("input"@, self.input@),
                        match weights {
                            Ok(()) => None,
                            Err(reason) => Some(RequestFault::Shape(reason@)),
                        },
                    ),
                ),
            ),
        )
    }

    /// Refuses a request that no backend should see; `weights` is what the
    /// backend makes of the request's weights.
    pub fn validate(&self, weights: Result<(), String>) -> (checked: Result<(), MediaTekRunError>)
        ensures
            reports_fault(checked, self.fault(weights)),
    {
        if is_blank(self.device_name_substring.as_str()) {
            return Err(MediaTekRunError::InvalidDeviceName);
        }
        if self.weights.down_weight_f32.is_none() {
            return Err(invalid_shape("quantized stage probe requires hybrid f32-down weights"));
        }
        expect_len("input", self.shape.input_size, self.input.len())?;
        expect_finite("input", self.input)?;
        match weights {
            Ok(()) => Ok(()),
            Err(reason) => Err(MediaTekRunError::InvalidShape { reason }),
        }
    }
}

/// A request that passes holds tensors of the right lengths and no infinity or
/// NaN in any of them.
pub proof fn law_valid_requests_are_finite(request: RunGatedGeluFfnF32Request<'_>)
    requires
        request.fault() is None,
    ensures
        request.gate_weight@.len() == request.ffn_inner_size * request.input_size,
        request.up_weight@.len() == request.ffn_inner_size * request.input_size,
        request.down_weight@.len() == request.output_size * request.ffn_inner_size,
        request.input@.len() == request.input_size,
        forall|k: int|
            0 <= k < request.input@.len() ==> crate::float_bits::finite(
                #[trigger] request.input@[k],
            ),
        forall|k: int|
            0 <= k < request.gate_weight@.len() ==> crate::float_bits::finite(
                #[trigger] request.gate_weight@[k],
            ),
        forall|k: int|
            0 <= k < request.up_weight@.len() ==> crate::float_bits::finite(
                #[trigger] request.up_weight@[k],
            ),
        forall|k: int|
            0 <= k < request.down_weight@.len() ==> crate::float_bits::finite(
                #[trigger] request.down_weight@[k],
            ),
{
    crate::float_bits::law_first_nonfinite(request.input@, 0);
    crate::float_bits::law_first_nonfinite(request.gate_weight@, 0);
    crate::float_bits::law_first_nonfinite(request.up_weight@, 0);
    crate::float_bits::law_first_nonfinite(request.down_weight@, 0);
}

/// Whether timing is measured makes no difference to what is accepted.
pub proof fn law_timing_does_not_affect_validation(
    request: RunCachedGatedGeluFfnF32Request<'_>,
    measure_timing: bool,
)
    ensures
        (RunCachedGatedGeluFfnF32Request { measure_timing, ..request }).fault() == request.fault(),
{
}

proof fn lemma_finite_fault(tensor: Seq<char>, data: Seq<u32>)
    ensures
        finite_fault(tensor, data) is None <==> forall|k: int|
            0 <= k < data.len() ==> (#[trigger] data[k]) as int % 0x8000_0000 < 0x7f80_0000,
{
    crate::float_bits::law_first_nonfinite(data, 0);
    if finite_fault(tensor, data) is None {
        assert forall|k: int| 0 <= k < data.len() implies (#[trigger] data[k]) as int % 0x8000_0000
            < 0x7f80_0000 by {
            assert(crate::float_bits::finite(data[k]));
        }
    }
}

/// Whether every element is finite, as its bits tell: the exponent is not full.
pub open spec fn all_finite(data: Seq<u32>) -> bool {
    forall|k: int| 0 <= k < data.len() ==> (#[trigger] data[k]) as int % 0x8000_0000 < 0x7f80_0000
}

/// A run is accepted exactly if its device has a name, its sizes are not zero, gate and up
/// weights have an element for each pair of inner and input, down weights for each pair of
/// output and inner, the input has its size, and all of them are finite. A nameless device
/// is what is reported first.
pub proof fn law_which_runs_are_accepted(request: RunGatedGeluFfnF32Request<'_>)
    ensures
        request.fault() is None <==> {
            &&& trimmed(request.device_name_substring@).len() > 0
            &&& request.input_size > 0 && request.ffn_inner_size > 0 && request.output_size > 0
            &&& request.gate_weight@.len() == request.input_size * request.ffn_inner_size
            &&& request.up_weight@.len() == request.input_size * request.ffn_inner_size
            &&& request.down_weight@.len() == request.ffn_inner_size * request.output_size
            &&& request.input@.len() == request.input_size
            &&& all_finite(request.gate_weight@) && all_finite(request.up_weight@)
            &&& all_finite(request.down_weight@) && all_finite(request.input@)
        },
        request.fault() == Some(RequestFault::DeviceName) <==> trimmed(
            request.device_name_substring@,
        ).len() == 0,
{
    lemma_finite_fault("gate_weight"@, request.gate_weight@);
    lemma_finite_fault("up_weight"@, request.up_weight@);
    lemma_finite_fault("down_weight"@, request.down_weight@);
    lemma_finite_fault("input"@, request.input@);
    assert(request.gate_weight.len() == request.gate_weight@.len());
    assert(request.down_weight.len() == request.down_weight@.len());
    assert(request.input_size * request.ffn_inner_size == request.ffn_inner_size
        * request.input_size) by (nonlinear_arith);
    assert(request.output_size * request.ffn_inner_size == request.ffn_inner_size
        * request.output_size) by (nonlinear_arith);
}

/// A trial asks for what the run of the same name asks for, each tensor in its role.
pub proof fn law_a_trial_is_a_run_of_the_same(request: ProbeGatedGeluFfnF32Request<'_>)
    ensures
        request.as_run().device_name_substring@ == request.device_name_substring@,
        request.as_run().input_size == request.input_size,
        request.as_run().ffn_inner_size == request.ffn_inner_size,
        request.as_run().output_size == request.output_size,
        request.as_run().gate_weight@ == request.gate_weight@,
        request.as_run().up_weight@ == request.up_weight@,
        request.as_run().down_weight@ == request.down_weight@,
        request.as_run().input@ == request.input@,
{
}

/// A cached run is accepted exactly if its key names a device, sizes that are not zero and
/// weights that map the input to the inner size, twice, and that to the output; if one to
/// four models may stay; and if the input has its size and is finite.
pub proof fn law_which_cached_runs_are_accepted<Q>(
    request: RunCachedGatedGeluFfnF32Request<'_>,
    quantized: RunCachedQuantizedGatedGeluFfnRequest<'_, Q>,
)
    ensures
        request.fault() is None <==> accepted_key(request.cache_key) && 1
            <= request.max_cache_entries <= 4 && request.input@.len() == request.cache_key.input_size
            && all_finite(request.input@),
        quantized.fault() is None <==> accepted_key(quantized.cache_key) && 1
            <= quantized.max_cache_entries <= 4 && quantized.input@.len()
            == quantized.cache_key.input_size && all_finite(quantized.input@),
{
    lemma_finite_fault("input"@, request.input@);
    lemma_finite_fault("input"@, quantized.input@);
}

/// A cached batch is accepted exactly if its key is and its batch is not empty, one to ten
/// models may stay, and there is a finite input for each of the batch.
pub proof fn law_which_cached_batches_are_accepted(
    request: RunCachedGatedGeluFfnF32BatchedRequest<'_>,
)
    ensures
        request.fault() is None <==> accepted_key(request.cache_key.base) && request.cache_key.batch
            > 0 && 1 <= request.max_cache_entries <= 10 && request.input@.len()
            == request.cache_key.base.input_size * request.cache_key.batch && all_finite(
            request.input@,
        ),
{
    lemma_finite_fault("input"@, request.input@);
}

/// Whether a key names a device, sizes and weights that map between them.
pub open spec fn accepted_key(key: GatedGeluFfnF32CacheKey) -> bool {
    &&& trimmed(key.device_name_substring@).len() > 0
    &&& key.input_size > 0 && key.ffn_inner_size > 0 && key.output_size > 0
    &&& key.gate.rows == key.ffn_inner_size && key.gate.cols == key.input_size
    &&& key.up.rows == key.ffn_inner_size && key.up.cols == key.input_size
    &&& key.down.rows == key.output_size && key.down.cols == key.ffn_inner_size
}

/// A trial of a stage is accepted exactly if its device has a name, there are unquantized
/// down weights, the input has its size and is finite, and the backend takes the weights.
pub proof fn law_which_stages_are_accepted<Q, S>(
    request: RunQuantizedGatedGeluFfnStageProbeRequest<'_, Q, S>,
    weights: Result<(), String>,
)
    ensures
        request.fault(weights) is None <==> trimmed(request.device_name_substring@).len() > 0
            && request.weights.down_weight_f32 is Some && request.input@.len()
            == request.shape.input_size && all_finite(request.input@) && weights is Ok,
{
    lemma_finite_fault("input"@, request.input@);
}

/// Whether `fault` is a wrong shape, for `reason`.
pub open spec fn is_wrong_shape(fault: Option<RequestFault>, reason: Seq<char>) -> bool {
    fault == Some(RequestFault::Shape(reason))
}

/// What is told of a tensor: both lengths where they differ, and the first place that is not
/// finite; and of a cap outside its bounds the largest that is allowed.
pub proof fn law_what_is_told_of_a_tensor(
    tensor: Seq<char>,
    expected: nat,
    actual: nat,
    data: Seq<u32>,
    place: int,
    cap: int,
    hard_max: nat,
)
    requires
        0 <= place < data.len(),
        !finite(data[place]),
        forall|i: int| 0 <= i < place ==> finite(#[trigger] data[i]),
    ensures
        length_fault(tensor, expected as int, actual as int) is None <==> expected == actual,
        expected != actual ==> is_wrong_shape(
            length_fault(tensor, expected as int, actual as int),
            tensor + " length mismatch: expected "@ + decimal(expected) + ", got "@
                + decimal(actual),
        ),
        is_wrong_shape(
            finite_fault(tensor, data),
            tensor + " has non-finite value at index "@ + decimal(place as nat),
        ),
        cap_fault(cap, hard_max as int) is None <==> 1 <= cap <= hard_max,
        cap_fault(cap, hard_max as int) is Some ==> is_wrong_shape(
            cap_fault(cap, hard_max as int),
            "max_cache_entries must be in 1..="@ + decimal(hard_max),
        ),
{
    law_first_nonfinite(data, 0);
}

/// Of a device and three sizes the first that is missing is told.
pub proof fn law_the_first_missing_size_is_told(
    device: Seq<char>,
    input: int,
    inner: int,
    output: int,
)
    ensures
        ({
            let fault = size_fault(device, input, inner, output);
            let named = trimmed(device).len() > 0;
            &&& !named ==> fault == Some(RequestFault::DeviceName)
            &&& named && input == 0 ==> is_wrong_shape(fault, "input_size must be non-zero"@)
            &&& named && input != 0 && inner == 0 ==> is_wrong_shape(
                fault,
                "ffn_inner_size must be non-zero"@,
            )
            &&& named && input != 0 && inner != 0 && output == 0 ==> is_wrong_shape(
                fault,
                "output_size must be non-zero"@,
            )
            &&& named && input != 0 && inner != 0 && output != 0 ==> fault is None
        }),
{
}

/// Of a run with a device and sizes, lengths that no word holds are told first, then a
/// tensor of another length, then one that is not finite; and among the tensors in the order
/// of gate, up and down projection and input.
pub proof fn law_the_first_fault_of_a_run_is_told(r: RunGatedGeluFfnF32Request<'_>)
    requires
        size_fault(
            r.device_name_substring@,
            r.input_size as int,
            r.ffn_inner_size as int,
            r.output_size as int,
        ) is None,
    ensures
        ({
            let wide = r.ffn_inner_size * r.input_size;
            let tall = r.output_size * r.ffn_inner_size;
            let gate = length_fault("gate_weight"@, wide, r.gate_weight@.len() as int);
            let up = length_fault("up_weight"@, wide, r.up_weight@.len() as int);
            let down = length_fault("down_weight"@, tall, r.down_weight@.len() as int);
            let input = length_fault("input"@, r.input_size as int, r.input@.len() as int);
            let counted = wide <= usize::MAX && tall <= usize::MAX;
            let long = counted && gate is None && up is None && down is None && input is None;
            let gate_finite = finite_fault("gate_weight"@, r.gate_weight@);
            let up_finite = finite_fault("up_weight"@, r.up_weight@);
            let down_finite = finite_fault("down_weight"@, r.down_weight@);
            &&& wide > usize::MAX ==> is_wrong_shape(r.fault(), "gate/up length overflow"@)
            &&& wide <= usize::MAX && tall > usize::MAX ==> is_wrong_shape(
                r.fault(),
                "down length overflow"@,
            )
            &&& counted && gate is Some ==> r.fault() == gate
            &&& counted && gate is None && up is Some ==> r.fault() == up
            &&& counted && gate is None && up is None && down is Some ==> r.fault() == down
            &&& counted && gate is None && up is None && down is None && input is Some ==> r.fault()
                == input
            &&& long && gate_finite is Some ==> r.fault() == gate_finite
            &&& long && gate_finite is None && up_finite is Some ==> r.fault() == up_finite
            &&& long && gate_finite is None && up_finite is None && down_finite is Some ==> r.fault()
                == down_finite
            &&& long && gate_finite is None && up_finite is None && down_finite is None ==> r.fault()
                == finite_fault("input"@, r.input@)
        }),
{
}

/// Of a cached run with a device and sizes, a key whose weights do not match is told before
/// its cap, that before the input's length, and that before what is not finite; of a batch
/// its emptiness comes before all of these.
pub proof fn law_the_first_fault_of_a_cached_run_is_told(
    key: GatedGeluFfnF32CacheKey,
    cap: usize,
    input: Seq<u32>,
    b: RunCachedGatedGeluFfnF32BatchedRequest<'_>,
)
    requires
        size_fault(
            key.device_name_substring@,
            key.input_size as int,
            key.ffn_inner_size as int,
            key.output_size as int,
        ) is None,
        b.cache_key.base == key,
    ensures
        ({
            let fault = cached_fault(key, cap, input);
            let matched = key.weights_match_sizes();
            let length = length_fault("input"@, key.input_size as int, input.len() as int);
            &&& !matched ==> is_wrong_shape(fault, "cache key weight dimensions mismatch"@)
            &&& matched && !(1 <= cap <= 4) ==> is_wrong_shape(
                fault,
                "max_cache_entries must be in 1..="@ + decimal(4),
            )
            &&& matched && 1 <= cap <= 4 && length is Some ==> fault == length
            &&& matched && 1 <= cap <= 4 && length is None ==> fault == finite_fault("input"@, input)
        }),
        ({
            let fault = b.fault();
            let matched = key.weights_match_sizes();
            let cap = b.max_cache_entries;
            let length = length_fault(
                "input"@,
                key.input_size * b.cache_key.batch,
                b.input@.len() as int,
            );
            let filled = b.cache_key.batch > 0;
            &&& !filled ==> is_wrong_shape(fault, "batch must be non-zero"@)
            &&& filled && !matched ==> is_wrong_shape(fault, "cache key weight dimensions mismatch"@)
            &&& filled && matched && !(1 <= cap <= 10) ==> is_wrong_shape(
                fault,
                "max_cache_entries must be in 1..="@ + decimal(10),
            )
            &&& filled && matched && 1 <= cap <= 10 && length is Some ==> fault == length
            &&& filled && matched && 1 <= cap <= 10 && length is None ==> fault == finite_fault(
                "input"@,
                b.input@,
            )
        }),
{
}

/// A check reports exactly the fault that there is: none with success, and any other by its
/// own error.
pub proof fn law_checks_report_the_fault_that_there_is(
    checked: Result<(), MediaTekRunError>,
    fault: Option<RequestFault>,
)
    requires
        reports_fault(checked, fault),
    ensures
        checked is Ok <==> fault is None,
        fault == Some(RequestFault::DeviceName) ==> checked->Err_0 is InvalidDeviceName,
        fault matches Some(RequestFault::Shape(reason)) ==> (
        checked->Err_0 matches MediaTekRunError::InvalidShape { reason: told } && told@ == reason),
{
}

} // verus!
