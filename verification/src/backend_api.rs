//! The vocabulary that the runtime shares with its backends.

use vstd::prelude::*;

verus! {

/// A backend family.
#[derive(Debug, Clone, Copy, PartialEq, Eq, Structural)]
pub enum BackendKind {
    Cpu,
    Cuda,
    Vulkan,
    OpenCl,
    Metal,
    MediaTekNpu,
}

impl BackendKind {
    pub open spec fn spec_label(self) -> Seq<char> {
        match self {
            BackendKind::Cpu => "Cpu"@,
            BackendKind::Cuda => "Cuda"@,
            BackendKind::Vulkan => "Vulkan"@,
            BackendKind::OpenCl => "OpenCl"@,
            BackendKind::Metal => "Metal"@,
            BackendKind::MediaTekNpu => "MediaTekNpu"@,
        }
    }

    /// The name by which messages refer to the backend.
    pub fn label(self) -> (label: &'static str)
        ensures
            label@ == self.spec_label(),
    {
        match self {
            BackendKind::Cpu => "Cpu",
            BackendKind::Cuda => "Cuda",
            BackendKind::Vulkan => "Vulkan",
            BackendKind::OpenCl => "OpenCl",
            BackendKind::Metal => "Metal",
            BackendKind::MediaTekNpu => "MediaTekNpu",
        }
    }
}

/// The operation that a typed backend request asks for.
#[derive(Debug, Clone, Copy, PartialEq, Eq, Structural)]
pub enum BackendOp {
    MatMul,
    Attention,
    Moe,
    Gdn,
}

/// A typed request: the operation that it asks for, and the operands.
#[derive(Debug, Clone, Copy, PartialEq, Eq)]
pub struct BackendRequest<Q> {
    pub op: BackendOp,
    pub operands: Q,
}

/// Why a backend refused or failed a request.
#[derive(Debug, Clone, Copy, PartialEq, Eq, Structural)]
pub enum BackendErrorKind {
    UnsupportedOp,
    InvalidRequest,
    ExecutionFailed,
}

/// A backend's refusal or failure.
#[derive(Debug, Clone)]
pub struct BackendError {
    pub kind: BackendErrorKind,
    pub backend: BackendKind,
    pub op: Option<BackendOp>,
    pub message: String,
}

/// A tensor that lives in the memory of a backend's device.
#[derive(Debug, Clone, Copy, PartialEq, Eq, Structural)]
pub struct DeviceTensorId {
    pub backend: BackendKind,
    pub raw: u64,
}

impl DeviceTensorId {
    pub fn new(backend: BackendKind, raw: u64) -> (id: Self)
        ensures
            id == (DeviceTensorId { backend, raw }),
    {
        DeviceTensorId { backend, raw }
    }

    pub fn backend(&self) -> (backend: BackendKind)
        ensures
            backend == self.backend,
    {
        self.backend
    }
}

/// What an element of a device tensor is.
#[derive(Debug, Clone, Copy, PartialEq, Eq, Structural)]
pub enum ScalarType {
    F32,
    F16,
}

impl ScalarType {
    /// Bytes of one element.
    pub open spec fn size(self) -> nat {
        match self {
            ScalarType::F32 => 4,
            ScalarType::F16 => 2,
        }
    }
}

/// What a device tensor holds.
#[derive(Debug, Clone, Copy, PartialEq, Eq, Structural)]
pub enum DeviceTensorRole {
    Hidden,
    Normalized,
    RouterLogits,
}

/// The shape, the elements and the role of a device tensor.
#[derive(Debug, Clone, Copy, PartialEq, Eq, Structural)]
pub struct DeviceTensorDesc {
    pub rows: usize,
    pub cols: usize,
    pub dtype: ScalarType,
    pub role: DeviceTensorRole,
}

impl DeviceTensorDesc {
    pub fn new(rows: usize, cols: usize, dtype: ScalarType, role: DeviceTensorRole) -> (desc: Self)
        ensures
            desc == (DeviceTensorDesc { rows, cols, dtype, role }),
    {
        DeviceTensorDesc { rows, cols, dtype, role }
    }

    pub fn rows(&self) -> (rows: usize)
        ensures
            rows == self.rows,
    {
        self.rows
    }

    pub fn cols(&self) -> (cols: usize)
        ensures
            cols == self.cols,
    {
        self.cols
    }

    pub fn dtype(&self) -> (dtype: ScalarType)
        ensures
            dtype == self.dtype,
    {
        self.dtype
    }

    /// The bytes of the tensor, unless they cannot be counted.
    pub fn byte_len(&self) -> (bytes: Option<usize>)
        ensures
            match bytes {
                Some(count) => count == self.rows * self.cols * self.dtype.size(),
                None => self.rows * self.cols * self.dtype.size() > usize::MAX,
            },
    {
        let size: usize = match self.dtype {
            ScalarType::F32 => 4,
            ScalarType::F16 => 2,
        };
        match self.rows.checked_mul(self.cols) {
            Some(elements) => elements.checked_mul(size),
            None => {
                assert(self.rows * self.cols * size >= self.rows * self.cols) by (nonlinear_arith)
                    requires
                        size >= 1,
                        self.rows * self.cols >= 0,
                ;
                None
            },
        }
    }
}

/// The sum of two byte counts, held at the largest count that can be kept.
pub open spec fn saturating_sum(a: usize, b: usize) -> usize {
    if a + b > usize::MAX {
        usize::MAX
    } else {
        (a + b) as usize
    }
}

/// How many bytes were copied to a device and back.
#[derive(Debug, Clone, Copy, PartialEq, Eq, Structural)]
pub struct DeviceTransferCounters {
    pub h2d: usize,
    pub d2h: usize,
}

impl DeviceTransferCounters {
    pub fn new() -> (counters: Self)
        ensures
            counters == (DeviceTransferCounters { h2d: 0, d2h: 0 }),
    {
        DeviceTransferCounters { h2d: 0, d2h: 0 }
    }

    pub fn h2d_bytes(&self) -> (bytes: usize)
        ensures
            bytes == self.h2d,
    {
        self.h2d
    }

    pub fn d2h_bytes(&self) -> (bytes: usize)
        ensures
            bytes == self.d2h,
    {
        self.d2h
    }

    pub fn record_h2d(&mut self, bytes: usize)
        ensures
            *final(self) == (DeviceTransferCounters {
                h2d: saturating_sum(old(self).h2d, bytes),
                ..*old(self)
            }),
    {
        self.h2d = self.h2d.saturating_add(bytes);
    }

    pub fn record_d2h(&mut self, bytes: usize)
        ensures
            *final(self) == (DeviceTransferCounters {
                d2h: saturating_sum(old(self).d2h, bytes),
                ..*old(self)
            }),
    {
        self.d2h = self.d2h.saturating_add(bytes);
    }
}

/// What a call reports when `reply` comes back from a backend: the value
/// unchanged, or the failure with `context` in front of it.
pub open spec fn in_context<T>(
    reply: Result<T, String>,
    context: Seq<char>,
    reported: Result<T, String>,
) -> bool {
    match (reply, reported) {
        (Ok(value), Ok(kept)) => value == kept,
        (Err(cause), Err(message)) => message@ == context + cause@,
        _ => false,
    }
}

/// Passes a backend's value on and puts `context` in front of its failure.
pub fn with_context<T>(reply: Result<T, String>, context: &str) -> (reported: Result<T, String>)
    ensures
        in_context(reply, context@, reported),
{
    match reply {
        Ok(value) => Ok(value),
        Err(cause) => {
            let mut message = String::from_str(context);
            message.append(cause.as_str());
            Err(message)
        },
    }
}

/// A failure is told with the context in front and the cause behind it, and nothing else; a
/// value is handed on as it is, and never both.
pub proof fn law_a_failure_is_told_behind_its_context<T>(
    reply: Result<T, String>,
    context: Seq<char>,
    reported: Result<T, String>,
)
    requires
        in_context(reply, context, reported),
    ensures
        reported is Ok <==> reply is Ok,
        reply matches Ok(value) ==> reported == reply,
        reply matches Err(cause) ==> {
            let message = reported->Err_0@;
            &&& message.len() == context.len() + cause@.len()
            &&& message.take(context.len() as int) == context
            &&& message.skip(context.len() as int) == cause@
        },
{
    if let Err(cause) = reply {
        let message = reported->Err_0@;
        assert(message.take(context.len() as int) =~= context);
        assert(message.skip(context.len() as int) =~= cause@);
    }
}

/// Counts add up in any order, never shrink, and stay at the largest count once they are
/// there.
pub proof fn law_counts_add_up_and_never_shrink(a: usize, b: usize, c: usize)
    ensures
        saturating_sum(a, b) >= a,
        saturating_sum(a, b) >= b,
        a + b <= usize::MAX ==> saturating_sum(a, b) == a + b,
        a + b > usize::MAX ==> saturating_sum(a, b) == usize::MAX,
        saturating_sum(a, b) == saturating_sum(b, a),
        saturating_sum(saturating_sum(a, b), c) == saturating_sum(a, saturating_sum(b, c)),
        saturating_sum(usize::MAX, a) == usize::MAX,
        saturating_sum(a, 0) == a,
{
}

/// An element in single precision has 32 bits, one in half precision 16.
pub proof fn law_elements_have_the_bits_of_their_precision()
    ensures
        ScalarType::F32.size() * 8 == 32,
        ScalarType::F16.size() * 8 == 16,
{
}

/// Messages refer to a backend by its name.
pub proof fn law_labels_are_the_names_of_the_backends()
    ensures
        BackendKind::Cpu.spec_label() == "Cpu"@,
        BackendKind::Cuda.spec_label() == "Cuda"@,
        BackendKind::Vulkan.spec_label() == "Vulkan"@,
        BackendKind::OpenCl.spec_label() == "OpenCl"@,
        BackendKind::Metal.spec_label() == "Metal"@,
        BackendKind::MediaTekNpu.spec_label() == "MediaTekNpu"@,
{
}

} // verus!
