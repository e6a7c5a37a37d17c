//! Errors of MediaTek runs and probes.

use crate::text::{decimal, push_decimal, push_decimal_u64};
use vstd::prelude::*;

verus! {

/// Why a run or a probe failed.
#[derive(Debug, Clone, PartialEq, Eq)]
pub enum MediaTekRunError {
    InvalidShape { reason: String },
    InvalidDeviceName,
    UnsupportedPlatform,
    NoMatchingAccelerator { requested: String },
    CpuDeviceRejected { name: String },
    UnsupportedOperation { supported_ops: Vec<(&'static str, bool)> },
    InvalidOutputLength { expected: usize, actual: usize },
    CacheMissNeedsWeights,
    NnapiCall { call: &'static str, code: i32 },
}

pub type MediaTekProbeError = MediaTekRunError;

/// What the neural-network driver reports.
#[derive(Debug, Clone, PartialEq, Eq)]
pub enum MediaTekNnapiError {
    UnsupportedPlatform,
    NoMatchingAccelerator { requested: String },
    CpuDeviceRejected { name: String },
    UnsupportedOperation { fc1: bool, fc2: bool },
    UnsupportedGatedGeluFfnOperation { supported_ops: Vec<(&'static str, bool)> },
    InvalidOutputLength { expected: usize, actual: usize },
    InvalidInput { reason: String },
    NnapiCall { call: &'static str, code: i32 },
}

/// Why the driver has no answer: it refused the tensors, or failed.
#[derive(Debug, Clone, PartialEq, Eq)]
pub enum DriverFailure {
    Tensors(String),
    Driver(MediaTekNnapiError),
}

/// What can be wrong with a request before a backend sees it.
pub enum RequestFault {
    DeviceName,
    Shape(Seq<char>),
}

pub open spec fn flag_text(flag: bool) -> Seq<char> {
    if flag {
        "true"@
    } else {
        "false"@
    }
}

/// `name=flag` for each operation, with a space between two.
pub open spec fn ops_text(ops: Seq<(&'static str, bool)>) -> Seq<char>
    decreases ops.len(),
{
    if ops.len() == 0 {
        Seq::empty()
    } else {
        let before = if ops.len() == 1 {
            Seq::empty()
        } else {
            ops_text(ops.drop_last()) + " "@
        };
        before + ops.last().0@ + "="@ + flag_text(ops.last().1)
    }
}

/// The decimal notation of `code`, with a sign where it is negative.
pub open spec fn signed_decimal(code: int) -> Seq<char> {
    if code < 0 {
        "-"@ + decimal((-code) as nat)
    } else {
        decimal(code as nat)
    }
}

fn push_signed(out: &mut String, code: i32)
    ensures
        final(out)@ == old(out)@ + signed_decimal(code as int),
{
    let ghost before = out@;
    let wide: i64 = code as i64;
    if wide < 0 {
        out.append("-");
        push_decimal_u64(out, (-wide) as u64);
        assert(out@ =~= before + ("-"@ + decimal((-wide) as nat)));
    } else {
        push_decimal_u64(out, wide as u64);
    }
}

fn push_ops(out: &mut String, ops: &Vec<(&'static str, bool)>)
    ensures
        final(out)@ == old(out)@ + ops_text(ops@),
{
    let ghost before = out@;
    let mut i: usize = 0;
    assert(out@ =~= before + ops_text(ops@.take(0)));
    while i < ops.len()
        invariant
            i <= ops@.len(),
            out@ == before + ops_text(ops@.take(i as int)),
        decreases ops@.len() - i,
    {
        proof {
            assert(ops@.take(i + 1).drop_last() =~= ops@.take(i as int));
            assert(ops@.take(i + 1).last() == ops@[i as int]);
        }
        if i > 0 {
            out.append(" ");
        }
        let (name, supported) = ops[i];
        out.append(name);
        out.append("=");
        out.append(
            if supported {
                "true"
            } else {
                "false"
            },
        );
        i += 1;
        assert(out@ =~= before + ops_text(ops@.take(i as int)));
    }
    assert(ops@.take(i as int) =~= ops@);
}

impl MediaTekRunError {
    /// The error as its user reads it.
    pub open spec fn spec_text(self) -> Seq<char> {
        match self {
            MediaTekRunError::InvalidShape { reason } => "invalid MediaTek FFN shape: "@ + reason@,
            MediaTekRunError::InvalidDeviceName => "MediaTek device name substring is empty"@,
            MediaTekRunError::UnsupportedPlatform => "MediaTek NNAPI execution requires Android"@,
            MediaTekRunError::NoMatchingAccelerator { requested } =>
                "no MediaTek NNAPI accelerator matched '"@ + requested@ + "'"@,
            MediaTekRunError::CpuDeviceRejected { name } => "NNAPI device '"@ + name@
                + "' is CPU/reference"@,
            MediaTekRunError::UnsupportedOperation { supported_ops } =>
                "MediaTek NNAPI gated GELU FFN op support failed: "@ + ops_text(supported_ops@),
            MediaTekRunError::InvalidOutputLength { expected, actual } =>
                "MediaTek NNAPI output length mismatch: expected "@ + decimal(expected as nat)
                    + ", got "@ + decimal(actual as nat),
            MediaTekRunError::CacheMissNeedsWeights =>
                "MediaTek NNAPI gated GELU FFN cache miss requires weights"@,
            MediaTekRunError::NnapiCall { call, code } => "MediaTek NNAPI call "@ + call@
                + " failed with code "@ + signed_decimal(code as int),
        }
    }

    /// Whether this is the error that reports `fault`.
    pub open spec fn reports(self, fault: RequestFault) -> bool {
        match (self, fault) {
            (MediaTekRunError::InvalidDeviceName, RequestFault::DeviceName) => true,
            (MediaTekRunError::InvalidShape { reason }, RequestFault::Shape(text)) => reason@
                == text,
            _ => false,
        }
    }

    /// The error as its user reads it.
    pub fn text(&self) -> (text: String)
        ensures
            text@ == self.spec_text(),
    {
        match self {
            MediaTekRunError::InvalidShape { reason } => {
                let mut out = String::from_str("invalid MediaTek FFN shape: ");
                out.append(reason.as_str());
                out
            },
            MediaTekRunError::InvalidDeviceName => String::from_str(
                "MediaTek device name substring is empty",
            ),
            MediaTekRunError::UnsupportedPlatform => String::from_str(
                "MediaTek NNAPI execution requires Android",
            ),
            MediaTekRunError::NoMatchingAccelerator { requested } => {
                let mut out = String::from_str("no MediaTek NNAPI accelerator matched '");
                out.append(requested.as_str());
                out.append("'");
                out
            },
            MediaTekRunError::CpuDeviceRejected { name } => {
                let mut out = String::from_str("NNAPI device '");
                out.append(name.as_str());
                out.append("' is CPU/reference");
                out
            },
            MediaTekRunError::UnsupportedOperation { supported_ops } => {
                let mut out = String::from_str(
                    "MediaTek NNAPI gated GELU FFN op support failed: ",
                );
                push_ops(&mut out, supported_ops);
                out
            },
            MediaTekRunError::InvalidOutputLength { expected, actual } => {
                let mut out = String::from_str("MediaTek NNAPI output length mismatch: expected ");
                push_decimal(&mut out, *expected);
                out.append(", got ");
                push_decimal(&mut out, *actual);
                out
            },
            MediaTekRunError::CacheMissNeedsWeights => String::from_str(
                "MediaTek NNAPI gated GELU FFN cache miss requires weights",
            ),
            MediaTekRunError::NnapiCall { call, code } => {
                let mut out = String::from_str("MediaTek NNAPI call ");
                out.append(call);
                out.append(" failed with code ");
                push_signed(&mut out, *code);
                out
            },
        }
    }

    /// Whether this is how the runtime reports the driver's error.
    pub open spec fn stands_for(self, error: MediaTekNnapiError) -> bool {
        match error {
            MediaTekNnapiError::UnsupportedPlatform => self is UnsupportedPlatform,
            MediaTekNnapiError::NoMatchingAccelerator { requested } => self
                == MediaTekRunError::NoMatchingAccelerator { requested },
            MediaTekNnapiError::CpuDeviceRejected { name } => self
                == MediaTekRunError::CpuDeviceRejected { name },
            MediaTekNnapiError::UnsupportedOperation { fc1, fc2 } => {
                &&& self matches MediaTekRunError::UnsupportedOperation { supported_ops }
                &&& supported_ops@.len() == 2
                &&& supported_ops@[0].0@ == "fc1"@ && supported_ops@[0].1 == fc1
                &&& supported_ops@[1].0@ == "fc2"@ && supported_ops@[1].1 == fc2
            },
            MediaTekNnapiError::UnsupportedGatedGeluFfnOperation { supported_ops } => self
                == MediaTekRunError::UnsupportedOperation { supported_ops },
            MediaTekNnapiError::InvalidOutputLength { expected, actual } => self
                == MediaTekRunError::InvalidOutputLength { expected, actual },
            MediaTekNnapiError::InvalidInput { reason } => self
                == MediaTekRunError::InvalidShape { reason },
            MediaTekNnapiError::NnapiCall { call, code } => self == MediaTekRunError::NnapiCall {
                call,
                code,
            },
        }
    }

    /// The runtime's report of a driver error.
    pub fn from_backend(error: MediaTekNnapiError) -> (reported: Self)
        ensures
            reported.stands_for(error),
    {
        match error {
            MediaTekNnapiError::UnsupportedPlatform => MediaTekRunError::UnsupportedPlatform,
            MediaTekNnapiError::NoMatchingAccelerator { requested } =>
                MediaTekRunError::NoMatchingAccelerator { requested },
            MediaTekNnapiError::CpuDeviceRejected { name } => MediaTekRunError::CpuDeviceRejected {
                name,
            },
            MediaTekNnapiError::UnsupportedOperation { fc1, fc2 } => {
                let mut supported_ops: Vec<(&'static str, bool)> = Vec::new();
                supported_ops.push(("fc1", fc1));
                supported_ops.push(("fc2", fc2));
                MediaTekRunError::UnsupportedOperation { supported_ops }
            },
            MediaTekNnapiError::UnsupportedGatedGeluFfnOperation { supported_ops } =>
                MediaTekRunError::UnsupportedOperation { supported_ops },
            MediaTekNnapiError::InvalidOutputLength { expected, actual } =>
                MediaTekRunError::InvalidOutputLength { expected, actual },
            MediaTekNnapiError::InvalidInput { reason } => MediaTekRunError::InvalidShape {
                reason,
            },
            MediaTekNnapiError::NnapiCall { call, code } => MediaTekRunError::NnapiCall {
                call,
                code,
            },
        }
    }
}

impl MediaTekRunError {
    /// Whether this is how the runtime reports the failure.
    pub open spec fn stands_for_failure(self, failure: DriverFailure) -> bool {
        match failure {
            DriverFailure::Tensors(reason) => self == MediaTekRunError::InvalidShape { reason },
            DriverFailure::Driver(error) => self.stands_for(error),
        }
    }

    /// The runtime's report of a failure.
    pub fn from_failure(failure: DriverFailure) -> (reported: Self)
        ensures
            reported.stands_for_failure(failure),
    {
        match failure {
            DriverFailure::Tensors(reason) => MediaTekRunError::InvalidShape { reason },
            DriverFailure::Driver(error) => MediaTekRunError::from_backend(error),
        }
    }
}

/// The error that refuses a shape for `reason`.
pub fn invalid_shape(reason: &str) -> (error: MediaTekRunError)
    ensures
        error.reports(RequestFault::Shape(reason@)),
{
    MediaTekRunError::InvalidShape { reason: String::from_str(reason) }
}

/// A driver's error is reported as the error of its own kind, with all that it says; tensors
/// and inputs that a driver refuses are wrong shapes.
pub proof fn law_driver_errors_keep_their_kind(
    reported: MediaTekRunError,
    error: MediaTekNnapiError,
)
    requires
        reported.stands_for(error),
    ensures
        reported is UnsupportedPlatform <==> error is UnsupportedPlatform,
        error matches MediaTekNnapiError::NoMatchingAccelerator { requested: a } ==> (
        reported matches MediaTekRunError::NoMatchingAccelerator { requested: b } && a == b),
        error matches MediaTekNnapiError::CpuDeviceRejected { name: a } ==> (
        reported matches MediaTekRunError::CpuDeviceRejected { name: b } && a == b),
        error matches MediaTekNnapiError::InvalidOutputLength { expected: a, actual: c } ==> (
        reported matches MediaTekRunError::InvalidOutputLength { expected: b, actual: d } && a == b
            && c == d),
        error matches MediaTekNnapiError::InvalidInput { reason: a } ==> (
        reported matches MediaTekRunError::InvalidShape { reason: b } && a == b),
        error matches MediaTekNnapiError::NnapiCall { call: a, code: c } ==> (
        reported matches MediaTekRunError::NnapiCall { call: b, code: d } && a == b && c == d),
        error matches MediaTekNnapiError::UnsupportedGatedGeluFfnOperation { supported_ops: a } ==> (
        reported matches MediaTekRunError::UnsupportedOperation { supported_ops: b } && a == b),
        error matches MediaTekNnapiError::UnsupportedOperation { fc1, fc2 } ==> (
        reported matches MediaTekRunError::UnsupportedOperation { supported_ops } && ((
        forall|k: int| 0 <= k < supported_ops@.len() ==> (#[trigger] supported_ops@[k]).1) <==> fc1
            && fc2)),
        !(reported is CacheMissNeedsWeights) && !(reported is InvalidDeviceName),
{
    if let MediaTekNnapiError::UnsupportedOperation { fc1, fc2 } = error {
        let ops = reported->UnsupportedOperation_supported_ops;
        assert(ops@[0].1 == fc1 && ops@[1].1 == fc2);
    }
}

/// Whether `text` is the text of `error`.
pub open spec fn reads(error: MediaTekRunError, text: Seq<char>) -> bool {
    error.spec_text() == text
}

/// What the user reads of each error: what went wrong, and behind it the reason, the name,
/// the operations, both lengths or the call and its code, as far as the error has them.
pub proof fn law_errors_tell_what_they_hold(
    reason: String,
    ops: Vec<(&'static str, bool)>,
    expected: usize,
    actual: usize,
    call: &'static str,
    code: i32,
)
    ensures
        reads(
            MediaTekRunError::InvalidShape { reason },
            "invalid MediaTek FFN shape: "@ + reason@,
        ),
        reads(
            MediaTekRunError::InvalidDeviceName,
            "MediaTek device name substring is empty"@,
        ),
        reads(
            MediaTekRunError::UnsupportedPlatform,
            "MediaTek NNAPI execution requires Android"@,
        ),
        reads(
            MediaTekRunError::NoMatchingAccelerator { requested: reason },
            "no MediaTek NNAPI accelerator matched '"@ + reason@ + "'"@,
        ),
        reads(
            MediaTekRunError::CpuDeviceRejected { name: reason },
            "NNAPI device '"@ + reason@ + "' is CPU/reference"@,
        ),
        reads(
            MediaTekRunError::UnsupportedOperation { supported_ops: ops },
            "MediaTek NNAPI gated GELU FFN op support failed: "@ + ops_text(ops@),
        ),
        reads(
            MediaTekRunError::InvalidOutputLength { expected, actual },
            "MediaTek NNAPI output length mismatch: expected "@ + decimal(expected as nat)
                + ", got "@ + decimal(actual as nat),
        ),
        reads(
            MediaTekRunError::CacheMissNeedsWeights,
            "MediaTek NNAPI gated GELU FFN cache miss requires weights"@,
        ),
        reads(
            MediaTekRunError::NnapiCall { call, code },
            "MediaTek NNAPI call "@ + call@ + " failed with code "@ + signed_decimal(code as int),
        ),
{
}

/// A code is written with its digits, behind a minus sign where it is less than zero.
pub proof fn law_codes_are_written_with_their_sign(code: nat)
    ensures
        signed_decimal(code as int) == decimal(code),
        code > 0 ==> signed_decimal(-(code as int)).len() == 1 + decimal(code).len()
            && signed_decimal(-(code as int))[0] == '-' && signed_decimal(-(code as int)).skip(1)
            == decimal(code),
{
    reveal_strlit("-");
    if code > 0 {
        assert(signed_decimal(-(code as int)).skip(1) =~= decimal(code));
    }
}

/// Operations are told in order, each by its name and by whether it is supported, with a
/// space in front of each but the first.
pub proof fn law_operations_are_told_one_by_one(
    ops: Seq<(&'static str, bool)>,
    name: &'static str,
    supported: bool,
)
    ensures
        ops_text(Seq::empty()) == Seq::<char>::empty(),
        flag_text(true) == "true"@,
        flag_text(false) == "false"@,
        ops_text(seq![(name, supported)]) == name@ + "="@ + flag_text(supported),
        ops.len() > 0 ==> ops_text(ops.push((name, supported))) == ops_text(ops) + " "@ + name@
            + "="@
            + flag_text(supported),
{
    let one: Seq<(&'static str, bool)> = seq![(name, supported)];
    assert(one.last() == (name, supported));
    assert(ops_text(one) =~= name@ + "="@ + flag_text(supported));
    assert(ops.push((name, supported)).drop_last() =~= ops);
}

/// A fault is reported as itself: an empty device name as that, and a wrong shape with its
/// own reason; what a driver refuses of its tensors is a wrong shape too.
pub proof fn law_faults_are_reported_as_themselves(
    error: MediaTekRunError,
    reason: Seq<char>,
    failure: DriverFailure,
)
    ensures
        error.reports(RequestFault::DeviceName) <==> error is InvalidDeviceName,
        error.reports(RequestFault::Shape(reason)) <==> (error matches MediaTekRunError::InvalidShape {
            reason: told,
        } && told@ == reason),
        failure matches DriverFailure::Tensors(told) ==> (error.stands_for_failure(failure)
            <==> error == MediaTekRunError::InvalidShape { reason: told }),
        failure matches DriverFailure::Driver(driver) ==> (error.stands_for_failure(failure)
            <==> error.stands_for(driver)),
{
}

} // verus!
