//! Dispatch of typed requests to the backends of a build.

use crate::backend::gpu::CompiledFeatures;
use crate::backend_api::{BackendError, BackendErrorKind, BackendKind, BackendOp, BackendRequest};
use crate::text::begins_with;
use vstd::prelude::*;

verus! {

/// Whether `error` says that the build lacks `backend`.
pub open spec fn reports_missing(error: BackendError, backend: BackendKind, op: BackendOp) -> bool {
    &&& error.kind == BackendErrorKind::UnsupportedOp
    &&& error.backend == backend
    &&& error.op == Some(op)
    &&& error.message@ == backend.spec_label() + " backend is not compiled into this runtime"@
}

/// Has `backend` execute a request, where the build contains it; no other backend stands
/// in for it.
pub fn execute_backend_request<
    Q,
    T,
    D: FnOnce(BackendKind, BackendRequest<Q>) -> Result<T, BackendError>,
>(
    features: CompiledFeatures,
    backend: BackendKind,
    request: BackendRequest<Q>,
    execute: D,
) -> (output: Result<T, BackendError>)
    requires
        call_requires(execute, (backend, request)),
    ensures
        features.spec_has(backend) ==> call_ensures(execute, (backend, request), output),
        !features.spec_has(backend) ==> (output matches Err(error) && reports_missing(
            error,
            backend,
            request.op,
        )),
{
    if features.has(backend) {
        execute(backend, request)
    } else {
        Err(compiled_backend_missing(backend, request.op))
    }
}

fn compiled_backend_missing(backend: BackendKind, op: BackendOp) -> (error: BackendError)
    ensures
        reports_missing(error, backend, op),
{
    let mut message = String::from_str(backend.label());
    message.append(" backend is not compiled into this runtime");
    BackendError { kind: BackendErrorKind::UnsupportedOp, backend, op: Some(op), message }
}

/// A build that lacks a backend says so by the backend's name, as an operation that is not
/// supported there, and of the operation that was asked for.
pub proof fn law_a_missing_backend_is_named(
    error: BackendError,
    backend: BackendKind,
    op: BackendOp,
)
    requires
        reports_missing(error, backend, op),
    ensures
        error.kind is UnsupportedOp,
        error.backend == backend,
        error.op == Some(op),
        begins_with(error.message@, backend.spec_label()),
        error.message@.skip(backend.spec_label().len() as int)
            == " backend is not compiled into this runtime"@,
{
    let label = backend.spec_label();
    assert(error.message@.take(label.len() as int) =~= label);
    assert(error.message@.skip(label.len() as int)
        =~= " backend is not compiled into this runtime"@);
}

} // verus!
