//! The service's failure taxonomy and its translation to HTTP status codes.

use vstd::prelude::*;

use crate::outcome::UpstreamFault;

verus! {

/// Every way a request can fail, grouped by who is at fault.
#[derive(Clone, Copy, Debug, PartialEq, Eq, Structural)]
pub enum ServiceError {
    /// The request body carried no usable URL.
    MissingUrl,
    /// The requested mode is neither progressive nor best.
    InvalidMode,
    /// All admission slots are held; the caller may retry after backoff.
    Capacity,
    /// The requested mode needs the external muxing tool, which is absent.
    DependencyMissing,
    /// The credential refresh action failed for the request that needed it.
    CredentialRefresh,
    /// The request-scoped workspace could not be allocated.
    WorkspaceFailed,
    /// The downloader subprocess could not be started.
    SpawnFailed,
    /// The subprocess's diagnostic stream could not be captured.
    DiagnosticsUnavailable,
    /// Waiting for the subprocess to exit failed.
    WaitFailed,
    /// The subprocess ran but its result is not an acceptable download.
    Upstream(UpstreamFault),
    /// The subprocess's metadata output is not parsable JSON.
    UnparsableMetadata,
    /// No thumbnail file was produced in the workspace.
    NoThumbnail,
}

/// The status code each failure is reported with: 400 for bad input and for
/// a missing required dependency, 429 over capacity, 500 for internal
/// faults, 502 for upstream (subprocess or output) failures.
pub open spec fn spec_status_code(e: ServiceError) -> u16 {
    match e {
        ServiceError::MissingUrl => 400,
        ServiceError::InvalidMode => 400,
        ServiceError::DependencyMissing => 400,
        ServiceError::Capacity => 429,
        ServiceError::CredentialRefresh => 500,
        ServiceError::WorkspaceFailed => 500,
        ServiceError::SpawnFailed => 500,
        ServiceError::DiagnosticsUnavailable => 500,
        ServiceError::WaitFailed => 502,
        ServiceError::Upstream(_) => 502,
        ServiceError::UnparsableMetadata => 502,
        ServiceError::NoThumbnail => 502,
    }
}

/// Translate a failure into the HTTP status code of the response.
pub fn status_code(e: &ServiceError) -> (code: u16)
    ensures
        code == spec_status_code(*e),
{
    match e {
        ServiceError::MissingUrl => 400,
        ServiceError::InvalidMode => 400,
        ServiceError::DependencyMissing => 400,
        ServiceError::Capacity => 429,
        ServiceError::CredentialRefresh => 500,
        ServiceError::WorkspaceFailed => 500,
        ServiceError::SpawnFailed => 500,
        ServiceError::DiagnosticsUnavailable => 500,
        ServiceError::WaitFailed => 502,
        ServiceError::Upstream(_) => 502,
        ServiceError::UnparsableMetadata => 502,
        ServiceError::NoThumbnail => 502,
    }
}

} // verus!
