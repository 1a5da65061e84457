//! Judgment of a finished downloader run and the service's error taxonomy.

use vstd::prelude::*;

verus! {

/// Why a finished subprocess run is not accepted as a successful download.
#[derive(Clone, Copy, Debug, PartialEq, Eq, Structural)]
pub enum UpstreamFault {
    /// The subprocess exited with a non-success status.
    ExitFailure,
    /// The subprocess reported success but the expected output file is missing.
    OutputMissing,
    /// The output file exists but holds zero bytes.
    OutputEmpty,
}

/// A run is successful only when all three conditions hold at once.
pub open spec fn output_ok(exit_success: bool, file_exists: bool, file_len: u64) -> bool {
    exit_success && file_exists && file_len > 0
}

/// The fault a failed run is charged with: the first violated condition.
pub open spec fn spec_fault(exit_success: bool, file_exists: bool, file_len: u64) -> UpstreamFault {
    if !exit_success {
        UpstreamFault::ExitFailure
    } else if !file_exists {
        UpstreamFault::OutputMissing
    } else {
        UpstreamFault::OutputEmpty
    }
}

/// Judge a finished run: success demands a clean exit, an existing output
/// file, and a non-zero size; the first violated condition names the fault.
pub fn judge_output(exit_success: bool, file_exists: bool, file_len: u64) -> (r: Result<
    (),
    UpstreamFault,
>)
    ensures
        r is Ok <==> output_ok(exit_success, file_exists, file_len),
        r is Err ==> r == Result::<(), UpstreamFault>::Err(
            spec_fault(exit_success, file_exists, file_len),
        ),
{
    if !exit_success {
        Err(UpstreamFault::ExitFailure)
    } else if !file_exists {
        Err(UpstreamFault::OutputMissing)
    } else if file_len == 0 {
        Err(UpstreamFault::OutputEmpty)
    } else {
        Ok(())
    }
}

} // verus!
