//! The failure taxonomy of the fetch path.

use vstd::prelude::*;

verus! {

/// Why a fetch of the key set failed. Fetch-layer errors propagate unchanged
/// to every caller waiting on that fetch and are never cached: each variant is
/// retryable on the next access.
#[derive(Clone, Copy, Debug, PartialEq, Eq, Structural)]
pub enum FetchError {
    /// The request or connect timeout elapsed before a response arrived.
    Timeout,
    /// The transport failed: connection refused, DNS failure, or a
    /// non-success status. `status` is the HTTP status code, or 0 when the
    /// failure happened before any status was received.
    Transport { status: u16 },
    /// The response did not parse into a well-formed key set. The whole set
    /// is rejected atomically; nothing half-parsed is ever installed.
    Malformed,
}

/// The transport rule for a response status: a success status (200–299) lets
/// the body through to the parser; any other status fails the fetch with
/// that status.
pub fn check_status(status: u16) -> (r: Result<(), FetchError>)
    ensures
        200 <= status < 300 ==> r is Ok,
        !(200 <= status < 300) ==> r == Err::<(), FetchError>(FetchError::Transport { status }),
{
    if 200 <= status && status < 300 {
        Ok(())
    } else {
        Err(FetchError::Transport { status })
    }
}

} // verus!
