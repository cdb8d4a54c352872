//! Decisions of the capture-device access flow. Probing the device node and
//! running the elevation dialog are operating-system work done outside the
//! library; their outcomes are handed in and every decision on them is made
//! here.
use vstd::prelude::*;

verus! {

/// What the access flow does next, given whether capture-device access is
/// already available.
#[derive(Clone, Copy, PartialEq, Eq, Structural, Debug)]
pub enum AccessPlan {
    /// Access is already available: nothing to request.
    Granted,
    /// Access is missing: the elevation flow must be requested.
    MustRequest,
}

/// Why the access flow failed.
#[derive(Clone, Copy, PartialEq, Eq, Structural, Debug)]
pub enum PermissionError {
    /// The elevation request itself failed or was refused.
    AuthorizationFailed,
}

/// Decides the capture-device access flow: when access is already available
/// it is reported granted at once, otherwise the elevation flow must run.
pub fn ensure_bpf_access(available: bool) -> (r: AccessPlan)
    ensures
        r == (if available {
            AccessPlan::Granted
        } else {
            AccessPlan::MustRequest
        }),
{
    if available {
        AccessPlan::Granted
    } else {
        AccessPlan::MustRequest
    }
}

/// Settles the access flow after an elevation request: a failed request is
/// an authorization failure; after a successful one the outcome is whatever
/// a fresh probe of the device reports — false when the grant only takes
/// effect at the next login.
pub fn bpf_access_after_request(request_succeeded: bool, available_now: bool) -> (r: Result<
    bool,
    PermissionError,
>)
    ensures
        !request_succeeded ==> r == Err::<bool, PermissionError>(
            PermissionError::AuthorizationFailed,
        ),
        request_succeeded ==> r == Ok::<bool, PermissionError>(available_now),
{
    if !request_succeeded {
        Err(PermissionError::AuthorizationFailed)
    } else {
        Ok(available_now)
    }
}

} // verus!
