use vstd::prelude::*;

verus! {

/// What one step of the wire protocol (a submitted query or a stream-back
/// of its rows) reported.
#[derive(Debug)]
pub enum StepOutcome {
    /// The server acknowledged the step.
    Success,
    /// The server answered with a non-success message; the detail is for
    /// server-side logs only and must never reach an RPC caller.
    Failure(String),
    /// The transport failed; the connection is presumed gone.
    CommunicationError(String),
}

/// The failures the library itself can report. Transport failures, protocol
/// failures and pool exhaustion all collapse into the single opaque
/// `Unavailable`, so a caller cannot distinguish them and no wire detail
/// leaks. The other two variants are programming or store faults that must
/// fail the request loudly.
#[derive(Clone, Copy, PartialEq, Eq, Structural, Debug)]
pub enum ServiceError {
    /// The backing store could not be used; the one shape every database
    /// problem takes at the RPC boundary.
    Unavailable,
    /// A raw row did not match the positional layout its query template
    /// promises; a template/projection contract break.
    ProjectionMismatch,
    /// Two queries of one aggregation disagreed about which identities
    /// exist; a data-consistency fault of the store.
    Inconsistent,
}

/// Classification policy for one protocol step, per the recovery rules:
/// a protocol-level `Failure` asks for a best-effort session reset (the
/// connection is still alive but its server-side state is suspect), a
/// `CommunicationError` does not (the session is presumed gone), and both
/// collapse into the opaque `Unavailable` error.
///
/// The first component of the result says whether the session must be
/// reset before reuse; the second is what the caller of the cycle sees.
pub fn classify_outcome(o: &StepOutcome) -> (r: (bool, Result<(), ServiceError>))
    ensures
        o is Success ==> r == (false, Ok::<(), ServiceError>(())),
        o is Failure ==> r == (true, Err::<(), ServiceError>(ServiceError::Unavailable)),
        o is CommunicationError ==> r == (
            false,
            Err::<(), ServiceError>(ServiceError::Unavailable),
        ),
{
    match o {
        StepOutcome::Success => (false, Ok(())),
        StepOutcome::Failure(_) => (true, Err(ServiceError::Unavailable)),
        StepOutcome::CommunicationError(_) => (false, Err(ServiceError::Unavailable)),
    }
}

/// Failing to acquire a session from the pool surfaces as the same opaque
/// error as a protocol failure: callers see one failure shape for every
/// backing-store problem.
pub fn pool_error_status() -> (e: ServiceError)
    ensures
        e == ServiceError::Unavailable,
{
    ServiceError::Unavailable
}

/// The one message the RPC boundary carries for any backing-store problem;
/// deliberately free of protocol detail.
pub fn opaque_status_message() -> (m: &'static str)
    ensures
        m@ == "Bad Database"@,
{
    "Bad Database"
}

} // verus!
