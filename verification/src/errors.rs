use vstd::prelude::*;

verus! {

/// A structured error payload decoded from a remote auth failure body.
#[derive(Debug)]
pub struct AuthError {
    /// The top-level error code the remote service reported.
    pub error: String,
    /// A human-readable description of the failure.
    pub error_description: String,
}

/// Every failure the broker can surface. Nothing is retried or recovered
/// internally; each error is returned to the caller as a value, and the
/// cache is left in its pre-call state on every error path.
#[derive(Debug)]
pub enum Error {
    /// The remote service answered with a non-success status and a JSON body
    /// this crate could decode into a structured auth failure.
    Auth(AuthError),
    /// The remote service answered with a non-success status and a body that
    /// was not a decodable structured auth failure; carries the raw status.
    HttpStatus(u16),
    /// The remote service answered with a success status but a body that
    /// does not match the expected success schema.
    Json,
    /// A request description could not be built because a header value
    /// derived from input data holds a byte no HTTP header value may hold.
    InvalidHeaderValue,
    /// A guard around a shared cache was left in a failed state by a holder
    /// that aborted. The verified core never produces this value; it exists
    /// for embedders that share one provider across threads behind a lock.
    Poisoned,
}

} // verus!
