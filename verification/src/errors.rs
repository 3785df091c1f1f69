//! The error taxonomy of the authentication and authorization core.

use vstd::prelude::*;

verus! {

/// Every failure the core can report, as a kind.
///
/// Credential failures, token failures, authorization failures and server
/// faults are kept distinct: each maps to a different response at the boundary,
/// and none may be silently downgraded into another.
#[derive(Clone, Copy, Debug, PartialEq, Eq, Structural)]
pub enum AuthError {
    /// The identifier is unknown or the secret does not match; the two cases
    /// are indistinguishable on purpose, to prevent account enumeration.
    InvalidCredentials,
    /// A malformed, forged, or algorithm-mismatched token was presented.
    InvalidToken,
    /// No usable identity could be resolved for an endpoint that requires one.
    Unauthorized,
    /// The resolved identity does not own the targeted resource.
    Forbidden,
    /// The targeted resource does not exist; checked before ownership.
    NotFound,
    /// The signing key was unusable or the claims could not be encoded.
    SigningError,
    /// A server-side fault, such as a failure of the password hasher.
    InternalError,
    /// Malformed input to the issuance flow, such as a missing field.
    ValidationError,
}

} // verus!
