//! The closed set of authentication failure kinds and their mapping to
//! HTTP status codes and response bodies.

use vstd::prelude::*;
use vstd::string::*;

verus! {

/// Every way a request can fail to authenticate. Each failure is classified
/// into exactly one of these kinds at the point of detection and is never
/// silently discarded.
#[derive(Clone, Copy, Debug, PartialEq, Eq, Structural)]
pub enum AuthFailure {
    /// No `Authorization` header was present on the request.
    MissingAuthHeader,
    /// An `Authorization` header was present but did not use the
    /// `Bearer <token>` scheme.
    InvalidAuthFormat,
    /// The bearer token had a bad signature, a tampered payload, or is
    /// past its expiry timestamp.
    InvalidOrExpiredToken,
    /// The token verified but no principal with its subject id exists in
    /// the credential store; callers treat this like an invalid token.
    PrincipalNotFound,
    /// The introspection endpoint could not be reached, or did not answer
    /// within the timeout.
    ServiceUnavailable,
    /// The introspection endpoint answered success but its body did not
    /// carry a usable principal identifier.
    ProtocolError,
    /// The signing secret is absent or unusable; a fatal startup condition
    /// of the identity service, never a per-request outcome.
    SigningConfigError,
}

/// The HTTP status under which a failure is reported: 401 for
/// authentication failures proper, 503 when the identity service is
/// unreachable, 500 for a malformed introspection exchange or a signing
/// misconfiguration. The 5xx statuses are deliberately distinct from 401 so
/// a client can tell "unauthenticated" from "the system is degraded".
pub fn rejection_status(failure: &AuthFailure) -> (status: u16)
    ensures
        status == spec_rejection_status(*failure),
{
    match failure {
        AuthFailure::MissingAuthHeader => 401,
        AuthFailure::InvalidAuthFormat => 401,
        AuthFailure::InvalidOrExpiredToken => 401,
        AuthFailure::PrincipalNotFound => 401,
        AuthFailure::ServiceUnavailable => 503,
        AuthFailure::ProtocolError => 500,
        AuthFailure::SigningConfigError => 500,
    }
}

pub open spec fn spec_rejection_status(failure: AuthFailure) -> u16 {
    match failure {
        AuthFailure::MissingAuthHeader => 401,
        AuthFailure::InvalidAuthFormat => 401,
        AuthFailure::InvalidOrExpiredToken => 401,
        AuthFailure::PrincipalNotFound => 401,
        AuthFailure::ServiceUnavailable => 503,
        AuthFailure::ProtocolError => 500,
        AuthFailure::SigningConfigError => 500,
    }
}

/// The machine-readable reason reported with a rejection. A principal that
/// cannot be found is reported exactly like an invalid token, so the
/// response does not reveal whether a subject id ever existed.
pub fn rejection_message(failure: &AuthFailure) -> (message: String)
    ensures
        message@ == spec_rejection_message(*failure),
{
    match failure {
        AuthFailure::MissingAuthHeader => String::from_str("Missing authorization header"),
        AuthFailure::InvalidAuthFormat => String::from_str(
            "Invalid authorization format. Expected 'Bearer <token>'",
        ),
        AuthFailure::InvalidOrExpiredToken => String::from_str("Invalid or expired token"),
        AuthFailure::PrincipalNotFound => String::from_str("Invalid or expired token"),
        AuthFailure::ServiceUnavailable => String::from_str(
            "Authentication service unavailable",
        ),
        AuthFailure::ProtocolError => String::from_str(
            "Invalid response from authentication service",
        ),
        AuthFailure::SigningConfigError => String::from_str("Token signing is misconfigured"),
    }
}

/// The uniform JSON rejection body of the resource service:
/// `{"error": <message>}`.
#[derive(Debug)]
pub struct ErrorResponse {
    pub error: String,
}

/// The rejection body for a failure, carrying its message.
pub fn rejection_body(failure: &AuthFailure) -> (body: ErrorResponse)
    ensures
        body.error@ == spec_rejection_message(*failure),
{
    ErrorResponse { error: rejection_message(failure) }
}

pub open spec fn spec_rejection_message(failure: AuthFailure) -> Seq<char> {
    match failure {
        AuthFailure::MissingAuthHeader => "Missing authorization header"@,
        AuthFailure::InvalidAuthFormat => "Invalid authorization format. Expected 'Bearer <token>'"@,
        AuthFailure::InvalidOrExpiredToken => "Invalid or expired token"@,
        AuthFailure::PrincipalNotFound => "Invalid or expired token"@,
        AuthFailure::ServiceUnavailable => "Authentication service unavailable"@,
        AuthFailure::ProtocolError => "Invalid response from authentication service"@,
        AuthFailure::SigningConfigError => "Token signing is misconfigured"@,
    }
}

} // verus!
