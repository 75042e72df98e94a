//! The protected handler adapter: the uniform pattern every protected
//! route applies. Extract the header, hand it to the verifier delegate,
//! and either inject the resolved principal id into the downstream
//! operation or stop with a structured HTTP rejection.
//!
//! Per request the adapter walks a small state machine —
//! unauthenticated, pending verification, then authenticated or rejected
//! — terminal within the one request; no session state survives it. The
//! adapter is a single cross-cutting guard, so no route can reach its
//! domain operation without passing through it.

use vstd::prelude::*;
use vstd::string::*;

verus! {

use crate::failures::{
    AuthFailure,
    ErrorResponse,
    rejection_body,
    rejection_status,
    spec_rejection_message,
    spec_rejection_status,
};
use crate::headers::{opt_str_view, spec_extract_token, extract_token_from_headers};
use crate::delegate::{
    IntrospectionExchange,
    extract_user_id,
    spec_interpret_exchange,
    spec_verify,
};
use crate::text::{is_blank, str_is_blank, trimmed};

/// Where one request stands in its authorization walk.
pub enum AuthState {
    /// Nothing has been looked at yet.
    Unauthenticated,
    /// The bearer token was extracted and the introspection exchange is
    /// owed; the token it will be made for is carried along.
    PendingVerification { token: String },
    /// Terminal: the request acts for this principal.
    Authenticated { principal_id: String },
    /// Terminal: the request is refused for this reason.
    Rejected { failure: AuthFailure },
}

/// The first step: from unauthenticated to pending or rejected, on the
/// header alone. A request whose header is absent, malformed or carries
/// a blank token is rejected without any network exchange.
pub fn begin_request(header: Option<&str>) -> (state: AuthState)
    ensures
        (match spec_extract_token(opt_str_view(header)) {
            Err(f) => state matches AuthState::Rejected { failure } && failure == f,
            Ok(tok) => if trimmed(tok).len() == 0 {
                state matches AuthState::Rejected { failure } && failure
                    == AuthFailure::InvalidOrExpiredToken
            } else {
                state matches AuthState::PendingVerification { token } && token@ == tok
            },
        }),
{
    match extract_token_from_headers(header) {
        Err(f) => AuthState::Rejected { failure: f },
        Ok(token) => {
            if str_is_blank(token.as_str()) {
                AuthState::Rejected { failure: AuthFailure::InvalidOrExpiredToken }
            } else {
                AuthState::PendingVerification { token }
            }
        },
    }
}

/// The second step: from pending to a terminal state, on the outcome of
/// the introspection exchange made for the pending token.
pub fn complete_request(state: AuthState, exchange: &IntrospectionExchange) -> (next: AuthState)
    requires
        state matches AuthState::PendingVerification { token: t } && !is_blank(t@),
    ensures
        (match spec_interpret_exchange(*exchange) {
            Ok(id) => next matches AuthState::Authenticated { principal_id } && principal_id@
                == id,
            Err(f) => next matches AuthState::Rejected { failure } && failure == f,
        }),
{
    let token = match state {
        AuthState::PendingVerification { token } => token,
        _ => {
            proof {
                assert(false);
            }
            return AuthState::Rejected { failure: AuthFailure::ProtocolError };
        },
    };
    match extract_user_id(token.as_str(), exchange) {
        Ok(id) => AuthState::Authenticated { principal_id: id },
        Err(f) => AuthState::Rejected { failure: f },
    }
}

/// The one guard every protected route calls: the principal id to scope
/// the domain operation by, or the HTTP status and body to stop with.
pub fn guard_request(header: Option<&str>, exchange: &IntrospectionExchange) -> (r: Result<
    String,
    (u16, ErrorResponse),
>)
    ensures
        (match spec_verify(opt_str_view(header), *exchange) {
            Ok(id) => r matches Ok(s) && s@ == id,
            Err(f) => r matches Err(rej) && rej.0 == spec_rejection_status(f) && rej.1.error@
                == spec_rejection_message(f),
        }),
{
    match crate::delegate::verify(header, exchange) {
        Ok(id) => Ok(id),
        Err(f) => Err((rejection_status(&f), rejection_body(&f))),
    }
}

} // verus!
