//! The verifier delegate and the protected handler adapter: header
//! handling, classification of every exchange outcome, and the uniform
//! rejection mapping.

use authcore::adapter::{begin_request, complete_request, guard_request, AuthState};
use authcore::delegate::{extract_user_id, verify, IntrospectionExchange};
use authcore::failures::{rejection_body, rejection_status, AuthFailure};
use authcore::headers::extract_token_from_headers;
use authcore::introspection::introspect;
use authcore::principal::{Principal, PrincipalStore};
use authcore::token::mint_at;

const SECRET: &str = "SECRET-REDACTED";
const SOME_UUID: &str = "123e4567-e89b-12d3-a456-426614174000";

fn ok_exchange(id: &str) -> IntrospectionExchange {
    IntrospectionExchange::Response {
        status: 200,
        body: format!(r#"{{"id":"{}","email":"a@example.com"}}"#, id),
    }
}

#[test]
fn extract_token_splits_header() {
    let token = extract_token_from_headers(Some("Bearer abc.def.ghi")).expect("bearer");
    assert_eq!(token, "abc.def.ghi");
    assert_eq!(
        extract_token_from_headers(None).unwrap_err(),
        AuthFailure::MissingAuthHeader
    );
    assert_eq!(
        extract_token_from_headers(Some("Token abc")).unwrap_err(),
        AuthFailure::InvalidAuthFormat
    );
    assert_eq!(
        extract_token_from_headers(Some("Bearer")).unwrap_err(),
        AuthFailure::InvalidAuthFormat
    );
}

#[test]
fn verify_without_header_is_missing_auth_header() {
    let got = verify(None, &ok_exchange(SOME_UUID));
    assert_eq!(got.unwrap_err(), AuthFailure::MissingAuthHeader);
}

#[test]
fn verify_with_wrong_scheme_is_invalid_format() {
    let got = verify(Some("Token abc"), &ok_exchange(SOME_UUID));
    assert_eq!(got.unwrap_err(), AuthFailure::InvalidAuthFormat);
}

#[test]
fn verify_with_blank_token_never_needs_the_exchange() {
    let got = verify(Some("Bearer    "), &ok_exchange(SOME_UUID));
    assert_eq!(got.unwrap_err(), AuthFailure::InvalidOrExpiredToken);
}

#[test]
fn verify_unreachable_service_is_service_unavailable() {
    let got = verify(Some("Bearer sometoken"), &IntrospectionExchange::Unreachable);
    assert_eq!(got.unwrap_err(), AuthFailure::ServiceUnavailable);
}

#[test]
fn verify_success_response_yields_the_identifier() {
    let got = verify(Some("Bearer sometoken"), &ok_exchange(SOME_UUID));
    assert_eq!(got.expect("2xx with id"), SOME_UUID);
}

#[test]
fn verify_rejection_status_is_invalid_token() {
    let ex = IntrospectionExchange::Response {
        status: 401,
        body: r#"{"error":"Invalid token"}"#.to_string(),
    };
    let got = verify(Some("Bearer sometoken"), &ex);
    assert_eq!(got.unwrap_err(), AuthFailure::InvalidOrExpiredToken);
}

#[test]
fn verify_unusable_bodies_are_protocol_errors() {
    let cases: Vec<String> = vec![
        "not json at all".to_string(),
        r#"{"email":"a@example.com"}"#.to_string(),
        r#"{"id":5}"#.to_string(),
        r#"{"id":"   "}"#.to_string(),
        r#"{"id":"not-a-uuid"}"#.to_string(),
        r#"[1,2,3]"#.to_string(),
    ];
    for body in cases {
        let ex = IntrospectionExchange::Response { status: 200, body };
        let got = verify(Some("Bearer sometoken"), &ex);
        assert_eq!(got.unwrap_err(), AuthFailure::ProtocolError);
    }
}

#[test]
fn extract_user_id_rejects_blank_token() {
    let got = extract_user_id("   ", &ok_exchange(SOME_UUID));
    assert_eq!(got.unwrap_err(), AuthFailure::InvalidOrExpiredToken);
}

#[test]
fn guard_maps_missing_header_to_401_body() {
    let got = guard_request(None, &ok_exchange(SOME_UUID));
    let (status, body) = got.unwrap_err();
    assert_eq!(status, 401);
    assert_eq!(body.error, "Missing authorization header");
}

#[test]
fn guard_maps_wrong_scheme_to_401_body() {
    let got = guard_request(Some("Token abc"), &ok_exchange(SOME_UUID));
    let (status, body) = got.unwrap_err();
    assert_eq!(status, 401);
    assert_eq!(
        body.error,
        "Invalid authorization format. Expected 'Bearer <token>'"
    );
}

#[test]
fn guard_maps_unreachable_service_to_503() {
    let got = guard_request(Some("Bearer sometoken"), &IntrospectionExchange::Unreachable);
    let (status, body) = got.unwrap_err();
    assert_eq!(status, 503);
    assert_eq!(body.error, "Authentication service unavailable");
}

#[test]
fn guard_passes_the_principal_id_through() {
    let got = guard_request(Some("Bearer sometoken"), &ok_exchange(SOME_UUID));
    assert_eq!(got.expect("authorized"), SOME_UUID);
}

#[test]
fn rejection_mapping_is_stable() {
    let all = [
        (AuthFailure::MissingAuthHeader, 401u16, "Missing authorization header"),
        (
            AuthFailure::InvalidAuthFormat,
            401,
            "Invalid authorization format. Expected 'Bearer <token>'",
        ),
        (AuthFailure::InvalidOrExpiredToken, 401, "Invalid or expired token"),
        (AuthFailure::PrincipalNotFound, 401, "Invalid or expired token"),
        (AuthFailure::ServiceUnavailable, 503, "Authentication service unavailable"),
        (AuthFailure::ProtocolError, 500, "Invalid response from authentication service"),
        (AuthFailure::SigningConfigError, 500, "Token signing is misconfigured"),
    ];
    for (failure, status, message) in all {
        assert_eq!(rejection_status(&failure), status);
        assert_eq!(rejection_body(&failure).error, message);
    }
}

#[test]
fn request_walks_to_authenticated() {
    let state = begin_request(Some("Bearer sometoken"));
    assert!(matches!(state, AuthState::PendingVerification { .. }));
    let done = complete_request(state, &ok_exchange(SOME_UUID));
    match done {
        AuthState::Authenticated { principal_id } => assert_eq!(principal_id, SOME_UUID),
        _ => panic!("expected an authenticated terminal state"),
    }
}

#[test]
fn request_walks_to_rejected_without_header() {
    let state = begin_request(None);
    match state {
        AuthState::Rejected { failure } => {
            assert_eq!(failure, AuthFailure::MissingAuthHeader)
        }
        _ => panic!("expected a rejected terminal state"),
    }
}

#[test]
fn request_walks_to_rejected_on_failed_exchange() {
    let state = begin_request(Some("Bearer sometoken"));
    let done = complete_request(state, &IntrospectionExchange::Unreachable);
    match done {
        AuthState::Rejected { failure } => {
            assert_eq!(failure, AuthFailure::ServiceUnavailable)
        }
        _ => panic!("expected a rejected terminal state"),
    }
}

#[test]
fn reresolution_holds_across_the_service_boundary() {
    // identity side: mint, change the stored email, introspect
    let p = Principal {
        id: SOME_UUID.to_string(),
        email: "a@example.com".to_string(),
        created_at: 0,
    };
    let mut store = PrincipalStore::new();
    assert!(store.register(Principal {
        id: p.id.clone(),
        email: p.email.clone(),
        created_at: 0,
    }));
    let now: u64 = 42;
    let token = mint_at(&p, SECRET, now).expect("minting must succeed");
    assert!(store.update_email(p.id.as_str(), "b@example.com".to_string()));
    let header = format!("Bearer {}", token);
    let fresh = introspect(&store, SECRET, Some(header.as_str()), now).expect("valid");
    assert_eq!(fresh.email, "b@example.com");
    // resource side: the introspection response carries the fresh record,
    // and the delegate resolves the same principal id from it
    let body = format!(r#"{{"id":"{}","email":"{}"}}"#, fresh.id, fresh.email);
    let ex = IntrospectionExchange::Response { status: 200, body };
    let got = verify(Some(header.as_str()), &ex);
    assert_eq!(got.expect("authorized"), p.id);
}
