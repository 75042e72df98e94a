//! The verifier delegate: how the resource service, which deliberately
//! holds no signing secret, turns a request's bearer token into a
//! principal identifier.
//!
//! The delegate forwards the Authorization header to the identity
//! service's introspection endpoint over the network under a fixed
//! five-second timeout and never retries. The network call itself is I/O
//! and happens outside the library; what stands here, verified, is every
//! decision around it: when the call is made at all, and how each
//! possible outcome of the exchange is classified.

use vstd::prelude::*;
use vstd::string::*;

verus! {

use crate::failures::AuthFailure;
use crate::headers::{opt_str_view, spec_extract_token, extract_token_from_headers};
use crate::text::{is_blank, str_is_blank, trimmed};

/// The seconds the delegate waits for the introspection endpoint.
pub const INTROSPECTION_TIMEOUT_SECONDS: u64 = 5;

/// Every way the HTTP exchange with the introspection endpoint can end,
/// as the delegate sees it.
pub enum IntrospectionExchange {
    /// No response arrived: the transport failed or the timeout struck.
    Unreachable,
    /// A response arrived with this status code and body text.
    Response { status: u16, body: String },
}

/// The identifier field of the introspection response body, if the body
/// is a JSON object whose `id` member is a string. A function of the body
/// text alone.
pub uninterp spec fn json_id_of(body: Seq<char>) -> Option<Seq<char>>;

/// Whether `uuid` accepts the string as a UUID. A function of the string
/// alone.
pub uninterp spec fn uuid_ok(s: Seq<char>) -> bool;

/// Relies on `serde_json::from_str` for `serde_json::Value`, with the
/// `id` member read through `Value::get` and `Value::as_str`.
#[verifier::external_body]
fn parse_id_field(body: &str) -> (r: Option<String>)
    ensures
        r matches Some(s) ==> json_id_of(body@) == Some(s@),
        r is None ==> json_id_of(body@) is None,
{
    let v: serde_json::Value = match serde_json::from_str(body) {
        Ok(v) => v,
        Err(_) => return None,
    };
    match v.get("id") {
        Some(f) => match f.as_str() {
            Some(s) => Some(s.to_string()),
            None => None,
        },
        None => None,
    }
}

/// Relies on `uuid::Uuid::parse_str`: whether the string is a
/// well-formed UUID.
#[verifier::external_body]
fn is_uuid(s: &str) -> (r: bool)
    ensures
        r == uuid_ok(s@),
{
    uuid::Uuid::parse_str(s).is_ok()
}

/// How each outcome of the exchange is classified. No response is
/// `ServiceUnavailable`; a non-2xx status is `InvalidOrExpiredToken`
/// without looking closer at the identity service's reason; a success
/// response whose body carries no usable UUID identifier is a
/// `ProtocolError`; otherwise the identifier is the answer.
pub open spec fn spec_interpret_exchange(ex: IntrospectionExchange) -> Result<
    Seq<char>,
    AuthFailure,
> {
    match ex {
        IntrospectionExchange::Unreachable => Err(AuthFailure::ServiceUnavailable),
        IntrospectionExchange::Response { status, body } => if !(200 <= status < 300) {
            Err(AuthFailure::InvalidOrExpiredToken)
        } else {
            match json_id_of(body@) {
                None => Err(AuthFailure::ProtocolError),
                Some(id) => if trimmed(id).len() == 0 {
                    Err(AuthFailure::ProtocolError)
                } else if !uuid_ok(id) {
                    Err(AuthFailure::ProtocolError)
                } else {
                    Ok(id)
                },
            }
        },
    }
}

/// Turns a bearer token and the outcome of the introspection exchange
/// made for it into the principal identifier. A blank token is rejected
/// before any exchange is made, so the outcome plays no part then.
pub fn extract_user_id(token: &str, exchange: &IntrospectionExchange) -> (r: Result<
    String,
    AuthFailure,
>)
    ensures
        is_blank(token@) ==> r == Err::<String, AuthFailure>(AuthFailure::InvalidOrExpiredToken),
        !is_blank(token@) ==> (match r {
            Ok(s) => spec_interpret_exchange(*exchange) == Ok::<Seq<char>, AuthFailure>(s@),
            Err(f) => spec_interpret_exchange(*exchange) == Err::<Seq<char>, AuthFailure>(f),
        }),
{
    if str_is_blank(token) {
        return Err(AuthFailure::InvalidOrExpiredToken);
    }
    match exchange {
        IntrospectionExchange::Unreachable => Err(AuthFailure::ServiceUnavailable),
        IntrospectionExchange::Response { status, body } => {
            if *status < 200 || *status >= 300 {
                return Err(AuthFailure::InvalidOrExpiredToken);
            }
            let id = match parse_id_field(body.as_str()) {
                Some(id) => id,
                None => {
                    return Err(AuthFailure::ProtocolError);
                },
            };
            if str_is_blank(id.as_str()) {
                return Err(AuthFailure::ProtocolError);
            }
            if !is_uuid(id.as_str()) {
                return Err(AuthFailure::ProtocolError);
            }
            Ok(id)
        },
    }
}

/// What the whole delegate answers for a header and an exchange outcome:
/// header extraction first — its failure stands on its own, before any
/// network call — then the blank-token precheck, then the exchange.
pub open spec fn spec_verify(h: Option<Seq<char>>, ex: IntrospectionExchange) -> Result<
    Seq<char>,
    AuthFailure,
> {
    match spec_extract_token(h) {
        Err(f) => Err(f),
        Ok(tok) => if trimmed(tok).len() == 0 {
            Err(AuthFailure::InvalidOrExpiredToken)
        } else {
            spec_interpret_exchange(ex)
        },
    }
}

/// The delegate's contract: convert a raw `Authorization` header into a
/// principal identifier by way of the introspection exchange. With no
/// header the answer is `MissingAuthHeader` and with a non-bearer scheme
/// `InvalidAuthFormat`, whatever the exchange outcome; an unreachable
/// identity service is `ServiceUnavailable`, never a hang or a retry.
pub fn verify(header: Option<&str>, exchange: &IntrospectionExchange) -> (r: Result<
    String,
    AuthFailure,
>)
    ensures
        (match r {
            Ok(s) => spec_verify(opt_str_view(header), *exchange) == Ok::<Seq<char>, AuthFailure>(
                s@,
            ),
            Err(f) => spec_verify(opt_str_view(header), *exchange) == Err::<Seq<char>, AuthFailure>(
                f,
            ),
        }),
{
    let token = match extract_token_from_headers(header) {
        Ok(t) => t,
        Err(f) => {
            return Err(f);
        },
    };
    extract_user_id(token.as_str(), exchange)
}

} // verus!
