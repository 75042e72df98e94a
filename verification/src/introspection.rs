//! The introspection endpoint: the single place that ever touches the
//! signing secret on the verification path.
//!
//! Given a raw `Authorization` header it extracts the bearer token,
//! verifies signature and expiry, and then re-resolves the principal by
//! subject id against the credential store — the embedded email is never
//! trusted. A token is acceptable only if its signature verifies and the
//! current time is strictly before its expiry timestamp.

use vstd::prelude::*;
use vstd::string::*;

verus! {

use crate::failures::AuthFailure;
use crate::headers::{opt_str_view, spec_extract_token, extract_token_from_headers};
use crate::principal::{Principal, PrincipalStore, spec_find};
use crate::token::{Claims, decode_of};

/// What token checking answers for a header, a secret and a time: the
/// claim set, or the failure. Step one is header extraction; step two is
/// signature verification; step three rejects a token whose expiry is not
/// strictly in the future.
pub open spec fn spec_check_token(
    secret: Seq<char>,
    header: Option<Seq<char>>,
    now: u64,
) -> Result<(Seq<char>, Seq<char>, u64), AuthFailure> {
    match spec_extract_token(header) {
        Err(f) => Err(f),
        Ok(tok) => match decode_of(tok, secret) {
            None => Err(AuthFailure::InvalidOrExpiredToken),
            Some(c) => if now >= c.2 {
                Err(AuthFailure::InvalidOrExpiredToken)
            } else {
                Ok(c)
            },
        },
    }
}

/// Verifies a bearer header against the signing secret at a given time
/// and returns the embedded claims. A bad signature, a tampered payload
/// and a passed expiry are reported alike, as `InvalidOrExpiredToken`.
pub fn check_token(secret: &str, header: Option<&str>, now: u64) -> (r: Result<
    Claims,
    AuthFailure,
>)
    ensures
        (match r {
            Ok(c) => spec_check_token(secret@, opt_str_view(header), now) == Ok::<
                (Seq<char>, Seq<char>, u64),
                AuthFailure,
            >((c.subject_id@, c.email@, c.expiry)),
            Err(f) => spec_check_token(secret@, opt_str_view(header), now) == Err::<
                (Seq<char>, Seq<char>, u64),
                AuthFailure,
            >(f),
        }),
{
    let token = match extract_token_from_headers(header) {
        Ok(t) => t,
        Err(f) => {
            return Err(f);
        },
    };
    let claims = match crate::token::decode_claims(token.as_str(), secret) {
        Some(c) => c,
        None => {
            return Err(AuthFailure::InvalidOrExpiredToken);
        },
    };
    if now >= claims.expiry {
        return Err(AuthFailure::InvalidOrExpiredToken);
    }
    Ok(claims)
}

/// What introspection answers: the current store record for the token's
/// subject, or the failure. The email handed back is the one on file now,
/// not the one embedded in the token.
pub open spec fn spec_introspect(
    store: Seq<Principal>,
    secret: Seq<char>,
    header: Option<Seq<char>>,
    now: u64,
) -> Result<Principal, AuthFailure> {
    match spec_check_token(secret, header, now) {
        Err(f) => Err(f),
        Ok(c) => match spec_find(store, c.0) {
            None => Err(AuthFailure::PrincipalNotFound),
            Some(p) => Ok(p),
        },
    }
}

/// Validates the bearer header and re-resolves the principal against the
/// credential store. A token whose subject no longer exists yields
/// `PrincipalNotFound`, which callers treat like an invalid token.
pub fn introspect(store: &PrincipalStore, secret: &str, header: Option<&str>, now: u64) -> (r:
    Result<Principal, AuthFailure>)
    ensures
        r == spec_introspect(store@, secret@, opt_str_view(header), now),
{
    let claims = match check_token(secret, header, now) {
        Ok(c) => c,
        Err(f) => {
            return Err(f);
        },
    };
    match store.find_by_id(claims.subject_id.as_str()) {
        None => Err(AuthFailure::PrincipalNotFound),
        Some(p) => Ok(p),
    }
}

} // verus!
