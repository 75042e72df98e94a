//! The token issuer: claims and the signed bearer tokens that carry them.
//!
//! A token is minted once, at login or registration, for a principal the
//! credential store has already verified; it embeds the subject id, the
//! email as of mint time, and an absolute expiry timestamp, and is signed
//! with the signing secret that only the identity service holds. The
//! signing itself is done by the `jsonwebtoken` crate behind trusted
//! wrappers; everything around it is verified.

use vstd::prelude::*;
use vstd::string::*;

verus! {

use crate::failures::AuthFailure;
use crate::principal::Principal;

/// Tokens live for 24 hours from mint.
pub const TOKEN_LIFETIME_SECONDS: u64 = 86400;

/// The claim set embedded in a bearer token: a snapshot taken at mint
/// time. The email may go stale afterwards; introspection re-reads it
/// from the store and treats this copy as advisory only.
#[derive(Debug)]
pub struct Claims {
    /// The subject's opaque unique identifier, UUID-formatted.
    pub subject_id: String,
    /// The subject's email as of mint time.
    pub email: String,
    /// Seconds since the Unix epoch after which the token is dead.
    pub expiry: u64,
}

/// The signed token that encoding a claim set with a secret produces, or
/// `None` where signing fails. A function of its arguments alone: the
/// encoding is deterministic.
pub uninterp spec fn token_of(
    subject_id: Seq<char>,
    email: Seq<char>,
    expiry: u64,
    secret: Seq<char>,
) -> Option<Seq<char>>;

/// The claim set that decoding a token string against a secret yields:
/// subject id, email and expiry, or `None` where the token does not
/// verify against the secret. A function of its arguments alone.
pub uninterp spec fn decode_of(token: Seq<char>, secret: Seq<char>) -> Option<
    (Seq<char>, Seq<char>, u64),
>;

/// Relies on `jsonwebtoken::encode` with HS256: a deterministic signed
/// encoding of the claim set, and on `jsonwebtoken::decode` recovering
/// exactly the claims that were encoded when given the same secret.
#[verifier::external_body]
fn encode_claims(claims: &Claims, secret: &str) -> (r: Option<String>)
    ensures
        r matches Some(t) ==> token_of(claims.subject_id@, claims.email@, claims.expiry, secret@)
            == Some(t@) && decode_of(t@, secret@) == Some(
            (claims.subject_id@, claims.email@, claims.expiry),
        ),
        r is None ==> token_of(claims.subject_id@, claims.email@, claims.expiry, secret@)
            is None,
{
    let mut payload = serde_json::Map::new();
    payload.insert("id".to_string(), serde_json::Value::from(claims.subject_id.as_str()));
    payload.insert("email".to_string(), serde_json::Value::from(claims.email.as_str()));
    payload.insert("exp".to_string(), serde_json::Value::from(claims.expiry));
    let key = jsonwebtoken::EncodingKey::from_secret(secret.as_bytes());
    jsonwebtoken::encode(&jsonwebtoken::Header::default(), &serde_json::Value::Object(payload), &key).ok()
}

/// Relies on `jsonwebtoken::decode` with HS256, expiry checking turned
/// off: the embedded claim set where the signature verifies against the
/// secret, an error otherwise. The field reads go through
/// `serde_json::Value`'s accessors.
#[verifier::external_body]
pub(crate) fn decode_claims(token: &str, secret: &str) -> (r: Option<Claims>)
    ensures
        r matches Some(c) ==> decode_of(token@, secret@) == Some(
            (c.subject_id@, c.email@, c.expiry),
        ),
        r is None ==> decode_of(token@, secret@) is None,
{
    let mut v = jsonwebtoken::Validation::new(jsonwebtoken::Algorithm::HS256);
    v.validate_exp = false;
    v.required_spec_claims = std::collections::HashSet::new();
    let key = jsonwebtoken::DecodingKey::from_secret(secret.as_bytes());
    let c = jsonwebtoken::decode::<serde_json::Value>(token, &key, &v).ok()?.claims;
    let subject_id = c.get("id")?.as_str()?.to_string();
    let email = c.get("email")?.as_str()?.to_string();
    Some(Claims { subject_id, email, expiry: c.get("exp")?.as_u64()? })
}

/// Relies on chrono's `Utc::now`: the clock. Nothing is promised of the
/// value; callers state what holds whatever came back.
#[verifier::external_body]
fn now_unix_seconds() -> i64 {
    chrono::Utc::now().timestamp()
}

/// Mints the bearer token for a principal at a given time: expiry is
/// exactly 24 hours later, and the embedded claims are the principal's id
/// and email as handed in. The caller is trusted to have verified the
/// principal; no independent check is made here. Signing fails only on a
/// misconfigured secret, which is a fatal startup condition.
pub fn mint_at(principal: &Principal, secret: &str, now: u64) -> (r: Result<String, AuthFailure>)
    requires
        now <= u64::MAX - TOKEN_LIFETIME_SECONDS,
    ensures
        (match r {
            Ok(t) => token_of(
                principal.id@,
                principal.email@,
                (now + TOKEN_LIFETIME_SECONDS) as u64,
                secret@,
            ) == Some(t@) && decode_of(t@, secret@) == Some(
                (principal.id@, principal.email@, (now + TOKEN_LIFETIME_SECONDS) as u64),
            ),
            Err(f) => f == AuthFailure::SigningConfigError && token_of(
                principal.id@,
                principal.email@,
                (now + TOKEN_LIFETIME_SECONDS) as u64,
                secret@,
            ) is None,
        }),
{
    let claims = Claims {
        subject_id: principal.id.clone(),
        email: principal.email.clone(),
        expiry: now + TOKEN_LIFETIME_SECONDS,
    };
    match encode_claims(&claims, secret) {
        Some(t) => Ok(t),
        None => Err(AuthFailure::SigningConfigError),
    }
}

/// Mints a token for the principal with the expiry read from the clock:
/// what the login and registration flows call. Whatever the clock said,
/// a minted token decodes back to the principal's id and email under the
/// same secret.
pub fn mint(principal: &Principal, secret: &str) -> (r: Result<String, AuthFailure>)
    ensures
        (match r {
            Ok(t) => decode_of(t@, secret@) matches Some(c) && c.0 == principal.id@ && c.1
                == principal.email@,
            Err(f) => f == AuthFailure::SigningConfigError,
        }),
{
    let clock = now_unix_seconds();
    let now: u64 = if clock < 0 {
        0
    } else {
        clock as u64
    };
    mint_at(principal, secret, now)
}

/// How a login attempt ends when it fails.
#[derive(Clone, Copy, Debug, PartialEq, Eq, Structural)]
pub enum LoginFailure {
    /// The credential store found no principal for the email/password
    /// pair.
    InvalidCredentials,
    /// The signing secret is unusable; reported as a server error, not an
    /// authentication failure.
    SigningConfig,
}

/// A successful authentication: the principal as the store returned it,
/// and the freshly minted bearer token.
#[derive(Debug)]
pub struct AuthSession {
    pub principal: Principal,
    pub token: String,
}

/// What login answers once the credential store has spoken: no principal
/// means the credentials were wrong; for a verified principal a token is
/// minted whose expiry is 24 hours from `now`.
pub fn login_outcome(found: Option<Principal>, secret: &str, now: u64) -> (r: Result<
    AuthSession,
    LoginFailure,
>)
    requires
        now <= u64::MAX - TOKEN_LIFETIME_SECONDS,
    ensures
        found is None ==> r == Err::<AuthSession, LoginFailure>(LoginFailure::InvalidCredentials),
        (match found {
            Some(p) => match r {
                Ok(s) => s.principal == p && token_of(
                    p.id@,
                    p.email@,
                    (now + TOKEN_LIFETIME_SECONDS) as u64,
                    secret@,
                ) == Some(s.token@) && decode_of(s.token@, secret@) == Some(
                    (p.id@, p.email@, (now + TOKEN_LIFETIME_SECONDS) as u64),
                ),
                Err(f) => f == LoginFailure::SigningConfig && token_of(
                    p.id@,
                    p.email@,
                    (now + TOKEN_LIFETIME_SECONDS) as u64,
                    secret@,
                ) is None,
            },
            None => r == Err::<AuthSession, LoginFailure>(LoginFailure::InvalidCredentials),
        }),
{
    match found {
        None => Err(LoginFailure::InvalidCredentials),
        Some(p) => match mint_at(&p, secret, now) {
            Ok(t) => Ok(AuthSession { principal: p, token: t }),
            Err(_) => Err(LoginFailure::SigningConfig),
        },
    }
}

/// How the credential store can refuse a registration, as a closed set
/// of variants matched structurally — never by reading error text.
#[derive(Clone, Copy, Debug, PartialEq, Eq, Structural)]
pub enum StoreRegisterError {
    /// A principal with this email already exists.
    EmailAlreadyRegistered,
    /// The store itself judged the email malformed.
    InvalidEmailFormat,
    /// The store could not be reached or failed; a server-side error.
    Access,
}

/// How a registration attempt ends when it fails.
#[derive(Clone, Copy, Debug, PartialEq, Eq, Structural)]
pub enum RegisterFailure {
    /// Refused by the store: the email is taken.
    EmailAlreadyRegistered,
    /// Refused by the store: the email is malformed.
    InvalidEmailFormat,
    /// The store failed; reported as a server error.
    StoreAccess,
    /// The signing secret is unusable; reported as a server error.
    SigningConfig,
}

/// What registration answers once the credential store has spoken: a
/// store refusal is passed through as its typed variant, and for a newly
/// created principal a token is minted whose expiry is 24 hours from
/// `now`.
pub fn register_outcome(stored: Result<Principal, StoreRegisterError>, secret: &str, now: u64) -> (r:
    Result<AuthSession, RegisterFailure>)
    requires
        now <= u64::MAX - TOKEN_LIFETIME_SECONDS,
    ensures
        (match stored {
            Err(StoreRegisterError::EmailAlreadyRegistered) => r == Err::<
                AuthSession,
                RegisterFailure,
            >(RegisterFailure::EmailAlreadyRegistered),
            Err(StoreRegisterError::InvalidEmailFormat) => r == Err::<
                AuthSession,
                RegisterFailure,
            >(RegisterFailure::InvalidEmailFormat),
            Err(StoreRegisterError::Access) => r == Err::<AuthSession, RegisterFailure>(
                RegisterFailure::StoreAccess,
            ),
            Ok(p) => match r {
                Ok(s) => s.principal == p && token_of(
                    p.id@,
                    p.email@,
                    (now + TOKEN_LIFETIME_SECONDS) as u64,
                    secret@,
                ) == Some(s.token@) && decode_of(s.token@, secret@) == Some(
                    (p.id@, p.email@, (now + TOKEN_LIFETIME_SECONDS) as u64),
                ),
                Err(f) => f == RegisterFailure::SigningConfig && token_of(
                    p.id@,
                    p.email@,
                    (now + TOKEN_LIFETIME_SECONDS) as u64,
                    secret@,
                ) is None,
            },
        }),
{
    match stored {
        Err(StoreRegisterError::EmailAlreadyRegistered) => Err(
            RegisterFailure::EmailAlreadyRegistered,
        ),
        Err(StoreRegisterError::InvalidEmailFormat) => Err(RegisterFailure::InvalidEmailFormat),
        Err(StoreRegisterError::Access) => Err(RegisterFailure::StoreAccess),
        Ok(p) => match mint_at(&p, secret, now) {
            Ok(t) => Ok(AuthSession { principal: p, token: t }),
            Err(_) => Err(RegisterFailure::SigningConfig),
        },
    }
}

} // verus!
