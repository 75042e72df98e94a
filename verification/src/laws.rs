//! The laws that relate minting and introspection. Each proof function
//! here is part of what the library states: its doc comment gives the law
//! in words, its clauses pin it over the same specification functions
//! that the executable functions' contracts use.

use vstd::prelude::*;
use vstd::string::*;

verus! {

use crate::delegate::{IntrospectionExchange, spec_verify};
use crate::failures::AuthFailure;
use crate::headers::{has_bearer_scheme, bearer_token_of, spec_extract_token};
use crate::introspection::spec_introspect;
use crate::principal::{Principal, spec_find};
use crate::text::trimmed;
use crate::token::decode_of;

/// The header that carries a token: `Bearer ` and the token after it.
pub open spec fn bearer_header(token: Seq<char>) -> Seq<char> {
    "Bearer "@ + token
}

/// A header built from a token is well-formed and gives the token back.
pub proof fn lemma_bearer_header_roundtrip(token: Seq<char>)
    ensures
        has_bearer_scheme(bearer_header(token)),
        bearer_token_of(bearer_header(token)) == token,
{
    reveal_strlit("Bearer ");
    assert(bearer_header(token).subrange(0, 7) =~= "Bearer "@);
    assert(bearer_token_of(bearer_header(token)) =~= token);
}

/// The record that lookup answers carries the subject id it was asked
/// for.
pub proof fn lemma_spec_find_id(records: Seq<Principal>, id: Seq<char>)
    requires
        spec_find(records, id) is Some,
    ensures
        spec_find(records, id) matches Some(p) && p.id@ == id,
    decreases records.len(),
{
    if records.len() > 0 && records[0].id@ != id {
        lemma_spec_find_id(records.drop_first(), id);
    }
}

/// A minted token introspects to its own principal: for a token whose
/// claims carry subject id `sid` — what minting for a principal with that
/// id ensures — and any time before its expiry, introspection answers the
/// store's current record for `sid`, whose id is `sid` itself.
pub proof fn lemma_minted_token_introspects(
    store: Seq<Principal>,
    secret: Seq<char>,
    token: Seq<char>,
    sid: Seq<char>,
    email: Seq<char>,
    expiry: u64,
    now: u64,
    current: Principal,
)
    requires
        decode_of(token, secret) == Some((sid, email, expiry)),
        now < expiry,
        spec_find(store, sid) == Some(current),
    ensures
        spec_introspect(store, secret, Some(bearer_header(token)), now) == Ok::<
            Principal,
            AuthFailure,
        >(current),
        current.id@ == sid,
{
    lemma_bearer_header_roundtrip(token);
    lemma_spec_find_id(store, sid);
}

/// A dead token stays dead: once `now` has reached a token's expiry — or
/// where the token never verified at all — introspection answers
/// `InvalidOrExpiredToken`, whatever the store holds.
pub proof fn lemma_expired_token_rejected(
    store: Seq<Principal>,
    secret: Seq<char>,
    token: Seq<char>,
    now: u64,
)
    requires
        (match decode_of(token, secret) {
            Some(c) => now >= c.2,
            None => true,
        }),
    ensures
        spec_introspect(store, secret, Some(bearer_header(token)), now) == Err::<
            Principal,
            AuthFailure,
        >(AuthFailure::InvalidOrExpiredToken),
{
    lemma_bearer_header_roundtrip(token);
}

/// Introspection is idempotent: two introspections of one header against
/// one store that both succeed answer the identical principal, whatever
/// the two times were.
pub proof fn lemma_introspect_idempotent(
    store: Seq<Principal>,
    secret: Seq<char>,
    header: Option<Seq<char>>,
    now1: u64,
    now2: u64,
)
    requires
        spec_introspect(store, secret, header, now1) is Ok,
        spec_introspect(store, secret, header, now2) is Ok,
    ensures
        spec_introspect(store, secret, header, now1) == spec_introspect(
            store,
            secret,
            header,
            now2,
        ),
{
}

/// The embedded email is advisory only: two tokens for the same subject,
/// each valid at its own time, introspect to the identical principal —
/// the store's current record — however their embedded emails and
/// expiries differ.
pub proof fn lemma_embedded_email_is_advisory(
    store: Seq<Principal>,
    secret: Seq<char>,
    token1: Seq<char>,
    token2: Seq<char>,
    sid: Seq<char>,
    email1: Seq<char>,
    email2: Seq<char>,
    expiry1: u64,
    expiry2: u64,
    now1: u64,
    now2: u64,
)
    requires
        decode_of(token1, secret) == Some((sid, email1, expiry1)),
        decode_of(token2, secret) == Some((sid, email2, expiry2)),
        now1 < expiry1,
        now2 < expiry2,
    ensures
        spec_introspect(store, secret, Some(bearer_header(token1)), now1) == spec_introspect(
            store,
            secret,
            Some(bearer_header(token2)),
            now2,
        ),
{
    lemma_bearer_header_roundtrip(token1);
    lemma_bearer_header_roundtrip(token2);
}

/// Re-resolution: a still-valid token answers the email the store holds
/// now, not the snapshot embedded at mint time. After the record with the
/// token's subject id changes its email, introspection of the unchanged
/// token answers the new email.
pub proof fn lemma_reresolution(
    store: Seq<Principal>,
    secret: Seq<char>,
    token: Seq<char>,
    sid: Seq<char>,
    email_at_mint: Seq<char>,
    expiry: u64,
    now: u64,
    current: Principal,
)
    requires
        decode_of(token, secret) == Some((sid, email_at_mint, expiry)),
        now < expiry,
        spec_find(store, sid) == Some(current),
    ensures
        (match spec_introspect(store, secret, Some(bearer_header(token)), now) {
            Ok(p) => p.email == current.email,
            Err(_) => false,
        }),
{
    lemma_minted_token_introspects(store, secret, token, sid, email_at_mint, expiry, now, current);
}

/// The delegate never asks the network about a request it can refuse
/// alone: with no Authorization header it answers `MissingAuthHeader`,
/// and with a header that does not use the bearer scheme
/// `InvalidAuthFormat` — whatever the introspection exchange held.
pub proof fn lemma_verify_requires_bearer_header(
    header: Option<Seq<char>>,
    exchange: IntrospectionExchange,
)
    ensures
        header is None ==> spec_verify(header, exchange) == Err::<Seq<char>, AuthFailure>(
            AuthFailure::MissingAuthHeader,
        ),
        header matches Some(h) && !has_bearer_scheme(h) ==> spec_verify(header, exchange)
            == Err::<Seq<char>, AuthFailure>(AuthFailure::InvalidAuthFormat),
{
}

/// An unreachable identity service is always `ServiceUnavailable`: for
/// every request that actually reaches the network — a bearer header with
/// a non-blank token — a failed or timed-out exchange is classified as
/// `ServiceUnavailable`, never anything else and never a hang.
pub proof fn lemma_unreachable_is_service_unavailable(header: Option<Seq<char>>)
    requires
        spec_extract_token(header) matches Ok(t) && trimmed(t).len() > 0,
    ensures
        spec_verify(header, IntrospectionExchange::Unreachable) == Err::<Seq<char>, AuthFailure>(
            AuthFailure::ServiceUnavailable,
        ),
{
}

} // verus!
