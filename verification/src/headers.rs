//! The `Authorization: Bearer <token>` header contract shared by both
//! services: what counts as a well-formed header and how the bearer token
//! is taken out of it.

use vstd::prelude::*;
use vstd::string::*;

verus! {

use crate::failures::AuthFailure;
use crate::text::str_eq;

/// Whether a header value uses the bearer scheme: it starts with the
/// seven characters `Bearer` and a space.
pub open spec fn has_bearer_scheme(h: Seq<char>) -> bool {
    h.len() >= 7 && h.subrange(0, 7) == "Bearer "@
}

/// The token carried after the `Bearer ` prefix.
pub open spec fn bearer_token_of(h: Seq<char>) -> Seq<char> {
    h.subrange(7, h.len() as int)
}

/// The view of an optional header value.
pub open spec fn opt_str_view(h: Option<&str>) -> Option<Seq<char>> {
    match h {
        None => None,
        Some(s) => Some(s@),
    }
}

/// What extraction answers for a given header: the token, or the failure
/// that the adapter reports.
pub open spec fn spec_extract_token(h: Option<Seq<char>>) -> Result<Seq<char>, AuthFailure> {
    match h {
        None => Err(AuthFailure::MissingAuthHeader),
        Some(s) => if has_bearer_scheme(s) {
            Ok(bearer_token_of(s))
        } else {
            Err(AuthFailure::InvalidAuthFormat)
        },
    }
}

/// Takes the bearer token out of the request's `Authorization` header
/// value. An absent header is `MissingAuthHeader`; a header that does not
/// use the `Bearer <token>` scheme is `InvalidAuthFormat`.
pub fn extract_token_from_headers(header: Option<&str>) -> (r: Result<String, AuthFailure>)
    ensures
        (match r {
            Ok(t) => spec_extract_token(opt_str_view(header)) == Ok::<Seq<char>, AuthFailure>(t@),
            Err(f) => spec_extract_token(opt_str_view(header)) == Err::<Seq<char>, AuthFailure>(f),
        }),
{
    match header {
        None => Err(AuthFailure::MissingAuthHeader),
        Some(h) => {
            let n = h.unicode_len();
            if n < 7 {
                return Err(AuthFailure::InvalidAuthFormat);
            }
            let prefix = h.substring_char(0, 7);
            if !str_eq(prefix, "Bearer ") {
                return Err(AuthFailure::InvalidAuthFormat);
            }
            let token = h.substring_char(7, n);
            Ok(String::from_str(token))
        },
    }
}

} // verus!
