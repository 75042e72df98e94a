//! Authentication and cross-service authorization core for a two-service
//! task manager: an identity service that verifies credentials and mints
//! signed bearer tokens, and a resource service that delegates token
//! verification back to the identity service over the network.
//!
//! The library holds the verified logic of that boundary: claim minting and
//! introspection, bearer-header handling, the resource-side verifier
//! delegate, the per-request authorization state machine, and the request
//! validation rules of the protected routes. Process setup, HTTP routing and
//! the persistence layer live outside the library.

pub mod adapter;
pub mod delegate;
pub mod failures;
pub mod headers;
pub mod introspection;
pub mod laws;
pub mod paging;
pub mod principal;
pub mod requests;
pub mod tasklinks;
pub mod text;
pub mod token;
pub mod validation;

pub use failures::AuthFailure;
