//! Identity records from a Keycloak-style OpenID-Connect provider.
//!
//! The crate covers the credential lifecycle (acquire, cache, refresh a
//! bearer token with two expiry horizons) and the directory pipeline that
//! turns loosely-typed group-member JSON into strictly validated `User`
//! records, with a single-error-aborts-listing policy.

pub mod cred;
pub mod decimal;
pub mod err;
mod jsonval;
pub mod members;
pub mod token;
