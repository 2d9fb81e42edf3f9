//! Structured identities for errors: a routable code, an application status,
//! a client-safe message and a fingerprint of the diagnostic text.

pub mod fingerprint;
pub mod info;
pub mod taxonomy;
pub mod laws;
pub mod occurrence;
