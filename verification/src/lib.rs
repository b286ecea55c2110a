//! Credential validation and authenticated-publish fan-out for a small
//! newsletter backend.
//!
//! The library holds the logic with security consequences: parsing HTTP Basic
//! credentials, validating them against a stored Argon2 hash with uniform
//! failure behaviour, and planning the per-subscriber email fan-out. I/O
//! (database queries, outbound mail, the HTTP server) lives outside, in a thin
//! shell that hands this library plain values.

pub mod authentication;
pub mod domain;
pub mod encoding;
pub mod routes;
pub mod secret;
