//! A verified core for a policy store service.
//!
//! The library has two subsystems.  The first is a versioned policy store
//! with an append-only activation ledger: policy versions are immutable once
//! created, version numbers are assigned densely starting at 1, and the
//! currently enforced version is derived from the ledger rather than kept in
//! a mutable pointer.  The second is an authentication pipeline that resolves
//! the `Authorization` header of a request to an identity by verifying a JWT
//! against a key set loaded at startup, classifying every failure as either a
//! client fault (with its own status code) or a server fault (a generic 500).

pub mod api;
pub mod authresolver;
pub mod authspec;
pub mod dataconn;
pub mod keyresolver;
pub mod metadata;
pub mod noop;
pub mod status;
pub mod store;
