//! The status codes the two-level failure classification maps to at the
//! network boundary.

use vstd::prelude::*;

verus! {

/// The request succeeded.
pub const OK: u16 = 200;

/// The request was malformed; the client can fix it.
pub const BAD_REQUEST: u16 = 400;

/// The request's credentials failed verification.
pub const UNAUTHORIZED: u16 = 401;

/// The request named something that is not there.
pub const NOT_FOUND: u16 = 404;

/// A server fault; deliberately carries no detail to the client.
pub const INTERNAL_SERVER_ERROR: u16 = 500;

} // verus!
