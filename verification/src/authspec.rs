//! The shared capability contracts: how an authentication backend and its
//! failures look to the rest of the service, independent of any one crypto
//! technology, so that backends are substitutable without touching the
//! request pipeline.

use vstd::prelude::*;

verus! {

/// A failure the client can fix, able to name the status code the boundary
/// should report for it.  Server faults carry no such code: the boundary
/// maps every one of them to a generic 500.
pub trait ClientError: Sized {
    /// Returns the status code the boundary reports for this fault.
    fn status_code(&self) -> u16;
}

/// A capability that resolves a request's `Authorization` header value to
/// an authenticated context, or to a classified failure: the outer level of
/// the result is a server fault, the inner level a client fault.  Intended
/// for shared, read-only use, so resolution takes `&self`.
pub trait AuthResolver: Sized {
    /// What a successful authorization yields; typically an identity.
    type Context;

    /// The client-fault type.
    type ClientError;

    /// The server-fault type.
    type ServerError;

    /// Whether the resolver's internal state is well formed.
    spec fn wf(&self) -> bool;

    /// Resolves the header value, absent when the request carries no
    /// `Authorization` header.
    fn authorize(&self, authorization: Option<&Vec<u8>>) -> Result<
        Result<Self::Context, Self::ClientError>,
        Self::ServerError,
    >
        requires
            self.wf(),
    ;
}

} // verus!
