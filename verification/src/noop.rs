//! An authentication resolver that does not authenticate.
//!
//! Useful where the service runs behind some other gate: every request is
//! attributed to one fixed identity, and nothing ever fails.

use vstd::prelude::*;

use crate::authresolver::{ClientError, ServerError};
use crate::authspec::AuthResolver;
use crate::metadata::{User, placeholder_user_name};

verus! {

/// An [`AuthResolver`] that authorizes everyone as one fixed identity.
#[derive(Clone, Copy, Debug)]
pub struct NoOpResolver;

impl NoOpResolver {
    /// Creates the resolver; there is nothing to configure.
    pub fn new() -> (r: Self)
        ensures
            r == NoOpResolver,
    {
        NoOpResolver
    }

    /// Accepts any request, header or none, and attributes it to the fixed
    /// identity `johnsmith`, named with the placeholder display name.
    pub fn authorize(&self, _authorization: Option<&Vec<u8>>) -> (r: Result<
        Result<User, ClientError>,
        ServerError,
    >)
        ensures
            r matches Ok(inner) && inner matches Ok(u) && u@.id == "johnsmith"@
                && u@.name == "John Smith"@,
    {
        Ok(Ok(User { id: String::from_str("johnsmith"), name: placeholder_user_name() }))
    }
}

impl Default for NoOpResolver {
    fn default() -> (r: Self)
        ensures
            r == NoOpResolver,
    {
        NoOpResolver
    }
}

impl AuthResolver for NoOpResolver {
    type Context = User;

    type ClientError = ClientError;

    type ServerError = ServerError;

    open spec fn wf(&self) -> bool {
        true
    }

    fn authorize(&self, _authorization: Option<&Vec<u8>>) -> Result<
        Result<User, ClientError>,
        ServerError,
    > {
        self.authorize(_authorization)
    }
}

} // verus!
