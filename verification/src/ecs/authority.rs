//! Authorities over a ship: who controls it and which server simulates it.
use crate::ecs::types::Identity;
use vstd::prelude::*;

verus! {

/// Client Authority.
#[derive(Debug)]
pub struct ClientAuthority {
    identity: Identity,
}

impl ClientAuthority {
    /// The identity of the client with authority.
    pub closed spec fn holder(&self) -> Identity {
        self.identity
    }

    /// Creates a new [`ClientAuthority`].
    pub fn new(identity: Identity) -> (res: Self)
        ensures
            res.holder() == identity,
    {
        ClientAuthority { identity }
    }

    /// Identity.
    pub fn identity(&self) -> (res: &Identity)
        ensures
            *res == self.holder(),
    {
        &self.identity
    }
}

/// Server Authority.
#[derive(Debug)]
pub struct ServerAuthority {
    identity: Identity,
}

impl ServerAuthority {
    /// The identity of the server with authority.
    pub closed spec fn holder(&self) -> Identity {
        self.identity
    }

    /// Creates a new [`ServerAuthority`].
    pub fn new(identity: Identity) -> (res: Self)
        ensures
            res.holder() == identity,
    {
        ServerAuthority { identity }
    }

    /// Identity.
    pub fn identity(&self) -> (res: &Identity)
        ensures
            *res == self.holder(),
    {
        &self.identity
    }
}

} // verus!
