//! Delegation of new ships to simulation servers.
use crate::ecs::types::Role;
use vstd::prelude::*;

verus! {

/// Delegation Plugin.
#[derive(Debug)]
pub struct DelegationPlugin {
    role: Role,
}

impl DelegationPlugin {
    /// The role that the plugin serves.
    pub closed spec fn role(&self) -> Role {
        self.role
    }

    /// Creates a new [`DelegationPlugin`].
    pub fn new(role: Role) -> (res: Self)
        ensures
            res.role() == role,
    {
        DelegationPlugin { role }
    }

    /// Whether this peer takes ship spawn requests (a replication server).
    pub fn handles_requests(&self) -> (res: bool)
        ensures
            res == (self.role() == Role::Replication),
    {
        match self.role {
            Role::Replication => true,
            _ => false,
        }
    }
}

} // verus!
