//! Transformations (position and orientation) of entities. The values are
//! floating point and live in the application; what the library decides is
//! which peer announces them.
use crate::ecs::types::Role;
use vstd::prelude::*;

verus! {

/// Transformation Plugin.
#[derive(Debug)]
pub struct TransformationPlugin {
    role: Role,
}

impl TransformationPlugin {
    /// The role that the plugin serves.
    pub closed spec fn role(&self) -> Role {
        self.role
    }

    /// Creates a new [`TransformationPlugin`].
    pub fn new(role: Role) -> (res: Self)
        ensures
            res.role() == role,
    {
        TransformationPlugin { role }
    }

    /// Whether this peer announces changed transformations to its
    /// replication servers (a simulation server).
    pub fn broadcasts_changes(&self) -> (res: bool)
        ensures
            res == (self.role() == Role::Simulation),
    {
        match self.role {
            Role::Simulation => true,
            _ => false,
        }
    }
}

} // verus!
