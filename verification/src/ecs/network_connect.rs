//! Keeping a client connected: a new connection is opened when there is none.
use crate::ecs::outcome::{needed_to_reach_one, to_start};
use crate::ecs::types::Role;
use crate::poll::PollError;
use vstd::prelude::*;

verus! {

/// Network Connect Plugin.
#[derive(Debug)]
pub struct NetworkConnectPlugin {
    role: Role,
}

impl NetworkConnectPlugin {
    /// The role that the plugin serves.
    pub closed spec fn role(&self) -> Role {
        self.role
    }

    /// Creates a new [`NetworkConnectPlugin`].
    pub fn new(role: Role) -> (res: Self)
        ensures
            res.role() == role,
    {
        NetworkConnectPlugin { role }
    }

    /// Whether this peer opens connections (a client or a simulation
    /// server); a replication server only accepts them.
    pub fn connects(&self) -> (res: bool)
        ensures
            res == (self.role() != Role::Replication),
    {
        match self.role {
            Role::Replication => false,
            _ => true,
        }
    }
}

/// Connect: how many connections to start so that the pool holds one,
/// given those being set up and those established.
pub fn connections_to_open(connecting: usize, connected: usize) -> (res: usize)
    requires
        connecting + connected <= usize::MAX,
    ensures
        res == needed_to_reach_one(connecting + connected),
        res <= 1,
        res == 1 <==> connecting == 0 && connected == 0,
{
    to_start(connecting, connected)
}

/// What a finished connection attempt leaves.
#[derive(Debug)]
pub enum ConnectOutcome<E, A> {
    /// The connection is open: its endpoint is spawned.
    Connected(E),
    /// The runtime opening it is gone.
    Lost(PollError),
    /// The other side refused or the connection failed on the way.
    Refused(A),
}

/// Connecting: on an answer the attempt is over; an opened connection's
/// endpoint is spawned, and a lost or refused attempt leaves nothing.
pub fn connect_outcome<E, A>(result: Result<Result<E, A>, PollError>) -> (res: ConnectOutcome<E, A>)
    ensures
        match result {
            Ok(Ok(endpoint)) => res == ConnectOutcome::<E, A>::Connected(endpoint),
            Ok(Err(error)) => res == ConnectOutcome::<E, A>::Refused(error),
            Err(error) => res == ConnectOutcome::<E, A>::Lost(error),
        },
{
    match result {
        Ok(Ok(endpoint)) => ConnectOutcome::Connected(endpoint),
        Ok(Err(error)) => ConnectOutcome::Refused(error),
        Err(error) => ConnectOutcome::Lost(error),
    }
}

} // verus!
