//! Keeping connections alive: every endpoint is pinged once a second.
use crate::ids::{fresh_id, is_random_id};
use crate::protocol::ping::PingEvent;
use vstd::prelude::*;

verus! {

/// Keep alive: the ping that goes to an endpoint, with a fresh id.
pub fn keep_alive_ping() -> (res: PingEvent)
    ensures
        is_random_id(res.id),
        res.endpoint@ == PingEvent::ENDPOINT@,
        res.header.source_endpoint_id is None,
        res.header.source_identity is None,
{
    PingEvent::new(fresh_id())
}

} // verus!
