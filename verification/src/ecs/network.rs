//! Messages waiting to be handled, with the connection they came on.
use vstd::prelude::*;

verus! {

/// Network Endpoint Id.
#[derive(Debug, Clone, Copy, PartialEq, Eq, Structural)]
pub struct NetworkEndpointId {
    /// Inner.
    pub inner: usize,
}

/// Network Message.
#[derive(Debug)]
pub struct NetworkMessage<T> {
    /// Inner.
    pub inner: T,
}

} // verus!
