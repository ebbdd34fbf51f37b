//! Requests waiting to be handled, with the connection they came on.
use vstd::prelude::*;

verus! {

/// Endpoint Id.
#[derive(Debug, Clone, Copy, PartialEq, Eq, Structural)]
pub struct EndpointId {
    /// Inner.
    pub inner: usize,
}

/// Request.
#[derive(Debug)]
pub struct Request<T> {
    /// Inner.
    pub inner: T,
}

} // verus!
