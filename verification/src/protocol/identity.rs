use crate::poll::{Future, Poll, PollError};
use crate::protocol::message::{Message, MessageHeader};
use crate::protocol::types::Identity;
use crate::wire;
use vstd::prelude::*;

verus! {

/// Identity Callback.
pub struct IdentityCallback {
    /// Id.
    pub id: u128,
    future: Future<wire::Message>,
}

impl IdentityCallback {
    /// The id of the request whose answer this callback awaits.
    pub closed spec fn request_id(&self) -> u128 {
        self.id
    }

    /// Whether the answer has been taken: every later poll answers that the
    /// channel is disconnected.
    pub closed spec fn is_answered(&self) -> bool {
        self.future.is_spent()
    }

    /// The answer that arrived, as it arrived, once a poll has taken it.
    pub closed spec fn answer(&self) -> Option<wire::Message> {
        self.future.answer()
    }

    /// Creates the callback for the request with this id.
    pub fn new(id: u128, future: Future<wire::Message>) -> (res: Self)
        ensures
            res.request_id() == id,
            res.is_answered() == future.is_spent(),
    {
        IdentityCallback { id, future }
    }

    /// Id.
    pub fn id(&self) -> (res: u128)
        ensures
            res == self.request_id(),
    {
        self.id
    }

    /// Try poll: takes the response if it has arrived and decodes it.
    pub fn try_poll<F: Fn(wire::Message) -> IdentityResponse>(&mut self, decode: F) -> (res: Poll<
        Result<IdentityResponse, PollError>,
    >)
        requires
            forall|m: wire::Message| call_requires(decode, (m,)),
        ensures
            old(self).is_answered() ==> res matches Poll::Ready(Err(PollError::Disconnected)),
            res matches Poll::Ready(Ok(t)) ==> exists|m: wire::Message| #[trigger] call_ensures(decode, (m,), t),
            res is Ready ==> final(self).is_answered(),
            res is Pending ==> !final(self).is_answered(),
            final(self).request_id() == old(self).request_id(),
            res matches Poll::Ready(Ok(t)) ==> (final(self).answer() matches Some(m) && call_ensures(
                decode,
                (m,),
                t,
            )),
    {
        crate::protocol::message::poll_decoded(&mut self.future, decode)
    }
}

/// Identity Event.
pub type IdentityEvent = Message<IdentityEventPayload>;

impl Message<IdentityEventPayload> {
    /// Endpoint.
    pub const ENDPOINT: &'static str = "/event/identity";

    /// Creates a new [`IdentityEvent`].
    pub fn new(id: u128, payload: IdentityEventPayload) -> (res: Self)
        ensures
            res.id == id,
            res.endpoint@ == Self::ENDPOINT@,
            res.header.source_endpoint_id is None,
            res.header.source_identity is None,
            res.payload == payload,
    {
        Message { id, endpoint: Self::ENDPOINT.to_owned(), header: MessageHeader::empty(), payload }
    }
}

/// Identity Event Payload.
#[derive(Debug, Clone)]
pub struct IdentityEventPayload {
    /// Identity.
    pub identity: Identity,
}

/// Identity Request.
pub type IdentityRequest = Message<IdentityRequestPayload>;

impl Message<IdentityRequestPayload> {
    /// Endpoint.
    pub const ENDPOINT: &'static str = "/request/identity";

    /// Creates a new [`IdentityRequest`].
    pub fn new(id: u128, payload: IdentityRequestPayload) -> (res: Self)
        ensures
            res.id == id,
            res.endpoint@ == Self::ENDPOINT@,
            res.header.source_endpoint_id is None,
            res.header.source_identity is None,
            res.payload == payload,
    {
        Message { id, endpoint: Self::ENDPOINT.to_owned(), header: MessageHeader::empty(), payload }
    }
}

/// Identity Request Payload.
#[derive(Debug, Clone, Copy, PartialEq, Eq, Structural)]
pub struct IdentityRequestPayload {}

/// Identity Response.
pub type IdentityResponse = Message<IdentityResponsePayload>;

impl Message<IdentityResponsePayload> {
    /// Endpoint.
    pub const ENDPOINT: &'static str = "/response/identity";

    /// Creates a new [`IdentityResponse`].
    pub fn new(id: u128, payload: IdentityResponsePayload) -> (res: Self)
        ensures
            res.id == id,
            res.endpoint@ == Self::ENDPOINT@,
            res.header.source_endpoint_id is None,
            res.header.source_identity is None,
            res.payload == payload,
    {
        Message { id, endpoint: Self::ENDPOINT.to_owned(), header: MessageHeader::empty(), payload }
    }
}

/// Identity Response Payload.
#[derive(Debug, Clone, Copy, PartialEq, Eq, Structural)]
pub enum IdentityResponsePayload {
    /// Failure.
    Failure,
    /// Success.
    Success,
}

} // verus!
