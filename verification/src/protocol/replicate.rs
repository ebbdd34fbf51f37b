use crate::poll::{Future, Poll, PollError};
use crate::protocol::message::{Message, MessageHeader};
use crate::protocol::types::Identity;
use crate::wire;
use vstd::prelude::*;

verus! {

/// Replicate Callback.
pub struct ReplicateCallback {
    /// Id.
    pub id: u128,
    future: Future<wire::Message>,
}

impl ReplicateCallback {
    /// The id of the request whose answer this callback awaits.
    pub closed spec fn request_id(&self) -> u128 {
        self.id
    }

    /// Whether the answer has been taken: every later poll answers that the
    /// channel is disconnected.
    pub closed spec fn is_answered(&self) -> bool {
        self.future.is_spent()
    }

    /// The answer that arrived, as it arrived, once a poll has taken it.
    pub closed spec fn answer(&self) -> Option<wire::Message> {
        self.future.answer()
    }

    /// Creates the callback for the request with this id.
    pub fn new(id: u128, future: Future<wire::Message>) -> (res: Self)
        ensures
            res.request_id() == id,
            res.is_answered() == future.is_spent(),
    {
        ReplicateCallback { id, future }
    }

    /// Id.
    pub fn id(&self) -> (res: u128)
        ensures
            res == self.request_id(),
    {
        self.id
    }

    /// Try poll: takes the response if it has arrived and decodes it.
    pub fn try_poll<F: Fn(wire::Message) -> ReplicateResponse>(&mut self, decode: F) -> (res: Poll<
        Result<ReplicateResponse, PollError>,
    >)
        requires
            forall|m: wire::Message| call_requires(decode, (m,)),
        ensures
            old(self).is_answered() ==> res matches Poll::Ready(Err(PollError::Disconnected)),
            res matches Poll::Ready(Ok(t)) ==> exists|m: wire::Message| #[trigger] call_ensures(decode, (m,), t),
            res is Ready ==> final(self).is_answered(),
            res is Pending ==> !final(self).is_answered(),
            final(self).request_id() == old(self).request_id(),
            res matches Poll::Ready(Ok(t)) ==> (final(self).answer() matches Some(m) && call_ensures(
                decode,
                (m,),
                t,
            )),
    {
        crate::protocol::message::poll_decoded(&mut self.future, decode)
    }
}

/// Replicate Request.
pub type ReplicateRequest = Message<ReplicateRequestPayload>;

impl Message<ReplicateRequestPayload> {
    /// Endpoint.
    pub const ENDPOINT: &'static str = "/request/replicate";

    /// Creates a new [`ReplicateRequest`].
    pub fn new(id: u128, payload: ReplicateRequestPayload) -> (res: Self)
        ensures
            res.id == id,
            res.endpoint@ == Self::ENDPOINT@,
            res.header.source_endpoint_id is None,
            res.header.source_identity is None,
            res.payload == payload,
    {
        Message { id, endpoint: Self::ENDPOINT.to_owned(), header: MessageHeader::empty(), payload }
    }
}

/// Replicate Request Payload.
#[derive(Debug, Clone)]
pub struct ReplicateRequestPayload {
    /// Identity.
    pub identity: Identity,
}

/// Replicate Response.
pub type ReplicateResponse = Message<ReplicateResponsePayload>;

impl Message<ReplicateResponsePayload> {
    /// Endpoint.
    pub const ENDPOINT: &'static str = "/response/replicate";

    /// Creates a new [`ReplicateResponse`].
    pub fn new(id: u128, payload: ReplicateResponsePayload) -> (res: Self)
        ensures
            res.id == id,
            res.endpoint@ == Self::ENDPOINT@,
            res.header.source_endpoint_id is None,
            res.header.source_identity is None,
            res.payload == payload,
    {
        Message { id, endpoint: Self::ENDPOINT.to_owned(), header: MessageHeader::empty(), payload }
    }
}

/// Replicate Response Payload.
#[derive(Debug, Clone, Copy, PartialEq, Eq, Structural)]
pub enum ReplicateResponsePayload {
    /// Failure.
    Failure,
    /// Success.
    Success,
}

} // verus!
