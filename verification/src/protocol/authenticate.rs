use crate::poll::{Future, Poll, PollError};
use crate::protocol::message::{Message, MessageHeader};
use crate::protocol::types::Identity;
use crate::wire;
use vstd::prelude::*;

verus! {

/// Authenticate Callback.
pub struct AuthenticateCallback {
    /// Id.
    pub id: u128,
    future: Future<wire::Message>,
}

impl AuthenticateCallback {
    /// The id of the request whose answer this callback awaits.
    pub closed spec fn request_id(&self) -> u128 {
        self.id
    }

    /// Whether the answer has been taken: every later poll answers that the
    /// channel is disconnected.
    pub closed spec fn is_answered(&self) -> bool {
        self.future.is_spent()
    }

    /// The answer that arrived, as it arrived, once a poll has taken it.
    pub closed spec fn answer(&self) -> Option<wire::Message> {
        self.future.answer()
    }

    /// Creates the callback for the authenticate request with this id.
    pub fn new(id: u128, future: Future<wire::Message>) -> (res: Self)
        ensures
            res.request_id() == id,
            res.is_answered() == future.is_spent(),
    {
        AuthenticateCallback { id, future }
    }

    /// Id.
    pub fn id(&self) -> (res: u128)
        ensures
            res == self.request_id(),
    {
        self.id
    }

    /// Try poll: takes the response if it has arrived and decodes it.
    pub fn try_poll<F: Fn(wire::Message) -> AuthenticateResponse>(&mut self, decode: F) -> (res: Poll<
        Result<AuthenticateResponse, PollError>,
    >)
        requires
            forall|m: wire::Message| call_requires(decode, (m,)),
        ensures
            old(self).is_answered() ==> res matches Poll::Ready(Err(PollError::Disconnected)),
            res matches Poll::Ready(Ok(t)) ==> exists|m: wire::Message| #[trigger] call_ensures(decode, (m,), t),
            res is Ready ==> final(self).is_answered(),
            res is Pending ==> !final(self).is_answered(),
            final(self).request_id() == old(self).request_id(),
            res matches Poll::Ready(Ok(t)) ==> (final(self).answer() matches Some(m) && call_ensures(
                decode,
                (m,),
                t,
            )),
    {
        crate::protocol::message::poll_decoded(&mut self.future, decode)
    }
}

/// Authenticate Request.
pub type AuthenticateRequest = Message<AuthenticateRequestPayload>;

impl Message<AuthenticateRequestPayload> {
    /// Endpoint.
    pub const ENDPOINT: &'static str = "/request/authenticate";

    /// Creates a new [`AuthenticateRequest`].
    pub fn new(id: u128, payload: AuthenticateRequestPayload) -> (res: Self)
        ensures
            res.id == id,
            res.endpoint@ == Self::ENDPOINT@,
            res.header.source_endpoint_id is None,
            res.header.source_identity is None,
            res.payload == payload,
    {
        Message { id, endpoint: Self::ENDPOINT.to_owned(), header: MessageHeader::empty(), payload }
    }
}

/// Authenticate Request Payload.
#[derive(Debug, Clone)]
pub struct AuthenticateRequestPayload {
    /// Identity.
    pub identity: Identity,
}

/// Authenticate Response.
pub type AuthenticateResponse = Message<AuthenticateResponsePayload>;

impl Message<AuthenticateResponsePayload> {
    /// Endpoint.
    pub const ENDPOINT: &'static str = "/response/authenticate";

    /// Creates a new [`AuthenticateResponse`].
    pub fn new(id: u128, payload: AuthenticateResponsePayload) -> (res: Self)
        ensures
            res.id == id,
            res.endpoint@ == Self::ENDPOINT@,
            res.header.source_endpoint_id is None,
            res.header.source_identity is None,
            res.payload == payload,
    {
        Message { id, endpoint: Self::ENDPOINT.to_owned(), header: MessageHeader::empty(), payload }
    }
}

/// Authenticate Response Payload.
#[derive(Debug, Clone)]
pub enum AuthenticateResponsePayload {
    /// Failure.
    Failure,
    /// Success.
    Success {
        /// Client Identity: who the requester is.
        client_identity: Identity,
        /// Server Identity: who answered.
        server_identity: Identity,
    },
}

} // verus!
