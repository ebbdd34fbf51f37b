use crate::ids::{hyphenated, id_text, parse_id, uuid_from_text};
use crate::poll::{Future, Poll, PollError};
use crate::protocol::types::Identity;
use crate::wire;
use std::marker::PhantomData;
use vstd::prelude::*;

verus! {

/// Message Header: where a message came from, as the receiving side saw it.
#[derive(Debug, Clone)]
pub struct MessageHeader {
    /// Source Endpoint Id: the connection that the message arrived on.
    pub source_endpoint_id: Option<usize>,
    /// Source Identity: who the message speaks for.
    pub source_identity: Option<Identity>,
}

impl MessageHeader {
    /// A header that says nothing of where the message came from.
    pub fn empty() -> (res: Self)
        ensures
            res.source_endpoint_id is None,
            res.source_identity is None,
    {
        MessageHeader { source_endpoint_id: None, source_identity: None }
    }
}

/// Message: a typed payload with its id, endpoint and header.
#[derive(Debug, Clone)]
pub struct Message<T> {
    /// Id.
    pub id: u128,
    /// Endpoint.
    pub endpoint: String,
    /// Header.
    pub header: MessageHeader,
    /// Payload.
    pub payload: T,
}

impl<T> Message<T> {
    /// Builds a message from a wire message whose header and payload the
    /// application has decoded. The id text must read as an id; a caller
    /// that cannot know it does should use [`Message::try_from_wire_parts`].
    pub fn from_wire_parts(id: &str, endpoint: String, header: MessageHeader, payload: T) -> (res: Self)
        requires
            uuid_from_text(id@) is Some,
        ensures
            res.id == uuid_from_text(id@)->0,
            res.endpoint@ == endpoint@,
            res.header == header,
            res.payload == payload,
    {
        let id = parse_id(id).unwrap();
        Message { id, endpoint, header, payload }
    }

    /// Like [`Message::from_wire_parts`], but answers `None` where the id text
    /// does not read as an id.
    pub fn try_from_wire_parts(id: &str, endpoint: String, header: MessageHeader, payload: T) -> (res: Option<Self>)
        ensures
            res is Some <==> uuid_from_text(id@) is Some,
            res matches Some(m) ==> {
                &&& m.id == uuid_from_text(id@)->0
                &&& m.endpoint@ == endpoint@
                &&& m.header == header
                &&& m.payload == payload
            },
    {
        match parse_id(id) {
            Some(_) => Some(Self::from_wire_parts(id, endpoint, header, payload)),
            None => None,
        }
    }

    /// The id as it travels on the wire: its hyphenated text, which reads
    /// back as the same id.
    pub fn wire_id(&self) -> (res: String)
        ensures
            res@ == hyphenated(self.id),
            uuid_from_text(res@) == Some(self.id),
    {
        id_text(self.id)
    }
}

/// Message ID.
pub trait MessageId {
    /// Id.
    fn id(&self) -> u128;
}

impl<T> MessageId for Message<T> {
    /// The message's id.
    fn id(&self) -> (res: u128)
        ensures
            res == self.id,
    {
        self.id
    }
}

/// Event.
pub trait Event<T>: Sized {
    /// Endpoint.
    const ENDPOINT: &'static str;

    /// Creates a new [`Message`].
    fn message(id: u128, payload: T) -> (res: Message<T>)
        ensures
            res.id == id,
            res.endpoint@ == Self::ENDPOINT@,
            res.header.source_endpoint_id is None,
            res.header.source_identity is None,
            res.payload == payload,
    {
        Message {
            id,
            endpoint: Self::ENDPOINT.to_owned(),
            header: MessageHeader::empty(),
            payload,
        }
    }
}

/// Request: a message that expects an answer of type `U`.
pub trait Request<T, U>: Sized {
    /// Endpoint.
    const ENDPOINT: &'static str;

    /// Creates a new [`Message`].
    fn message(id: u128, payload: T) -> (res: Message<T>)
        ensures
            res.id == id,
            res.endpoint@ == Self::ENDPOINT@,
            res.header.source_endpoint_id is None,
            res.header.source_identity is None,
            res.payload == payload,
    {
        Message { id, endpoint: Self::ENDPOINT.to_owned(), header: MessageHeader::empty(), payload }
    }
}

/// Response: the answer to a request.
pub trait Response<T>: Sized {
    /// Endpoint.
    const ENDPOINT: &'static str;

    /// Creates a new [`Message`].
    fn message(id: u128, payload: T) -> (res: Message<T>)
        ensures
            res.id == id,
            res.endpoint@ == Self::ENDPOINT@,
            res.header.source_endpoint_id is None,
            res.header.source_identity is None,
            res.payload == payload,
    {
        Message { id, endpoint: Self::ENDPOINT.to_owned(), header: MessageHeader::empty(), payload }
    }
}

/// Message Callback: the pending answer to a request that was sent.
#[verifier::reject_recursive_types(T)]
pub struct MessageCallback<T> {
    /// Id.
    pub id: u128,
    future: Future<wire::Message>,
    marker: PhantomData<T>,
}

impl<T> MessageCallback<T> {
    /// The id of the request whose answer this callback awaits.
    pub closed spec fn request_id(&self) -> u128 {
        self.id
    }

    /// Whether the answer has been taken: every later poll answers that the
    /// channel is disconnected.
    pub closed spec fn is_answered(&self) -> bool {
        self.future.is_spent()
    }

    /// The answer that arrived, as it arrived, once a poll has taken it.
    pub closed spec fn answer(&self) -> Option<wire::Message> {
        self.future.answer()
    }

    /// Creates a new [`MessageCallback`] for the request with this id.
    pub fn new(id: u128, future: Future<wire::Message>) -> (res: Self)
        ensures
            res.request_id() == id,
            res.is_answered() == future.is_spent(),
    {
        MessageCallback { id, future, marker: PhantomData }
    }

    /// Id.
    pub fn id(&self) -> (res: u128)
        ensures
            res == self.request_id(),
    {
        self.id
    }

    /// Try poll: takes the answer if it has arrived and decodes it.
    pub fn try_poll<F: Fn(wire::Message) -> T>(&mut self, decode: F) -> (res: Poll<Result<T, PollError>>)
        requires
            forall|m: wire::Message| call_requires(decode, (m,)),
        ensures
            old(self).is_answered() ==> res matches Poll::Ready(Err(PollError::Disconnected)),
            res matches Poll::Ready(Ok(t)) ==> exists|m: wire::Message| #[trigger] call_ensures(decode, (m,), t),
            res is Ready ==> final(self).is_answered(),
            res is Pending ==> !final(self).is_answered(),
            final(self).request_id() == old(self).request_id(),
            res matches Poll::Ready(Ok(t)) ==> (final(self).answer() matches Some(m) && call_ensures(
                decode,
                (m,),
                t,
            )),
    {
        poll_decoded(&mut self.future, decode)
    }
}

/// Polls the answer to a request and decodes it if it has arrived.
pub fn poll_decoded<T, F: Fn(wire::Message) -> T>(future: &mut Future<wire::Message>, decode: F) -> (res: Poll<
    Result<T, PollError>,
>)
    requires
        forall|m: wire::Message| call_requires(decode, (m,)),
    ensures
        old(future).is_spent() ==> res matches Poll::Ready(Err(PollError::Disconnected)),
        res matches Poll::Ready(Ok(t)) ==> exists|m: wire::Message| #[trigger] call_ensures(decode, (m,), t),
        res is Ready ==> final(future).is_spent(),
        res is Pending ==> !final(future).is_spent(),
        res matches Poll::Ready(Ok(t)) ==> (final(future).answer() matches Some(m) && call_ensures(
            decode,
            (m,),
            t,
        )),
{
    match future.try_poll() {
        Poll::Ready(Ok(m)) => {
            let ghost arrived = m;
            let t = decode(m);
            let res = Poll::Ready(Ok(t));
            assert(call_ensures(decode, (arrived,), res->Ready_0->Ok_0));
            res
        },
        Poll::Ready(Err(e)) => Poll::Ready(Err(e)),
        Poll::Pending => Poll::Pending,
    }
}

} // verus!
