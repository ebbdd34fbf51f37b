//! The bridge between the game loop and the network runtime: what goes over
//! a connection, and what the runtime does with each thing it receives.
use crate::pending::{Inbound, PendingReplies};
use crate::poll::RecvOutcome;
use crate::wire;
use std::sync::mpsc::Sender;
use vstd::prelude::*;

verus! {

#[verifier::external_type_specification]
#[verifier::external_body]
#[verifier::reject_recursive_types(T)]
pub struct ExSender<T>(Sender<T>);

/// Network Plugin: which sides of the network this process runs.
#[derive(Debug, Clone, Copy, PartialEq, Eq, Structural)]
pub struct NetworkPlugin {
    /// Client: opens connections to a server.
    pub client: bool,
    /// Server: accepts connections.
    pub server: bool,
}

/// Network Recv: what the game loop receives from a connection.
pub enum NetworkRecv {
    /// Non Blocking: a message that answers no request of ours.
    NonBlocking {
        /// Payload.
        payload: wire::Message,
    },
}

/// Network Send: what the game loop hands to a connection.
pub enum NetworkSend {
    /// Blocking: a request whose answer goes to `sender`.
    Blocking {
        /// Payload.
        payload: wire::Message,
        /// Sender.
        sender: Sender<wire::Message>,
    },
    /// Non Blocking: a message that expects no answer.
    NonBlocking {
        /// Payload.
        payload: wire::Message,
    },
}

/// What the receiving half of a connection got.
pub enum InboundEvent {
    /// A message arrived.
    Received(wire::Message),
    /// The connection failed.
    Failed,
    /// A message could not be handed to the game loop: its side is gone.
    HandOffFailed,
    /// The bridge is shutting down.
    Quit,
}

/// What the receiving half does next.
pub enum InboundAction {
    /// Hand the answer to the request that awaits it.
    Reply {
        /// Requester.
        requester: Sender<wire::Message>,
        /// Payload.
        payload: wire::Message,
    },
    /// Hand the message to the game loop.
    Deliver(NetworkRecv),
    /// Stop quietly: the bridge is already shutting down.
    Stop,
    /// Fail: the connection is done, and the whole bridge shuts down.
    Fail,
}

/// What the sending half got from the game loop.
pub enum OutboundEvent {
    /// Something to send.
    Next(NetworkSend),
    /// The game loop's side is gone.
    Closed,
    /// The bridge is shutting down.
    Quit,
}

/// What the sending half does next.
pub enum OutboundAction {
    /// Transmit the message; a blocking request then waits for its answer
    /// under its id, once the transmission has succeeded.
    Transmit {
        /// Payload.
        payload: wire::Message,
        /// Reply To.
        reply_to: Option<Sender<wire::Message>>,
    },
    /// Stop quietly: the bridge is already shutting down.
    Stop,
    /// Fail: the connection is done, and the whole bridge shuts down.
    Fail,
}

/// Whether taking from the inbound channel showed that the bridge behind
/// the endpoint is gone, which marks the endpoint disconnected.
pub fn recv_disconnects<T>(outcome: &RecvOutcome<T>) -> (res: bool)
    ensures
        res == (outcome is Disconnected),
{
    match outcome {
        RecvOutcome::Disconnected => true,
        _ => false,
    }
}

/// The state of a connection's bridge: the requests that await answers.
pub struct Bridge {
    pending: PendingReplies<Sender<wire::Message>>,
}

impl Bridge {
    /// The ids of the requests that await answers, with where each answer goes.
    pub closed spec fn waiting(&self) -> Map<Seq<char>, Sender<wire::Message>> {
        self.pending@
    }

    /// A bridge for a new connection: nothing awaits an answer.
    pub fn new() -> (res: Self)
        ensures
            res.waiting() == Map::<Seq<char>, Sender<wire::Message>>::empty(),
    {
        Bridge { pending: PendingReplies::new() }
    }

    /// Inbound: a received message that answers a waiting request goes to
    /// that request, which then waits no more; any other message goes to the
    /// game loop. A failed connection, or a message that the game loop can no
    /// longer take, fails the bridge; a shutdown stops the receiving half.
    pub fn on_inbound(&mut self, event: InboundEvent) -> (res: InboundAction)
        ensures
            match event {
                InboundEvent::Received(m) => {
                    &&& final(self).waiting() == old(self).waiting().remove(m.id@)
                    &&& if old(self).waiting().dom().contains(m.id@) {
                        res matches InboundAction::Reply { requester, payload } && requester == old(
                            self,
                        ).waiting()[m.id@] && payload == m
                    } else {
                        res matches InboundAction::Deliver(NetworkRecv::NonBlocking { payload }) && payload == m
                    }
                },
                InboundEvent::Quit => res is Stop && final(self).waiting() == old(self).waiting(),
                _ => res is Fail && final(self).waiting() == old(self).waiting(),
            },
    {
        match event {
            InboundEvent::Received(message) => match self.pending.route_inbound(message) {
                Inbound::ToRequester { requester, message } => InboundAction::Reply { requester, payload: message },
                Inbound::ToEndpoint { message } => InboundAction::Deliver(NetworkRecv::NonBlocking { payload: message }),
            },
            InboundEvent::Failed => InboundAction::Fail,
            InboundEvent::HandOffFailed => InboundAction::Fail,
            InboundEvent::Quit => InboundAction::Stop,
        }
    }

    /// Outbound: a message from the game loop is transmitted, with the
    /// channel for its answer if it is a blocking request; a closed game
    /// loop fails the bridge, and a shutdown stops the sending half.
    pub fn on_outbound(&self, event: OutboundEvent) -> (res: OutboundAction)
        ensures
            match event {
                OutboundEvent::Next(NetworkSend::Blocking { payload, sender }) =>
                    res matches OutboundAction::Transmit { payload: p, reply_to } && p == payload && reply_to
                        == Some(sender),
                OutboundEvent::Next(NetworkSend::NonBlocking { payload }) =>
                    res matches OutboundAction::Transmit { payload: p, reply_to } && p == payload && reply_to is None,
                OutboundEvent::Closed => res is Fail,
                OutboundEvent::Quit => res is Stop,
            },
    {
        match event {
            OutboundEvent::Next(NetworkSend::Blocking { payload, sender }) => OutboundAction::Transmit {
                payload,
                reply_to: Some(sender),
            },
            OutboundEvent::Next(NetworkSend::NonBlocking { payload }) => OutboundAction::Transmit {
                payload,
                reply_to: None,
            },
            OutboundEvent::Closed => OutboundAction::Fail,
            OutboundEvent::Quit => OutboundAction::Stop,
        }
    }

    /// After a transmission: a failed one fails the bridge (answer
    /// `false`); a successful blocking request now waits for its answer
    /// under `id` (answer `true`).
    pub fn on_transmitted(&mut self, id: String, reply_to: Option<Sender<wire::Message>>, sent: bool) -> (res: bool)
        ensures
            res == sent,
            sent && reply_to is Some ==> final(self).waiting() == old(self).waiting().insert(id@, reply_to->0),
            !(sent && reply_to is Some) ==> final(self).waiting() == old(self).waiting(),
    {
        if !sent {
            return false;
        }
        match reply_to {
            Some(sender) => {
                let _ = self.pending.insert(id, sender);
            },
            None => {},
        }
        true
    }
}

} // verus!
