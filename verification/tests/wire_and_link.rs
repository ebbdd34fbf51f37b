use chaos_symphony::link::{
    recv_disconnects, Bridge, InboundAction, InboundEvent, NetworkRecv, NetworkSend, OutboundAction,
    OutboundEvent,
};
use chaos_symphony::pending::{Inbound, PendingReplies};
use chaos_symphony::poll::RecvOutcome;
use chaos_symphony::wire::Message;
use std::sync::mpsc;

fn message(id: &str, payload: &str) -> Message {
    Message::new(id.to_string(), "/1".to_string(), "header".to_string(), payload.to_string())
}

#[test]
fn wire_messages_compare_by_all_four_texts() {
    let a = message("1", "payload 1");
    assert_eq!(a, a.clone());
    assert_ne!(a, message("2", "payload 1"));
    assert_ne!(a, message("1", "payload 2"));
    assert_eq!(a.id, "1");
    assert_eq!(a.endpoint, "/1");
    assert_eq!(a.header, "header");
}

#[test]
fn pending_insert_then_route_reaches_the_requester() {
    let mut pending: PendingReplies<u32> = PendingReplies::new();
    assert_eq!(pending.len(), 0);
    assert_eq!(pending.insert("a".to_string(), 1), None);
    assert_eq!(pending.insert("b".to_string(), 2), None);
    assert_eq!(pending.len(), 2);
    match pending.route_inbound(message("a", "answer")) {
        Inbound::ToRequester { requester, message: m } => {
            assert_eq!(requester, 1);
            assert_eq!(m.payload, "answer");
        }
        Inbound::ToEndpoint { .. } => panic!("the answer should reach its requester"),
    }
    // answered once: a second message with the same id is not an answer
    assert!(matches!(pending.route_inbound(message("a", "again")), Inbound::ToEndpoint { .. }));
    assert!(pending.contains(&"b".to_string()));
    assert!(!pending.contains(&"a".to_string()));
    assert_eq!(pending.len(), 1);
}

#[test]
fn pending_insert_replaces_and_remove_takes() {
    let mut pending: PendingReplies<&str> = PendingReplies::new();
    assert_eq!(pending.insert("x".to_string(), "first"), None);
    assert_eq!(pending.insert("x".to_string(), "second"), Some("first"));
    assert_eq!(pending.len(), 1);
    assert_eq!(pending.remove(&"y".to_string()), None);
    assert_eq!(pending.remove(&"x".to_string()), Some("second"));
    assert_eq!(pending.remove(&"x".to_string()), None);
}

#[test]
fn unsolicited_message_goes_to_the_endpoint() {
    let mut pending: PendingReplies<u8> = PendingReplies::new();
    pending.insert("a".to_string(), 9);
    assert!(matches!(pending.route_inbound(message("z", "p")), Inbound::ToEndpoint { .. }));
    assert_eq!(pending.len(), 1);
}

#[test]
fn bridge_routes_a_reply_to_the_blocking_request() {
    let mut bridge = Bridge::new();
    let (sender, receiver) = mpsc::channel();
    let send = NetworkSend::Blocking { payload: message("42", "request"), sender };
    let (payload, reply_to) = match bridge.on_outbound(OutboundEvent::Next(send)) {
        OutboundAction::Transmit { payload, reply_to } => (payload, reply_to),
        _ => panic!("a request is transmitted"),
    };
    assert!(reply_to.is_some());
    assert!(bridge.on_transmitted(payload.id.clone(), reply_to, true));
    match bridge.on_inbound(InboundEvent::Received(message("42", "response"))) {
        InboundAction::Reply { requester, payload } => {
            requester.send(payload).unwrap();
            assert_eq!(receiver.recv().unwrap().payload, "response");
        }
        _ => panic!("the response goes to the request"),
    }
    match bridge.on_inbound(InboundEvent::Received(message("42", "late"))) {
        InboundAction::Deliver(NetworkRecv::NonBlocking { payload }) => assert_eq!(payload.payload, "late"),
        _ => panic!("a second answer goes to the game loop"),
    }
}

#[test]
fn bridge_non_blocking_and_stops() {
    let mut bridge = Bridge::new();
    match bridge.on_outbound(OutboundEvent::Next(NetworkSend::NonBlocking { payload: message("1", "p") })) {
        OutboundAction::Transmit { payload, reply_to } => {
            assert!(reply_to.is_none());
            assert!(bridge.on_transmitted(payload.id.clone(), reply_to, true));
        }
        _ => panic!("an event is transmitted"),
    }
    assert!(matches!(bridge.on_outbound(OutboundEvent::Closed), OutboundAction::Fail));
    assert!(matches!(bridge.on_outbound(OutboundEvent::Quit), OutboundAction::Stop));
    assert!(matches!(bridge.on_inbound(InboundEvent::Failed), InboundAction::Fail));
    assert!(matches!(bridge.on_inbound(InboundEvent::HandOffFailed), InboundAction::Fail));
    assert!(matches!(bridge.on_inbound(InboundEvent::Quit), InboundAction::Stop));
    assert!(!bridge.on_transmitted("2".to_string(), None, false));
}

#[test]
fn failed_transmission_registers_nothing() {
    let mut bridge = Bridge::new();
    let (sender, _receiver) = mpsc::channel();
    assert!(!bridge.on_transmitted("7".to_string(), Some(sender), false));
    assert!(matches!(
        bridge.on_inbound(InboundEvent::Received(message("7", "p"))),
        InboundAction::Deliver(_)
    ));
}

#[test]
fn only_a_closed_channel_disconnects() {
    assert!(recv_disconnects::<u8>(&RecvOutcome::Disconnected));
    assert!(!recv_disconnects::<u8>(&RecvOutcome::Empty));
    assert!(!recv_disconnects(&RecvOutcome::Received(1u8)));
}
