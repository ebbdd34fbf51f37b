use chaos_symphony::poll::{Future, Poll, PollError};
use chaos_symphony::protocol::authenticate::{AuthenticateCallback, AuthenticateResponse, AuthenticateResponsePayload};
use chaos_symphony::protocol::entity_identities::{
    EntityIdentitiesCallback, EntityIdentitiesResponse, EntityIdentitiesResponsePayload,
};
use chaos_symphony::protocol::message::{Message, MessageHeader, Response};
use chaos_symphony::protocol::types::Identity;
use chaos_symphony::wire;
use std::sync::mpsc;

fn wire_message(id: &str, payload: &str) -> wire::Message {
    wire::Message::new(id.to_string(), "/response".to_string(), "{}".to_string(), payload.to_string())
}

#[test]
fn message_callback_decodes_the_answer_once_it_arrives() {
    let (sender, receiver) = mpsc::channel();
    let mut callback = EntityIdentitiesCallback::new(7, Future::new(receiver));
    assert_eq!(callback.id(), 7);

    let decode = |m: wire::Message| -> EntityIdentitiesResponse {
        let payload = if m.payload == "ok" {
            EntityIdentitiesResponsePayload::Success
        } else {
            EntityIdentitiesResponsePayload::Failure
        };
        <EntityIdentitiesResponse as Response<EntityIdentitiesResponsePayload>>::message(7, payload)
    };

    assert!(matches!(callback.try_poll(decode), Poll::Pending));

    sender.send(wire_message("7", "ok")).unwrap();
    match callback.try_poll(decode) {
        Poll::Ready(Ok(response)) => {
            assert_eq!(response.id, 7);
            assert_eq!(response.payload, EntityIdentitiesResponsePayload::Success);
        }
        _ => panic!("expected the decoded answer"),
    }

    assert!(matches!(callback.try_poll(decode), Poll::Ready(Err(PollError::Disconnected))));
    assert!(sender.send(wire_message("7", "again")).is_err());
}

#[test]
fn authenticate_callback_hands_the_arrived_message_to_the_decoder() {
    let (sender, receiver) = mpsc::channel();
    let mut callback = AuthenticateCallback::new(11, Future::new(receiver));
    assert_eq!(callback.id(), 11);

    let decode = |m: wire::Message| -> AuthenticateResponse {
        let noun = m.payload.clone();
        Message {
            id: 11,
            endpoint: m.endpoint,
            header: MessageHeader::empty(),
            payload: AuthenticateResponsePayload::Success {
                client_identity: Identity { id: 1, noun: "ai".to_string() },
                server_identity: Identity { id: 2, noun },
            },
        }
    };

    sender.send(wire_message("11", "replication")).unwrap();
    match callback.try_poll(decode) {
        Poll::Ready(Ok(response)) => {
            assert_eq!(response.endpoint, "/response");
            match response.payload {
                AuthenticateResponsePayload::Success { server_identity, .. } => {
                    assert_eq!(server_identity.noun, "replication");
                    assert_eq!(server_identity.id, 2);
                }
                AuthenticateResponsePayload::Failure => panic!("expected success"),
            }
        }
        _ => panic!("expected the decoded answer"),
    }
}

#[test]
fn messages_clone_with_all_their_fields() {
    let message = <EntityIdentitiesResponse as Response<EntityIdentitiesResponsePayload>>::message(
        3,
        EntityIdentitiesResponsePayload::Success,
    );
    let copy = message.clone();
    assert_eq!(copy.id, 3);
    assert_eq!(copy.endpoint, message.endpoint);
    assert_eq!(copy.header.source_endpoint_id, None);
    assert_eq!(copy.payload, EntityIdentitiesResponsePayload::Success);
}
