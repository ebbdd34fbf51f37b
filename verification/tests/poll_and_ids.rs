use chaos_symphony::ecs::network_keep_alive::keep_alive_ping;
use chaos_symphony::ids::nil_id;
use chaos_symphony::protocol::transformation::{transformation_event, TRANSFORMATION_EVENT_ENDPOINT};
use chaos_symphony::protocol::types::Identity;
use chaos_symphony::poll::{poll_from_recv, Future, Poll, PollError, RecvOutcome};
use std::sync::mpsc;

#[test]
fn poll_from_recv_maps_each_outcome() {
    assert!(matches!(poll_from_recv(RecvOutcome::Received(7u8)), Poll::Ready(Ok(7))));
    assert!(matches!(
        poll_from_recv::<u8>(RecvOutcome::Disconnected),
        Poll::Ready(Err(PollError::Disconnected))
    ));
    assert!(matches!(poll_from_recv::<u8>(RecvOutcome::Empty), Poll::Pending));
}

#[test]
fn poll_map_applies_to_ready_only() {
    let ready = Poll::Ready(20u32).map(|x| x + 1);
    assert!(matches!(ready, Poll::Ready(21)));
    let pending: Poll<u32> = Poll::<u32>::Pending.map(|x| x + 1);
    assert!(matches!(pending, Poll::Pending));
}

#[test]
fn future_is_pending_then_ready_then_disconnected() {
    let (sender, receiver) = mpsc::channel();
    let mut future = Future::new(receiver);
    assert!(matches!(future.try_poll(), Poll::Pending));
    sender.send(5u64).unwrap();
    assert!(matches!(future.try_poll(), Poll::Ready(Ok(5))));
    drop(sender);
    assert!(matches!(future.try_poll(), Poll::Ready(Err(PollError::Disconnected))));
}

#[test]
fn the_first_ready_disconnects_the_sender() {
    let (sender, receiver) = mpsc::channel();
    let mut future = Future::new(receiver);
    sender.send(1u64).unwrap();
    sender.send(2u64).unwrap();
    assert!(matches!(future.try_poll(), Poll::Ready(Ok(1))));
    assert!(matches!(future.try_poll(), Poll::Ready(Err(PollError::Disconnected))));
    assert!(matches!(future.try_take(), RecvOutcome::Disconnected));
    assert!(sender.send(3u64).is_err());
}

#[test]
fn a_disconnected_poll_also_spends_the_future() {
    let (sender, receiver) = mpsc::channel::<u64>();
    let mut future = Future::new(receiver);
    drop(sender);
    assert!(matches!(future.try_poll(), Poll::Ready(Err(PollError::Disconnected))));
    assert!(matches!(future.try_poll(), Poll::Ready(Err(PollError::Disconnected))));
}

#[test]
fn future_try_take_reports_each_state() {
    let (sender, receiver) = mpsc::channel();
    let future = Future::new(receiver);
    assert!(matches!(future.try_take(), RecvOutcome::Empty));
    sender.send("a").unwrap();
    assert!(matches!(future.try_take(), RecvOutcome::Received("a")));
    drop(sender);
    assert!(matches!(future.try_take(), RecvOutcome::Disconnected));
}

#[test]
fn fresh_ids_are_version_four() {
    for _ in 0..100 {
        let id = keep_alive_ping().id;
        assert_eq!((id >> 76) & 0xf, 4);
        assert_eq!((id >> 62) & 0x3, 2);
    }
    assert_ne!(keep_alive_ping().id, keep_alive_ping().id);
}

#[test]
fn keep_alive_ping_goes_to_the_ping_endpoint() {
    let ping = keep_alive_ping();
    assert_eq!(ping.endpoint, "/event/ping");
    assert_eq!(ping.header.source_endpoint_id, None);
    assert!(ping.header.source_identity.is_none());
}

#[test]
fn transformation_event_frames_any_payload() {
    let event = transformation_event((1u8, "payload"));
    assert_eq!(event.endpoint, TRANSFORMATION_EVENT_ENDPOINT);
    assert_eq!(event.endpoint, "/event/transformation");
    assert_eq!(event.payload, (1u8, "payload"));
    assert_eq!((event.id >> 76) & 0xf, 4);
    assert!(event.header.source_identity.is_none());
}

#[test]
fn id_text_is_hyphenated_lowercase() {
    let id: u128 = 0xd908808f_073d_4c57_9c08_bf91ba2b1bce;
    let identity = Identity { id, noun: "ai".to_string() };
    assert_eq!(identity.id_text(), "d908808f-073d-4c57-9c08-bf91ba2b1bce");
    let nil = Identity { id: 0, noun: String::new() };
    assert_eq!(nil.id_text(), "00000000-0000-0000-0000-000000000000");
}

#[test]
fn parse_id_reads_back_the_text() {
    let id: u128 = 0xd908808f_073d_4c57_9c08_bf91ba2b1bce;
    let read = |text: &str| Identity::from_id_text(text, "ai".to_string()).map(|i| (i.id, i.noun));
    assert_eq!(read("d908808f-073d-4c57-9c08-bf91ba2b1bce"), Some((id, "ai".to_string())));
    assert_eq!(read("D908808F073D4C579C08BF91BA2B1BCE"), Some((id, "ai".to_string())));
    let identity = Identity { id, noun: "ai".to_string() };
    assert_eq!(read(&identity.id_text()), Some((id, "ai".to_string())));
    assert_eq!(read("not an id"), None);
    assert_eq!(read(""), None);
}

#[test]
fn nil_id_is_zero() {
    assert_eq!(nil_id(), 0);
}
