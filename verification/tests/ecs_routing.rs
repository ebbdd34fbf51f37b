use chaos_symphony::ecs::network_router::{
    dispatch, dispatchable, is_trusted_noun_text, is_untrusted_noun_text, route, Dispatched, Route,
};
use chaos_symphony::ecs::types::{Identity, NetworkIdentity};
use chaos_symphony::protocol;
use chaos_symphony::protocol::message::{Message, MessageHeader};
use chaos_symphony::protocol::ping::PingEventPayload;

fn identity(id: u128, noun: &str) -> Identity {
    Identity { id, noun: noun.to_string() }
}

fn connection(id: u128, noun: &str) -> NetworkIdentity {
    NetworkIdentity { inner: identity(id, noun) }
}

fn message(source: Option<protocol::types::Identity>) -> Message<PingEventPayload> {
    let mut header = MessageHeader::empty();
    header.source_identity = source;
    Message { id: 9, endpoint: "/event/ship".to_string(), header, payload: PingEventPayload }
}

fn unpack(d: Dispatched<PingEventPayload>) -> (bool, Message<PingEventPayload>) {
    match d {
        Dispatched::Trusted(t) => (true, t.inner),
        Dispatched::Untrusted(u) => (false, u.inner),
    }
}

#[test]
fn route_picks_the_handler_by_endpoint() {
    assert_eq!(route("/request/authenticate"), Route::AuthenticateRequest);
    assert_eq!(route("/event/entity_client_authority"), Route::EntityClientAuthorityEvent);
    assert_eq!(route("/event/entity_replication_authority"), Route::EntityReplicationAuthorityEvent);
    assert_eq!(route("/event/entity_simulation_authority"), Route::EntitySimulationAuthorityEvent);
    assert_eq!(route("/request/entity_identities"), Route::EntityIdentitiesRequest);
    assert_eq!(route("/event/entity_identity"), Route::EntityIdentityEvent);
    assert_eq!(route("/event/ping"), Route::Ping);
    assert_eq!(route("/request/replicate_entity_components"), Route::ReplicateEntityComponentsRequest);
    assert_eq!(route("/event/ship"), Route::ShipEvent);
    assert_eq!(route("/event/transformation"), Route::TransformationEvent);
    assert_eq!(route("/response/authenticate"), Route::Unhandled);
    assert_eq!(route(""), Route::Unhandled);
}

#[test]
fn nouns_are_sorted() {
    assert!(is_untrusted_noun_text("ai"));
    assert!(is_untrusted_noun_text("client"));
    assert!(!is_untrusted_noun_text("simulation"));
    assert!(is_trusted_noun_text("replication"));
    assert!(is_trusted_noun_text("simulation"));
    assert!(!is_trusted_noun_text("client"));
    assert!(!is_trusted_noun_text("Simulation"));
}

#[test]
fn client_claiming_to_be_a_server_is_untrusted() {
    let client = connection(1, "client");
    let forged = message(Some(protocol::types::Identity { id: 2, noun: "simulation".to_string() }));
    assert!(dispatchable(Some(&client), &forged));
    let (trusted, m) = unpack(dispatch(17, Some(&client), forged));
    assert!(!trusted);
    assert_eq!(m.header.source_endpoint_id, Some(17));
    assert_eq!(m.header.source_identity.unwrap(), identity(1, "client"));
    assert_eq!(m.id, 9);
}

#[test]
fn ai_messages_are_untrusted() {
    let ai = connection(3, "ai");
    let (trusted, m) = unpack(dispatch(1, Some(&ai), message(None)));
    assert!(!trusted);
    assert_eq!(m.header.source_identity.unwrap(), identity(3, "ai"));
}

#[test]
fn unauthenticated_messages_have_no_source() {
    let claimed = message(Some(protocol::types::Identity { id: 2, noun: "replication".to_string() }));
    let (trusted, m) = unpack(dispatch(4, None, claimed));
    assert!(!trusted);
    assert!(m.header.source_identity.is_none());
    assert_eq!(m.header.source_endpoint_id, Some(4));
}

#[test]
fn simulation_messages_are_trusted_and_speak_for_the_server() {
    let simulation = connection(5, "simulation");
    let claimed = message(Some(protocol::types::Identity { id: 6, noun: "client".to_string() }));
    let (trusted, m) = unpack(dispatch(2, Some(&simulation), claimed));
    assert!(trusted);
    assert_eq!(m.header.source_identity.unwrap(), identity(5, "simulation"));
}

#[test]
fn replication_keeps_the_relayed_source() {
    let replication = connection(7, "replication");
    let relayed = message(Some(protocol::types::Identity { id: 8, noun: "client".to_string() }));
    let (trusted, m) = unpack(dispatch(3, Some(&replication), relayed));
    assert!(!trusted);
    assert_eq!(m.header.source_identity.unwrap(), identity(8, "client"));
    let own = message(None);
    let (trusted, m) = unpack(dispatch(3, Some(&replication), own));
    assert!(trusted);
    assert_eq!(m.header.source_identity.unwrap(), identity(7, "replication"));
    let relayed_server = message(Some(protocol::types::Identity { id: 9, noun: "simulation".to_string() }));
    let (trusted, _) = unpack(dispatch(3, Some(&replication), relayed_server));
    assert!(trusted);
}

#[test]
fn unknown_nouns_cannot_be_dispatched() {
    let stranger = connection(1, "stranger");
    assert!(!dispatchable(Some(&stranger), &message(None)));
    let replication = connection(7, "replication");
    let odd = message(Some(protocol::types::Identity { id: 8, noun: "ghost".to_string() }));
    assert!(!dispatchable(Some(&replication), &odd));
    assert!(dispatchable(None, &odd));
    let client = connection(1, "client");
    assert!(dispatchable(Some(&client), &odd));
}
