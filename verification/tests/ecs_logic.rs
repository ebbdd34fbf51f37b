use chaos_symphony::ecs::network_connect::{connect_outcome, ConnectOutcome};
use chaos_symphony::ecs::bevy_config::BevyConfigPlugin;
use chaos_symphony::ecs::entity_identities::{entity_identities_reply, entity_identities_request, EntityIdentitiesPlugin};
use chaos_symphony::ecs::entity_identity::{announcement, apply_trusted_event, AnnouncedAuthority, AnnouncementAction, EntityIdentityPlugin};
use chaos_symphony::ecs::lookup::{contains_identity, find_endpoint, find_identity, forward_targets};
use chaos_symphony::ecs::network_authenticate::{
    authenticate_outcome, authenticate_reply, authenticate_request, AuthenticateOutcome, AuthenticateReply,
    NetworkAuthenticatePlugin,
};
use chaos_symphony::ecs::network_authority::{label, NetworkAuthorityLabel};
use chaos_symphony::ecs::network_connect::{connections_to_open, NetworkConnectPlugin};
use chaos_symphony::ecs::outcome::{response_outcome, to_start, ResponseOutcome};
use chaos_symphony::ecs::replicate::replicate_reply;
use chaos_symphony::ecs::replicate_entity_components::{components_reply, components_request, validate_request};
use chaos_symphony::ecs::replication::{
    component_request_route, untrusted_event_route, ComponentRequestRoute, ReplicationPlugin, UntrustedEventAuthority,
    UntrustedRoute,
};
use chaos_symphony::ecs::transformation::TransformationPlugin;
use chaos_symphony::ecs::types::{
    EntityClientAuthority, EntityIdentity, EntityReplicationAuthority, Identity, NetworkIdentity, ReplicateComponent,
    ReplicateEvent, Role, Untrusted,
};
use chaos_symphony::ecs::DefaultPlugins;
use chaos_symphony::poll::PollError;
use chaos_symphony::protocol;
use chaos_symphony::protocol::authenticate::{AuthenticateRequest, AuthenticateRequestPayload, AuthenticateResponse, AuthenticateResponsePayload};
use chaos_symphony::protocol::entity_identities::EntityIdentitiesResponsePayload;
use chaos_symphony::protocol::entity_identity::{EntityIdentityEvent, EntityIdentityEventPayload};
use chaos_symphony::protocol::message::{Event, MessageHeader};
use chaos_symphony::protocol::replicate::{ReplicateRequest, ReplicateRequestPayload, ReplicateResponsePayload};
use chaos_symphony::protocol::replicate_entity_components::ReplicateEntityComponentsResponsePayload;

fn identity(id: u128, noun: &str) -> Identity {
    Identity { id, noun: noun.to_string() }
}

fn p_identity(id: u128, noun: &str) -> protocol::types::Identity {
    protocol::types::Identity { id, noun: noun.to_string() }
}

#[test]
fn identity_conversions_keep_the_fields() {
    let ecs = identity(1, "client");
    let wire: protocol::types::Identity = ecs.clone().into();
    assert_eq!(wire, p_identity(1, "client"));
    assert!(ecs == wire);
    assert!(wire == ecs);
    let back: Identity = wire.into();
    assert_eq!(back, ecs);
}

#[test]
fn lookups_find_the_first_match() {
    let ids = vec![4usize, 7, 7, 9];
    assert_eq!(find_endpoint(&ids, 7), Some(1));
    assert_eq!(find_endpoint(&ids, 5), None);
    let identities = vec![identity(1, "a"), identity(2, "b"), identity(2, "b")];
    assert_eq!(find_identity(&identities, &p_identity(2, "b")), Some(1));
    assert_eq!(find_identity(&identities, &p_identity(2, "a")), None);
    assert!(contains_identity(&identities, &p_identity(1, "a")));
    assert!(!contains_identity(&identities, &p_identity(3, "a")));
}

#[test]
fn events_are_forwarded_to_every_other_peer() {
    let peers = vec![identity(1, "client"), identity(2, "simulation"), identity(3, "client"), identity(2, "simulation")];
    assert_eq!(forward_targets(&peers, &p_identity(2, "simulation")), vec![0, 2]);
    assert_eq!(forward_targets(&peers, &p_identity(9, "client")), vec![0, 1, 2, 3]);
    assert_eq!(forward_targets(&vec![], &p_identity(9, "client")), Vec::<usize>::new());
}

#[test]
fn authenticate_outcomes() {
    let success = AuthenticateResponse::new(
        1,
        AuthenticateResponsePayload::Success { client_identity: p_identity(1, "client"), server_identity: p_identity(2, "replication") },
    );
    match authenticate_outcome(Ok(success)) {
        AuthenticateOutcome::Authenticated(n) => assert_eq!(n.inner, identity(2, "replication")),
        AuthenticateOutcome::Despawn => panic!("success authenticates"),
    }
    let failure = AuthenticateResponse::new(1, AuthenticateResponsePayload::Failure);
    assert!(matches!(authenticate_outcome(Ok(failure)), AuthenticateOutcome::Despawn));
    assert!(matches!(authenticate_outcome(Err(PollError::Disconnected)), AuthenticateOutcome::Despawn));
}

#[test]
fn authenticate_request_introduces_this_peer() {
    let me = NetworkIdentity { inner: identity(5, "client") };
    let request = authenticate_request(&me);
    assert_eq!(request.endpoint, "/request/authenticate");
    assert_eq!(request.payload.identity, p_identity(5, "client"));
    assert_eq!((request.id >> 76) & 0xf, 4);
}

#[test]
fn authenticate_reply_answers_on_the_source_connection() {
    let server = NetworkIdentity { inner: identity(9, "replication") };
    let mut request = AuthenticateRequest::new(33, AuthenticateRequestPayload { identity: p_identity(5, "client") });
    assert!(matches!(authenticate_reply(&request, &vec![1, 2], &server), AuthenticateReply::NoSourceEndpoint));
    request.header.source_endpoint_id = Some(2);
    assert!(matches!(authenticate_reply(&request, &vec![1, 3], &server), AuthenticateReply::EndpointNotFound));
    match authenticate_reply(&request, &vec![1, 2], &server) {
        AuthenticateReply::Reply { endpoint, network_identity, response } => {
            assert_eq!(endpoint, 1);
            assert_eq!(network_identity.inner, identity(5, "client"));
            assert_eq!(response.id, 33);
            assert_eq!(response.endpoint, "/response/authenticate");
            match response.payload {
                AuthenticateResponsePayload::Success { client_identity, server_identity } => {
                    assert_eq!(client_identity, p_identity(5, "client"));
                    assert_eq!(server_identity, p_identity(9, "replication"));
                }
                AuthenticateResponsePayload::Failure => panic!("authentication succeeds"),
            }
        }
        _ => panic!("the request is answered"),
    }
}

#[test]
fn plugins_follow_the_role() {
    let me = NetworkIdentity { inner: identity(5, "replication") };
    assert!(NetworkAuthenticatePlugin::new(me.clone(), Role::Replication).answers_requests());
    assert!(!NetworkAuthenticatePlugin::new(me, Role::Client).answers_requests());
    assert!(EntityIdentitiesPlugin::new(Role::Replication).answers_requests());
    assert!(!EntityIdentitiesPlugin::new(Role::Simulation).answers_requests());
    assert!(EntityIdentityPlugin::new(Role::Replication).relays_events());
    assert!(EntityIdentityPlugin::new(Role::Simulation).broadcasts_changes());
    assert!(!EntityIdentityPlugin::new(Role::Client).broadcasts_changes());
    assert!(NetworkConnectPlugin::new(Role::Client).connects());
    assert!(!NetworkConnectPlugin::new(Role::Replication).connects());
    assert!(TransformationPlugin::new(Role::Simulation).broadcasts_changes());
    assert!(!TransformationPlugin::new(Role::Client).broadcasts_changes());
    let client = ReplicationPlugin::<(), (), ()>::new(Role::Client).systems();
    assert!(!client.send_trusted && !client.replicate_on_request);
    assert_eq!(client.send_untrusted, Some(UntrustedEventAuthority::Replication));
    let replication = ReplicationPlugin::<(), (), ()>::new(Role::Replication).systems();
    assert!(replication.send_trusted && replication.replicate_on_request);
    assert_eq!(replication.send_untrusted, Some(UntrustedEventAuthority::Server));
    let simulation = ReplicationPlugin::<(), (), ()>::new(Role::Simulation).systems();
    assert!(simulation.send_trusted && simulation.replicate_on_request);
    assert_eq!(simulation.send_untrusted, None);
}

#[test]
fn default_plugins_pick_the_network_sides() {
    let config = BevyConfigPlugin { headless: true, log_filter: "chaos_symphony_ai".to_string(), title: "AI".to_string() };
    let client = DefaultPlugins { bevy_config: config.clone(), network_identity: NetworkIdentity { inner: identity(1, "ai") }, role: Role::Client };
    let n = client.network();
    assert!(n.client && !n.server);
    let server = DefaultPlugins { bevy_config: config, network_identity: NetworkIdentity { inner: identity(2, "replication") }, role: Role::Replication };
    let n = server.network();
    assert!(!n.client && n.server);
}

#[test]
fn log_directives_name_the_process_crate_when_headless() {
    let headless = BevyConfigPlugin { headless: true, log_filter: "chaos_symphony_ai".to_string(), title: "AI".to_string() };
    assert_eq!(
        headless.log_directives(),
        "info,chaos_symphony_ecs=debug,chaos_symphony_network_bevy=debug,chaos_symphony_ai=debug,wgpu_core=warn,wgpu_hal=warn"
    );
    let windowed = BevyConfigPlugin { headless: false, log_filter: "x".to_string(), title: "T".to_string() };
    assert_eq!(
        windowed.log_directives(),
        "info,chaos_symphony_ecs=debug,chaos_symphony_network_bevy=debug,chaos_symphony=debug,wgpu_core=warn,wgpu_hal=warn"
    );
}

#[test]
fn authority_labels() {
    assert!(matches!(label("ai"), Some(NetworkAuthorityLabel::Client(_))));
    assert!(matches!(label("client"), Some(NetworkAuthorityLabel::Client(_))));
    assert!(matches!(label("simulation"), Some(NetworkAuthorityLabel::Server(_))));
    assert!(label("replication").is_none());
}

#[test]
fn one_connection_is_kept() {
    assert_eq!(connections_to_open(0, 0), 1);
    assert_eq!(connections_to_open(1, 0), 0);
    assert_eq!(connections_to_open(0, 3), 0);
    assert_eq!(to_start(0, 0), 1);
    assert_eq!(to_start(2, 2), 0);
}

#[test]
fn response_outcomes() {
    assert_eq!(response_outcome(Ok(true)), ResponseOutcome::Accepted);
    assert_eq!(response_outcome(Ok(false)), ResponseOutcome::Rejected);
    assert_eq!(response_outcome(Err(PollError::Disconnected)), ResponseOutcome::Lost);
}

#[test]
fn announced_entities_are_spawned_once_under_their_announcer() {
    let mut event = <EntityIdentityEvent as Event<EntityIdentityEventPayload>>::message(1, EntityIdentityEventPayload { inner: p_identity(10, "ship") });
    event.header.source_identity = Some(p_identity(2, "replication"));
    match apply_trusted_event(&event, &vec![identity(11, "ship")]) {
        AnnouncementAction::Spawn { identity: spawned, authority } => {
            assert_eq!(spawned.inner, identity(10, "ship"));
            match authority {
                AnnouncedAuthority::Replication(a) => assert_eq!(a.identity, identity(2, "replication")),
                _ => panic!("announced by a replication server"),
            }
        }
        AnnouncementAction::AlreadyExists => panic!("not known yet"),
    }
    assert!(matches!(apply_trusted_event(&event, &vec![identity(10, "ship")]), AnnouncementAction::AlreadyExists));
    event.header.source_identity = Some(p_identity(3, "simulation"));
    assert!(matches!(
        apply_trusted_event(&event, &vec![]),
        AnnouncementAction::Spawn { authority: AnnouncedAuthority::Simulation(_), .. }
    ));
    event.header.source_identity = None;
    assert!(matches!(apply_trusted_event(&event, &vec![]), AnnouncementAction::Spawn { authority: AnnouncedAuthority::Unknown, .. }));
}

#[test]
fn entity_identities_are_answered_then_announced() {
    let mut request = entity_identities_request();
    assert_eq!(request.endpoint, "/request/entity_identities");
    assert!(entity_identities_reply(&request, &vec![3], &vec![]).is_none());
    request.header.source_endpoint_id = Some(3);
    assert!(entity_identities_reply(&request, &vec![4], &vec![]).is_none());
    let entities = vec![EntityIdentity { inner: identity(1, "ship") }, EntityIdentity { inner: identity(2, "ship") }];
    let reply = entity_identities_reply(&request, &vec![4, 3], &entities).unwrap();
    assert_eq!(reply.endpoint, 1);
    assert_eq!(reply.response.id, request.id);
    assert_eq!(reply.response.payload, EntityIdentitiesResponsePayload::Success);
    assert_eq!(reply.events.len(), 2);
    assert_eq!(reply.events[0].payload.inner, p_identity(1, "ship"));
    assert_eq!(reply.events[1].payload.inner, p_identity(2, "ship"));
    assert_ne!(reply.events[0].id, reply.events[1].id);
    let single = announcement(&entities[0]);
    assert_eq!(single.endpoint, "/event/entity_identity");
}

#[test]
fn authority_components_become_events_and_back() {
    let authority = EntityClientAuthority { identity: identity(1, "client") };
    let ship = EntityIdentity { inner: identity(2, "ship") };
    let event = authority.to_message(&ship);
    assert_eq!(event.endpoint, "/event/entity_client_authority");
    assert_eq!(event.payload.authority_identity, p_identity(1, "client"));
    assert_eq!(ReplicateEvent::entity_identity(&event), &p_identity(2, "ship"));
    assert_eq!(ReplicateEvent::id(&event), event.id);
    assert_eq!(event.bundle().identity, identity(1, "client"));
    assert!(event.source_identity().is_none());
    let replication = EntityReplicationAuthority { identity: identity(3, "replication") };
    let event = replication.to_message(&ship);
    assert_eq!(event.endpoint, "/event/entity_replication_authority");
    assert_eq!(event.bundle().identity, identity(3, "replication"));
}

#[test]
fn untrusted_events_go_to_the_entity_authority() {
    let entities = vec![identity(1, "ship"), identity(2, "ship")];
    let authorities = vec![identity(7, "replication"), identity(8, "replication")];
    let endpoints = vec![identity(8, "replication"), identity(7, "replication")];
    assert_eq!(untrusted_event_route(&entities, &authorities, &endpoints, &p_identity(1, "ship")), UntrustedRoute::To(1));
    assert_eq!(untrusted_event_route(&entities, &authorities, &endpoints, &p_identity(2, "ship")), UntrustedRoute::To(0));
    assert_eq!(untrusted_event_route(&entities, &authorities, &endpoints, &p_identity(3, "ship")), UntrustedRoute::EntityNotFound);
    assert_eq!(untrusted_event_route(&entities, &authorities, &vec![], &p_identity(1, "ship")), UntrustedRoute::AuthorityNotFound);
}

#[test]
fn component_requests() {
    let entities = vec![identity(1, "ship"), identity(2, "ship")];
    let endpoints = vec![identity(7, "replication")];
    let ship = EntityIdentity { inner: identity(2, "ship") };
    let made = components_request(&ship, &identity(7, "replication"), &endpoints).unwrap();
    assert_eq!(made.endpoint, 0);
    assert_eq!(made.request.endpoint, "/request/replicate_entity_components");
    assert_eq!(made.request.payload.entity_identity, p_identity(2, "ship"));
    assert!(components_request(&ship, &identity(8, "replication"), &endpoints).is_none());
    let mut request = made.request;
    assert_eq!(component_request_route(&request, &vec![5], &entities), ComponentRequestRoute::NoSourceEndpoint);
    assert!(components_reply(&request, &vec![5]).is_none());
    request.header.source_endpoint_id = Some(5);
    assert_eq!(component_request_route(&request, &vec![6], &entities), ComponentRequestRoute::EndpointNotFound);
    assert_eq!(component_request_route(&request, &vec![6, 5], &entities), ComponentRequestRoute::Send { endpoint: 1, entity: 1 });
    assert_eq!(component_request_route(&request, &vec![5], &vec![]), ComponentRequestRoute::EntityNotFound);
    let (endpoint, response) = components_reply(&request, &vec![6, 5]).unwrap();
    assert_eq!(endpoint, 1);
    assert_eq!(response.id, request.id);
    assert_eq!(response.payload, ReplicateEntityComponentsResponsePayload::Success);
    let trusted = validate_request(Untrusted { inner: 3u8 });
    assert_eq!(trusted.inner, 3);
}

#[test]
fn replicate_reply_says_whether_the_identity_exists() {
    let request = ReplicateRequest::new(4, ReplicateRequestPayload { identity: p_identity(1, "ship") });
    let (endpoint, response) = replicate_reply(&request, 9, &vec![8, 9], &vec![identity(1, "ship")]).unwrap();
    assert_eq!(endpoint, 1);
    assert_eq!(response.id, 4);
    assert_eq!(response.payload, ReplicateResponsePayload::Success);
    let (_, response) = replicate_reply(&request, 9, &vec![9], &vec![]).unwrap();
    assert_eq!(response.payload, ReplicateResponsePayload::Failure);
    assert!(replicate_reply(&request, 7, &vec![9], &vec![]).is_none());
}

#[test]
fn empty_header_names_nothing() {
    let header = MessageHeader::empty();
    assert!(header.source_endpoint_id.is_none() && header.source_identity.is_none());
}

#[test]
fn connect_outcomes() {
    assert!(matches!(connect_outcome::<u8, &str>(Ok(Ok(3))), ConnectOutcome::Connected(3)));
    assert!(matches!(connect_outcome::<u8, &str>(Ok(Err("refused"))), ConnectOutcome::Refused("refused")));
    assert!(matches!(
        connect_outcome::<u8, &str>(Err(PollError::Disconnected)),
        ConnectOutcome::Lost(PollError::Disconnected)
    ));
}
