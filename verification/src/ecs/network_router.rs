//! Routing of inbound messages: which handler a message goes to, and whether
//! its claim about who sent it can be believed.
use crate::ecs::types::{source_view, NetworkIdentity, Trusted, Untrusted};
use crate::protocol::authenticate::AuthenticateRequest;
use crate::protocol::entity_authority::{
    EntityClientAuthorityEvent, EntityClientAuthorityEventPayload, EntityReplicationAuthorityEvent,
    EntityReplicationAuthorityEventPayload, EntitySimulationAuthorityEvent,
    EntitySimulationAuthorityEventPayload,
};
use crate::protocol::entity_identities::{EntityIdentitiesRequest, EntityIdentitiesRequestPayload, EntityIdentitiesResponse};
use crate::protocol::entity_identity::{EntityIdentityEvent, EntityIdentityEventPayload};
use crate::protocol::message::{Event, Message, Request};
use crate::protocol::ping::PingEvent;
use crate::protocol::replicate_entity_components::{
    ReplicateEntityComponentsRequest, ReplicateEntityComponentsRequestPayload,
    ReplicateEntityComponentsResponse,
};
use crate::protocol::ship::{ShipEvent, ShipEventPayload};
use crate::protocol::transformation::TRANSFORMATION_EVENT_ENDPOINT;
use crate::protocol::types::IdentityView;
use crate::text::same_text;
use crate::protocol::entity_authority::ENTITY_CLIENT_AUTHORITY_EVENT_ENDPOINT;
use crate::protocol::entity_authority::ENTITY_REPLICATION_AUTHORITY_EVENT_ENDPOINT;
use crate::protocol::entity_authority::ENTITY_SIMULATION_AUTHORITY_EVENT_ENDPOINT;
use crate::protocol::entity_identities::ENTITY_IDENTITIES_REQUEST_ENDPOINT;
use crate::protocol::entity_identity::ENTITY_IDENTITY_EVENT_ENDPOINT;
use crate::protocol::replicate_entity_components::REPLICATE_ENTITY_COMPONENTS_REQUEST_ENDPOINT;
use crate::protocol::ship::SHIP_EVENT_ENDPOINT;
use vstd::prelude::*;

verus! {

/// Where an inbound message goes, by its endpoint.
#[derive(Debug, Clone, Copy, PartialEq, Eq, Structural)]
pub enum Route {
    /// An authenticate request.
    AuthenticateRequest,
    /// An entity client authority event.
    EntityClientAuthorityEvent,
    /// An entity replication authority event.
    EntityReplicationAuthorityEvent,
    /// An entity simulation authority event.
    EntitySimulationAuthorityEvent,
    /// An entity identities request.
    EntityIdentitiesRequest,
    /// An entity identity event.
    EntityIdentityEvent,
    /// A ping: it only keeps the connection alive and is dropped.
    Ping,
    /// A replicate entity components request.
    ReplicateEntityComponentsRequest,
    /// A ship event.
    ShipEvent,
    /// A transformation event.
    TransformationEvent,
    /// No handler: the message is dropped with a warning.
    Unhandled,
}

/// The route of a message with this endpoint.
pub open spec fn route_of(endpoint: Seq<char>) -> Route {
    if endpoint == AuthenticateRequest::ENDPOINT@ {
        Route::AuthenticateRequest
    } else if endpoint == ENTITY_CLIENT_AUTHORITY_EVENT_ENDPOINT@ {
        Route::EntityClientAuthorityEvent
    } else if endpoint == ENTITY_REPLICATION_AUTHORITY_EVENT_ENDPOINT@ {
        Route::EntityReplicationAuthorityEvent
    } else if endpoint == ENTITY_SIMULATION_AUTHORITY_EVENT_ENDPOINT@ {
        Route::EntitySimulationAuthorityEvent
    } else if endpoint == ENTITY_IDENTITIES_REQUEST_ENDPOINT@ {
        Route::EntityIdentitiesRequest
    } else if endpoint == ENTITY_IDENTITY_EVENT_ENDPOINT@ {
        Route::EntityIdentityEvent
    } else if endpoint == PingEvent::ENDPOINT@ {
        Route::Ping
    } else if endpoint == REPLICATE_ENTITY_COMPONENTS_REQUEST_ENDPOINT@ {
        Route::ReplicateEntityComponentsRequest
    } else if endpoint == SHIP_EVENT_ENDPOINT@ {
        Route::ShipEvent
    } else if endpoint == TRANSFORMATION_EVENT_ENDPOINT@ {
        Route::TransformationEvent
    } else {
        Route::Unhandled
    }
}

/// Route: picks the handler of an inbound message by its endpoint.
pub fn route(endpoint: &str) -> (res: Route)
    ensures
        res == route_of(endpoint@),
{
    if same_text(endpoint, AuthenticateRequest::ENDPOINT) {
        Route::AuthenticateRequest
    } else if same_text(endpoint, ENTITY_CLIENT_AUTHORITY_EVENT_ENDPOINT) {
        Route::EntityClientAuthorityEvent
    } else if same_text(endpoint, ENTITY_REPLICATION_AUTHORITY_EVENT_ENDPOINT) {
        Route::EntityReplicationAuthorityEvent
    } else if same_text(endpoint, ENTITY_SIMULATION_AUTHORITY_EVENT_ENDPOINT) {
        Route::EntitySimulationAuthorityEvent
    } else if same_text(endpoint, ENTITY_IDENTITIES_REQUEST_ENDPOINT) {
        Route::EntityIdentitiesRequest
    } else if same_text(endpoint, ENTITY_IDENTITY_EVENT_ENDPOINT) {
        Route::EntityIdentityEvent
    } else if same_text(endpoint, PingEvent::ENDPOINT) {
        Route::Ping
    } else if same_text(endpoint, REPLICATE_ENTITY_COMPONENTS_REQUEST_ENDPOINT) {
        Route::ReplicateEntityComponentsRequest
    } else if same_text(endpoint, SHIP_EVENT_ENDPOINT) {
        Route::ShipEvent
    } else if same_text(endpoint, TRANSFORMATION_EVENT_ENDPOINT) {
        Route::TransformationEvent
    } else {
        Route::Unhandled
    }
}

/// A noun of a peer that speaks only for itself: an AI or a game client.
pub open spec fn is_untrusted_noun(noun: Seq<char>) -> bool {
    noun == "ai"@ || noun == "client"@
}

/// A noun of a server peer, whose word about a message's source is believed.
pub open spec fn is_trusted_noun(noun: Seq<char>) -> bool {
    noun == "replication"@ || noun == "simulation"@
}

/// A noun that routing knows how to treat.
pub open spec fn is_known_noun(noun: Seq<char>) -> bool {
    is_untrusted_noun(noun) || is_trusted_noun(noun)
}

/// The identity of a connection, as plain values.
pub open spec fn connection_view(identity: Option<&NetworkIdentity>) -> Option<IdentityView> {
    match identity {
        Some(i) => Some(i.inner@),
        None => None,
    }
}

/// The source that a message is given on arrival. A message from a
/// connection that has not authenticated has no source. A replication server
/// forwards messages of others, so its claim is kept and only filled in when
/// missing; every other peer speaks for itself, and whatever source it claims
/// is overwritten with its own identity.
pub open spec fn dispatched_source(
    connection: Option<IdentityView>,
    claimed: Option<IdentityView>,
) -> Option<IdentityView> {
    match connection {
        None => None,
        Some(c) => if c.noun == "replication"@ && claimed is Some {
            claimed
        } else {
            Some(c)
        },
    }
}

/// Routing handles the message: the connection's noun, and the noun of the
/// source the message ends up with, are ones it knows.
pub open spec fn can_dispatch(connection: Option<IdentityView>, claimed: Option<IdentityView>) -> bool {
    &&& (connection matches Some(c) ==> is_known_noun(c.noun))
    &&& (dispatched_source(connection, claimed) matches Some(s) ==> is_known_noun(s.noun))
}

/// A source whose word is believed: a server.
pub open spec fn is_trusted_source(source: Option<IdentityView>) -> bool {
    source matches Some(s) && is_trusted_noun(s.noun)
}

/// A routed message, sorted by whether its source is believed.
#[derive(Debug)]
pub enum Dispatched<T> {
    /// Trusted.
    Trusted(Trusted<Message<T>>),
    /// Untrusted.
    Untrusted(Untrusted<Message<T>>),
}

impl<T> Dispatched<T> {
    /// The routed message.
    pub open spec fn message(self) -> Message<T> {
        match self {
            Dispatched::Trusted(t) => t.inner,
            Dispatched::Untrusted(u) => u.inner,
        }
    }
}

/// Whether the text equals one of the nouns of an AI or a client.
pub fn is_untrusted_noun_text(noun: &str) -> (res: bool)
    ensures
        res == is_untrusted_noun(noun@),
{
    same_text(noun, "ai") || same_text(noun, "client")
}

/// Whether the text equals one of the nouns of a server.
pub fn is_trusted_noun_text(noun: &str) -> (res: bool)
    ensures
        res == is_trusted_noun(noun@),
{
    same_text(noun, "replication") || same_text(noun, "simulation")
}

/// Whether routing handles this message from this connection; the
/// application asks before it dispatches, and stops where it does not.
pub fn dispatchable<T>(identity: Option<&NetworkIdentity>, message: &Message<T>) -> (res: bool)
    ensures
        res == can_dispatch(connection_view(identity), source_view(message.header.source_identity)),
{
    match identity {
        None => true,
        Some(c) => {
            let noun = c.inner.noun.as_str();
            if !(is_untrusted_noun_text(noun) || is_trusted_noun_text(noun)) {
                false
            } else if same_text(noun, "replication") {
                match &message.header.source_identity {
                    Some(s) => {
                        let claimed = s.noun.as_str();
                        is_untrusted_noun_text(claimed) || is_trusted_noun_text(claimed)
                    },
                    None => true,
                }
            } else {
                true
            }
        },
    }
}

/// Dispatch: stamps an inbound message with the connection it arrived on and
/// the source it speaks for, and sorts it into trusted and untrusted.
pub fn dispatch<T>(endpoint_id: usize, identity: Option<&NetworkIdentity>, message: Message<T>) -> (res:
    Dispatched<T>)
    requires
        can_dispatch(connection_view(identity), source_view(message.header.source_identity)),
    ensures
        res.message().id == message.id,
        res.message().endpoint == message.endpoint,
        res.message().payload == message.payload,
        res.message().header.source_endpoint_id == Some(endpoint_id),
        source_view(res.message().header.source_identity) == dispatched_source(
            connection_view(identity),
            source_view(message.header.source_identity),
        ),
        res is Trusted <==> is_trusted_source(
            dispatched_source(connection_view(identity), source_view(message.header.source_identity)),
        ),
{
    let mut message = message;
    message.header.source_endpoint_id = Some(endpoint_id);
    match identity {
        Some(connection) => {
            let noun = connection.inner.noun.as_str();
            if same_text(noun, "replication") {
                // populate source from trusted endpoints if not present.
                if message.header.source_identity.is_none() {
                    message.header.source_identity = Some(connection.inner.clone().into());
                }
            } else {
                // always overwrite source from untrusted endpoints.
                message.header.source_identity = Some(connection.inner.clone().into());
            }
        },
        None => {
            message.header.source_identity = None;
        },
    }
    let trusted = match &message.header.source_identity {
        Some(source) => is_trusted_noun_text(source.noun.as_str()),
        None => false,
    };
    if trusted {
        Dispatched::Trusted(Trusted { inner: message })
    } else {
        Dispatched::Untrusted(Untrusted { inner: message })
    }
}

/// The four nouns that routing knows are four different texts.
proof fn lemma_nouns_differ()
    ensures
        "ai"@ != "client"@,
        "ai"@ != "replication"@,
        "ai"@ != "simulation"@,
        "client"@ != "replication"@,
        "client"@ != "simulation"@,
        "replication"@ != "simulation"@,
{
    reveal_strlit("ai");
    reveal_strlit("client");
    reveal_strlit("replication");
    reveal_strlit("simulation");
    assert("ai"@.len() == 2 && "client"@.len() == 6);
    assert("replication"@.len() == 11 && "simulation"@.len() == 10);
}

/// A message that arrives from an AI or client connection is never trusted,
/// and its source is the connection itself, whatever source it claims.
pub proof fn law_clients_cannot_claim_trust(connection: IdentityView, claimed: Option<IdentityView>)
    requires
        is_untrusted_noun(connection.noun),
    ensures
        dispatched_source(Some(connection), claimed) == Some(connection),
        !is_trusted_source(dispatched_source(Some(connection), claimed)),
{
    lemma_nouns_differ();
}

/// A message that arrives on a connection that has not authenticated has no
/// source and is not trusted.
pub proof fn law_unauthenticated_messages_are_untrusted(claimed: Option<IdentityView>)
    ensures
        dispatched_source(None, claimed) is None,
        !is_trusted_source(dispatched_source(None, claimed)),
{
}

/// A replication server relays the messages of others: a source that the
/// message already names is kept, and the message is trusted exactly when
/// that source is a server; a message without a source speaks for the
/// replication server and is trusted.
pub proof fn law_relayed_source_is_kept(connection: IdentityView, claimed: Option<IdentityView>)
    requires
        connection.noun == "replication"@,
    ensures
        claimed is Some ==> dispatched_source(Some(connection), claimed) == claimed,
        claimed is None ==> dispatched_source(Some(connection), claimed) == Some(connection),
        claimed matches Some(c) ==> (is_trusted_source(dispatched_source(Some(connection), claimed))
            <==> is_trusted_noun(c.noun)),
        claimed is None ==> is_trusted_source(dispatched_source(Some(connection), claimed)),
{
    lemma_nouns_differ();
}

/// A message from a simulation server speaks for that server and is trusted.
pub proof fn law_simulation_messages_are_trusted(connection: IdentityView, claimed: Option<IdentityView>)
    requires
        connection.noun == "simulation"@,
    ensures
        dispatched_source(Some(connection), claimed) == Some(connection),
        is_trusted_source(dispatched_source(Some(connection), claimed)),
{
    lemma_nouns_differ();
}

} // verus!
verus! {

/// Every peer that routing knows can be dispatched from: a connection that
/// has not authenticated, an AI, a client or a simulation server always (its
/// messages speak for it), and a replication server whenever it relays no
/// source or the source of an AI, a client or a server. A connection with
/// any other noun cannot be.
pub proof fn law_known_peers_are_dispatched(connection: Option<IdentityView>, claimed: Option<IdentityView>)
    ensures
        connection is None ==> can_dispatch(connection, claimed),
        connection matches Some(c) && (c.noun == "ai"@ || c.noun == "client"@ || c.noun == "simulation"@)
            ==> can_dispatch(connection, claimed),
        connection matches Some(c) && c.noun == "replication"@ && (claimed matches Some(s) ==> (s.noun
            == "ai"@ || s.noun == "client"@ || s.noun == "replication"@ || s.noun == "simulation"@))
            ==> can_dispatch(connection, claimed),
        connection matches Some(c) && !(c.noun == "ai"@ || c.noun == "client"@ || c.noun == "replication"@
            || c.noun == "simulation"@) ==> !can_dispatch(connection, claimed),
{
    lemma_nouns_differ();
}

/// Each handler gets exactly its own endpoint, and every endpoint outside
/// the ten that routing handles is unhandled.
pub proof fn law_each_endpoint_has_its_handler(endpoint: Seq<char>)
    ensures
        route_of(endpoint) == Route::AuthenticateRequest <==> endpoint == "/request/authenticate"@,
        route_of(endpoint) == Route::EntityClientAuthorityEvent <==> endpoint
            == "/event/entity_client_authority"@,
        route_of(endpoint) == Route::EntityReplicationAuthorityEvent <==> endpoint
            == "/event/entity_replication_authority"@,
        route_of(endpoint) == Route::EntitySimulationAuthorityEvent <==> endpoint
            == "/event/entity_simulation_authority"@,
        route_of(endpoint) == Route::EntityIdentitiesRequest <==> endpoint == "/request/entity_identities"@,
        route_of(endpoint) == Route::EntityIdentityEvent <==> endpoint == "/event/entity_identity"@,
        route_of(endpoint) == Route::Ping <==> endpoint == "/event/ping"@,
        route_of(endpoint) == Route::ReplicateEntityComponentsRequest <==> endpoint
            == "/request/replicate_entity_components"@,
        route_of(endpoint) == Route::ShipEvent <==> endpoint == "/event/ship"@,
        route_of(endpoint) == Route::TransformationEvent <==> endpoint == "/event/transformation"@,
        route_of(endpoint) == Route::Unhandled <==> !(endpoint == "/request/authenticate"@ || endpoint
            == "/event/entity_client_authority"@ || endpoint == "/event/entity_replication_authority"@
            || endpoint == "/event/entity_simulation_authority"@ || endpoint
            == "/request/entity_identities"@ || endpoint == "/event/entity_identity"@ || endpoint
            == "/event/ping"@ || endpoint == "/request/replicate_entity_components"@ || endpoint
            == "/event/ship"@ || endpoint == "/event/transformation"@),
{
    reveal_strlit("/request/authenticate");
    reveal_strlit("/event/entity_client_authority");
    reveal_strlit("/event/entity_replication_authority");
    reveal_strlit("/event/entity_simulation_authority");
    reveal_strlit("/request/entity_identities");
    reveal_strlit("/event/entity_identity");
    reveal_strlit("/event/ping");
    reveal_strlit("/request/replicate_entity_components");
    reveal_strlit("/event/ship");
    reveal_strlit("/event/transformation");
    assert("/request/authenticate"@.len() == 21);
    assert("/event/entity_client_authority"@.len() == 30);
    assert("/event/entity_replication_authority"@.len() == 35);
    assert("/event/entity_simulation_authority"@.len() == 34);
    assert("/request/entity_identities"@.len() == 26);
    assert("/event/entity_identity"@.len() == 22);
    assert("/event/ping"@.len() == 11);
    assert("/request/replicate_entity_components"@.len() == 36);
    assert("/event/ship"@.len() == 11);
    assert("/event/transformation"@.len() == 21);
    assert("/event/ping"@[7] != "/event/ship"@[7]);
    assert("/request/authenticate"@[1] != "/event/transformation"@[1]);
}

} // verus!
