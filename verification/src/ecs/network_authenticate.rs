//! Authentication: a client introduces itself to a server on a new
//! connection, and learns who the server is.
use crate::ecs::lookup::{find_endpoint, is_first_index};
use crate::ecs::types::{Identity, NetworkIdentity, Role};
use crate::ids::{fresh_id, is_random_id};
use crate::poll::PollError;
use crate::protocol::authenticate::{
    AuthenticateRequest, AuthenticateRequestPayload, AuthenticateResponse, AuthenticateResponsePayload,
};
use vstd::prelude::*;

verus! {

/// Network Authenticate Plugin.
#[derive(Debug)]
pub struct NetworkAuthenticatePlugin {
    /// Identity.
    pub identity: NetworkIdentity,
    /// Role.
    pub role: Role,
}

impl NetworkAuthenticatePlugin {
    /// Creates a new [`NetworkAuthenticatePlugin`].
    pub fn new(identity: NetworkIdentity, role: Role) -> (res: Self)
        ensures
            res.identity == identity,
            res.role == role,
    {
        NetworkAuthenticatePlugin { identity, role }
    }

    /// Whether this peer answers authenticate requests (a replication
    /// server) rather than sending them (a client or a simulation server).
    pub fn answers_requests(&self) -> (res: bool)
        ensures
            res == (self.role == Role::Replication),
    {
        match self.role {
            Role::Replication => true,
            _ => false,
        }
    }
}

/// What a client does with the answer to its authenticate request.
#[derive(Debug)]
pub enum AuthenticateOutcome {
    /// No answer, or a refusal: the connection is dropped.
    Despawn,
    /// Success: the connection is now known to lead to this server.
    Authenticated(NetworkIdentity),
}

/// Callback: on an answer the callback is removed; an error or a failure
/// drops the connection; a success records who the server is.
pub fn authenticate_outcome(result: Result<AuthenticateResponse, PollError>) -> (res: AuthenticateOutcome)
    ensures
        match result {
            Ok(response) => match response.payload {
                AuthenticateResponsePayload::Success { server_identity, .. } =>
                    res matches AuthenticateOutcome::Authenticated(n) && n.inner@ == server_identity@,
                AuthenticateResponsePayload::Failure => res is Despawn,
            },
            Err(_) => res is Despawn,
        },
{
    match result {
        Ok(response) => match response.payload {
            AuthenticateResponsePayload::Success { server_identity, .. } => {
                AuthenticateOutcome::Authenticated(NetworkIdentity { inner: server_identity.into() })
            },
            AuthenticateResponsePayload::Failure => AuthenticateOutcome::Despawn,
        },
        Err(_) => AuthenticateOutcome::Despawn,
    }
}

/// Initiate: the request that introduces this peer on a new connection.
pub fn authenticate_request(identity: &NetworkIdentity) -> (res: AuthenticateRequest)
    ensures
        is_random_id(res.id),
        res.endpoint@ == AuthenticateRequest::ENDPOINT@,
        res.header.source_endpoint_id is None,
        res.header.source_identity is None,
        res.payload.identity@ == identity.inner@,
{
    AuthenticateRequest::new(fresh_id(), AuthenticateRequestPayload { identity: identity.inner.clone().into() })
}

/// What a server does with an authenticate request.
#[derive(Debug)]
pub enum AuthenticateReply {
    /// The request does not say which connection it came on: it is dropped.
    NoSourceEndpoint,
    /// The connection it came on is gone: it is dropped.
    EndpointNotFound,
    /// The connection at position `endpoint` is now known to lead to
    /// `network_identity`, and `response` goes back on it.
    Reply {
        /// Endpoint.
        endpoint: usize,
        /// Network Identity.
        network_identity: NetworkIdentity,
        /// Response.
        response: AuthenticateResponse,
    },
}

/// Request: the server believes the requester's word on who it is, records
/// it on the connection, and answers with success, naming both sides.
pub fn authenticate_reply(request: &AuthenticateRequest, endpoint_ids: &Vec<usize>, identity: &NetworkIdentity) -> (res:
    AuthenticateReply)
    ensures
        match request.header.source_endpoint_id {
            None => res is NoSourceEndpoint,
            Some(source) => if endpoint_ids@.contains(source) {
                res matches AuthenticateReply::Reply { endpoint, network_identity, response } && {
                    &&& is_first_index(endpoint_ids@, source, endpoint as int)
                    &&& network_identity.inner@ == request.payload.identity@
                    &&& response.id == request.id
                    &&& response.endpoint@ == AuthenticateResponse::ENDPOINT@
                    &&& response.header.source_endpoint_id is None
                    &&& response.header.source_identity is None
                    &&& response.payload matches AuthenticateResponsePayload::Success {
                        client_identity,
                        server_identity,
                    } && client_identity@ == request.payload.identity@ && server_identity@ == identity.inner@
                }
            } else {
                res is EndpointNotFound
            },
        },
{
    let source = match request.header.source_endpoint_id {
        Some(source) => source,
        None => {
            return AuthenticateReply::NoSourceEndpoint;
        },
    };
    let endpoint = match find_endpoint(endpoint_ids, source) {
        Some(endpoint) => endpoint,
        None => {
            return AuthenticateReply::EndpointNotFound;
        },
    };
    let network_identity = NetworkIdentity { inner: request.payload.identity.clone().into() };
    let response = AuthenticateResponse::new(
        request.id,
        AuthenticateResponsePayload::Success {
            client_identity: request.payload.identity.clone(),
            server_identity: identity.inner.clone().into(),
        },
    );
    AuthenticateReply::Reply { endpoint, network_identity, response }
}

} // verus!
