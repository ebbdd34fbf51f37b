//! Identities: a client asks a server for the identities it knows.
use crate::ids::{fresh_id, is_random_id};
use crate::protocol::identities::{IdentitiesRequest, IdentitiesRequestPayload, IdentitiesResponse};
use crate::protocol::message::Request;
use crate::protocol::identities::IDENTITIES_REQUEST_ENDPOINT;
use vstd::prelude::*;

verus! {

/// Identities Plugin.
#[derive(Debug, Clone, Copy, PartialEq, Eq, Structural)]
pub struct IdentitiesPlugin;

/// Initiate: the request for every identity, with a fresh id.
pub fn identities_request() -> (res: IdentitiesRequest)
    ensures
        is_random_id(res.id),
        res.endpoint@ == IDENTITIES_REQUEST_ENDPOINT@,
        res.header.source_endpoint_id is None,
        res.header.source_identity is None,
{
    proof {
        crate::protocol::identities::lemma_endpoints();
    }
    <IdentitiesRequest as Request<IdentitiesRequestPayload, IdentitiesResponse>>::message(
        fresh_id(),
        IdentitiesRequestPayload {},
    )
}

} // verus!
