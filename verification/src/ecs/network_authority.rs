//! Labelling connections by the kind of peer they lead to.
use crate::ecs::types::{NetworkClientAuthority, NetworkServerAuthority};
use crate::ecs::network_router::{is_untrusted_noun_text};
use crate::text::same_text;
use vstd::prelude::*;

verus! {

/// Network Authority Plugin.
#[derive(Debug, Clone, Copy, PartialEq, Eq, Structural)]
pub struct NetworkAuthorityPlugin;

/// The label that a newly authenticated connection gets.
#[derive(Debug, Clone, Copy, PartialEq, Eq, Structural)]
pub enum NetworkAuthorityLabel {
    /// It leads to a client or an AI.
    Client(NetworkClientAuthority),
    /// It leads to a simulation server.
    Server(NetworkServerAuthority),
}

/// The label of a connection to a peer with this noun.
pub open spec fn label_of(noun: Seq<char>) -> Option<NetworkAuthorityLabel> {
    if noun == "ai"@ || noun == "client"@ {
        Some(NetworkAuthorityLabel::Client(NetworkClientAuthority))
    } else if noun == "simulation"@ {
        Some(NetworkAuthorityLabel::Server(NetworkServerAuthority))
    } else {
        None
    }
}

/// Label: clients and AIs are labelled as clients, simulation servers as
/// servers; other nouns get no label (and a logged error).
pub fn label(noun: &str) -> (res: Option<NetworkAuthorityLabel>)
    ensures
        res == label_of(noun@),
{
    if is_untrusted_noun_text(noun) {
        Some(NetworkAuthorityLabel::Client(NetworkClientAuthority))
    } else if same_text(noun, "simulation") {
        Some(NetworkAuthorityLabel::Server(NetworkServerAuthority))
    } else {
        None
    }
}

} // verus!
