//! The message as it travels over a connection: four texts.
use vstd::prelude::*;
use vstd::std_specs::cmp::PartialEqSpecImpl;

verus! {

/// Message: the unit that a connection carries.
#[derive(Debug)]
pub struct Message {
    /// Id.
    pub id: String,
    /// Endpoint.
    pub endpoint: String,
    /// Header.
    pub header: String,
    /// Payload.
    pub payload: String,
}

/// The texts of a wire message, in order: id, endpoint, header, payload.
pub struct MessageView {
    pub id: Seq<char>,
    pub endpoint: Seq<char>,
    pub header: Seq<char>,
    pub payload: Seq<char>,
}

impl View for Message {
    type V = MessageView;

    open spec fn view(&self) -> MessageView {
        MessageView {
            id: self.id@,
            endpoint: self.endpoint@,
            header: self.header@,
            payload: self.payload@,
        }
    }
}

impl Clone for Message {
    fn clone(&self) -> (res: Self)
        ensures
            res@ == self@,
    {
        Message {
            id: self.id.clone(),
            endpoint: self.endpoint.clone(),
            header: self.header.clone(),
            payload: self.payload.clone(),
        }
    }
}

impl PartialEq for Message {
    fn eq(&self, other: &Self) -> (res: bool) {
        self.id == other.id && self.endpoint == other.endpoint && self.header == other.header
            && self.payload == other.payload
    }
}

impl Eq for Message {}

impl PartialEqSpecImpl for Message {
    open spec fn obeys_eq_spec() -> bool {
        true
    }

    open spec fn eq_spec(&self, other: &Message) -> bool {
        self@ == other@
    }
}

impl Message {
    /// Creates a new [`Message`] from its four texts.
    pub fn new(id: String, endpoint: String, header: String, payload: String) -> (res: Self)
        ensures
            res@ == (MessageView { id: id@, endpoint: endpoint@, header: header@, payload: payload@ }),
    {
        Message { id, endpoint, header, payload }
    }
}

} // verus!
