use crate::ids::{hyphenated, id_text, parse_id, uuid_from_text};
use vstd::prelude::*;
use vstd::string::StringExecFns;
use vstd::std_specs::cmp::PartialEqSpecImpl;

verus! {

/// Identity: who someone is on the network, by id and by kind ("noun").
#[derive(Debug)]
pub struct Identity {
    /// Id.
    pub id: u128,
    /// Noun.
    pub noun: String,
}

/// An identity as plain values.
pub struct IdentityView {
    pub id: u128,
    pub noun: Seq<char>,
}

impl View for Identity {
    type V = IdentityView;

    open spec fn view(&self) -> IdentityView {
        IdentityView { id: self.id, noun: self.noun@ }
    }
}

impl Clone for Identity {
    fn clone(&self) -> (res: Self)
        ensures
            res@ == self@,
    {
        Identity { id: self.id, noun: self.noun.clone() }
    }
}

impl PartialEq for Identity {
    fn eq(&self, other: &Self) -> (res: bool) {
        self.id == other.id && self.noun == other.noun
    }
}

impl Eq for Identity {}

impl PartialEqSpecImpl for Identity {
    open spec fn obeys_eq_spec() -> bool {
        true
    }

    open spec fn eq_spec(&self, other: &Identity) -> bool {
        self@ == other@
    }
}

impl Identity {
    /// Creates a new zeroed [`Identity`]: the nil id and an empty noun.
    pub fn zero() -> (res: Self)
        ensures
            res@.id == 0,
            res@.noun == Seq::<char>::empty(),
    {
        Identity { id: crate::ids::nil_id(), noun: String::new() }
    }

    /// The id as text, in hyphenated form, which reads back as the same id.
    pub fn id_text(&self) -> (res: String)
        ensures
            res@ == hyphenated(self.id),
            uuid_from_text(res@) == Some(self.id),
    {
        id_text(self.id)
    }

    /// The identity with the id that `id` reads as, and this noun; `None`
    /// where the text does not read as an id.
    pub fn from_id_text(id: &str, noun: String) -> (res: Option<Identity>)
        ensures
            res is Some <==> uuid_from_text(id@) is Some,
            res matches Some(i) ==> i.id == uuid_from_text(id@)->0 && i.noun@ == noun@,
    {
        match parse_id(id) {
            Some(id) => Some(Identity { id, noun }),
            None => None,
        }
    }

    /// The identity as text, `noun:id`, with the id in hyphenated form: how
    /// an identity is shown in logs.
    pub fn to_text(&self) -> (res: String)
        ensures
            res@ == self.noun@ + ":"@ + hyphenated(self.id),
    {
        let mut res = self.noun.clone();
        res.append(":");
        let id = id_text(self.id);
        res.append(id.as_str());
        res
    }
}

} // verus!
