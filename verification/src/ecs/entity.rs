//! Entities named by a text id.
use vstd::prelude::*;

verus! {

/// Identity: an entity named by a text id.
#[derive(Debug)]
pub struct Identity {
    inner: String,
}

impl Identity {
    /// The id, as text.
    pub closed spec fn text(&self) -> Seq<char> {
        self.inner@
    }

    /// Creates a new [`Identity`].
    pub fn new(id: String) -> (res: Self)
        ensures
            res.text() == id@,
    {
        Identity { inner: id }
    }

    /// Id.
    pub fn id(&self) -> (res: &str)
        ensures
            res@ == self.text(),
    {
        self.inner.as_str()
    }
}

} // verus!
