//! The requests that a connection has sent and that still await their answer.
//!
//! A blocking request is sent with a channel for its answer. Until the answer
//! arrives, the channel waits here under the request's id. An inbound message
//! whose id matches a waiting request goes to that channel, once; any other
//! inbound message goes to the endpoint's ordinary queue.
use crate::wire;
use vstd::prelude::*;

verus! {

/// No two entries share an id.
pub open spec fn keys_unique<S>(s: Seq<(String, S)>) -> bool {
    forall|i: int, j: int|
        0 <= i < s.len() && 0 <= j < s.len() && i != j ==> #[trigger] s[i].0@ != #[trigger] s[j].0@
}

/// The map from id to waiting channel that a list of entries stands for.
pub open spec fn map_of<S>(s: Seq<(String, S)>) -> Map<Seq<char>, S>
    decreases s.len(),
{
    if s.len() == 0 {
        Map::empty()
    } else {
        map_of(s.drop_last()).insert(s.last().0@, s.last().1)
    }
}

proof fn lemma_map_of_dom<S>(s: Seq<(String, S)>, k: Seq<char>)
    ensures
        map_of(s).dom().contains(k) <==> exists|i: int| 0 <= i < s.len() && #[trigger] s[i].0@ == k,
    decreases s.len(),
{
    if s.len() > 0 {
        lemma_map_of_dom(s.drop_last(), k);
        if map_of(s).dom().contains(k) && s.last().0@ != k {
            let i = choose|i: int| 0 <= i < s.drop_last().len() && #[trigger] s.drop_last()[i].0@ == k;
            assert(s[i].0@ == k);
        }
        if exists|i: int| 0 <= i < s.len() && #[trigger] s[i].0@ == k {
            let i = choose|i: int| 0 <= i < s.len() && #[trigger] s[i].0@ == k;
            if i < s.len() - 1 {
                assert(s.drop_last()[i].0@ == k);
            }
        }
    }
}

proof fn lemma_map_of_value<S>(s: Seq<(String, S)>, i: int)
    requires
        keys_unique(s),
        0 <= i < s.len(),
    ensures
        map_of(s).dom().contains(s[i].0@),
        map_of(s)[s[i].0@] == s[i].1,
    decreases s.len(),
{
    lemma_map_of_dom(s, s[i].0@);
    if i < s.len() - 1 {
        let d = s.drop_last();
        assert(keys_unique(d)) by {
            assert forall|a: int, b: int| 0 <= a < d.len() && 0 <= b < d.len() && a != b implies
                #[trigger] d[a].0@ != #[trigger] d[b].0@ by {
                assert(d[a] == s[a] && d[b] == s[b]);
            }
        }
        assert(d[i] == s[i]);
        lemma_map_of_value(d, i);
        assert(s[i].0@ != s[s.len() - 1].0@);
    }
}

proof fn lemma_map_of_remove<S>(s: Seq<(String, S)>, i: int)
    requires
        keys_unique(s),
        0 <= i < s.len(),
    ensures
        keys_unique(s.remove(i)),
        map_of(s.remove(i)) =~= map_of(s).remove(s[i].0@),
    decreases s.len(),
{
    let r = s.remove(i);
    assert(keys_unique(r)) by {
        assert forall|a: int, b: int| 0 <= a < r.len() && 0 <= b < r.len() && a != b implies
            #[trigger] r[a].0@ != #[trigger] r[b].0@ by {
            let sa = if a < i { a } else { a + 1 };
            let sb = if b < i { b } else { b + 1 };
            assert(r[a] == s[sa] && r[b] == s[sb]);
        }
    }
    let d = s.drop_last();
    assert(keys_unique(d)) by {
        assert forall|a: int, b: int| 0 <= a < d.len() && 0 <= b < d.len() && a != b implies
            #[trigger] d[a].0@ != #[trigger] d[b].0@ by {
            assert(d[a] == s[a] && d[b] == s[b]);
        }
    }
    let k = s[i].0@;
    if i == s.len() - 1 {
        assert(r =~= d);
        lemma_map_of_dom(d, k);
        assert(!map_of(d).dom().contains(k)) by {
            if map_of(d).dom().contains(k) {
                let j = choose|j: int| 0 <= j < d.len() && #[trigger] d[j].0@ == k;
                assert(d[j] == s[j]);
            }
        }
    } else {
        lemma_map_of_remove(d, i);
        assert(r.drop_last() =~= d.remove(i));
        assert(r.last() == s.last());
        assert(s.last().0@ != k);
    }
}

/// The channel that an inbound message with this id goes to: the one
/// waiting under the id, if any; otherwise the message goes to the endpoint.
pub open spec fn inbound_target<S>(pending: Map<Seq<char>, S>, id: Seq<char>) -> Option<S> {
    if pending.dom().contains(id) {
        Some(pending[id])
    } else {
        None
    }
}

/// Pending Replies: for each blocking request still unanswered, the channel
/// that takes its answer, under the request's id.
pub struct PendingReplies<S> {
    entries: Vec<(String, S)>,
}

/// Where an inbound message goes.
pub enum Inbound<S> {
    /// To the channel of the blocking request that it answers.
    ToRequester {
        /// Requester.
        requester: S,
        /// Message.
        message: wire::Message,
    },
    /// To the endpoint's queue of non-blocking messages.
    ToEndpoint {
        /// Message.
        message: wire::Message,
    },
}

impl<S> View for PendingReplies<S> {
    type V = Map<Seq<char>, S>;

    closed spec fn view(&self) -> Map<Seq<char>, S> {
        map_of(self.entries@)
    }
}

impl<S> PendingReplies<S> {
    /// The table is well formed: no id waits twice.
    #[verifier::type_invariant]
    spec fn well_formed(&self) -> bool {
        keys_unique(self.entries@)
    }

    /// Creates an empty table.
    pub fn new() -> (res: Self)
        ensures
            res@ == Map::<Seq<char>, S>::empty(),
    {
        PendingReplies { entries: Vec::new() }
    }

    /// Number of requests still waiting.
    pub fn len(&self) -> (n: usize)
        ensures
            n == self@.len(),
    {
        proof {
            use_type_invariant(self);
            self.lemma_len();
        }
        self.entries.len()
    }

    proof fn lemma_len(&self)
        requires
            self.well_formed(),
        ensures
            self@.dom().finite(),
            self@.len() == self.entries@.len(),
        decreases self.entries@.len(),
    {
        lemma_map_of_len(self.entries@);
    }

    fn position(&self, id: &String) -> (res: Option<usize>)
        requires
            self.well_formed(),
        ensures
            match res {
                Some(i) => i < self.entries@.len() && self.entries@[i as int].0@ == id@,
                None => !self@.dom().contains(id@),
            },
    {
        let n = self.entries.len();
        let mut i: usize = 0;
        while i < n
            invariant
                n == self.entries@.len(),
                i <= n,
                forall|j: int| 0 <= j < i ==> #[trigger] self.entries@[j].0@ != id@,
            decreases n - i,
        {
            if self.entries[i].0 == *id {
                return Some(i);
            }
            i = i + 1;
        }
        proof {
            lemma_map_of_dom(self.entries@, id@);
        }
        None
    }

    /// Whether a request with this id still waits for its answer.
    pub fn contains(&self, id: &String) -> (res: bool)
        ensures
            res == self@.dom().contains(id@),
    {
        proof {
            use_type_invariant(self);
        }
        match self.position(id) {
            Some(i) => {
                proof {
                    lemma_map_of_dom(self.entries@, id@);
                }
                true
            },
            None => false,
        }
    }

    /// Takes out the channel waiting under `id`, if any.
    pub fn remove(&mut self, id: &String) -> (res: Option<S>)
        ensures
            final(self)@ == old(self)@.remove(id@),
            match res {
                Some(s) => old(self)@.dom().contains(id@) && s == old(self)@[id@],
                None => !old(self)@.dom().contains(id@),
            },
    {
        proof {
            use_type_invariant(&*self);
        }
        match self.position(id) {
            Some(i) => {
                proof {
                    lemma_map_of_value(self.entries@, i as int);
                    lemma_map_of_remove(self.entries@, i as int);
                }
                let mut entries = Vec::new();
                std::mem::swap(&mut entries, &mut self.entries);
                let (_, s) = entries.remove(i);
                self.entries = entries;
                Some(s)
            },
            None => {
                assert(self@.remove(id@) =~= self@);
                None
            },
        }
    }

    /// Registers `requester` as the channel for the answer to request `id`;
    /// a channel already waiting under `id` is replaced and handed back.
    pub fn insert(&mut self, id: String, requester: S) -> (res: Option<S>)
        ensures
            final(self)@ == old(self)@.insert(id@, requester),
            match res {
                Some(s) => old(self)@.dom().contains(id@) && s == old(self)@[id@],
                None => !old(self)@.dom().contains(id@),
            },
    {
        let previous = self.remove(&id);
        proof {
            use_type_invariant(&*self);
        }
        let ghost before = self.entries@;
        proof {
            lemma_map_of_dom(before, id@);
        }
        let mut entries = Vec::new();
        std::mem::swap(&mut entries, &mut self.entries);
        entries.push((id, requester));
        proof {
            assert(entries@.drop_last() =~= before);
            assert forall|a: int, b: int|
                0 <= a < entries@.len() && 0 <= b < entries@.len() && a != b implies
                #[trigger] entries@[a].0@ != #[trigger] entries@[b].0@ by {
                if a < before.len() && b < before.len() {
                    assert(entries@[a] == before[a] && entries@[b] == before[b]);
                } else if a < before.len() {
                    assert(entries@[a] == before[a]);
                } else {
                    assert(entries@[b] == before[b]);
                }
            }
        }
        self.entries = entries;
        previous
    }

    /// Routes an inbound message: the answer to a waiting request goes to
    /// that request's channel, which stops waiting; anything else goes to the
    /// endpoint's queue and leaves the table as it was.
    pub fn route_inbound(&mut self, message: wire::Message) -> (res: Inbound<S>)
        ensures
            final(self)@ == old(self)@.remove(message.id@),
            match res {
                Inbound::ToRequester { requester, message: m } => {
                    &&& inbound_target(old(self)@, message.id@) == Some(requester)
                    &&& m == message
                },
                Inbound::ToEndpoint { message: m } => {
                    &&& inbound_target(old(self)@, message.id@) is None
                    &&& m == message
                },
            },
    {
        match self.remove(&message.id) {
            Some(requester) => Inbound::ToRequester { requester, message },
            None => Inbound::ToEndpoint { message },
        }
    }
}

proof fn lemma_map_of_len<S>(s: Seq<(String, S)>)
    requires
        keys_unique(s),
    ensures
        map_of(s).dom().finite(),
        map_of(s).len() == s.len(),
    decreases s.len(),
{
    if s.len() > 0 {
        let d = s.drop_last();
        assert(keys_unique(d)) by {
            assert forall|a: int, b: int| 0 <= a < d.len() && 0 <= b < d.len() && a != b implies
                #[trigger] d[a].0@ != #[trigger] d[b].0@ by {
                assert(d[a] == s[a] && d[b] == s[b]);
            }
        }
        lemma_map_of_len(d);
        lemma_map_of_dom(d, s.last().0@);
        if map_of(d).dom().contains(s.last().0@) {
            let j = choose|j: int| 0 <= j < d.len() && #[trigger] d[j].0@ == s.last().0@;
            assert(d[j] == s[j]);
        }
    }
}

/// An answer reaches the request that awaits it, and only once: once
/// `insert` has registered `requester` under `id`, `route_inbound` sends the
/// message with that id to `requester`; afterwards `id` waits no more, so a
/// second message with the same id goes to the endpoint, and every other
/// message goes where it went before.
pub proof fn law_answer_reaches_its_requester_once<S>(table: PendingReplies<S>, id: Seq<char>, requester: S)
    ensures
        inbound_target(table@.insert(id, requester), id) == Some(requester),
        inbound_target(table@.insert(id, requester).remove(id), id) is None,
        forall|k: Seq<char>|
            k != id ==> #[trigger] inbound_target(table@.insert(id, requester).remove(id), k)
                == inbound_target(table@, k),
{
}

/// A message that answers no waiting request goes to the endpoint and leaves
/// the table as it was.
pub proof fn law_unsolicited_messages_leave_pending_unchanged<S>(table: PendingReplies<S>, id: Seq<char>)
    requires
        inbound_target(table@, id) is None,
    ensures
        table@.remove(id) == table@,
{
    assert(table@.remove(id) =~= table@);
}

} // verus!
