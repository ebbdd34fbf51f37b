//! Finding peers and entities by id and by identity.
use crate::ecs::types::Identity;
use crate::protocol;
use crate::protocol::types::IdentityView;
use vstd::prelude::*;

verus! {

/// `i` is the first position in `ids` that holds `id`.
pub open spec fn is_first_index(ids: Seq<usize>, id: usize, i: int) -> bool {
    &&& 0 <= i < ids.len()
    &&& ids[i] == id
    &&& forall|j: int| 0 <= j < i ==> ids[j] != id
}

/// `i` is the first position in `identities` whose identity is `target`.
pub open spec fn is_first_identity(identities: Seq<IdentityView>, target: IdentityView, i: int) -> bool {
    &&& 0 <= i < identities.len()
    &&& identities[i] == target
    &&& forall|j: int| 0 <= j < i ==> identities[j] != target
}

/// The identities of a list, as plain values.
pub open spec fn views(identities: Seq<Identity>) -> Seq<IdentityView> {
    identities.map_values(|i: Identity| i@)
}

/// Finds the first endpoint with this id: its position in `endpoint_ids`.
pub fn find_endpoint(endpoint_ids: &Vec<usize>, id: usize) -> (res: Option<usize>)
    ensures
        match res {
            Some(i) => is_first_index(endpoint_ids@, id, i as int),
            None => !endpoint_ids@.contains(id),
        },
{
    let n = endpoint_ids.len();
    let mut i: usize = 0;
    while i < n
        invariant
            n == endpoint_ids@.len(),
            i <= n,
            forall|j: int| 0 <= j < i ==> endpoint_ids@[j] != id,
        decreases n - i,
    {
        if endpoint_ids[i] == id {
            return Some(i);
        }
        i = i + 1;
    }
    None
}

/// Finds the first identity in `identities` equal to `target`: its position.
pub fn find_identity(identities: &Vec<Identity>, target: &protocol::types::Identity) -> (res: Option<usize>)
    ensures
        match res {
            Some(i) => is_first_identity(views(identities@), target@, i as int),
            None => !views(identities@).contains(target@),
        },
{
    let n = identities.len();
    let mut i: usize = 0;
    while i < n
        invariant
            n == identities@.len(),
            i <= n,
            forall|j: int| 0 <= j < i ==> views(identities@)[j] != target@,
        decreases n - i,
    {
        if identities[i] == *target {
            return Some(i);
        }
        i = i + 1;
    }
    None
}

/// Whether any identity in the list equals `target`.
pub fn contains_identity(identities: &Vec<Identity>, target: &protocol::types::Identity) -> (res: bool)
    ensures
        res == views(identities@).contains(target@),
{
    match find_identity(identities, target) {
        Some(i) => {
            assert(views(identities@)[i as int] == target@);
            true
        },
        None => false,
    }
}

/// The positions, in order, of the peers whose identity is not `source`.
pub open spec fn others_than(identities: Seq<IdentityView>, source: IdentityView) -> Seq<int>
    decreases identities.len(),
{
    if identities.len() == 0 {
        Seq::empty()
    } else if identities.last() != source {
        others_than(identities.drop_last(), source).push(identities.len() - 1)
    } else {
        others_than(identities.drop_last(), source)
    }
}

/// The peers that an event goes on to: every peer but the one it came from.
pub fn forward_targets(identities: &Vec<Identity>, source: &protocol::types::Identity) -> (res: Vec<usize>)
    ensures
        res@.map_values(|i: usize| i as int) == others_than(views(identities@), source@),
{
    let n = identities.len();
    let mut res: Vec<usize> = Vec::new();
    let mut i: usize = 0;
    while i < n
        invariant
            n == identities@.len(),
            i <= n,
            res@.map_values(|k: usize| k as int) == others_than(views(identities@).subrange(0, i as int), source@),
        decreases n - i,
    {
        let ghost v = views(identities@);
        assert(v.subrange(0, i + 1).drop_last() =~= v.subrange(0, i as int));
        assert(v.subrange(0, i + 1).last() == v[i as int]);
        if !(identities[i] == *source) {
            res.push(i);
            assert(res@.map_values(|k: usize| k as int) =~= others_than(v.subrange(0, i as int), source@).push(i as int));
        }
        i = i + 1;
    }
    assert(views(identities@).subrange(0, n as int) =~= views(identities@));
    res
}

/// A position is in `others_than` exactly when it is a peer whose identity is
/// not the source.
pub proof fn lemma_others_than(identities: Seq<IdentityView>, source: IdentityView, k: int)
    ensures
        others_than(identities, source).contains(k) <==> (0 <= k < identities.len() && identities[k] != source),
    decreases identities.len(),
{
    if identities.len() > 0 {
        let d = identities.drop_last();
        lemma_others_than(d, source, k);
        if k < identities.len() - 1 && 0 <= k {
            assert(d[k] == identities[k]);
        }
        if identities.last() != source {
            let p = others_than(d, source);
            let q = p.push(identities.len() - 1);
            assert(q.contains(k) <==> (p.contains(k) || k == identities.len() - 1)) by {
                if k == identities.len() - 1 {
                    assert(q[p.len() as int] == k);
                }
                if q.contains(k) && k != identities.len() - 1 {
                    let j = choose|j: int| 0 <= j < q.len() && #[trigger] q[j] == k;
                    assert(p[j] == k);
                }
                if p.contains(k) {
                    let j = choose|j: int| 0 <= j < p.len() && #[trigger] p[j] == k;
                    assert(q[j] == k);
                }
            }
        }
    }
}

/// An event is never sent back to the peer it came from, and it reaches
/// every other peer.
pub proof fn law_events_are_not_echoed(identities: Seq<IdentityView>, source: IdentityView)
    ensures
        forall|k: int| #[trigger] others_than(identities, source).contains(k) ==> identities[k] != source,
        forall|k: int|
            0 <= k < identities.len() && #[trigger] identities[k] != source ==> others_than(identities, source).contains(k),
{
    assert forall|k: int| #[trigger] others_than(identities, source).contains(k) implies identities[k] != source by {
        lemma_others_than(identities, source, k);
    }
    assert forall|k: int| 0 <= k < identities.len() && #[trigger] identities[k] != source implies others_than(
        identities,
        source,
    ).contains(k) by {
        lemma_others_than(identities, source, k);
    }
}

} // verus!
