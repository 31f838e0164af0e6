//! Evicting peers that broke the protocol.

use crate::identity::PeerId;
use crate::validator::{Validator, ValidatorView};
use vstd::prelude::*;

verus! {

/// The registry without the entries of `peer`.
pub open spec fn without(validators: Seq<ValidatorView>, peer: Seq<char>) -> Seq<ValidatorView>
    decreases validators.len(),
{
    if validators.len() == 0 {
        Seq::empty()
    } else if validators.last().peerid == peer {
        without(validators.drop_last(), peer)
    } else {
        without(validators.drop_last(), peer).push(validators.last())
    }
}

/// Eviction leaves no entry of the peer, keeps every other entry, and
/// adds none.
pub proof fn lemma_without(validators: Seq<ValidatorView>, peer: Seq<char>)
    ensures
        forall|i: int|
            0 <= i < without(validators, peer).len() ==> (#[trigger] without(validators, peer)[i]).peerid
                != peer && validators.contains(without(validators, peer)[i]),
        forall|i: int|
            0 <= i < validators.len() && (#[trigger] validators[i]).peerid != peer ==> without(
                validators,
                peer,
            ).contains(validators[i]),
        without(validators, peer).len() <= validators.len(),
    decreases validators.len(),
{
    if validators.len() > 0 {
        let rest = validators.drop_last();
        lemma_without(rest, peer);
        let w = without(validators, peer);
        let wr = without(rest, peer);
        assert forall|i: int| 0 <= i < w.len() implies (#[trigger] w[i]).peerid != peer
            && validators.contains(w[i]) by {
            if i < wr.len() {
                assert(w[i] == wr[i]);
                assert(rest.contains(wr[i]));
                let k = choose|k: int| 0 <= k < rest.len() && rest[k] == wr[i];
                assert(validators[k] == wr[i]);
            } else {
                assert(w[i] == validators.last());
                assert(validators[validators.len() - 1] == w[i]);
            }
        }
        assert forall|i: int|
            0 <= i < validators.len() && (#[trigger] validators[i]).peerid != peer implies w.contains(
            validators[i],
        ) by {
            if i < rest.len() {
                assert(rest[i] == validators[i]);
                assert(wr.contains(rest[i]));
                let k = choose|k: int| 0 <= k < wr.len() && wr[k] == rest[i];
                assert(w[k] == validators[i]);
            } else {
                assert(w[w.len() - 1] == validators[i]);
            }
        }
    }
}

/// Evicts wrongdoers from the registry.
pub struct WrongDoer;

impl WrongDoer {
    /// The registry after `peer` is evicted by the node `local`: the
    /// entries of `peer` are gone, unless `peer` is the node itself.
    pub open spec fn spec_remove(validators: Seq<ValidatorView>, peer: Seq<char>, local: Seq<char>) -> Seq<
        ValidatorView,
    > {
        if peer == local {
            validators
        } else {
            without(validators, peer)
        }
    }

    /// Evicts `peer` from the registry and hands back its identity for
    /// the notification. The node never evicts itself.
    pub fn remove(validators: &mut Vec<Validator>, peer: &PeerId, local: &PeerId) -> (r: PeerId)
        ensures
            final(validators).deep_view() == WrongDoer::spec_remove(
                old(validators).deep_view(),
                peer@,
                local@,
            ),
            peer@ == local@ ==> *final(validators) == *old(validators),
            r@ == peer@,
    {
        if peer.same(local) {
            return peer.clone();
        }
        let mut kept: Vec<Validator> = Vec::new();
        let mut i: usize = 0;
        assert(validators.deep_view().take(0) =~= Seq::<ValidatorView>::empty());
        while i < validators.len()
            invariant
                i <= validators.len(),
                kept.deep_view() == without(validators.deep_view().take(i as int), peer@),
            decreases validators.len() - i,
        {
            proof {
                let next = validators.deep_view().take(i + 1);
                assert(next.drop_last() =~= validators.deep_view().take(i as int));
                assert(next.last() == validators[i as int]@);
            }
            if !validators[i].peerid.same(peer) {
                let ghost before = kept.deep_view();
                let v = validators[i].clone();
                kept.push(v);
                assert(kept.deep_view() =~= before.push(v@));
            }
            i += 1;
        }
        assert(validators.deep_view().take(i as int) =~= validators.deep_view());
        *validators = kept;
        peer.clone()
    }
}

} // verus!
