//! The rotation of the validators' waiting counters.

use crate::identity::PeerId;
use crate::trun_sync::{Sync, Turn};
use crate::validator::{Validator, ValidatorView};
use vstd::prelude::*;

verus! {

/// A count of registry entries as a wait; a count beyond `u64` counts as
/// `u64::MAX`.
pub open spec fn count_as_wait(count: nat) -> u64 {
    if count <= u64::MAX {
        count as u64
    } else {
        u64::MAX
    }
}

/// A count of registry entries as the node's own wait; a count beyond
/// `u16` counts as `u16::MAX`.
pub open spec fn count_as_patience(count: nat) -> u16 {
    if count <= u16::MAX {
        count as u16
    } else {
        u16::MAX
    }
}

/// Computes a count of registry entries as the node's own wait.
pub fn patience_of(count: usize) -> (r: u16)
    ensures
        r == count_as_patience(count as nat),
{
    if count <= 65535 {
        count as u16
    } else {
        u16::MAX
    }
}

/// Rotates the waiting counters when a block is committed.
pub struct Waiting;

impl Waiting {
    /// One registry entry after the block of `generator` is committed
    /// among `count` validators: the generator goes to the back of the
    /// queue, everyone else moves up by one, never below zero.
    pub open spec fn spec_rotated(v: ValidatorView, generator: Seq<char>, count: nat) -> ValidatorView {
        ValidatorView {
            peerid: v.peerid,
            relay: v.relay,
            wallet: v.wallet,
            waiting: if v.peerid == generator {
                count_as_wait(count)
            } else if v.waiting > 0 {
                (v.waiting - 1) as u64
            } else {
                0
            },
        }
    }

    /// The registry after the block of `generator` is committed.
    pub open spec fn spec_update(validators: Seq<ValidatorView>, generator: Seq<char>) -> Seq<
        ValidatorView,
    > {
        Seq::new(
            validators.len(),
            |i: int| Waiting::spec_rotated(validators[i], generator, validators.len()),
        )
    }

    /// The node's own turn after a block is committed: a synced node has
    /// waited one round more.
    pub open spec fn spec_turn(turn: Turn, sync_state: Sync) -> Turn {
        if sync_state == Sync::Synced {
            turn.spec_elapsed()
        } else {
            turn
        }
    }

    /// Commits the rotation for a block made by `block_generator`: its
    /// wait becomes the count of validators, every other wait shrinks by
    /// one unless it is zero already. On a synced node the node's own
    /// turn has waited one round more.
    pub fn update(
        validators: &mut Vec<Validator>,
        block_generator: &PeerId,
        turn: &mut Turn,
        sync_state: &Sync,
    )
        ensures
            final(validators).deep_view() == Waiting::spec_update(
                old(validators).deep_view(),
                block_generator@,
            ),
            *final(turn) == Waiting::spec_turn(*old(turn), *sync_state),
    {
        let count = validators.len();
        let back: u64 = Waiting::new(validators);
        let mut i: usize = 0;
        while i < count
            invariant
                i <= count,
                count == validators.len(),
                count == old(validators).len(),
                back == count_as_wait(count as nat),
                forall|j: int|
                    0 <= j < i ==> (#[trigger] validators[j])@ == Waiting::spec_rotated(
                        old(validators)[j]@,
                        block_generator@,
                        count as nat,
                    ),
                forall|j: int| i <= j < count ==> (#[trigger] validators[j])@ == old(validators)[j]@,
            decreases count - i,
        {
            if validators[i].peerid.same(block_generator) {
                validators[i].waiting = back;
            } else if validators[i].waiting > 0 {
                validators[i].waiting = validators[i].waiting - 1;
            }
            i += 1;
        }
        assert(validators.deep_view() =~= Waiting::spec_update(
            old(validators).deep_view(),
            block_generator@,
        ));
        match sync_state {
            Sync::Synced => {
                turn.waiting_update();
            },
            Sync::NotSynced => {},
        }
    }

    /// The wait of a validator that joins now: the count of validators.
    pub fn new(validators: &Vec<Validator>) -> (r: u64)
        ensures
            r == count_as_wait(validators.len() as nat),
    {
        let count = validators.len();
        if count as u128 <= u64::MAX as u128 {
            count as u64
        } else {
            u64::MAX
        }
    }
}

} // verus!
