//! Acting on the relay's answer: bootstrap, then announce.

use crate::gossip::{append_actions, Action, ActionView, GossipView};
use crate::handshaking::{latest, FirstChecker, Handshake, Snapshot, SnapshotView, SyncError};
use crate::moment::Moment;
use crate::node::{Node, NodeView};
use crate::syncing::{VSync, VSyncView};
use crate::trun_sync::Sync;
use crate::utxo::Ledger;
use vstd::prelude::*;
use vstd::string::*;

verus! {

/// Handles the relay's responses.
pub struct Responses;

impl Responses {
    /// What this node announces once it has caught up.
    pub open spec fn announcement(n: NodeView) -> VSyncView {
        VSyncView {
            relay: n.relay.peerid->0,
            peerid: n.peerid,
            msg: "I'm Synced"@,
            wallet: n.wallet,
        }
    }

    /// What the relay's answer decides. A synced node ignores it. A node
    /// that does not know its relay's peer fails with `NoRelay`. Else the
    /// bootstrap runs as [`Handshake::spec_response`] says; where it
    /// succeeds, the node is synced and announces itself, and where it
    /// fails the node stays out of sync.
    #[verifier::opaque]
    pub open spec fn spec_handle(
        h: Handshake,
        n: NodeView,
        s: SnapshotView,
        salts: (u32, u32, u32),
        date: Seq<char>,
        draw: u32,
    ) -> (NodeView, Result<Seq<ActionView>, SyncError>) {
        if n.sync_state == Sync::Synced {
            (n, Ok(Seq::empty()))
        } else if n.relay.peerid is None {
            (n, Err(SyncError::NoRelay))
        } else {
            let r = Handshake::spec_response(h, n, s, salts, date, draw);
            match r.1 {
                Ok(actions) => (
                    NodeView { sync_state: Sync::Synced, ..r.0 },
                    Ok(
                        actions.push(
                            ActionView::Publish(GossipView::SyncMessage(Responses::announcement(n))),
                        ),
                    ),
                ),
                Err(e) => (r.0, Err(e)),
            }
        }
    }

    /// Acts on the relay's answer to the handshake: see
    /// [`Responses::spec_handle`].
    ///
    /// The node becomes synced only where the whole bootstrap succeeds.
    /// Where the replay of the buffered blocks fails, the node stays out
    /// of sync and its chain tip is the one the snapshot restored.
    #[verifier::rlimit(30)]
    pub fn handle(node: &mut Node, handshake: &Handshake, snapshot: Snapshot, moment: &Moment) -> (r:
        Result<Vec<Action>, SyncError>)
        ensures
            final(node)@ == Responses::spec_handle(
                *handshake,
                old(node)@,
                snapshot@,
                moment.salts,
                moment.date@,
                moment.draw,
            ).0,
            match Responses::spec_handle(
                *handshake,
                old(node)@,
                snapshot@,
                moment.salts,
                moment.date@,
                moment.draw,
            ).1 {
                Ok(actions) => r is Ok && r->Ok_0.deep_view() == actions,
                Err(e) => r == Err::<Vec<Action>, SyncError>(e),
            },
            r is Err ==> final(node).sync_state == old(node).sync_state,
            r is Ok ==> final(node).sync_state == Sync::Synced,
            r is Err && r != Err::<Vec<Action>, SyncError>(SyncError::NoRelay) && handshake.first_node
                == FirstChecker::No ==> final(node)@.last_block == latest(snapshot@.blocks),
            Node::wf(old(node)@) && Ledger::wf(snapshot@.ledger) ==> Node::wf(final(node)@),
    {
        reveal(Responses::spec_handle);
        if let Sync::Synced = node.sync_state {
            let actions: Vec<Action> = Vec::new();
            assert(actions.deep_view() =~= Seq::<ActionView>::empty());
            return Ok(actions);
        }
        let relay_id = match &node.relay.peerid {
            Some(p) => p.clone(),
            None => {
                return Err(SyncError::NoRelay);
            },
        };
        let mut actions = match handshake.response(node, snapshot, moment) {
            Ok(a) => a,
            Err(e) => {
                return Err(e);
            },
        };
        let sync = VSync::new(&relay_id, &node.peerid, String::from_str("I'm Synced"), &node.wallet);
        let more = sync.propagate();
        let ghost before = actions.deep_view();
        append_actions(&mut actions, more);
        assert(actions.deep_view() =~= before.push(
            ActionView::Publish(GossipView::SyncMessage(sync@)),
        ));
        node.sync_state.synced();
        Ok(actions)
    }
}

} // verus!
