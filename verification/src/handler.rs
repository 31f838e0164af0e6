//! The gossip dispatcher.

use crate::gossip::{Action, ActionView, GossipMessages, GossipView, Notice, NoticeView};
use crate::identity::PeerId;
use crate::leader::Leader;
use crate::message::BlockMessage;
use crate::moment::Moment;
use crate::node::{Node, NodeView};
use crate::syncing::VSync;
use crate::transactions::Transactions;
use crate::trun_sync::Sync;
use crate::wrongdoer::WrongDoer;
use vstd::prelude::*;

verus! {

/// The view of a decoded payload: a message, or nothing where the
/// payload was malformed.
pub open spec fn decoded_view(message: Option<GossipMessages>) -> Option<GossipView> {
    match message {
        Some(m) => Some(m@),
        None => None,
    }
}

impl GossipMessages {
    /// What a gossip payload from `source` decides: the node after it,
    /// and the actions to perform.
    ///
    /// A malformed payload is dropped. A block message or a transaction
    /// goes to its handler. A sync announcement registers its sender, on
    /// a synced node. A leader vote is counted, on a synced node during a
    /// revote. A notice that a peer has left starts a revote where that
    /// peer is the leader, and evicts the peer otherwise.
    #[verifier::opaque]
    pub open spec fn spec_handle(
        n: NodeView,
        message: Option<GossipView>,
        source: Seq<char>,
        now: i64,
        salts: (u32, u32, u32),
        date: Seq<char>,
        draw: u32,
    ) -> (NodeView, Seq<ActionView>) {
        match message {
            None => (n, Seq::empty()),
            Some(GossipView::BlockMessage(m)) => BlockMessage::spec_handle(n, m, source),
            Some(GossipView::Transaction(t)) => Transactions::spec_handle(
                n,
                t,
                source,
                now,
                salts,
                date,
                draw,
            ),
            Some(GossipView::SyncMessage(s)) => {
                if n.sync_state == Sync::Synced {
                    let r = VSync::spec_handle(s, n.validators);
                    (NodeView { validators: r.0, ..n }, r.1)
                } else {
                    (n, Seq::empty())
                }
            },
            Some(GossipView::LeaderVote(vote)) => {
                if n.sync_state == Sync::Synced && n.leader.in_check {
                    let v = Leader::spec_check_votes(
                        n.leader,
                        n.validators.len(),
                        vote,
                        n.peerid,
                        n.turn,
                        now,
                    );
                    (NodeView { leader: v.leader, turn: v.turn, ..n }, v.actions)
                } else {
                    (n, Seq::empty())
                }
            },
            Some(GossipView::Outnode(peer)) => {
                if n.leader.peerid == Some(peer) {
                    let v = Leader::spec_start_voting(n.leader, n.validators, n.peerid, n.turn);
                    (
                        NodeView { leader: v.leader, validators: v.validators, turn: v.turn, ..n },
                        v.actions,
                    )
                } else {
                    (
                        NodeView {
                            validators: WrongDoer::spec_remove(n.validators, peer, n.peerid),
                            ..n
                        },
                        seq![ActionView::Notify(NoticeView::Outnode(peer))],
                    )
                }
            },
        }
    }

    /// Handles one gossip payload, decoded by the caller: `None` stands
    /// for a payload that is no message. See
    /// [`GossipMessages::spec_handle`].
    #[verifier::rlimit(30)]
    pub fn handle(
        message: Option<GossipMessages>,
        source: &PeerId,
        node: &mut Node,
        moment: &Moment,
    ) -> (actions: Vec<Action>)
        ensures
            final(node)@ == GossipMessages::spec_handle(
                old(node)@,
                decoded_view(message),
                source@,
                moment.now,
                moment.salts,
                moment.date@,
                moment.draw,
            ).0,
            actions.deep_view() == GossipMessages::spec_handle(
                old(node)@,
                decoded_view(message),
                source@,
                moment.now,
                moment.salts,
                moment.date@,
                moment.draw,
            ).1,
            message is None ==> *final(node) == *old(node),
            Node::wf(old(node)@) ==> Node::wf(final(node)@),
            final(node).sync_state == old(node).sync_state,
    {
        reveal(GossipMessages::spec_handle);
        match message {
            None => {
                let actions: Vec<Action> = Vec::new();
                assert(actions.deep_view() =~= Seq::<ActionView>::empty());
                actions
            },
            Some(GossipMessages::BlockMessage(block_message)) => block_message.handle(node, source),
            Some(GossipMessages::Transaction(transaction)) => Transactions::handle(
                node,
                transaction,
                source,
                moment,
            ),
            Some(GossipMessages::SyncMessage(vsync)) => {
                match node.sync_state {
                    Sync::Synced => vsync.handle(&mut node.validators),
                    Sync::NotSynced => {
                        let actions: Vec<Action> = Vec::new();
                        assert(actions.deep_view() =~= Seq::<ActionView>::empty());
                        actions
                    },
                }
            },
            Some(GossipMessages::LeaderVote(vote)) => {
                let synced = match node.sync_state {
                    Sync::Synced => true,
                    Sync::NotSynced => false,
                };
                if synced && node.leader.in_check {
                    node.leader.check_votes(
                        &node.validators,
                        vote,
                        &node.peerid,
                        &mut node.turn,
                        moment.now,
                    )
                } else {
                    let actions: Vec<Action> = Vec::new();
                    assert(actions.deep_view() =~= Seq::<ActionView>::empty());
                    actions
                }
            },
            Some(GossipMessages::Outnode(outnode)) => {
                if node.leader.is_leader(&outnode) {
                    node.leader.start_voting(&mut node.validators, &node.peerid, &mut node.turn)
                } else {
                    let gone = WrongDoer::remove(&mut node.validators, &outnode, &node.peerid);
                    let mut actions: Vec<Action> = Vec::new();
                    actions.push(Action::Notify(Notice::Outnode(gone)));
                    assert(actions.deep_view() =~= seq![
                        ActionView::Notify(NoticeView::Outnode(outnode@)),
                    ]);
                    actions
                }
            },
        }
    }
}

} // verus!
