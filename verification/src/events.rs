//! One step of the network session: an event in, the next state and the
//! actions out.

use crate::gossip::{
    append_actions, push_action, Action, ActionView, GossipMessages, GossipView, Notice, NoticeView,
    RequestView,
};
use crate::handler::decoded_view;
use crate::handshaking::{Handshake, Snapshot, SnapshotView};
use crate::identity::PeerId;
use crate::moment::Moment;
use crate::node::{Node, NodeView};
use crate::response::Responses;
use crate::syncing::VSync;
use crate::trun_sync::Sync;
use crate::validator::Relay;
use vstd::prelude::*;
use vstd::string::*;

verus! {

/// What the network reports to the node.
#[derive(Debug, PartialEq, Eq)]
pub enum Event {
    /// The connection to the relay stands.
    ConnectionEstablished(PeerId),
    /// The relay could not be dialled.
    OutgoingConnectionError,
    /// The connection to the relay is closed.
    ConnectionClosed,
    /// A peer subscribed to the topic of this name.
    Subscribed(String),
    /// The relay answered the handshake; the snapshot is what was loaded
    /// from its dump, and empty for a first node.
    Response(Handshake, Snapshot),
    /// A gossip payload from a peer, decoded; `None` for one that is no
    /// message.
    Gossip(Option<GossipMessages>, PeerId),
}

/// The view of an [`Event`].
pub enum EventView {
    ConnectionEstablished(Seq<char>),
    OutgoingConnectionError,
    ConnectionClosed,
    Subscribed(Seq<char>),
    Response(Handshake, SnapshotView),
    Gossip(Option<GossipView>, Seq<char>),
}

impl DeepView for Event {
    type V = EventView;

    open spec fn deep_view(&self) -> EventView {
        match self {
            Event::ConnectionEstablished(p) => EventView::ConnectionEstablished(p@),
            Event::OutgoingConnectionError => EventView::OutgoingConnectionError,
            Event::ConnectionClosed => EventView::ConnectionClosed,
            Event::Subscribed(t) => EventView::Subscribed(t@),
            Event::Response(h, s) => EventView::Response(*h, s@),
            Event::Gossip(m, p) => EventView::Gossip(decoded_view(*m), p@),
        }
    }
}

impl View for Event {
    type V = EventView;

    open spec fn view(&self) -> EventView {
        self.deep_view()
    }
}

/// Whether what an event brings is well-formed: the ledger of a
/// snapshot is.
pub open spec fn event_sound(event: EventView) -> bool {
    match event {
        EventView::Response(_, s) => crate::utxo::Ledger::wf(s.ledger),
        _ => true,
    }
}

/// What a step asks of the session: the actions to perform, and whether
/// the session goes on.
#[derive(Debug, PartialEq, Eq)]
pub struct Step {
    pub actions: Vec<Action>,
    pub go_on: bool,
}

/// The name of the validators' gossip topic.
pub open spec fn validator_topic() -> Seq<char> {
    "validator"@
}

/// The actions after the relay's answer was acted on without success:
/// the relay's connection is closed where its peer is known, and the
/// operator is told.
pub open spec fn spec_give_up(relay: Option<Seq<char>>, e: crate::handshaking::SyncError) -> Seq<
    ActionView,
> {
    match relay {
        Some(p) => seq![
            ActionView::Disconnect(p),
            ActionView::Notify(NoticeView::SyncFailed(e)),
        ],
        None => seq![ActionView::Notify(NoticeView::SyncFailed(e))],
    }
}

/// What one event decides: the node after it, the actions to perform,
/// and whether the session goes on.
///
/// A connection that stands names the relay's peer. A failed dial
/// strikes the relay off the directory and ends the session; a closed
/// connection ends it too. A subscription to the validators' topic opens
/// the handshake. The relay's answer is acted on by a node that is out of
/// sync: the bootstrap runs, and where it succeeds the node settles its
/// turn; where it fails the relay is disconnected. A gossip payload goes
/// to the dispatcher.
pub open spec fn spec_handle(
    n: NodeView,
    event: EventView,
    now: i64,
    salts: (u32, u32, u32),
    date: Seq<char>,
    draw: u32,
) -> (NodeView, Seq<ActionView>, bool) {
    match event {
        EventView::ConnectionEstablished(p) => (
            NodeView { relay: Relay::spec_update(n.relay, Some(p), None), ..n },
            Seq::empty(),
            true,
        ),
        EventView::OutgoingConnectionError => (
            n,
            seq![ActionView::ForgetRelay(n.relay.addr)],
            false,
        ),
        EventView::ConnectionClosed => (n, Seq::empty(), false),
        EventView::Subscribed(topic) => {
            if topic == validator_topic() && n.relay.peerid is Some {
                (n, seq![ActionView::Request(RequestView::Handshake("handshake"@))], true)
            } else {
                (n, Seq::empty(), true)
            }
        },
        EventView::Response(h, s) => {
            if n.sync_state == Sync::NotSynced {
                let r = Responses::spec_handle(h, n, s, salts, date, draw);
                match r.1 {
                    Ok(actions) => {
                        let c = VSync::spec_checking_turn(r.0, salts, date, draw);
                        (c.0, actions + c.1, true)
                    },
                    Err(e) => (r.0, spec_give_up(r.0.relay.peerid, e), true),
                }
            } else {
                (n, Seq::empty(), true)
            }
        },
        EventView::Gossip(m, source) => {
            let r = GossipMessages::spec_handle(n, m, source, now, salts, date, draw);
            (r.0, r.1, true)
        },
    }
}

/// Handles one event of the network session: see [`spec_handle`].
#[verifier::rlimit(30)]
pub fn handle(node: &mut Node, event: Event, moment: &Moment) -> (step: Step)
    ensures
        final(node)@ == spec_handle(
            old(node)@,
            event@,
            moment.now,
            moment.salts,
            moment.date@,
            moment.draw,
        ).0,
        step.actions.deep_view() == spec_handle(
            old(node)@,
            event@,
            moment.now,
            moment.salts,
            moment.date@,
            moment.draw,
        ).1,
        step.go_on == spec_handle(
            old(node)@,
            event@,
            moment.now,
            moment.salts,
            moment.date@,
            moment.draw,
        ).2,
        Node::wf(old(node)@) && event_sound(event@) ==> Node::wf(final(node)@),
        old(node).sync_state == Sync::Synced ==> final(node).sync_state == Sync::Synced,
{
    let mut actions: Vec<Action> = Vec::new();
    assert(actions.deep_view() =~= Seq::<ActionView>::empty());
    match event {
        Event::ConnectionEstablished(peer) => {
            node.relay.update(Some(peer), None);
            Step { actions, go_on: true }
        },
        Event::OutgoingConnectionError => {
            push_action(&mut actions, Action::ForgetRelay(node.relay.addr.clone()));
            Step { actions, go_on: false }
        },
        Event::ConnectionClosed => Step { actions, go_on: false },
        Event::Subscribed(topic) => {
            let validator = String::from_str("validator");
            if topic == validator && node.relay.peerid.is_some() {
                push_action(&mut actions, Handshake::start());
            }
            Step { actions, go_on: true }
        },
        Event::Response(handshake, snapshot) => {
            if let Sync::NotSynced = node.sync_state {
                match Responses::handle(node, &handshake, snapshot, moment) {
                    Ok(done) => {
                        let more = VSync::checking_turn(node, moment);
                        let mut done = done;
                        append_actions(&mut done, more);
                        Step { actions: done, go_on: true }
                    },
                    Err(e) => {
                        match &node.relay.peerid {
                            Some(p) => {
                                push_action(&mut actions, Action::Disconnect(p.clone()));
                            },
                            None => {},
                        }
                        push_action(&mut actions, Action::Notify(Notice::SyncFailed(e)));
                        Step { actions, go_on: true }
                    },
                }
            } else {
                Step { actions, go_on: true }
            }
        },
        Event::Gossip(message, source) => {
            let done = GossipMessages::handle(message, &source, node, moment);
            Step { actions: done, go_on: true }
        },
    }
}

} // verus!
