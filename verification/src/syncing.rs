//! Joining the network: the sync announcement and the bootstrap.

use crate::gossip::{
    balance_note, push_balance, Action, ActionView, GossipMessages, GossipView, Notice, NoticeView,
};
use crate::identity::{PeerId, Public};
use crate::leader::Leader;
use crate::moment::Moment;
use crate::node::{Node, NodeView};
use crate::transactions::Transactions;
use crate::trun_sync::Turn;
use crate::utxo::Ledger;
use crate::validator::{validator_peers, Validator, ValidatorView};
use crate::waiting::{count_as_patience, patience_of};
use vstd::prelude::*;
use vstd::string::*;

verus! {

/// The announcement of a node that has caught up.
#[derive(Debug, PartialEq, Eq)]
pub struct VSync {
    pub relay: PeerId,
    pub peerid: PeerId,
    pub msg: String,
    pub wallet: Public,
}

/// The view of a [`VSync`].
pub struct VSyncView {
    pub relay: Seq<char>,
    pub peerid: Seq<char>,
    pub msg: Seq<char>,
    pub wallet: Seq<u8>,
}

impl DeepView for VSync {
    type V = VSyncView;

    open spec fn deep_view(&self) -> VSyncView {
        VSyncView { relay: self.relay@, peerid: self.peerid@, msg: self.msg@, wallet: self.wallet@ }
    }
}

impl View for VSync {
    type V = VSyncView;

    open spec fn view(&self) -> VSyncView {
        self.deep_view()
    }
}

impl Clone for VSync {
    fn clone(&self) -> (r: Self)
        ensures
            r@ == self@,
    {
        VSync {
            relay: self.relay.clone(),
            peerid: self.peerid.clone(),
            msg: self.msg.clone(),
            wallet: self.wallet,
        }
    }
}

impl VSync {
    /// The announcement of `peerid`, behind `relay`, paying into `wallet`.
    pub fn new(relay: &PeerId, peerid: &PeerId, msg: String, wallet: &Public) -> (r: Self)
        ensures
            r@ == (VSyncView { relay: relay@, peerid: peerid@, msg: msg@, wallet: wallet@ }),
    {
        VSync { relay: relay.clone(), peerid: peerid.clone(), msg, wallet: *wallet }
    }
}


impl VSync {
    /// What a sync announcement makes of the registry: the announcing
    /// peer joins it, unless it is in it already.
    pub open spec fn spec_handle(s: VSyncView, validators: Seq<ValidatorView>) -> (
        Seq<ValidatorView>,
        Seq<ActionView>,
    ) {
        if validator_peers(validators).contains(s.peerid) {
            (validators, Seq::empty())
        } else {
            (
                validators.push(Validator::spec_new(s.peerid, s.relay, s.wallet, validators.len())),
                seq![ActionView::Notify(NoticeView::ValidatorAdded(s.peerid))],
            )
        }
    }

    /// Registers the announcing peer as a validator, unless the registry
    /// holds it already. A new entry waits as many rounds as there were
    /// validators before it.
    #[verifier::loop_isolation(false)]
    pub fn handle(&self, validators: &mut Vec<Validator>) -> (actions: Vec<Action>)
        ensures
            final(validators).deep_view() == VSync::spec_handle(self@, old(validators).deep_view()).0,
            actions.deep_view() == VSync::spec_handle(self@, old(validators).deep_view()).1,
    {
        let mut actions: Vec<Action> = Vec::new();
        assert(actions.deep_view() =~= Seq::<ActionView>::empty());
        let ghost peers = validator_peers(validators.deep_view());
        let mut i: usize = 0;
        while i < validators.len()
            invariant
                i <= validators.len(),
                *validators == *old(validators),
                peers == validator_peers(validators.deep_view()),
                forall|j: int| 0 <= j < i ==> peers[j] != self@.peerid,
            decreases validators.len() - i,
        {
            if validators[i].peerid.same(&self.peerid) {
                assert(peers[i as int] == self@.peerid);
                assert(peers.contains(self@.peerid));
                return actions;
            }
            i += 1;
        }
        let ghost before = validators.deep_view();
        let entry = Validator::new(validators, self.peerid.clone(), self.relay.clone(), self.wallet);
        validators.push(entry);
        assert(validators.deep_view() =~= before.push(entry@));
        actions.push(Action::Notify(Notice::ValidatorAdded(self.peerid.clone())));
        assert(actions.deep_view() =~= seq![
            ActionView::Notify(NoticeView::ValidatorAdded(self@.peerid)),
        ]);
        actions
    }

    /// Hands the announcement over for publishing on the validators'
    /// topic.
    pub fn propagate(&self) -> (actions: Vec<Action>)
        ensures
            actions.deep_view() == seq![ActionView::Publish(GossipView::SyncMessage(self@))],
    {
        let mut actions: Vec<Action> = Vec::new();
        actions.push(Action::Publish(GossipMessages::SyncMessage(self.clone())));
        assert(actions.deep_view() =~= seq![ActionView::Publish(GossipView::SyncMessage(self@))]);
        actions
    }

    /// What settling the turn decides once the node has caught up. In an
    /// empty registry the node takes its turn, leads unannounced, and
    /// proposes at once where two or more transactions are pending. Else
    /// it steps back for as many rounds as there are validators.
    pub open spec fn spec_settle_turn(
        n: NodeView,
        salts: (u32, u32, u32),
        date: Seq<char>,
        draw: u32,
    ) -> (NodeView, Seq<ActionView>) {
        if n.validators.len() == 0 {
            let lead = NodeView {
                turn: Turn { shift: true, waiting: 0 },
                leader: Leader::spec_update(None),
                ..n
            };
            if n.mempool.len() > 1 {
                Transactions::spec_propose(lead, salts, date, draw)
            } else {
                (lead, Seq::empty())
            }
        } else {
            (
                NodeView {
                    turn: Turn { shift: false, waiting: count_as_patience(n.validators.len()) },
                    ..n
                },
                Seq::empty(),
            )
        }
    }

    /// Settles the node's turn after the bootstrap: see
    /// [`VSync::spec_settle_turn`].
    pub fn settle_turn(node: &mut Node, moment: &Moment) -> (actions: Vec<Action>)
        ensures
            final(node)@ == VSync::spec_settle_turn(
                old(node)@,
                moment.salts,
                moment.date@,
                moment.draw,
            ).0,
            actions.deep_view() == VSync::spec_settle_turn(
                old(node)@,
                moment.salts,
                moment.date@,
                moment.draw,
            ).1,
            Node::wf(old(node)@) ==> Node::wf(final(node)@),
            final(node).sync_state == old(node).sync_state,
    {
        if node.validators.len() == 0 {
            node.turn.on();
            node.leader.update(None);
            if node.mempool.len() > 1 {
                Transactions::propose(node, moment)
            } else {
                let actions: Vec<Action> = Vec::new();
                assert(actions.deep_view() =~= Seq::<ActionView>::empty());
                actions
            }
        } else {
            node.turn.off(patience_of(node.validators.len()));
            let actions: Vec<Action> = Vec::new();
            assert(actions.deep_view() =~= Seq::<ActionView>::empty());
            actions
        }
    }

    /// What checking the turn decides: what [`VSync::spec_settle_turn`]
    /// says, and the local wallet's new balance is told where a block of
    /// the node has changed what it holds.
    #[verifier::opaque]
    pub open spec fn spec_checking_turn(
        n: NodeView,
        salts: (u32, u32, u32),
        date: Seq<char>,
        draw: u32,
    ) -> (NodeView, Seq<ActionView>) {
        let r = VSync::spec_settle_turn(n, salts, date, draw);
        (
            r.0,
            r.1 + balance_note(
                Ledger::spec_surface(Ledger::holdings(n.ledger, n.wallet), r.0.ledger, n.wallet),
            ),
        )
    }

    /// Checks the node's turn after the bootstrap: see
    /// [`VSync::spec_checking_turn`].
    pub fn checking_turn(node: &mut Node, moment: &Moment) -> (actions: Vec<Action>)
        ensures
            final(node)@ == VSync::spec_checking_turn(
                old(node)@,
                moment.salts,
                moment.date@,
                moment.draw,
            ).0,
            actions.deep_view() == VSync::spec_checking_turn(
                old(node)@,
                moment.salts,
                moment.date@,
                moment.draw,
            ).1,
            Node::wf(old(node)@) ==> Node::wf(final(node)@),
            final(node).sync_state == old(node).sync_state,
    {
        reveal(VSync::spec_checking_turn);
        let before = node.ledger.holdings_of(&node.wallet);
        let mut actions = VSync::settle_turn(node, moment);
        let balance = node.ledger.surface(&before, &node.wallet);
        push_balance(&mut actions, balance);
        actions
    }
}


/// Where the contents of a dump file go.
#[derive(Debug, PartialEq, Eq)]
pub enum Destination {
    /// The file is no dump file.
    Skip,
    /// The pending pool.
    Mempool,
    /// The collection of this name.
    Collection(String),
}

/// The view of a [`Destination`].
pub enum DestinationView {
    Skip,
    Mempool,
    Collection(Seq<char>),
}

impl DeepView for Destination {
    type V = DestinationView;

    open spec fn deep_view(&self) -> DestinationView {
        match self {
            Destination::Skip => DestinationView::Skip,
            Destination::Mempool => DestinationView::Mempool,
            Destination::Collection(name) => DestinationView::Collection(name@),
        }
    }
}

impl View for Destination {
    type V = DestinationView;

    open spec fn view(&self) -> DestinationView {
        self.deep_view()
    }
}

/// Whether the mark of a dump file, the letters `bson`, stands in the
/// name at place `i`.
pub open spec fn mark_at(name: Seq<char>, i: int) -> bool {
    &&& 0 <= i
    &&& i + 4 <= name.len()
    &&& name[i] == 'b'
    &&& name[i + 1] == 's'
    &&& name[i + 2] == 'o'
    &&& name[i + 3] == 'n'
}

/// Whether the mark stands anywhere in the name.
pub open spec fn has_mark(name: Seq<char>) -> bool {
    exists|i: int| mark_at(name, i)
}

/// The place of the last dot in the name, or -1 where there is none.
pub open spec fn last_dot(name: Seq<char>) -> int
    decreases name.len(),
{
    if name.len() == 0 {
        -1
    } else if name.last() == '.' {
        name.len() - 1
    } else {
        last_dot(name.drop_last())
    }
}

/// The stem of a file name: what stands before its last dot; the whole
/// name where it has no dot, or none but a leading one.
pub open spec fn file_stem(name: Seq<char>) -> Seq<char> {
    if last_dot(name) <= 0 {
        name
    } else {
        name.take(last_dot(name))
    }
}

impl VSync {
    /// Where a file of the relay's dump goes: a file without the mark
    /// `bson` in its name is skipped, the file `transactions.bson` fills
    /// the pending pool, and any other fills the collection named by its
    /// stem.
    pub open spec fn spec_destination(name: Seq<char>) -> DestinationView {
        if !has_mark(name) {
            DestinationView::Skip
        } else if name == "transactions.bson"@ {
            DestinationView::Mempool
        } else {
            DestinationView::Collection(file_stem(name))
        }
    }

    /// Decides where a file of the relay's dump goes.
    pub fn destination(file_name: &String) -> (r: Destination)
        ensures
            r@ == VSync::spec_destination(file_name@),
    {
        let name = file_name.as_str();
        let n = name.unicode_len();
        let mut marked = false;
        let mut dot: Option<usize> = None;
        let mut i: usize = 0;
        assert(file_name@.take(0) =~= Seq::<char>::empty());
        while i < n
            invariant
                i <= n,
                n == file_name@.len(),
                name@ == file_name@,
                marked <==> exists|k: int| mark_at(file_name@, k) && k < i,
                match dot {
                    Some(d) => d as int == last_dot(file_name@.take(i as int)),
                    None => last_dot(file_name@.take(i as int)) == -1,
                },
            decreases n - i,
        {
            let c = name.get_char(i);
            proof {
                let next = file_name@.take(i + 1);
                assert(next.drop_last() =~= file_name@.take(i as int));
                assert(next.last() == c);
            }
            if c == '.' {
                dot = Some(i);
            }
            let ghost before = marked;
            if c == 'b' && n - i >= 4 {
                if name.get_char(i + 1) == 's' && name.get_char(i + 2) == 'o' && name.get_char(i + 3)
                    == 'n' {
                    assert(mark_at(file_name@, i as int));
                    marked = true;
                }
            }
            proof {
                if !marked {
                    assert forall|k: int| k < i + 1 implies !mark_at(file_name@, k) by {
                        if k < i {
                            assert(!(mark_at(file_name@, k) && k < i));
                        }
                    }
                }
            }
            i += 1;
        }
        proof {
            assert(file_name@.take(i as int) =~= file_name@);
            lemma_last_dot(file_name@);
            if !marked {
                assert forall|k: int| !mark_at(file_name@, k) by {
                    if mark_at(file_name@, k) {
                        assert(k < i);
                    }
                }
            }
        }
        if !marked {
            return Destination::Skip;
        }
        let special = String::from_str("transactions.bson");
        if *file_name == special {
            return Destination::Mempool;
        }
        match dot {
            Some(d) => {
                if d == 0 {
                    Destination::Collection(file_name.clone())
                } else {
                    let mut stem = String::new();
                    let mut j: usize = 0;
                    while j < d
                        invariant
                            j <= d,
                            d < n,
                            n == file_name@.len(),
                            name@ == file_name@,
                            stem@ == file_name@.take(j as int),
                        decreases d - j,
                    {
                        stem.push(name.get_char(j));
                        assert(stem@ =~= file_name@.take(j + 1));
                        j += 1;
                    }
                    Destination::Collection(stem)
                }
            },
            None => Destination::Collection(file_name.clone()),
        }
    }
}

/// The last dot, where there is one, is a place of the name.
pub proof fn lemma_last_dot(name: Seq<char>)
    ensures
        -1 <= last_dot(name) < name.len(),
        last_dot(name) >= 0 ==> name[last_dot(name)] == '.',
    decreases name.len(),
{
    if name.len() > 0 && name.last() != '.' {
        lemma_last_dot(name.drop_last());
    }
}

} // verus!
