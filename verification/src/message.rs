//! Block messages: a block together with the leader that follows it.

use crate::block::{Block, BlockError, BlockView};
use crate::gossip::{
    append_actions, balance_note, push_balance, Action, ActionView, Notice, NoticeView,
    RequestView, Requests,
};
use crate::identity::PeerId;
use crate::leader::{Leader, LeaderView};
use crate::moment::Moment;
use crate::node::{Node, NodeView};
use crate::transaction::{Transaction, TransactionView};
use crate::trun_sync::{Sync, Turn};
use crate::utxo::Ledger;
use crate::validator::{Validator, ValidatorView};
use crate::waiting::{count_as_patience, patience_of};
use crate::wrongdoer::WrongDoer;
use vstd::prelude::*;

verus! {

/// A block as it travels: with the peer that leads next.
#[derive(Debug, PartialEq, Eq)]
pub struct BlockMessage {
    pub block: Block,
    pub next_leader: PeerId,
}

/// The view of a [`BlockMessage`].
pub struct BlockMessageView {
    pub block: BlockView,
    pub next_leader: Seq<char>,
}

impl DeepView for BlockMessage {
    type V = BlockMessageView;

    open spec fn deep_view(&self) -> BlockMessageView {
        BlockMessageView { block: self.block@, next_leader: self.next_leader@ }
    }
}

impl View for BlockMessage {
    type V = BlockMessageView;

    open spec fn view(&self) -> BlockMessageView {
        self.deep_view()
    }
}

impl Clone for BlockMessage {
    fn clone(&self) -> (r: Self)
        ensures
            r@ == self@,
    {
        BlockMessage { block: self.block.clone(), next_leader: self.next_leader.clone() }
    }
}

/// Copies a list of block messages.
pub fn copy_messages(messages: &Vec<BlockMessage>) -> (r: Vec<BlockMessage>)
    ensures
        r.deep_view() == messages.deep_view(),
{
    let r = messages.clone();
    assert(r.deep_view() =~= messages.deep_view());
    r
}


/// The peers of the registry that wait no more, in the registry's order.
pub open spec fn eligible(validators: Seq<ValidatorView>) -> Seq<Seq<char>>
    decreases validators.len(),
{
    if validators.len() == 0 {
        Seq::empty()
    } else if validators.last().waiting == 0 {
        eligible(validators.drop_last()).push(validators.last().peerid)
    } else {
        eligible(validators.drop_last())
    }
}

impl BlockMessage {
    /// The leader after a block of this node: the eligible validator that
    /// the draw picks, or this node where none is eligible.
    pub open spec fn spec_next_leader(
        validators: Seq<ValidatorView>,
        local: Seq<char>,
        draw: u32,
    ) -> Seq<char> {
        let e = eligible(validators);
        if e.len() > 0 {
            e[draw as int % e.len() as int]
        } else {
            local
        }
    }

    /// This node's turn after its block: it steps back for as many rounds
    /// as there are validators, or keeps the lead where none is eligible.
    pub open spec fn spec_next_turn(validators: Seq<ValidatorView>) -> Turn {
        if eligible(validators).len() > 0 {
            Turn { shift: false, waiting: count_as_patience(validators.len()) }
        } else {
            Turn { shift: true, waiting: 0 }
        }
    }

    /// The leader record after this node's block.
    pub open spec fn spec_next_record(
        validators: Seq<ValidatorView>,
        local: Seq<char>,
        draw: u32,
    ) -> LeaderView {
        if eligible(validators).len() > 0 {
            Leader::spec_update(Some(BlockMessage::spec_next_leader(validators, local, draw)))
        } else {
            Leader::spec_update(None)
        }
    }

    /// Picks the leader that follows this node's block.
    ///
    /// Of the validators that wait no more, the draw picks one: the one
    /// at place `draw` modulo their count. It becomes the leader, and
    /// this node steps back for as many rounds as there are validators.
    /// Where none is eligible this node stays in turn, no leader is
    /// recorded, and the node itself is named.
    pub fn find_next_leader(
        validators: &Vec<Validator>,
        peerid: &PeerId,
        turn: &mut Turn,
        leader: &mut Leader,
        draw: u32,
    ) -> (r: PeerId)
        ensures
            r@ == BlockMessage::spec_next_leader(validators.deep_view(), peerid@, draw),
            *final(turn) == BlockMessage::spec_next_turn(validators.deep_view()),
            final(leader)@ == BlockMessage::spec_next_record(validators.deep_view(), peerid@, draw),
    {
        let mut in_turn: Vec<PeerId> = Vec::new();
        let mut i: usize = 0;
        assert(validators.deep_view().take(0) =~= Seq::<ValidatorView>::empty());
        assert(in_turn.deep_view() =~= Seq::<Seq<char>>::empty());
        while i < validators.len()
            invariant
                i <= validators.len(),
                in_turn.deep_view() == eligible(validators.deep_view().take(i as int)),
            decreases validators.len() - i,
        {
            proof {
                let next = validators.deep_view().take(i + 1);
                assert(next.drop_last() =~= validators.deep_view().take(i as int));
                assert(next.last() == validators[i as int]@);
            }
            if validators[i].waiting == 0 {
                let ghost before = in_turn.deep_view();
                let p = validators[i].peerid.clone();
                in_turn.push(p);
                assert(in_turn.deep_view() =~= before.push(p@));
            }
            i += 1;
        }
        assert(validators.deep_view().take(i as int) =~= validators.deep_view());
        if in_turn.len() > 0 {
            let place = (draw as usize) % in_turn.len();
            let chosen = in_turn[place].clone();
            assert(chosen@ == in_turn.deep_view()[place as int]);
            turn.off(patience_of(validators.len()));
            leader.update(Some(chosen.clone()));
            chosen
        } else {
            turn.on();
            leader.update(None);
            peerid.clone()
        }
    }

    /// What proposing decides: the node after its block is committed and
    /// the next leader is recorded, with the message to send; or why no
    /// block was built.
    pub open spec fn spec_new(
        n: NodeView,
        transactions: Seq<TransactionView>,
        salts: (u32, u32, u32),
        date: Seq<char>,
        draw: u32,
    ) -> Result<(NodeView, BlockMessageView), BlockError> {
        match Block::spec_new(
            n.ledger,
            n.validators,
            n.turn,
            n.sync_state,
            transactions,
            n.wallet,
            n.peerid,
            n.private,
            n.last_block,
            n.relay,
            salts,
            date,
        ) {
            Err(e) => Err(e),
            Ok(built) => {
                let next = BlockMessage::spec_next_leader(built.validators, n.peerid, draw);
                Ok(
                    (
                        NodeView {
                            ledger: built.ledger,
                            validators: built.validators,
                            last_block: Some(built.block),
                            turn: BlockMessage::spec_next_turn(built.validators),
                            leader: Leader::spec_update(Some(next)),
                            ..n
                        },
                        BlockMessageView { block: built.block, next_leader: next },
                    ),
                )
            },
        }
    }

    /// Builds this node's next block out of `transactions`, commits it,
    /// and picks the leader that follows. On failure the node is as it
    /// was.
    #[verifier::rlimit(30)]
    pub fn new(node: &mut Node, transactions: Vec<Transaction>, moment: &Moment) -> (r: Result<
        BlockMessage,
        BlockError,
    >)
        ensures
            match BlockMessage::spec_new(
                old(node)@,
                transactions.deep_view(),
                moment.salts,
                moment.date@,
                moment.draw,
            ) {
                Ok(done) => r is Ok && final(node)@ == done.0 && r->Ok_0@ == done.1,
                Err(e) => r == Err::<BlockMessage, BlockError>(e) && *final(node) == *old(node),
            },
            Node::wf(old(node)@) ==> Node::wf(final(node)@),
            final(node).sync_state == old(node).sync_state,
    {
        let block = match Block::new(
            &mut node.ledger,
            &mut node.validators,
            transactions,
            &node.wallet,
            &node.peerid,
            &node.private,
            &mut node.last_block,
            &node.relay,
            &mut node.turn,
            &node.sync_state,
            moment.salts,
            moment.date.clone(),
        ) {
            Ok(b) => b,
            Err(e) => {
                return Err(e);
            },
        };
        let next_leader = BlockMessage::find_next_leader(
            &node.validators,
            &node.peerid,
            &mut node.turn,
            &mut node.leader,
            moment.draw,
        );
        if node.leader.peerid.is_none() {
            node.leader.peerid = Some(next_leader.clone());
        }
        Ok(BlockMessage { block, next_leader })
    }

    /// What posting asks of the node: tell the operator of the new
    /// block, send the message to the relay, and store the block.
    pub open spec fn spec_post(m: BlockMessageView) -> Seq<ActionView> {
        seq![
            ActionView::Notify(NoticeView::BlockCreated),
            ActionView::Request(RequestView::BlockMessage(m)),
            ActionView::Persist(m.block),
        ]
    }

    /// Hands the message over for sending to the relay and its block for
    /// storing, with the word to the operator.
    pub fn post(self) -> (actions: Vec<Action>)
        ensures
            actions.deep_view() == BlockMessage::spec_post(self@),
    {
        let mut actions: Vec<Action> = Vec::new();
        let copy = self.clone();
        actions.push(Action::Notify(Notice::BlockCreated));
        actions.push(Action::Request(Requests::BlockMessage(copy)));
        actions.push(Action::Persist(self.block));
        assert(actions.deep_view() =~= BlockMessage::spec_post(self@));
        actions
    }
}


impl BlockMessage {
    /// What a received block message decides: the node after it, and the
    /// actions to perform.
    ///
    /// A block signed by the node's own wallet is an echo and is
    /// ignored. A node that is out of sync puts the message aside. A
    /// synced node evicts the block's maker where another peer is the
    /// recognised leader; else it validates the block. An accepted block
    /// is stored, and the leader it names is adopted, or the node takes
    /// its turn where that is itself. A refused block that came from the
    /// node's relay costs the relay its connection; one that came from
    /// elsewhere starts a revote.
    pub open spec fn spec_receive(n: NodeView, m: BlockMessageView, source: Seq<char>) -> (
        NodeView,
        Seq<ActionView>,
    ) {
        let maker = m.block.header.validator;
        if m.block.header.signature.key == n.wallet {
            (n, Seq::empty())
        } else if n.sync_state == Sync::NotSynced {
            (NodeView { recieved_blocks: n.recieved_blocks.push(m), ..n }, Seq::empty())
        } else if n.leader.peerid is Some && n.leader.peerid != Some(maker) {
            (
                NodeView {
                    validators: WrongDoer::spec_remove(n.validators, maker, n.peerid),
                    ..n
                },
                seq![ActionView::Notify(NoticeView::WrongdoerRemoved(maker))],
            )
        } else {
            match Block::spec_validation(
                m.block,
                n.last_block,
                n.ledger,
                n.mempool,
                n.validators,
                n.turn,
                n.sync_state,
            ) {
                Ok(accepted) => {
                    let base = NodeView {
                        ledger: accepted.ledger,
                        mempool: accepted.pool,
                        validators: accepted.validators,
                        last_block: Some(m.block),
                        ..n
                    };
                    if m.next_leader == n.peerid {
                        (
                            NodeView {
                                leader: Leader::spec_update(None),
                                turn: Turn { shift: true, waiting: 0 },
                                ..base
                            },
                            seq![
                                ActionView::Notify(NoticeView::BlockAdded),
                                ActionView::Persist(m.block),
                            ],
                        )
                    } else {
                        (
                            NodeView {
                                leader: Leader::spec_update(Some(m.next_leader)),
                                turn: accepted.turn,
                                ..base
                            },
                            seq![
                                ActionView::Notify(NoticeView::BlockAdded),
                                ActionView::Persist(m.block),
                                ActionView::Notify(NoticeView::Leader(m.next_leader)),
                            ],
                        )
                    }
                },
                Err(e) => {
                    if n.relay.peerid == Some(source) {
                        (
                            n,
                            seq![
                                ActionView::Notify(NoticeView::BlockRefused(e)),
                                ActionView::Disconnect(source),
                            ],
                        )
                    } else {
                        let v = Leader::spec_start_voting(n.leader, n.validators, n.peerid, n.turn);
                        (
                            NodeView {
                                leader: v.leader,
                                validators: v.validators,
                                turn: v.turn,
                                ..n
                            },
                            seq![ActionView::Notify(NoticeView::BlockRefused(e))] + v.actions,
                        )
                    }
                },
            }
        }
    }

    /// Acts on a block message received from `source`: see
    /// [`BlockMessage::spec_receive`].
    #[verifier::rlimit(30)]
    pub fn receive(self, node: &mut Node, source: &PeerId) -> (actions: Vec<Action>)
        ensures
            final(node)@ == BlockMessage::spec_receive(old(node)@, self@, source@).0,
            actions.deep_view() == BlockMessage::spec_receive(old(node)@, self@, source@).1,
            Node::wf(old(node)@) ==> Node::wf(final(node)@),
            final(node).sync_state == old(node).sync_state,
    {
        let mut actions: Vec<Action> = Vec::new();
        assert(actions.deep_view() =~= Seq::<ActionView>::empty());
        if self.block.header.signature.key.same(&node.wallet) {
            return actions;
        }
        if let Sync::NotSynced = node.sync_state {
            let ghost before = node.recieved_blocks.deep_view();
            let ghost m = self@;
            node.recieved_blocks.push(self);
            assert(node.recieved_blocks.deep_view() =~= before.push(m));
            return actions;
        }
        if node.leader.peerid.is_some() && !node.leader.is_leader(&self.block.header.validator) {
            let gone = WrongDoer::remove(
                &mut node.validators,
                &self.block.header.validator,
                &node.peerid,
            );
            actions.push(Action::Notify(Notice::WrongdoerRemoved(gone)));
            assert(actions.deep_view() =~= seq![
                ActionView::Notify(NoticeView::WrongdoerRemoved(self@.block.header.validator)),
            ]);
            return actions;
        }
        match self.block.validation(
            &mut node.last_block,
            &mut node.ledger,
            &mut node.validators,
            &mut node.mempool,
            &mut node.turn,
            &node.sync_state,
        ) {
            Ok(block) => {
                actions.push(Action::Notify(Notice::BlockAdded));
                actions.push(Action::Persist(block));
                if self.next_leader.same(&node.peerid) {
                    node.leader.update(None);
                    node.turn.on();
                    assert(actions.deep_view() =~= seq![
                        ActionView::Notify(NoticeView::BlockAdded),
                        ActionView::Persist(self@.block),
                    ]);
                } else {
                    actions.push(Action::Notify(Notice::Leader(self.next_leader.clone())));
                    node.leader.update(Some(self.next_leader));
                    assert(actions.deep_view() =~= seq![
                        ActionView::Notify(NoticeView::BlockAdded),
                        ActionView::Persist(self@.block),
                        ActionView::Notify(NoticeView::Leader(self@.next_leader)),
                    ]);
                }
            },
            Err(e) => {
                actions.push(Action::Notify(Notice::BlockRefused(e)));
                if node.relay.is_peer(source) {
                    actions.push(Action::Disconnect(source.clone()));
                    assert(actions.deep_view() =~= seq![
                        ActionView::Notify(NoticeView::BlockRefused(e)),
                        ActionView::Disconnect(source@),
                    ]);
                } else {
                    assert(actions.deep_view() =~= seq![
                        ActionView::Notify(NoticeView::BlockRefused(e)),
                    ]);
                    let more = node.leader.start_voting(
                        &mut node.validators,
                        &node.peerid,
                        &mut node.turn,
                    );
                    append_actions(&mut actions, more);
                }
            },
        }
        actions
    }
}


impl BlockMessage {
    /// What handling a received block message decides: what
    /// [`BlockMessage::spec_receive`] says, and the local wallet's new
    /// balance is told where the block has changed what it holds.
    pub open spec fn spec_handle(n: NodeView, m: BlockMessageView, source: Seq<char>) -> (
        NodeView,
        Seq<ActionView>,
    ) {
        let r = BlockMessage::spec_receive(n, m, source);
        (
            r.0,
            r.1 + balance_note(
                Ledger::spec_surface(Ledger::holdings(n.ledger, n.wallet), r.0.ledger, n.wallet),
            ),
        )
    }

    /// Handles a block message received from `source`: see
    /// [`BlockMessage::spec_handle`].
    pub fn handle(self, node: &mut Node, source: &PeerId) -> (actions: Vec<Action>)
        ensures
            final(node)@ == BlockMessage::spec_handle(old(node)@, self@, source@).0,
            actions.deep_view() == BlockMessage::spec_handle(old(node)@, self@, source@).1,
            Node::wf(old(node)@) ==> Node::wf(final(node)@),
            final(node).sync_state == old(node).sync_state,
    {
        let before = node.ledger.holdings_of(&node.wallet);
        let mut actions = self.receive(node, source);
        let balance = node.ledger.surface(&before, &node.wallet);
        push_balance(&mut actions, balance);
        actions
    }
}

} // verus!
