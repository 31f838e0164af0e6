//! The handshake with the relay, and the bootstrap that follows it.

use crate::block::{
    copy_tip, copy_transactions, tip_view, Block, BlockError, BlockView,
};
use crate::gossip::{
    balance_note, push_action, push_balance, Action, ActionView, Notice, NoticeView, RequestView,
    Requests,
};
use crate::identity::Public;
use crate::leader::{Leader, LeaderView};
use crate::message::{BlockMessage, BlockMessageView};
use crate::moment::Moment;
use crate::node::{Node, NodeView};
use crate::transaction::{Transaction, TransactionView};
use crate::trun_sync::{Sync, Turn};
use crate::utxo::{Ledger, PersonView};
use crate::validator::{copy_validators, Relay, Validator, ValidatorView};
use vstd::prelude::*;
use vstd::string::*;

verus! {

/// Whether the relay knows of no validator before this one.
#[derive(Clone, Copy, Debug, PartialEq, Eq, Structural)]
pub enum FirstChecker {
    Yes,
    No,
}

/// The relay's answer to the handshake.
#[derive(Clone, Copy, Debug, PartialEq, Eq)]
pub struct Handshake {
    pub wallet: Public,
    pub first_node: FirstChecker,
}

/// A snapshot of the network's state, as loaded from the relay's dump.
#[derive(Debug, PartialEq, Eq)]
pub struct Snapshot {
    pub ledger: Ledger,
    pub validators: Vec<Validator>,
    pub transactions: Vec<Transaction>,
    pub blocks: Vec<Block>,
}

/// The view of a [`Snapshot`].
pub struct SnapshotView {
    pub ledger: Seq<PersonView>,
    pub validators: Seq<ValidatorView>,
    pub transactions: Seq<TransactionView>,
    pub blocks: Seq<BlockView>,
}

impl DeepView for Snapshot {
    type V = SnapshotView;

    open spec fn deep_view(&self) -> SnapshotView {
        SnapshotView {
            ledger: self.ledger@,
            validators: self.validators.deep_view(),
            transactions: self.transactions.deep_view(),
            blocks: self.blocks.deep_view(),
        }
    }
}

impl View for Snapshot {
    type V = SnapshotView;

    open spec fn view(&self) -> SnapshotView {
        self.deep_view()
    }
}

/// Why the bootstrap failed.
#[derive(Clone, Copy, Debug, PartialEq, Eq, Structural)]
pub enum SyncError {
    /// The genesis block could not be built.
    Genesis(BlockError),
    /// A block received during the bootstrap was refused.
    Replay(BlockError),
    /// The relay's peer is not known.
    NoRelay,
}

/// The block of the greatest number; of several, the first.
pub open spec fn latest(blocks: Seq<BlockView>) -> Option<BlockView>
    decreases blocks.len(),
{
    if blocks.len() == 0 {
        None
    } else {
        match latest(blocks.drop_last()) {
            None => Some(blocks.last()),
            Some(b) => if blocks.last().header.number > b.header.number {
                Some(blocks.last())
            } else {
                Some(b)
            },
        }
    }
}

/// The state a replay works on, and the actions it has gathered.
pub struct Replayed {
    pub tip: Option<BlockView>,
    pub ledger: Seq<PersonView>,
    pub pool: Seq<TransactionView>,
    pub validators: Seq<ValidatorView>,
    pub turn: Turn,
    pub leader: LeaderView,
    pub actions: Seq<ActionView>,
}

/// The state after the messages are replayed in order: each block is
/// validated on top of the one before and stored, and the leader it names
/// is adopted. The first block that is refused gives the error.
pub open spec fn spec_replay(
    state: Replayed,
    messages: Seq<BlockMessageView>,
    sync_state: Sync,
) -> Result<Replayed, BlockError>
    decreases messages.len(),
{
    if messages.len() == 0 {
        Ok(state)
    } else {
        match Block::spec_validation(
            messages[0].block,
            state.tip,
            state.ledger,
            state.pool,
            state.validators,
            state.turn,
            sync_state,
        ) {
            Err(e) => Err(e),
            Ok(accepted) => spec_replay(
                Replayed {
                    tip: Some(messages[0].block),
                    ledger: accepted.ledger,
                    pool: accepted.pool,
                    validators: accepted.validators,
                    turn: accepted.turn,
                    leader: Leader::spec_update(Some(messages[0].next_leader)),
                    actions: state.actions.push(ActionView::Persist(messages[0].block)),
                },
                messages.drop_first(),
                sync_state,
            ),
        }
    }
}

impl Snapshot {
    /// Finds the block of the greatest number.
    pub fn tip(blocks: &Vec<Block>) -> (r: Option<Block>)
        ensures
            tip_view(r) == latest(blocks.deep_view()),
    {
        if blocks.len() == 0 {
            return None;
        }
        let mut best: usize = 0;
        let mut i: usize = 1;
        assert(blocks.deep_view().take(1).drop_last() =~= Seq::<BlockView>::empty());
        assert(latest(blocks.deep_view().take(1).drop_last()) is None);
        assert(blocks.deep_view().take(1).last() == blocks[0]@);
        while i < blocks.len()
            invariant
                1 <= i <= blocks.len(),
                best < i,
                latest(blocks.deep_view().take(i as int)) == Some(blocks[best as int]@),
            decreases blocks.len() - i,
        {
            proof {
                let next = blocks.deep_view().take(i + 1);
                assert(next.drop_last() =~= blocks.deep_view().take(i as int));
                assert(next.last() == blocks[i as int]@);
            }
            if blocks[i].header.number > blocks[best].header.number {
                best = i;
            }
            i += 1;
        }
        assert(blocks.deep_view().take(i as int) =~= blocks.deep_view());
        Some(blocks[best].clone())
    }
}

impl Handshake {
    /// The request that opens the handshake.
    pub fn start() -> (r: Action)
        ensures
            r@ == ActionView::Request(RequestView::Handshake("handshake"@)),
    {
        Action::Request(Requests::Handshake(String::from_str("handshake")))
    }

    /// The node with the snapshot loaded: ledger and registry are the
    /// snapshot's, its transactions join the pool, and the chain tip is
    /// its block of the greatest number.
    pub open spec fn spec_restore(n: NodeView, s: SnapshotView) -> NodeView {
        NodeView {
            ledger: s.ledger,
            validators: s.validators,
            mempool: n.mempool + s.transactions,
            last_block: latest(s.blocks),
            ..n
        }
    }

    /// Where a replay starts on a node.
    pub open spec fn replay_start(n: NodeView) -> Replayed {
        Replayed {
            tip: n.last_block,
            ledger: n.ledger,
            pool: n.mempool,
            validators: n.validators,
            turn: n.turn,
            leader: n.leader,
            actions: Seq::empty(),
        }
    }

    /// What the bootstrap decides: the node after it, and the actions to
    /// perform or the error.
    ///
    /// The relay's wallet is recorded. A first node builds the genesis
    /// block on an empty chain and posts it. Any other node loads the
    /// snapshot and replays the block messages it has put aside, in
    /// arrival order. Where all are accepted, the node continues from the
    /// last of them with an empty buffer. Where one is refused, nothing
    /// of the replay is kept: the node is as the snapshot left it.
    pub open spec fn spec_bootstrap(
        h: Handshake,
        n: NodeView,
        s: SnapshotView,
        salts: (u32, u32, u32),
        date: Seq<char>,
        draw: u32,
    ) -> (NodeView, Result<Seq<ActionView>, SyncError>) {
        let known = NodeView { relay: Relay::spec_update(n.relay, None, Some(h.wallet@)), ..n };
        match h.first_node {
            FirstChecker::Yes => match BlockMessage::spec_new(
                NodeView { last_block: None, ..known },
                Seq::empty(),
                salts,
                date,
                draw,
            ) {
                Ok(done) => (done.0, Ok(BlockMessage::spec_post(done.1))),
                Err(e) => (known, Err(SyncError::Genesis(e))),
            },
            FirstChecker::No => {
                let loaded = Handshake::spec_restore(known, s);
                match spec_replay(
                    Handshake::replay_start(loaded),
                    loaded.recieved_blocks,
                    loaded.sync_state,
                ) {
                    Ok(r) => (
                        NodeView {
                            last_block: r.tip,
                            ledger: r.ledger,
                            mempool: r.pool,
                            validators: r.validators,
                            turn: r.turn,
                            leader: r.leader,
                            recieved_blocks: Seq::empty(),
                            ..loaded
                        },
                        Ok(r.actions.push(ActionView::Notify(NoticeView::SyncCompleted))),
                    ),
                    Err(e) => (loaded, Err(SyncError::Replay(e))),
                }
            },
        }
    }

    fn restore(node: &mut Node, snapshot: Snapshot)
        ensures
            final(node)@ == Handshake::spec_restore(old(node)@, snapshot@),
            Node::wf(old(node)@) && Ledger::wf(snapshot@.ledger) ==> Node::wf(final(node)@),
    {
        let mut snapshot = snapshot;
        let ghost s = snapshot@;
        let ghost pool = node.mempool.deep_view();
        node.last_block = Snapshot::tip(&snapshot.blocks);
        node.ledger = snapshot.ledger;
        node.validators = snapshot.validators;
        node.mempool.append(&mut snapshot.transactions);
        assert(node.mempool.deep_view() =~= pool + s.transactions);
    }

    #[verifier::loop_isolation(false)]
    #[verifier::rlimit(30)]
    fn replay(node: &mut Node) -> (r: Result<Vec<Action>, BlockError>)
        ensures
            match spec_replay(
                Handshake::replay_start(old(node)@),
                old(node)@.recieved_blocks,
                old(node)@.sync_state,
            ) {
                Ok(done) => {
                    &&& r is Ok
                    &&& r->Ok_0.deep_view() == done.actions
                    &&& final(node)@ == (NodeView {
                        last_block: done.tip,
                        ledger: done.ledger,
                        mempool: done.pool,
                        validators: done.validators,
                        turn: done.turn,
                        leader: done.leader,
                        recieved_blocks: Seq::empty(),
                        ..old(node)@
                    })
                },
                Err(e) => r == Err::<Vec<Action>, BlockError>(e) && *final(node) == *old(node),
            },
            Node::wf(old(node)@) ==> Node::wf(final(node)@),
    {
        let mut tip = copy_tip(&node.last_block);
        let mut ledger = node.ledger.clone();
        let mut pool = copy_transactions(&node.mempool);
        let mut validators = copy_validators(&node.validators);
        let mut turn = node.turn;
        let mut leader = node.leader.clone();
        let mut actions: Vec<Action> = Vec::new();
        assert(actions.deep_view() =~= Seq::<ActionView>::empty());
        let ghost all = node@.recieved_blocks;
        let ghost sync_state = node@.sync_state;
        let mut i: usize = 0;
        assert(all.skip(0) =~= all);
        while i < node.recieved_blocks.len()
            invariant
                i <= node.recieved_blocks.len(),
                *node == *old(node),
                Ledger::wf(old(node)@.ledger) ==> Ledger::wf(ledger@),
                spec_replay(Handshake::replay_start(old(node)@), all, sync_state) == spec_replay(
                    Replayed {
                        tip: tip_view(tip),
                        ledger: ledger@,
                        pool: pool.deep_view(),
                        validators: validators.deep_view(),
                        turn,
                        leader: leader@,
                        actions: actions.deep_view(),
                    },
                    all.skip(i as int),
                    sync_state,
                ),
            decreases node.recieved_blocks.len() - i,
        {
            let ghost rest = all.skip(i as int);
            let ghost state = Replayed {
                tip: tip_view(tip),
                ledger: ledger@,
                pool: pool.deep_view(),
                validators: validators.deep_view(),
                turn,
                leader: leader@,
                actions: actions.deep_view(),
            };
            proof {
                assert(rest[0] == node.recieved_blocks[i as int]@);
                assert(rest.drop_first() =~= all.skip(i + 1));
                assert(spec_replay(state, rest, sync_state) == match Block::spec_validation(
                    rest[0].block,
                    state.tip,
                    state.ledger,
                    state.pool,
                    state.validators,
                    state.turn,
                    sync_state,
                ) {
                    Err(e) => Err(e),
                    Ok(accepted) => spec_replay(
                        Replayed {
                            tip: Some(rest[0].block),
                            ledger: accepted.ledger,
                            pool: accepted.pool,
                            validators: accepted.validators,
                            turn: accepted.turn,
                            leader: Leader::spec_update(Some(rest[0].next_leader)),
                            actions: state.actions.push(ActionView::Persist(rest[0].block)),
                        },
                        rest.drop_first(),
                        sync_state,
                    ),
                });
            }
            let message = &node.recieved_blocks[i];
            match message.block.validation(
                &mut tip,
                &mut ledger,
                &mut validators,
                &mut pool,
                &mut turn,
                &node.sync_state,
            ) {
                Ok(block) => {
                    leader.update(Some(message.next_leader.clone()));
                    push_action(&mut actions, Action::Persist(block));
                },
                Err(e) => {
                    return Err(e);
                },
            }
            i += 1;
        }
        assert(all.skip(i as int) =~= Seq::<BlockMessageView>::empty());
        node.last_block = tip;
        node.ledger = ledger;
        node.mempool = pool;
        node.validators = validators;
        node.turn = turn;
        node.leader = leader;
        node.recieved_blocks = Vec::new();
        assert(node.recieved_blocks.deep_view() =~= Seq::<BlockMessageView>::empty());
        Ok(actions)
    }

    /// Runs the bootstrap that the relay's answer calls for: see
    /// [`Handshake::spec_bootstrap`]. `snapshot` is what was loaded from
    /// the relay's dump; a first node passes an empty one.
    #[verifier::rlimit(30)]
    pub fn bootstrap(&self, node: &mut Node, snapshot: Snapshot, moment: &Moment) -> (r: Result<
        Vec<Action>,
        SyncError,
    >)
        ensures
            final(node)@ == Handshake::spec_bootstrap(
                *self,
                old(node)@,
                snapshot@,
                moment.salts,
                moment.date@,
                moment.draw,
            ).0,
            match Handshake::spec_bootstrap(
                *self,
                old(node)@,
                snapshot@,
                moment.salts,
                moment.date@,
                moment.draw,
            ).1 {
                Ok(actions) => r is Ok && r->Ok_0.deep_view() == actions,
                Err(e) => r == Err::<Vec<Action>, SyncError>(e),
            },
            Node::wf(old(node)@) && Ledger::wf(snapshot@.ledger) ==> Node::wf(final(node)@),
            final(node).sync_state == old(node).sync_state,
    {
        node.relay.update(None, Some(self.wallet));
        match self.first_node {
            FirstChecker::Yes => {
                let mut saved: Option<Block> = None;
                core::mem::swap(&mut saved, &mut node.last_block);
                let none: Vec<Transaction> = Vec::new();
                assert(none.deep_view() =~= Seq::<TransactionView>::empty());
                let ghost known = NodeView {
                    relay: Relay::spec_update(old(node)@.relay, None, Some(self.wallet@)),
                    ..old(node)@
                };
                assert(node@ == NodeView { last_block: None, ..known });
                match BlockMessage::new(node, none, moment) {
                    Ok(message) => Ok(message.post()),
                    Err(e) => {
                        node.last_block = saved;
                        assert(node@ == known);
                        Err(SyncError::Genesis(e))
                    },
                }
            },
            FirstChecker::No => {
                Handshake::restore(node, snapshot);
                match Handshake::replay(node) {
                    Ok(actions) => {
                        let mut actions = actions;
                        push_action(&mut actions, Action::Notify(Notice::SyncCompleted));
                        Ok(actions)
                    },
                    Err(e) => Err(SyncError::Replay(e)),
                }
            },
        }
    }

    /// What the handshake's answer decides: what
    /// [`Handshake::spec_bootstrap`] says, and after a bootstrap that
    /// succeeds the local wallet's balance is told where what it holds
    /// has changed.
    pub open spec fn spec_response(
        h: Handshake,
        n: NodeView,
        s: SnapshotView,
        salts: (u32, u32, u32),
        date: Seq<char>,
        draw: u32,
    ) -> (NodeView, Result<Seq<ActionView>, SyncError>) {
        let r = Handshake::spec_bootstrap(h, n, s, salts, date, draw);
        match r.1 {
            Ok(actions) => (
                r.0,
                Ok(
                    actions + balance_note(
                        Ledger::spec_surface(
                            Ledger::holdings(n.ledger, n.wallet),
                            r.0.ledger,
                            n.wallet,
                        ),
                    ),
                ),
            ),
            Err(e) => (r.0, Err(e)),
        }
    }

    /// Acts on the relay's answer to the handshake: see
    /// [`Handshake::spec_response`].
    ///
    /// The replay is all or nothing: where a block of the buffer is
    /// refused, the chain tip is the one the snapshot restored, and the
    /// sync state is untouched.
    #[verifier::rlimit(30)]
    pub fn response(&self, node: &mut Node, snapshot: Snapshot, moment: &Moment) -> (r: Result<
        Vec<Action>,
        SyncError,
    >)
        ensures
            final(node)@ == Handshake::spec_response(
                *self,
                old(node)@,
                snapshot@,
                moment.salts,
                moment.date@,
                moment.draw,
            ).0,
            match Handshake::spec_response(
                *self,
                old(node)@,
                snapshot@,
                moment.salts,
                moment.date@,
                moment.draw,
            ).1 {
                Ok(actions) => r is Ok && r->Ok_0.deep_view() == actions,
                Err(e) => r == Err::<Vec<Action>, SyncError>(e),
            },
            final(node).sync_state == old(node).sync_state,
            r is Err && self.first_node == FirstChecker::No ==> final(node)@.last_block == latest(
                snapshot@.blocks,
            ),
            Node::wf(old(node)@) && Ledger::wf(snapshot@.ledger) ==> Node::wf(final(node)@),
    {
        let before = node.ledger.holdings_of(&node.wallet);
        match self.bootstrap(node, snapshot, moment) {
            Ok(actions) => {
                let mut actions = actions;
                let balance = node.ledger.surface(&before, &node.wallet);
                push_balance(&mut actions, balance);
                Ok(actions)
            },
            Err(e) => Err(e),
        }
    }
}


impl SyncError {
    /// What the operator is told of each error.
    pub open spec fn spec_describe(self) -> Seq<char> {
        match self {
            SyncError::Genesis(e) => e.spec_describe(),
            SyncError::Replay(e) => e.spec_describe(),
            SyncError::NoRelay => "The relay's peer is not known!"@,
        }
    }

    /// The error in words, for the operator.
    pub fn describe(&self) -> (r: &'static str)
        ensures
            r@ == self.spec_describe(),
    {
        match self {
            SyncError::Genesis(e) => e.describe(),
            SyncError::Replay(e) => e.describe(),
            SyncError::NoRelay => "The relay's peer is not known!",
        }
    }
}

} // verus!
