//! Handling a transaction that arrives by gossip.

use crate::block::copy_transactions;
use crate::gossip::{balance_note, push_balance, Action, ActionView, Notice, NoticeView};
use crate::identity::{PeerId, Public};
use crate::leader::{Leader, LeaderTime};
use crate::message::BlockMessage;
use crate::moment::Moment;
use crate::node::{Node, NodeView};
use crate::transaction::{Transaction, TransactionView};
use crate::utxo::{Ledger, LedgerError};
use crate::wrongdoer::WrongDoer;
use vstd::prelude::*;

verus! {

/// The most transactions a block confirms.
pub const BLOCK_CAPACITY: usize = 51;

/// Handles gossiped transactions.
pub struct Transactions;

impl Transactions {
    /// How many pending transactions the next block takes: all of them,
    /// up to the capacity of a block.
    pub open spec fn batch_size(pool: Seq<TransactionView>) -> int {
        if pool.len() < BLOCK_CAPACITY {
            pool.len() as int
        } else {
            BLOCK_CAPACITY as int
        }
    }

    /// What proposing out of the pool decides: the oldest pending
    /// transactions, at most 51, go into this node's next block and leave
    /// the pool, and the block message is posted. Where no block can be
    /// built the node is as it was and the operator is told.
    pub open spec fn spec_propose(
        n: NodeView,
        salts: (u32, u32, u32),
        date: Seq<char>,
        draw: u32,
    ) -> (NodeView, Seq<ActionView>) {
        let k = Transactions::batch_size(n.mempool);
        match BlockMessage::spec_new(n, n.mempool.take(k), salts, date, draw) {
            Ok(done) => (
                NodeView { mempool: n.mempool.skip(k), ..done.0 },
                BlockMessage::spec_post(done.1),
            ),
            Err(e) => (n, seq![ActionView::Notify(NoticeView::BlockRefused(e))]),
        }
    }

    /// Builds this node's next block out of the oldest pending
    /// transactions: see [`Transactions::spec_propose`].
    #[verifier::rlimit(30)]
    pub fn propose(node: &mut Node, moment: &Moment) -> (actions: Vec<Action>)
        ensures
            final(node)@ == Transactions::spec_propose(
                old(node)@,
                moment.salts,
                moment.date@,
                moment.draw,
            ).0,
            actions.deep_view() == Transactions::spec_propose(
                old(node)@,
                moment.salts,
                moment.date@,
                moment.draw,
            ).1,
            Node::wf(old(node)@) ==> Node::wf(final(node)@),
            final(node).sync_state == old(node).sync_state,
    {
        let k: usize = if node.mempool.len() < BLOCK_CAPACITY {
            node.mempool.len()
        } else {
            BLOCK_CAPACITY
        };
        let mut batch = copy_transactions(&node.mempool);
        batch.truncate(k);
        assert(batch.deep_view() =~= old(node)@.mempool.take(k as int));
        match BlockMessage::new(node, batch, moment) {
            Ok(message) => {
                let ghost pool = node.mempool.deep_view();
                assert(pool == old(node)@.mempool);
                assert(pool.len() == node.mempool.len());
                let rest = node.mempool.split_off(k);
                assert(rest.deep_view() =~= pool.skip(k as int));
                node.mempool = rest;
                message.post()
            },
            Err(e) => {
                let mut actions: Vec<Action> = Vec::new();
                actions.push(Action::Notify(Notice::BlockRefused(e)));
                assert(actions.deep_view() =~= seq![ActionView::Notify(NoticeView::BlockRefused(e))]);
                actions
            },
        }
    }

    /// What follows a transaction joining the pool. With fewer than two
    /// pending transactions, or during a revote, nothing. Else: a leader
    /// whose timer runs and has run out is voted out; a node in turn
    /// proposes; any other node starts timing the leader.
    pub open spec fn spec_pooled(
        n: NodeView,
        now: i64,
        salts: (u32, u32, u32),
        date: Seq<char>,
        draw: u32,
    ) -> (NodeView, Seq<ActionView>) {
        if n.mempool.len() > 1 && !n.leader.in_check {
            match n.leader.timer {
                LeaderTime::On => {
                    if Leader::spec_expired(n.leader, now) {
                        let v = Leader::spec_start_voting(n.leader, n.validators, n.peerid, n.turn);
                        (
                            NodeView {
                                leader: v.leader,
                                validators: v.validators,
                                turn: v.turn,
                                ..n
                            },
                            v.actions,
                        )
                    } else {
                        (n, Seq::empty())
                    }
                },
                LeaderTime::Off => {
                    if n.turn.shift {
                        Transactions::spec_propose(n, salts, date, draw)
                    } else {
                        (
                            NodeView { leader: Leader::spec_timer_start(n.leader, now), ..n },
                            Seq::empty(),
                        )
                    }
                },
            }
        } else {
            (n, Seq::empty())
        }
    }

    /// Acts on the pool after a transaction has joined it: see
    /// [`Transactions::spec_pooled`].
    pub fn pooled(node: &mut Node, moment: &Moment) -> (actions: Vec<Action>)
        ensures
            final(node)@ == Transactions::spec_pooled(
                old(node)@,
                moment.now,
                moment.salts,
                moment.date@,
                moment.draw,
            ).0,
            actions.deep_view() == Transactions::spec_pooled(
                old(node)@,
                moment.now,
                moment.salts,
                moment.date@,
                moment.draw,
            ).1,
            Node::wf(old(node)@) ==> Node::wf(final(node)@),
            final(node).sync_state == old(node).sync_state,
    {
        if node.mempool.len() > 1 && !node.leader.in_check {
            match node.leader.timer {
                LeaderTime::On => {
                    if node.leader.expired(moment.now) {
                        node.leader.start_voting(&mut node.validators, &node.peerid, &mut node.turn)
                    } else {
                        let actions: Vec<Action> = Vec::new();
                        assert(actions.deep_view() =~= Seq::<ActionView>::empty());
                        actions
                    }
                },
                LeaderTime::Off => {
                    if node.turn.shift {
                        Transactions::propose(node, moment)
                    } else {
                        node.leader.timer_start(moment.now);
                        let actions: Vec<Action> = Vec::new();
                        assert(actions.deep_view() =~= Seq::<ActionView>::empty());
                        actions
                    }
                },
            }
        } else {
            let actions: Vec<Action> = Vec::new();
            assert(actions.deep_view() =~= Seq::<ActionView>::empty());
            actions
        }
    }

    /// What a gossiped transaction decides.
    ///
    /// A valid transaction spends its inputs and joins the pool; then the
    /// pool is acted on as [`Transactions::spec_pooled`] says. An invalid
    /// one that came from the node's relay costs the relay its
    /// connection; one from any other peer has that peer evicted. Ledger
    /// and pool are then as they were.
    pub open spec fn spec_accept(
        n: NodeView,
        t: TransactionView,
        source: Seq<char>,
        now: i64,
        salts: (u32, u32, u32),
        date: Seq<char>,
        draw: u32,
    ) -> (NodeView, Seq<ActionView>) {
        match Transaction::spec_validate(t, n.ledger) {
            Ok(ledger) => Transactions::spec_pooled(
                NodeView { ledger, mempool: n.mempool.push(t), ..n },
                now,
                salts,
                date,
                draw,
            ),
            Err(e) => {
                if n.relay.peerid == Some(source) {
                    (
                        n,
                        seq![
                            ActionView::Notify(NoticeView::TransactionRefused(e)),
                            ActionView::Disconnect(source),
                        ],
                    )
                } else {
                    (
                        NodeView {
                            validators: WrongDoer::spec_remove(n.validators, source, n.peerid),
                            ..n
                        },
                        seq![ActionView::Notify(NoticeView::WrongdoerRemoved(source))],
                    )
                }
            },
        }
    }

    /// Acts on a transaction received from `source`: see
    /// [`Transactions::spec_accept`].
    pub fn accept(node: &mut Node, transaction: Transaction, source: &PeerId, moment: &Moment) -> (actions:
        Vec<Action>)
        ensures
            final(node)@ == Transactions::spec_accept(
                old(node)@,
                transaction@,
                source@,
                moment.now,
                moment.salts,
                moment.date@,
                moment.draw,
            ).0,
            actions.deep_view() == Transactions::spec_accept(
                old(node)@,
                transaction@,
                source@,
                moment.now,
                moment.salts,
                moment.date@,
                moment.draw,
            ).1,
            Node::wf(old(node)@) ==> Node::wf(final(node)@),
            final(node).sync_state == old(node).sync_state,
    {
        match transaction.validate(&mut node.ledger) {
            Ok(()) => {
                let ghost pool = node.mempool.deep_view();
                let ghost t = transaction@;
                node.mempool.push(transaction);
                assert(node.mempool.deep_view() =~= pool.push(t));
                Transactions::pooled(node, moment)
            },
            Err(e) => {
                let mut actions: Vec<Action> = Vec::new();
                if node.relay.is_peer(source) {
                    actions.push(Action::Notify(Notice::TransactionRefused(e)));
                    actions.push(Action::Disconnect(source.clone()));
                    assert(actions.deep_view() =~= seq![
                        ActionView::Notify(NoticeView::TransactionRefused(e)),
                        ActionView::Disconnect(source@),
                    ]);
                } else {
                    let gone = WrongDoer::remove(&mut node.validators, source, &node.peerid);
                    actions.push(Action::Notify(Notice::WrongdoerRemoved(gone)));
                    assert(actions.deep_view() =~= seq![
                        ActionView::Notify(NoticeView::WrongdoerRemoved(source@)),
                    ]);
                }
                actions
            },
        }
    }

    /// What handling a gossiped transaction decides: what
    /// [`Transactions::spec_accept`] says, and the local wallet's new
    /// balance is told where what it holds has changed.
    pub open spec fn spec_handle(
        n: NodeView,
        t: TransactionView,
        source: Seq<char>,
        now: i64,
        salts: (u32, u32, u32),
        date: Seq<char>,
        draw: u32,
    ) -> (NodeView, Seq<ActionView>) {
        let r = Transactions::spec_accept(n, t, source, now, salts, date, draw);
        (
            r.0,
            r.1 + balance_note(
                Ledger::spec_surface(Ledger::holdings(n.ledger, n.wallet), r.0.ledger, n.wallet),
            ),
        )
    }

    /// Handles a transaction received from `source`: see
    /// [`Transactions::spec_handle`].
    pub fn handle(node: &mut Node, transaction: Transaction, source: &PeerId, moment: &Moment) -> (actions:
        Vec<Action>)
        ensures
            final(node)@ == Transactions::spec_handle(
                old(node)@,
                transaction@,
                source@,
                moment.now,
                moment.salts,
                moment.date@,
                moment.draw,
            ).0,
            actions.deep_view() == Transactions::spec_handle(
                old(node)@,
                transaction@,
                source@,
                moment.now,
                moment.salts,
                moment.date@,
                moment.draw,
            ).1,
            Node::wf(old(node)@) ==> Node::wf(final(node)@),
            final(node).sync_state == old(node).sync_state,
    {
        let before = node.ledger.holdings_of(&node.wallet);
        let mut actions = Transactions::accept(node, transaction, source, moment);
        let balance = node.ledger.surface(&before, &node.wallet);
        push_balance(&mut actions, balance);
        actions
    }

    /// The local wallet's balance as text: the total of its unspent
    /// outputs; `NotFound` for a wallet the ledger does not know,
    /// `Overflow` where the total does not fit a decimal.
    pub fn sum_centies(ledger: &Ledger, wallet: &Public) -> (r: Result<String, LedgerError>)
        ensures
            match Ledger::spec_balance(ledger@, wallet@) {
                Ok(b) => r is Ok && r->Ok_0@ == b.spec_text(),
                Err(e) => r == Err::<String, LedgerError>(e),
            },
    {
        match ledger.balance(wallet) {
            Ok(b) => {
                match b.to_text() {
                    Some(text) => Ok(text),
                    None => Err(LedgerError::Overflow),
                }
            },
            Err(e) => Err(e),
        }
    }
}

} // verus!
