//! What travels on the network, and what a handler asks the node to do.

use crate::amount::Amount;
use crate::block::{Block, BlockError, BlockView};
use crate::handshaking::SyncError;
use crate::identity::PeerId;
use crate::message::{BlockMessage, BlockMessageView};
use crate::syncing::{VSync, VSyncView};
use crate::transaction::{Transaction, TransactionView, TrxError};
use vstd::prelude::*;

verus! {

/// A message on the validators' gossip topic.
#[derive(Debug, PartialEq, Eq)]
pub enum GossipMessages {
    BlockMessage(BlockMessage),
    Transaction(Transaction),
    SyncMessage(VSync),
    LeaderVote(PeerId),
    Outnode(PeerId),
}

/// The view of a [`GossipMessages`].
pub enum GossipView {
    BlockMessage(BlockMessageView),
    Transaction(TransactionView),
    SyncMessage(VSyncView),
    LeaderVote(Seq<char>),
    Outnode(Seq<char>),
}

impl DeepView for GossipMessages {
    type V = GossipView;

    open spec fn deep_view(&self) -> GossipView {
        match self {
            GossipMessages::BlockMessage(m) => GossipView::BlockMessage(m@),
            GossipMessages::Transaction(t) => GossipView::Transaction(t@),
            GossipMessages::SyncMessage(s) => GossipView::SyncMessage(s@),
            GossipMessages::LeaderVote(p) => GossipView::LeaderVote(p@),
            GossipMessages::Outnode(p) => GossipView::Outnode(p@),
        }
    }
}

impl View for GossipMessages {
    type V = GossipView;

    open spec fn view(&self) -> GossipView {
        self.deep_view()
    }
}

/// A request to the relay.
#[derive(Debug, PartialEq, Eq)]
pub enum Requests {
    Handshake(String),
    BlockMessage(BlockMessage),
    Transaction(Transaction),
}

/// The view of a [`Requests`].
pub enum RequestView {
    Handshake(Seq<char>),
    BlockMessage(BlockMessageView),
    Transaction(TransactionView),
}

impl DeepView for Requests {
    type V = RequestView;

    open spec fn deep_view(&self) -> RequestView {
        match self {
            Requests::Handshake(s) => RequestView::Handshake(s@),
            Requests::BlockMessage(m) => RequestView::BlockMessage(m@),
            Requests::Transaction(t) => RequestView::Transaction(t@),
        }
    }
}

impl View for Requests {
    type V = RequestView;

    open spec fn view(&self) -> RequestView {
        self.deep_view()
    }
}

/// Something the operator is told.
#[derive(Debug, PartialEq, Eq)]
pub enum Notice {
    /// A peer was evicted for breaking the protocol.
    WrongdoerRemoved(PeerId),
    /// The leader that went missing was evicted.
    LeaderRemoved(PeerId),
    /// A peer that left the network was evicted.
    Outnode(PeerId),
    /// A peer is put forward or installed as leader.
    Leader(PeerId),
    /// A peer joined the registry.
    ValidatorAdded(PeerId),
    /// A block joined the chain.
    BlockAdded,
    /// This node made a block.
    BlockCreated,
    /// A transaction was refused.
    TransactionRefused(TrxError),
    /// A block was refused, or could not be built.
    BlockRefused(BlockError),
    /// The bootstrap is complete.
    SyncCompleted,
    /// The bootstrap failed.
    SyncFailed(SyncError),
    /// The local wallet's balance.
    Balance(Amount),
}

/// The view of a [`Notice`].
pub enum NoticeView {
    WrongdoerRemoved(Seq<char>),
    LeaderRemoved(Seq<char>),
    Outnode(Seq<char>),
    Leader(Seq<char>),
    ValidatorAdded(Seq<char>),
    BlockAdded,
    BlockCreated,
    TransactionRefused(TrxError),
    BlockRefused(BlockError),
    SyncCompleted,
    SyncFailed(SyncError),
    Balance(Amount),
}

impl DeepView for Notice {
    type V = NoticeView;

    open spec fn deep_view(&self) -> NoticeView {
        match self {
            Notice::WrongdoerRemoved(p) => NoticeView::WrongdoerRemoved(p@),
            Notice::LeaderRemoved(p) => NoticeView::LeaderRemoved(p@),
            Notice::Outnode(p) => NoticeView::Outnode(p@),
            Notice::Leader(p) => NoticeView::Leader(p@),
            Notice::ValidatorAdded(p) => NoticeView::ValidatorAdded(p@),
            Notice::BlockAdded => NoticeView::BlockAdded,
            Notice::BlockCreated => NoticeView::BlockCreated,
            Notice::TransactionRefused(e) => NoticeView::TransactionRefused(*e),
            Notice::BlockRefused(e) => NoticeView::BlockRefused(*e),
            Notice::SyncCompleted => NoticeView::SyncCompleted,
            Notice::SyncFailed(e) => NoticeView::SyncFailed(*e),
            Notice::Balance(a) => NoticeView::Balance(*a),
        }
    }
}

impl View for Notice {
    type V = NoticeView;

    open spec fn view(&self) -> NoticeView {
        self.deep_view()
    }
}

/// Something a handler asks the node to do once it returns.
#[derive(Debug, PartialEq, Eq)]
pub enum Action {
    /// Publish on the validators' gossip topic.
    Publish(GossipMessages),
    /// Send to the relay.
    Request(Requests),
    /// Close the connection to a peer.
    Disconnect(PeerId),
    /// Store a block.
    Persist(Block),
    /// Strike the relay at this address off the directory.
    ForgetRelay(String),
    /// Tell the operator.
    Notify(Notice),
}

/// The view of an [`Action`].
pub enum ActionView {
    Publish(GossipView),
    Request(RequestView),
    Disconnect(Seq<char>),
    Persist(BlockView),
    ForgetRelay(Seq<char>),
    Notify(NoticeView),
}

impl DeepView for Action {
    type V = ActionView;

    open spec fn deep_view(&self) -> ActionView {
        match self {
            Action::Publish(m) => ActionView::Publish(m@),
            Action::Request(r) => ActionView::Request(r@),
            Action::Disconnect(p) => ActionView::Disconnect(p@),
            Action::Persist(b) => ActionView::Persist(b@),
            Action::ForgetRelay(a) => ActionView::ForgetRelay(a@),
            Action::Notify(n) => ActionView::Notify(n@),
        }
    }
}

impl View for Action {
    type V = ActionView;

    open spec fn view(&self) -> ActionView {
        self.deep_view()
    }
}

/// Appends the actions of `more` to `actions`.
pub fn append_actions(actions: &mut Vec<Action>, more: Vec<Action>)
    ensures
        final(actions).deep_view() == old(actions).deep_view() + more.deep_view(),
{
    let mut more = more;
    let ghost added = more.deep_view();
    actions.append(&mut more);
    assert(actions.deep_view() =~= old(actions).deep_view() + added);
}

/// Appends one action to `actions`.
pub fn push_action(actions: &mut Vec<Action>, action: Action)
    ensures
        final(actions).deep_view() == old(actions).deep_view().push(action@),
{
    actions.push(action);
    assert(actions.deep_view() =~= old(actions).deep_view().push(action@));
}


/// The word on the local wallet's balance, where there is one to show.
pub open spec fn balance_note(balance: Option<Amount>) -> Seq<ActionView> {
    match balance {
        Some(b) => seq![ActionView::Notify(NoticeView::Balance(b))],
        None => Seq::empty(),
    }
}

/// Appends the word on the local wallet's balance, where there is one to
/// show.
pub fn push_balance(actions: &mut Vec<Action>, balance: Option<Amount>)
    ensures
        final(actions).deep_view() == old(actions).deep_view() + balance_note(balance),
{
    match balance {
        Some(b) => {
            actions.push(Action::Notify(Notice::Balance(b)));
            assert(actions.deep_view() =~= old(actions).deep_view() + balance_note(balance));
        },
        None => {
            assert(actions.deep_view() =~= old(actions).deep_view() + balance_note(balance));
        },
    }
}

} // verus!
