//! The node context: everything one validator holds in memory.

use crate::block::{tip_view, Block, BlockView};
use crate::identity::{PeerId, Public};
use crate::leader::{Leader, LeaderView};
use crate::message::{BlockMessage, BlockMessageView};
use crate::transaction::{Transaction, TransactionView};
use crate::trun_sync::{Sync, Turn};
use crate::utxo::{Ledger, PersonView};
use crate::validator::{Relay, RelayView, Validator, ValidatorView};
use vstd::prelude::*;

verus! {

/// The state of a validator node. One event is handled at a time, and
/// every handler takes the node as its single owner.
#[derive(Debug, PartialEq, Eq)]
pub struct Node {
    /// This node's identity on the network.
    pub peerid: PeerId,
    /// The wallet this node validates for.
    pub wallet: Public,
    /// The seed phrase this node signs with.
    pub private: String,
    /// The unspent outputs of every wallet.
    pub ledger: Ledger,
    /// The validator registry.
    pub validators: Vec<Validator>,
    /// The pending pool, oldest first.
    pub mempool: Vec<Transaction>,
    /// The chain tip.
    pub last_block: Option<Block>,
    /// Whether this node may propose.
    pub turn: Turn,
    /// Who leads, and the revote.
    pub leader: Leader,
    /// Whether the node has caught up.
    pub sync_state: Sync,
    /// Block messages received while out of sync, in arrival order.
    pub recieved_blocks: Vec<BlockMessage>,
    /// The relay this node is connected through.
    pub relay: Relay,
}

/// The view of a [`Node`].
pub struct NodeView {
    pub peerid: Seq<char>,
    pub wallet: Seq<u8>,
    pub private: Seq<char>,
    pub ledger: Seq<PersonView>,
    pub validators: Seq<ValidatorView>,
    pub mempool: Seq<TransactionView>,
    pub last_block: Option<BlockView>,
    pub turn: Turn,
    pub leader: LeaderView,
    pub sync_state: Sync,
    pub recieved_blocks: Seq<BlockMessageView>,
    pub relay: RelayView,
}

impl DeepView for Node {
    type V = NodeView;

    open spec fn deep_view(&self) -> NodeView {
        NodeView {
            peerid: self.peerid@,
            wallet: self.wallet@,
            private: self.private@,
            ledger: self.ledger@,
            validators: self.validators.deep_view(),
            mempool: self.mempool.deep_view(),
            last_block: tip_view(self.last_block),
            turn: self.turn,
            leader: self.leader@,
            sync_state: self.sync_state,
            recieved_blocks: self.recieved_blocks.deep_view(),
            relay: self.relay@,
        }
    }
}

impl View for Node {
    type V = NodeView;

    open spec fn view(&self) -> NodeView {
        self.deep_view()
    }
}

impl Node {
    /// What every handler keeps of a node: its ledger is well-formed.
    pub open spec fn wf(n: NodeView) -> bool {
        Ledger::wf(n.ledger)
    }

    /// A node as it starts: an empty ledger, registry, pool and chain, no
    /// turn, no leader, out of sync.
    pub fn new(peerid: PeerId, wallet: Public, private: String, relay: Relay) -> (r: Self)
        ensures
            r@ == (NodeView {
                peerid: peerid@,
                wallet: wallet@,
                private: private@,
                ledger: Seq::empty(),
                validators: Seq::empty(),
                mempool: Seq::empty(),
                last_block: None,
                turn: Turn { shift: false, waiting: 0 },
                leader: Leader::spec_update(None),
                sync_state: Sync::NotSynced,
                recieved_blocks: Seq::empty(),
                relay: relay@,
            }),
            Node::wf(r@),
    {
        let r = Node {
            peerid,
            wallet,
            private,
            ledger: Ledger::new(),
            validators: Vec::new(),
            mempool: Vec::new(),
            last_block: None,
            turn: Turn::new(),
            leader: Leader::new(None),
            sync_state: Sync::new(),
            recieved_blocks: Vec::new(),
            relay,
        };
        assert(r.validators.deep_view() =~= Seq::<ValidatorView>::empty());
        assert(r.mempool.deep_view() =~= Seq::<TransactionView>::empty());
        assert(r.recieved_blocks.deep_view() =~= Seq::<BlockMessageView>::empty());
        r
    }
}

} // verus!
