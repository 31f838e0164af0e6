//! Laws that relate the operations of the library to one another.

use crate::block::{Block, BlockView};
use crate::handshaking::{latest, Handshake, SnapshotView};
use crate::leader::{count_in, leading, lemma_leading, quorum, winner, Leader, LeaderView};
use crate::node::NodeView;
use crate::search::{first_index, lemma_first_index};
use crate::transaction::{Transaction, TransactionView};
use crate::trun_sync::{Sync, Turn};
use crate::utxo::{unspent_hashes, wallets, Ledger, LedgerError, PersonView};
use crate::validator::ValidatorView;
use crate::waiting::{count_as_wait, Waiting};
use crate::wrongdoer::{lemma_without, WrongDoer};
use vstd::prelude::*;

verus! {

/// An unspent output can be spent once: after a wallet of a well-formed
/// ledger has spent the output of some hash, spending it again fails with
/// `NotFound`.
pub proof fn lemma_spent_once(people: Seq<PersonView>, wallet: Seq<u8>, hash: Seq<char>)
    requires
        Ledger::wf(people),
        Ledger::spec_consume(people, wallet, hash) is Ok,
    ensures
        Ledger::spec_consume(Ledger::spec_consume(people, wallet, hash)->Ok_0, wallet, hash) == Err::<
            Seq<PersonView>,
            LedgerError,
        >(LedgerError::NotFound),
{
    let after = Ledger::spec_consume(people, wallet, hash)->Ok_0;
    let p = first_index(wallets(people), wallet);
    lemma_first_index(wallets(people), wallet);
    let hs = unspent_hashes(people[p].utxos);
    let u = first_index(hs, hash);
    lemma_first_index(hs, hash);
    assert(wallets(after) =~= wallets(people));
    let left = unspent_hashes(after[p].utxos);
    assert(left =~= hs.remove(u));
    assert(hs.no_duplicates());
    assert forall|i: int| 0 <= i < left.len() implies left[i] != hash by {
        let k = if i < u {
            i
        } else {
            i + 1
        };
        assert(left[i] == hs[k]);
        assert(hs[u] == hash);
    }
    assert(!left.contains(hash));
    lemma_first_index(left, hash);
}

/// A transaction is valid exactly when its hashes are those of its
/// contents, its signature verifies, and its inputs are the signer's to
/// spend.
pub proof fn lemma_valid_transaction(t: TransactionView, people: Seq<PersonView>)
    ensures
        Transaction::spec_validate(t, people) is Ok <==> Transaction::contents_hashed(t)
            && Transaction::root_hashed(t) && Transaction::signed(t)
            && Transaction::inputs_available(t, people),
{
}

/// Rotation: once the block of validator `maker` is committed among `n`
/// validators, every entry of `maker` waits `n` rounds, and every other
/// entry waits one round less than before, or none where it waited none.
/// No entry joins or leaves, and none changes its peer.
pub proof fn lemma_rotation(validators: Seq<ValidatorView>, maker: Seq<char>)
    ensures
        Waiting::spec_update(validators, maker).len() == validators.len(),
        forall|i: int|
            0 <= i < validators.len() ==> {
                let before = #[trigger] validators[i];
                let after = Waiting::spec_update(validators, maker)[i];
                &&& after.peerid == before.peerid
                &&& before.peerid == maker ==> after.waiting == count_as_wait(validators.len())
                &&& before.peerid != maker && before.waiting > 0 ==> after.waiting == before.waiting
                    - 1
                &&& before.peerid != maker && before.waiting == 0 ==> after.waiting == 0
            },
{
}

/// Rotation keeps every wait within the count of validators: where no
/// entry waits longer than there are validators, none does after a block
/// is committed.
pub proof fn lemma_rotation_bounded(validators: Seq<ValidatorView>, maker: Seq<char>)
    requires
        validators.len() <= u64::MAX,
        forall|i: int| 0 <= i < validators.len() ==> (#[trigger] validators[i]).waiting <= validators.len(),
    ensures
        forall|i: int|
            0 <= i < validators.len() ==> (#[trigger] Waiting::spec_update(validators, maker)[i]).waiting
                <= validators.len(),
{
    assert forall|i: int| 0 <= i < validators.len() implies (#[trigger] Waiting::spec_update(
        validators,
        maker,
    )[i]).waiting <= validators.len() by {
        assert(validators[i].waiting <= validators.len());
    }
}

/// The winner of a tally is one of its candidates, no candidate has more
/// votes, and no candidate with as many was voted for earlier.
pub proof fn lemma_winner(votes: Seq<Seq<char>>)
    requires
        votes.len() >= 1,
    ensures
        votes.contains(winner(votes)),
        forall|j: int|
            0 <= j < votes.len() ==> count_in(votes, #[trigger] votes[j]) <= count_in(
                votes,
                winner(votes),
            ),
        forall|j: int|
            0 <= j < leading(votes, votes.len()) ==> count_in(votes, #[trigger] votes[j]) < count_in(
                votes,
                winner(votes),
            ),
{
    lemma_leading(votes, votes.len());
}

/// Quorum: a vote that leaves the tally below more than half of the
/// validators changes nothing but the tally: the leader, the timer and
/// the node's turn stay, the revote goes on, and nothing is announced.
pub proof fn lemma_below_quorum(
    l: LeaderView,
    count: nat,
    vote: Seq<char>,
    local: Seq<char>,
    turn: Turn,
    now: i64,
)
    requires
        l.votes.len() + 1 < quorum(count),
    ensures
        Leader::spec_check_votes(l, count, vote, local, turn, now).leader == (LeaderView {
            votes: l.votes.push(vote),
            ..l
        }),
        Leader::spec_check_votes(l, count, vote, local, turn, now).turn == turn,
        Leader::spec_check_votes(l, count, vote, local, turn, now).actions.len() == 0,
{
}

/// Quorum: a vote that brings the tally to more than half of the
/// validators installs the tally's winner as leader and ends the revote.
pub proof fn lemma_at_quorum(
    l: LeaderView,
    count: nat,
    vote: Seq<char>,
    local: Seq<char>,
    turn: Turn,
    now: i64,
)
    requires
        l.votes.len() + 1 >= quorum(count),
    ensures
        Leader::spec_check_votes(l, count, vote, local, turn, now).leader.peerid == Some(
            winner(l.votes.push(vote)),
        ),
        !Leader::spec_check_votes(l, count, vote, local, turn, now).leader.in_check,
{
}

/// The node never evicts itself, and an eviction touches no entry of
/// another peer: every entry of the registry whose peer is not the
/// evicted one is in the registry afterwards, and so is every entry of
/// the node itself.
pub proof fn lemma_eviction_spares(
    validators: Seq<ValidatorView>,
    peer: Seq<char>,
    local: Seq<char>,
    i: int,
)
    requires
        0 <= i < validators.len(),
        validators[i].peerid != peer || validators[i].peerid == local,
    ensures
        WrongDoer::spec_remove(validators, peer, local).contains(validators[i]),
{
    lemma_without(validators, peer);
    if peer == local {
        assert(validators.contains(validators[i]));
    }
}

/// A block that does not continue the chain tip is refused for that,
/// whatever else it holds.
pub proof fn lemma_chain_mismatch(
    b: BlockView,
    tip: Option<BlockView>,
    people: Seq<PersonView>,
    pool: Seq<TransactionView>,
    validators: Seq<ValidatorView>,
    turn: Turn,
    sync_state: Sync,
)
    requires
        crate::header::expected_previous(tip) != b.header.previous,
    ensures
        Block::spec_validation(b, tip, people, pool, validators, turn, sync_state) == Err::<
            crate::block::Accepted,
            crate::block::BlockError,
        >(crate::block::BlockError::ChainMismatch),
{
    reveal(Block::spec_judge);
}

/// A refused transaction leaves ledger, pool and chain tip as they were,
/// whoever sent it.
pub proof fn lemma_refused_transaction(
    n: NodeView,
    t: TransactionView,
    source: Seq<char>,
    now: i64,
    salts: (u32, u32, u32),
    date: Seq<char>,
    draw: u32,
)
    requires
        Transaction::spec_validate(t, n.ledger) is Err,
    ensures
        crate::transactions::Transactions::spec_handle(n, t, source, now, salts, date, draw).0.ledger
            == n.ledger,
        crate::transactions::Transactions::spec_handle(n, t, source, now, salts, date, draw).0.mempool
            == n.mempool,
        crate::transactions::Transactions::spec_handle(
            n,
            t,
            source,
            now,
            salts,
            date,
            draw,
        ).0.last_block == n.last_block,
{
}

/// A refused block leaves ledger, pool and chain tip as they were,
/// whoever sent it.
pub proof fn lemma_refused_block(
    n: NodeView,
    m: crate::message::BlockMessageView,
    source: Seq<char>,
)
    requires
        Block::spec_validation(
            m.block,
            n.last_block,
            n.ledger,
            n.mempool,
            n.validators,
            n.turn,
            n.sync_state,
        ) is Err,
    ensures
        crate::message::BlockMessage::spec_handle(n, m, source).0.ledger == n.ledger,
        crate::message::BlockMessage::spec_handle(n, m, source).0.mempool == n.mempool,
        crate::message::BlockMessage::spec_handle(n, m, source).0.last_block == n.last_block,
{
}

/// The sync state is one-way: no event takes a synced node out of sync.
pub proof fn lemma_sync_one_way(
    n: NodeView,
    event: crate::events::EventView,
    now: i64,
    salts: (u32, u32, u32),
    date: Seq<char>,
    draw: u32,
)
    requires
        n.sync_state == Sync::Synced,
    ensures
        crate::events::spec_handle(n, event, now, salts, date, draw).0.sync_state == Sync::Synced,
{
    reveal(crate::gossip::GossipMessages::spec_handle);
    reveal(crate::response::Responses::spec_handle);
    reveal(crate::syncing::VSync::spec_checking_turn);
}

/// The replay is atomic: where a buffered block is refused, the
/// bootstrap of a node that is not first fails, and leaves the node as
/// the snapshot restored it: its chain tip is the snapshot's latest
/// block, and its sync state is untouched.
pub proof fn lemma_replay_atomic(
    h: Handshake,
    n: NodeView,
    s: SnapshotView,
    salts: (u32, u32, u32),
    date: Seq<char>,
    draw: u32,
)
    requires
        h.first_node == crate::handshaking::FirstChecker::No,
        Handshake::spec_response(h, n, s, salts, date, draw).1 is Err,
    ensures
        Handshake::spec_response(h, n, s, salts, date, draw).0.last_block == latest(s.blocks),
        Handshake::spec_response(h, n, s, salts, date, draw).0.sync_state == n.sync_state,
        Handshake::spec_response(h, n, s, salts, date, draw).0.ledger == s.ledger,
        Handshake::spec_response(h, n, s, salts, date, draw).0.recieved_blocks == n.recieved_blocks,
{
}

} // verus!
