use centichain_validator::amount::Amount;
use centichain_validator::block::{Block, BlockError};
use centichain_validator::gossip::{Action, GossipMessages, Notice, Requests};
use centichain_validator::handshaking::{FirstChecker, Handshake, Snapshot, SyncError};
use centichain_validator::identity::{wallet_of_phrase, PeerId, Public};
use centichain_validator::leader::{Leader, LeaderTime};
use centichain_validator::message::BlockMessage;
use centichain_validator::moment::Moment;
use centichain_validator::node::Node;
use centichain_validator::response::Responses;
use centichain_validator::reward::Reward;
use centichain_validator::syncing::VSync;
use centichain_validator::transaction::{Transaction, TrxError};
use centichain_validator::transactions::Transactions;
use centichain_validator::trun_sync::{Sync, Turn};
use centichain_validator::utxo::{Ledger, LedgerError, Person, UTXO};
use centichain_validator::validator::{Relay, Validator};

const ALICE: &str = "bottom drive obey lake curtain smoke basket hold race lonely fit walk";
const BOB: &str = "legal winner thank year wave sausage worth useful legal winner thank yellow";
const CAROL: &str =
    "abandon abandon abandon abandon abandon abandon abandon abandon abandon abandon abandon about";
const DATE: &str = "2024-01-01 00:00:00 UTC";

fn wallet(phrase: &str) -> Public {
    wallet_of_phrase(&phrase.to_string()).unwrap()
}

fn peer(name: &str) -> PeerId {
    PeerId::new(name.to_string())
}

fn amount(mantissa: i128, scale: u32) -> Amount {
    Amount::new(mantissa, scale).unwrap()
}

fn relay() -> Relay {
    Relay::new(Some(peer("relay")), Some(Public { bytes: [9u8; 32] }), "addr".to_string())
}

fn validator(name: &str, waiting: u64) -> Validator {
    Validator { peerid: peer(name), relay: peer("relay"), wallet: Public { bytes: [1u8; 32] }, waiting }
}

fn utxo(hash: &str, value: Amount) -> UTXO {
    UTXO {
        block: 0,
        trx_hash: "trx".to_string(),
        output_hash: "out".to_string(),
        unspent_hash: hash.to_string(),
        unspent: value,
    }
}

fn start_ledger(count: usize) -> Ledger {
    let utxos = (0..count).map(|i| utxo(&format!("h{}", i), amount(10, 0))).collect();
    Ledger { people: vec![Person::new(wallet(ALICE), utxos)] }
}

fn payment(index: usize) -> Transaction {
    Transaction::new(
        &wallet(ALICE),
        &ALICE.to_string(),
        amount(6, 0),
        &wallet(BOB),
        vec![utxo(&format!("h{}", index), amount(10, 0))],
        amount(1, 0),
        (2 * index as u32, 2 * index as u32 + 1),
        DATE.to_string(),
    )
    .unwrap()
}

fn moment() -> Moment {
    Moment::new(1000, DATE.to_string(), (1, 2, 3), 0)
}

fn node(name: &str, phrase: &str) -> Node {
    let mut n = Node::new(peer(name), wallet(phrase), phrase.to_string(), relay());
    n.ledger = start_ledger(60);
    n.sync_state.synced();
    n
}

fn copy(n: &Node) -> Node {
    Node {
        peerid: n.peerid.clone(),
        wallet: n.wallet,
        private: n.private.clone(),
        ledger: n.ledger.clone(),
        validators: n.validators.clone(),
        mempool: n.mempool.clone(),
        last_block: n.last_block.clone(),
        turn: n.turn,
        leader: n.leader.clone(),
        sync_state: n.sync_state,
        recieved_blocks: n.recieved_blocks.clone(),
        relay: n.relay.clone(),
    }
}

fn made_by(maker: &mut Node, transactions: Vec<Transaction>, salts: (u32, u32, u32)) -> BlockMessage {
    for t in &transactions {
        assert_eq!(t.validate(&mut maker.ledger), Ok(()));
    }
    BlockMessage::new(maker, transactions, &Moment::new(1000, DATE.to_string(), salts, 0)).unwrap()
}

fn gossip(n: &mut Node, message: GossipMessages, source: &str) -> Vec<Action> {
    GossipMessages::handle(Some(message), &peer(source), n, &moment())
}

#[test]
fn a_fresh_node_holds_nothing() {
    let n = Node::new(peer("me"), wallet(BOB), BOB.to_string(), relay());
    assert_eq!(n.ledger, Ledger::new());
    assert!(n.validators.is_empty());
    assert!(n.mempool.is_empty());
    assert_eq!(n.last_block, None);
    assert_eq!(n.turn, Turn::new());
    assert_eq!(n.leader, Leader::new(None));
    assert_eq!(n.sync_state, Sync::NotSynced);
    assert!(n.recieved_blocks.is_empty());
    assert_eq!(n.relay, relay());
}

#[test]
fn malformed_payloads_are_dropped() {
    let mut n = node("me", BOB);
    let before = copy(&n);
    assert!(GossipMessages::handle(None, &peer("anyone"), &mut n, &moment()).is_empty());
    assert_eq!(n, before);
}

#[test]
fn invalid_transaction_from_a_peer_evicts_the_peer() {
    let mut n = node("me", BOB);
    n.validators = vec![validator("bad", 1), validator("good", 2)];
    n.mempool = vec![payment(0)];
    let before = copy(&n);
    let missing = payment(99);
    let actions = gossip(&mut n, GossipMessages::Transaction(missing), "bad");
    assert_eq!(actions, vec![Action::Notify(Notice::WrongdoerRemoved(peer("bad")))]);
    assert_eq!(n.validators, vec![validator("good", 2)]);
    assert_eq!(n.mempool, before.mempool);
    assert_eq!(n.ledger, before.ledger);
    assert_eq!(n.leader, before.leader);
    assert_eq!(n.turn, before.turn);
}

#[test]
fn invalid_transaction_from_the_relay_costs_the_connection() {
    let mut n = node("me", BOB);
    n.validators = vec![validator("relay", 1), validator("good", 2)];
    let before = copy(&n);
    let mut forged = payment(0);
    forged.hash = "00".to_string();
    let actions = Transactions::handle(&mut n, forged, &peer("relay"), &moment());
    assert_eq!(
        actions,
        vec![
            Action::Notify(Notice::TransactionRefused(TrxError::TransactionHash)),
            Action::Disconnect(peer("relay")),
        ]
    );
    assert_eq!(n, before);
}

#[test]
fn the_first_pending_transaction_waits() {
    let mut n = node("me", BOB);
    let t = payment(0);
    let actions = gossip(&mut n, GossipMessages::Transaction(t.clone()), "peer");
    assert!(actions.is_empty());
    assert_eq!(n.mempool, vec![t]);
    assert_eq!(n.ledger.people[0].utxos.len(), 59);
    assert_eq!(n.leader, Leader::new(None));
}

#[test]
fn own_transactions_report_the_balance() {
    let mut n = node("me", ALICE);
    let actions = gossip(&mut n, GossipMessages::Transaction(payment(0)), "peer");
    assert_eq!(actions, vec![Action::Notify(Notice::Balance(amount(590, 0)))]);
}

#[test]
fn the_second_pending_transaction_starts_the_timer() {
    let mut n = node("me", BOB);
    n.leader = Leader::new(Some(peer("leader")));
    gossip(&mut n, GossipMessages::Transaction(payment(0)), "peer");
    let actions = gossip(&mut n, GossipMessages::Transaction(payment(1)), "peer");
    assert!(actions.is_empty());
    assert_eq!(n.mempool.len(), 2);
    assert_eq!(n.leader.timer, LeaderTime::On);
    assert_eq!(n.leader.time, Some(1059));
    assert_eq!(n.leader.peerid, Some(peer("leader")));

    let quiet = GossipMessages::handle(
        Some(GossipMessages::Transaction(payment(2))),
        &peer("peer"),
        &mut n,
        &Moment::new(1059, DATE.to_string(), (1, 2, 3), 0),
    );
    assert!(quiet.is_empty());
    assert_eq!(n.mempool.len(), 3);
    assert!(!n.leader.in_check);
    assert_eq!(n.leader.time, Some(1059));
}

#[test]
fn an_overdue_leader_is_voted_out() {
    let mut n = node("me", BOB);
    n.validators = vec![validator("leader", 3), validator("next", 0)];
    n.leader = Leader::new(Some(peer("leader")));
    gossip(&mut n, GossipMessages::Transaction(payment(0)), "peer");
    gossip(&mut n, GossipMessages::Transaction(payment(1)), "peer");
    let actions = GossipMessages::handle(
        Some(GossipMessages::Transaction(payment(2))),
        &peer("peer"),
        &mut n,
        &Moment::new(1060, DATE.to_string(), (1, 2, 3), 0),
    );
    assert_eq!(
        actions,
        vec![
            Action::Notify(Notice::LeaderRemoved(peer("leader"))),
            Action::Publish(GossipMessages::LeaderVote(peer("next"))),
            Action::Notify(Notice::Leader(peer("next"))),
        ]
    );
    assert!(n.leader.in_check);
    assert_eq!(n.validators, vec![validator("next", 0)]);
    assert_eq!(n.mempool.len(), 3);

    let during = gossip(&mut n, GossipMessages::Transaction(payment(3)), "peer");
    assert!(during.is_empty());
    assert_eq!(n.mempool.len(), 4);
}

#[test]
fn a_node_in_turn_proposes() {
    let mut n = node("me", BOB);
    n.validators = vec![validator("other", 0), validator("third", 5)];
    n.turn.on();
    gossip(&mut n, GossipMessages::Transaction(payment(0)), "peer");
    let actions = gossip(&mut n, GossipMessages::Transaction(payment(1)), "peer");
    let block = n.last_block.clone().unwrap();
    assert_eq!(block.header.number, 1);
    assert_eq!(block.header.validator, peer("me"));
    assert_eq!(block.header.relay, peer("relay"));
    assert_eq!(block.body.transactions, vec![payment(0), payment(1)]);
    let message = BlockMessage { block: block.clone(), next_leader: peer("other") };
    let balance = n.ledger.balance(&wallet(BOB)).unwrap();
    assert_eq!(
        actions,
        vec![
            Action::Notify(Notice::BlockCreated),
            Action::Request(Requests::BlockMessage(message.clone())),
            Action::Persist(block),
            Action::Notify(Notice::Balance(balance)),
        ]
    );
    assert!(n.mempool.is_empty());
    assert_eq!(n.turn, Turn { shift: false, waiting: 2 });
    assert_eq!(n.leader, Leader::new(Some(peer("other"))));
    assert_eq!(n.validators, vec![validator("other", 0), validator("third", 4)]);
    assert!(n.ledger.balance(&wallet(BOB)).unwrap().equals(&amount(
        12 + 50 + 2,
        0
    )
    .checked_sub(&amount(2, 1))
    .unwrap()));
}

#[test]
fn a_block_takes_at_most_fifty_one_transactions() {
    let mut n = node("me", BOB);
    n.turn.on();
    for i in 0..53 {
        let t = payment(i);
        assert_eq!(t.validate(&mut n.ledger), Ok(()));
        n.mempool.push(t);
    }
    let actions = Transactions::propose(&mut n, &moment());
    assert_eq!(actions.len(), 3);
    assert_eq!(actions[0], Action::Notify(Notice::BlockCreated));
    let block = n.last_block.clone().unwrap();
    assert_eq!(block.body.transactions.len(), 51);
    assert_eq!(block.body.transactions[0], payment(0));
    assert_eq!(block.body.transactions[50], payment(50));
    assert_eq!(block.body.coinbase.size, 52);
    assert_eq!(n.mempool, vec![payment(51), payment(52)]);
    assert_eq!(n.leader, Leader::new(Some(peer("me"))));
    assert_eq!(n.turn, Turn { shift: true, waiting: 0 });
}

#[test]
fn a_failed_proposal_keeps_the_pool() {
    let mut n = node("me", BOB);
    n.private = "not a phrase".to_string();
    n.turn.on();
    gossip(&mut n, GossipMessages::Transaction(payment(0)), "peer");
    let before = copy(&n);
    let t = payment(1);
    let actions = gossip(&mut n, GossipMessages::Transaction(t.clone()), "peer");
    assert_eq!(actions, vec![Action::Notify(Notice::BlockRefused(BlockError::Signing))]);
    assert_eq!(n.mempool, vec![payment(0), t]);
    assert_eq!(n.last_block, None);
    assert_eq!(n.turn, before.turn);
    assert_eq!(n.leader, before.leader);
    assert_eq!(n.ledger.people.len(), 1);
    assert_eq!(n.ledger.people[0].utxos.len(), 58);
}

#[test]
fn own_blocks_are_echoes() {
    let mut maker = node("maker", CAROL);
    let message = made_by(&mut maker, Vec::new(), (1, 2, 3));
    let mut n = node("me", CAROL);
    let before = copy(&n);
    assert!(gossip(&mut n, GossipMessages::BlockMessage(message), "peer").is_empty());
    assert_eq!(n, before);
}

#[test]
fn an_unsynced_node_buffers_blocks() {
    let mut maker = node("maker", CAROL);
    let first = made_by(&mut maker, Vec::new(), (1, 2, 3));
    let second = made_by(&mut maker, Vec::new(), (4, 5, 6));
    let mut n = node("me", BOB);
    n.sync_state = Sync::NotSynced;
    n.leader = Leader::new(Some(peer("someone else")));
    assert!(gossip(&mut n, GossipMessages::BlockMessage(first.clone()), "peer").is_empty());
    assert!(second.clone().handle(&mut n, &peer("peer")).is_empty());
    assert_eq!(n.recieved_blocks, vec![first, second]);
    assert_eq!(n.last_block, None);
    assert_eq!(n.ledger, start_ledger(60));
}

#[test]
fn a_block_from_another_than_the_leader_evicts_its_maker() {
    let mut maker = node("maker", CAROL);
    let message = made_by(&mut maker, Vec::new(), (1, 2, 3));
    let mut n = node("me", BOB);
    n.validators = vec![validator("maker", 0), validator("leader", 1)];
    n.leader = Leader::new(Some(peer("leader")));
    let actions = gossip(&mut n, GossipMessages::BlockMessage(message), "peer");
    assert_eq!(actions, vec![Action::Notify(Notice::WrongdoerRemoved(peer("maker")))]);
    assert_eq!(n.validators, vec![validator("leader", 1)]);
    assert_eq!(n.last_block, None);
    assert_eq!(n.ledger, start_ledger(60));
}

#[test]
fn an_accepted_block_installs_the_next_leader() {
    let mut maker = node("maker", CAROL);
    maker.validators = vec![validator("other", 0)];
    let message = made_by(&mut maker, Vec::new(), (1, 2, 3));
    assert_eq!(message.next_leader, peer("other"));
    let mut n = node("me", BOB);
    n.validators = vec![validator("maker", 0), validator("other", 1)];
    n.leader = Leader::new(Some(peer("maker")));
    n.leader.timer_start(5);
    n.turn = Turn { shift: false, waiting: 2 };
    let actions = gossip(&mut n, GossipMessages::BlockMessage(message.clone()), "relay");
    assert_eq!(
        actions,
        vec![
            Action::Notify(Notice::BlockAdded),
            Action::Persist(message.block.clone()),
            Action::Notify(Notice::Leader(peer("other"))),
        ]
    );
    assert_eq!(n.last_block, Some(message.block.clone()));
    assert_eq!(n.leader, Leader::new(Some(peer("other"))));
    assert_eq!(n.validators, vec![validator("maker", 2), validator("other", 0)]);
    assert_eq!(n.turn, Turn { shift: false, waiting: 1 });
    assert_eq!(n.ledger, maker.ledger);
}

#[test]
fn an_accepted_block_may_give_the_node_its_turn() {
    let mut maker = node("maker", CAROL);
    maker.validators = vec![validator("me", 0)];
    let message = made_by(&mut maker, Vec::new(), (1, 2, 3));
    assert_eq!(message.next_leader, peer("me"));
    let mut n = node("me", BOB);
    n.turn = Turn { shift: false, waiting: 4 };
    let actions = gossip(&mut n, GossipMessages::BlockMessage(message.clone()), "peer");
    assert_eq!(
        actions,
        vec![Action::Notify(Notice::BlockAdded), Action::Persist(message.block.clone())]
    );
    assert_eq!(n.leader, Leader::new(None));
    assert_eq!(n.turn, Turn { shift: true, waiting: 0 });
    assert_eq!(n.last_block, Some(message.block));
}

#[test]
fn a_refused_block_from_the_relay_costs_the_connection() {
    let mut maker = node("maker", CAROL);
    made_by(&mut maker, Vec::new(), (1, 2, 3));
    let second = made_by(&mut maker, Vec::new(), (4, 5, 6));
    let mut n = node("me", BOB);
    n.validators = vec![validator("maker", 0)];
    let before = copy(&n);
    let actions = gossip(&mut n, GossipMessages::BlockMessage(second), "relay");
    assert_eq!(
        actions,
        vec![
            Action::Notify(Notice::BlockRefused(BlockError::ChainMismatch)),
            Action::Disconnect(peer("relay")),
        ]
    );
    assert_eq!(n, before);
}

#[test]
fn a_refused_block_from_a_peer_starts_a_revote() {
    let mut maker = node("maker", CAROL);
    made_by(&mut maker, Vec::new(), (1, 2, 3));
    let second = made_by(&mut maker, Vec::new(), (4, 5, 6));
    let mut n = node("me", BOB);
    n.validators = vec![validator("maker", 0), validator("next", 0)];
    n.leader = Leader::new(Some(peer("maker")));
    let t = payment(0);
    n.mempool = vec![t.clone()];
    let actions = gossip(&mut n, GossipMessages::BlockMessage(second), "peer");
    assert_eq!(
        actions,
        vec![
            Action::Notify(Notice::BlockRefused(BlockError::ChainMismatch)),
            Action::Notify(Notice::LeaderRemoved(peer("maker"))),
            Action::Publish(GossipMessages::LeaderVote(peer("next"))),
            Action::Notify(Notice::Leader(peer("next"))),
        ]
    );
    assert!(n.leader.in_check);
    assert_eq!(n.validators, vec![validator("next", 0)]);
    assert_eq!(n.ledger, start_ledger(60));
    assert_eq!(n.mempool, vec![t]);
    assert_eq!(n.last_block, None);
}

#[test]
fn sync_announcements_register_validators() {
    let mut n = node("me", BOB);
    n.validators = vec![validator("a", 0)];
    let announcement = VSync::new(&peer("relay2"), &peer("new"), "I'm Synced".to_string(), &wallet(CAROL));
    assert_eq!(announcement.relay, peer("relay2"));
    assert_eq!(announcement.msg, "I'm Synced");
    let actions = gossip(&mut n, GossipMessages::SyncMessage(announcement.clone()), "peer");
    assert_eq!(actions, vec![Action::Notify(Notice::ValidatorAdded(peer("new")))]);
    assert_eq!(
        n.validators,
        vec![
            validator("a", 0),
            Validator { peerid: peer("new"), relay: peer("relay2"), wallet: wallet(CAROL), waiting: 1 },
        ]
    );
    let again = gossip(&mut n, GossipMessages::SyncMessage(announcement.clone()), "peer");
    assert!(again.is_empty());
    assert_eq!(n.validators.len(), 2);

    let mut unsynced = node("me", BOB);
    unsynced.sync_state = Sync::NotSynced;
    assert!(gossip(&mut unsynced, GossipMessages::SyncMessage(announcement.clone()), "peer").is_empty());
    assert!(unsynced.validators.is_empty());
    assert_eq!(
        announcement.propagate(),
        vec![Action::Publish(GossipMessages::SyncMessage(announcement.clone()))]
    );
}

#[test]
fn votes_count_only_during_a_revote_on_a_synced_node() {
    let mut n = node("me", BOB);
    n.validators = vec![validator("a", 0), validator("b", 0), validator("c", 0)];
    let before = copy(&n);
    assert!(gossip(&mut n, GossipMessages::LeaderVote(peer("a")), "peer").is_empty());
    assert_eq!(n, before);

    n.leader.check_start();
    n.sync_state = Sync::NotSynced;
    assert!(gossip(&mut n, GossipMessages::LeaderVote(peer("a")), "peer").is_empty());
    assert!(n.leader.votes.is_empty());

    n.sync_state = Sync::Synced;
    assert!(gossip(&mut n, GossipMessages::LeaderVote(peer("a")), "peer").is_empty());
    assert_eq!(n.leader.votes, vec![peer("a")]);
    assert_eq!(n.leader.peerid, None);
    let actions = gossip(&mut n, GossipMessages::LeaderVote(peer("a")), "peer");
    assert_eq!(actions, vec![Action::Notify(Notice::Leader(peer("a")))]);
    assert_eq!(n.leader.peerid, Some(peer("a")));
    assert_eq!(n.leader.time, Some(1059));
    assert!(!n.leader.in_check);
}

#[test]
fn a_leaving_leader_starts_a_revote_and_a_leaving_peer_is_evicted() {
    let mut n = node("me", BOB);
    n.validators = vec![validator("leader", 2), validator("a", 0), validator("b", 1)];
    n.leader = Leader::new(Some(peer("leader")));
    let evicted = gossip(&mut n, GossipMessages::Outnode(peer("b")), "relay");
    assert_eq!(evicted, vec![Action::Notify(Notice::Outnode(peer("b")))]);
    assert_eq!(n.validators, vec![validator("leader", 2), validator("a", 0)]);
    assert!(!n.leader.in_check);

    let revote = gossip(&mut n, GossipMessages::Outnode(peer("leader")), "relay");
    assert_eq!(
        revote,
        vec![
            Action::Notify(Notice::LeaderRemoved(peer("leader"))),
            Action::Publish(GossipMessages::LeaderVote(peer("a"))),
            Action::Notify(Notice::Leader(peer("a"))),
        ]
    );
    assert!(n.leader.in_check);
    assert_eq!(n.validators, vec![validator("a", 0)]);

    let own = gossip(&mut n, GossipMessages::Outnode(peer("me")), "relay");
    assert_eq!(own, vec![Action::Notify(Notice::Outnode(peer("me")))]);
    assert_eq!(n.validators, vec![validator("a", 0)]);
}

#[test]
fn checking_the_turn_after_the_bootstrap() {
    let mut alone = node("me", BOB);
    alone.leader = Leader::new(Some(peer("old")));
    assert!(VSync::checking_turn(&mut alone, &moment()).is_empty());
    assert_eq!(alone.turn, Turn { shift: true, waiting: 0 });
    assert_eq!(alone.leader, Leader::new(None));

    let mut crowded = node("me", BOB);
    crowded.validators = vec![validator("a", 0), validator("b", 0), validator("c", 0)];
    crowded.turn.on();
    assert!(VSync::checking_turn(&mut crowded, &moment()).is_empty());
    assert_eq!(crowded.turn, Turn { shift: false, waiting: 3 });

    let mut busy = node("me", BOB);
    for i in 0..2 {
        let t = payment(i);
        assert_eq!(t.validate(&mut busy.ledger), Ok(()));
        busy.mempool.push(t);
    }
    let actions = VSync::checking_turn(&mut busy, &moment());
    assert_eq!(actions.len(), 4);
    assert_eq!(actions[3], Action::Notify(Notice::Balance(busy.ledger.balance(&wallet(BOB)).unwrap())));
    let mut quiet = node("me", BOB);
    for i in 0..2 {
        let t = payment(i);
        assert_eq!(t.validate(&mut quiet.ledger), Ok(()));
        quiet.mempool.push(t);
    }
    assert_eq!(VSync::settle_turn(&mut quiet, &moment()).len(), 3);
    assert_eq!(quiet, busy);
    assert!(busy.mempool.is_empty());
    assert_eq!(busy.last_block.clone().unwrap().body.transactions.len(), 2);
    assert_eq!(busy.turn, Turn { shift: true, waiting: 0 });
}

fn empty_snapshot() -> Snapshot {
    Snapshot { ledger: Ledger::new(), validators: Vec::new(), transactions: Vec::new(), blocks: Vec::new() }
}

#[test]
fn the_handshake_opens_with_a_request() {
    assert_eq!(Handshake::start(), Action::Request(Requests::Handshake("handshake".to_string())));
}

#[test]
fn the_first_node_builds_the_genesis_block() {
    let mut n = Node::new(
        peer("me"),
        wallet(BOB),
        BOB.to_string(),
        Relay::new(Some(peer("relay")), None, "addr".to_string()),
    );
    let answer = Handshake { wallet: Public { bytes: [9u8; 32] }, first_node: FirstChecker::Yes };
    let actions = Responses::handle(&mut n, &answer, empty_snapshot(), &moment()).unwrap();
    let genesis = n.last_block.clone().unwrap();
    assert_eq!(genesis.header.number, 1);
    assert_eq!(genesis.header.previous, "This Is The Genesis Block");
    let outputs = &genesis.body.coinbase.output.unspents;
    assert_eq!(outputs.len(), 2);
    assert!(outputs[0].data.value.equals(&outputs[1].data.value));
    assert!(outputs[0]
        .data
        .value
        .checked_add(&outputs[1].data.value)
        .unwrap()
        .equals(&Reward::at(1)));
    assert_eq!(outputs[0].data.wallet, wallet(BOB));
    assert_eq!(outputs[1].data.wallet, wallet(BOB));
    assert_eq!(n.relay.wallet, Some(Public { bytes: [9u8; 32] }));
    assert_eq!(n.sync_state, Sync::Synced);
    assert_eq!(
        actions,
        vec![
            Action::Notify(Notice::BlockCreated),
            Action::Request(Requests::BlockMessage(BlockMessage {
                block: genesis.clone(),
                next_leader: peer("me"),
            })),
            Action::Persist(genesis.clone()),
            Action::Notify(Notice::Balance(n.ledger.balance(&wallet(BOB)).unwrap())),
            Action::Publish(GossipMessages::SyncMessage(VSync::new(
                &peer("relay"),
                &peer("me"),
                "I'm Synced".to_string(),
                &wallet(BOB),
            ))),
        ]
    );
    assert_eq!(n.turn, Turn { shift: true, waiting: 0 });
    assert_eq!(n.leader, Leader::new(Some(peer("me"))));
    assert!(n.ledger.balance(&wallet(BOB)).unwrap().equals(&amount(50, 0)));

    let before = copy(&n);
    assert!(Responses::handle(&mut n, &answer, empty_snapshot(), &moment()).unwrap().is_empty());
    assert_eq!(n, before);
}

#[test]
fn the_first_node_needs_a_working_phrase_and_a_relay() {
    let mut n = Node::new(peer("me"), wallet(BOB), "no phrase".to_string(), relay());
    let answer = Handshake { wallet: Public { bytes: [8u8; 32] }, first_node: FirstChecker::Yes };
    assert_eq!(
        Responses::handle(&mut n, &answer, empty_snapshot(), &moment()),
        Err(SyncError::Genesis(BlockError::Signing))
    );
    assert_eq!(n.sync_state, Sync::NotSynced);
    assert_eq!(n.last_block, None);
    assert_eq!(n.relay.wallet, Some(Public { bytes: [8u8; 32] }));

    let mut lost = Node::new(
        peer("me"),
        wallet(BOB),
        BOB.to_string(),
        Relay::new(None, None, "addr".to_string()),
    );
    let before = copy(&lost);
    assert_eq!(
        Responses::handle(&mut lost, &answer, empty_snapshot(), &moment()),
        Err(SyncError::NoRelay)
    );
    assert_eq!(lost, before);
}

fn chain_of_three() -> (Node, Vec<BlockMessage>, Snapshot) {
    let mut maker = node("maker", CAROL);
    maker.validators = vec![validator("maker", 0), validator("other", 0)];
    let first = made_by(&mut maker, Vec::new(), (1, 2, 3));
    let snapshot = Snapshot {
        ledger: maker.ledger.clone(),
        validators: maker.validators.clone(),
        transactions: vec![payment(5)],
        blocks: vec![first.block.clone()],
    };
    let second = made_by(&mut maker, vec![payment(0)], (4, 5, 6));
    let third = made_by(&mut maker, Vec::new(), (7, 8, 9));
    (maker, vec![first, second, third], snapshot)
}

#[test]
fn the_snapshot_tip_is_the_block_of_the_greatest_number() {
    let (_, messages, _) = chain_of_three();
    let blocks: Vec<Block> = vec![
        messages[1].block.clone(),
        messages[2].block.clone(),
        messages[0].block.clone(),
    ];
    assert_eq!(Snapshot::tip(&blocks), Some(messages[2].block.clone()));
    assert_eq!(Snapshot::tip(&Vec::new()), None);
    let twice = vec![messages[0].block.clone(), messages[0].block.clone()];
    assert_eq!(Snapshot::tip(&twice), Some(messages[0].block.clone()));
}

#[test]
fn a_joining_node_replays_what_it_buffered() {
    let (maker, messages, snapshot) = chain_of_three();
    let mut n = Node::new(peer("me"), wallet(BOB), BOB.to_string(), relay());
    n.recieved_blocks = vec![messages[1].clone(), messages[2].clone()];
    let answer = Handshake { wallet: Public { bytes: [9u8; 32] }, first_node: FirstChecker::No };
    let actions = Responses::handle(&mut n, &answer, snapshot, &moment()).unwrap();
    assert_eq!(
        actions,
        vec![
            Action::Persist(messages[1].block.clone()),
            Action::Persist(messages[2].block.clone()),
            Action::Notify(Notice::SyncCompleted),
            Action::Notify(Notice::Balance(amount(6, 0))),
            Action::Publish(GossipMessages::SyncMessage(VSync::new(
                &peer("relay"),
                &peer("me"),
                "I'm Synced".to_string(),
                &wallet(BOB),
            ))),
        ]
    );
    assert_eq!(n.sync_state, Sync::Synced);
    assert_eq!(n.last_block, Some(messages[2].block.clone()));
    assert_eq!(n.ledger, maker.ledger);
    assert!(n.recieved_blocks.is_empty());
    assert_eq!(n.mempool, vec![payment(5)]);
    assert_eq!(n.leader, Leader::new(Some(messages[2].next_leader.clone())));
    assert_eq!(n.validators, maker.validators);
}

#[test]
fn a_failed_replay_keeps_nothing_of_it() {
    let (_, messages, snapshot) = chain_of_three();
    let restored_ledger = snapshot.ledger.clone();
    let restored_validators = snapshot.validators.clone();
    let mut broken = messages[2].clone();
    broken.block.header.previous = "elsewhere".to_string();
    let mut n = Node::new(peer("me"), wallet(BOB), BOB.to_string(), relay());
    n.recieved_blocks = vec![messages[1].clone(), broken.clone()];
    let answer = Handshake { wallet: Public { bytes: [9u8; 32] }, first_node: FirstChecker::No };
    assert_eq!(
        Responses::handle(&mut n, &answer, snapshot, &moment()),
        Err(SyncError::Replay(BlockError::ChainMismatch))
    );
    assert_eq!(n.sync_state, Sync::NotSynced);
    assert_eq!(n.last_block, Some(messages[0].block.clone()));
    assert_eq!(n.ledger, restored_ledger);
    assert_eq!(n.validators, restored_validators);
    assert_eq!(n.mempool, vec![payment(5)]);
    assert_eq!(n.recieved_blocks, vec![messages[1].clone(), broken]);
    assert_eq!(n.leader, Leader::new(None));
}

#[test]
fn a_replay_of_nothing_succeeds() {
    let (_, messages, snapshot) = chain_of_three();
    let mut n = Node::new(peer("me"), wallet(BOB), BOB.to_string(), relay());
    let answer = Handshake { wallet: Public { bytes: [9u8; 32] }, first_node: FirstChecker::No };
    let actions = answer.response(&mut n, snapshot, &moment()).unwrap();
    assert_eq!(actions, vec![Action::Notify(Notice::SyncCompleted)]);
    assert_eq!(n.sync_state, Sync::NotSynced);
    assert_eq!(n.last_block, Some(messages[0].block.clone()));
}

#[test]
fn a_missing_input_is_reported_as_such() {
    let mut n = node("me", BOB);
    let before = copy(&n);
    let actions = gossip(&mut n, GossipMessages::Transaction(payment(77)), "relay");
    assert_eq!(
        actions,
        vec![
            Action::Notify(Notice::TransactionRefused(TrxError::Utxo(LedgerError::NotFound))),
            Action::Disconnect(peer("relay")),
        ]
    );
    assert_eq!(n, before);
}

#[test]
fn a_block_that_pays_the_node_tells_the_balance() {
    let mut maker = node("maker", CAROL);
    let message = made_by(&mut maker, vec![payment(0)], (1, 2, 3));
    let mut n = node("me", BOB);
    let actions = gossip(&mut n, GossipMessages::BlockMessage(message.clone()), "peer");
    assert_eq!(
        actions,
        vec![
            Action::Notify(Notice::BlockAdded),
            Action::Persist(message.block.clone()),
            Action::Notify(Notice::Leader(peer("maker"))),
            Action::Notify(Notice::Balance(amount(6, 0))),
        ]
    );
    let mut silent = node("me", BOB);
    let core = message.clone().receive(&mut silent, &peer("peer"));
    assert_eq!(core.len(), 3);
    assert_eq!(silent, n);
    let before = start_ledger(60).holdings_of(&wallet(BOB));
    assert!(before.is_empty());
    assert_eq!(n.ledger.surface(&before, &wallet(BOB)), Some(amount(6, 0)));
    assert_eq!(n.ledger.surface(&n.ledger.holdings_of(&wallet(BOB)), &wallet(BOB)), None);
    assert_eq!(n.ledger.surface(&before, &Public { bytes: [7u8; 32] }), None);
}

#[test]
fn transactions_of_others_tell_no_balance() {
    let mut n = node("me", BOB);
    let mut plain = copy(&n);
    assert!(Transactions::handle(&mut n, payment(0), &peer("peer"), &moment()).is_empty());
    assert!(Transactions::accept(&mut plain, payment(0), &peer("peer"), &moment()).is_empty());
    assert_eq!(n, plain);
}
