use centichain_validator::amount::Amount;
use centichain_validator::block::{Block, BlockError, Body};
use centichain_validator::coinbase::{Coinbase, CoinbaseError, FeeSplit};
use centichain_validator::hashing::HashMaker;
use centichain_validator::header::Header;
use centichain_validator::identity::{wallet_of_phrase, PeerId, Public, Sign};
use centichain_validator::merkel::MerkelRoot;
use centichain_validator::reward::Reward;
use centichain_validator::transaction::{Transaction, TrxError, Unspent};
use centichain_validator::trun_sync::{Sync, Turn};
use centichain_validator::utxo::{Ledger, LedgerError, Person, UTXO};
use centichain_validator::validator::{Relay, Validator};

const ALICE: &str = "bottom drive obey lake curtain smoke basket hold race lonely fit walk";
const BOB: &str = "legal winner thank year wave sausage worth useful legal winner thank yellow";
const CAROL: &str =
    "abandon abandon abandon abandon abandon abandon abandon abandon abandon abandon abandon about";
const DATE: &str = "2024-01-01 00:00:00 UTC";

fn wallet(phrase: &str) -> Public {
    wallet_of_phrase(&phrase.to_string()).unwrap()
}

fn peer(name: &str) -> PeerId {
    PeerId::new(name.to_string())
}

fn amount(mantissa: i128, scale: u32) -> Amount {
    Amount::new(mantissa, scale).unwrap()
}

fn relay_wallet() -> Public {
    Public { bytes: [9u8; 32] }
}

fn relay() -> Relay {
    Relay::new(Some(peer("relay")), Some(relay_wallet()), "/ip4/1.2.3.4/tcp/1".to_string())
}

fn utxo(hash: &str, value: Amount) -> UTXO {
    UTXO {
        block: 0,
        trx_hash: "trx".to_string(),
        output_hash: "out".to_string(),
        unspent_hash: hash.to_string(),
        unspent: value,
    }
}

fn start_ledger() -> Ledger {
    Ledger {
        people: vec![Person::new(
            wallet(ALICE),
            vec![utxo("h1", amount(10, 0)), utxo("h2", amount(20, 0)), utxo("h3", amount(30, 0))],
        )],
    }
}

fn payment(input: &str, input_value: i128, value: i128, fee: Amount, salts: (u32, u32)) -> Transaction {
    Transaction::new(
        &wallet(ALICE),
        &ALICE.to_string(),
        amount(value, 0),
        &wallet(BOB),
        vec![utxo(input, amount(input_value, 0))],
        fee,
        salts,
        DATE.to_string(),
    )
    .unwrap()
}

fn registry() -> Vec<Validator> {
    vec![
        Validator { peerid: peer("maker"), relay: peer("relay"), wallet: wallet(CAROL), waiting: 0 },
        Validator { peerid: peer("other"), relay: peer("relay"), wallet: wallet(BOB), waiting: 1 },
    ]
}

struct Chain {
    ledger: Ledger,
    validators: Vec<Validator>,
    tip: Option<Block>,
    turn: Turn,
}

fn fresh() -> Chain {
    Chain { ledger: start_ledger(), validators: registry(), tip: None, turn: Turn::new() }
}

fn build(chain: &mut Chain, transactions: Vec<Transaction>, salts: (u32, u32, u32)) -> Result<Block, BlockError> {
    Block::new(
        &mut chain.ledger,
        &mut chain.validators,
        transactions,
        &wallet(CAROL),
        &peer("maker"),
        &CAROL.to_string(),
        &mut chain.tip,
        &relay(),
        &mut chain.turn,
        &Sync::Synced,
        salts,
        DATE.to_string(),
    )
}

fn accept(chain: &mut Chain, pool: &mut Vec<Transaction>, block: &Block) -> Result<Block, BlockError> {
    block.validation(
        &mut chain.tip,
        &mut chain.ledger,
        &mut chain.validators,
        pool,
        &mut chain.turn,
        &Sync::Synced,
    )
}

fn resign(block: &mut Block) {
    block.header.hash = block.body.hash();
    block.header.signature =
        Sign::make(&CAROL.to_string(), &block.header.hash, &wallet(CAROL)).unwrap();
}

#[test]
fn genesis_coinbase_splits_the_reward_in_two() {
    let c = Coinbase::new(&Vec::new(), &wallet(CAROL), &None, &relay(), (1, 2, 3)).unwrap();
    assert_eq!(c.size, 1);
    assert_eq!(c.merkel, "First");
    assert_eq!(c.reward, Reward::at(1));
    assert_eq!(c.fees, Amount { mantissa: 0, scale: 0 });
    assert!(c.relay_fee.equals(&amount(0, 0)));
    assert!(c.validator_fee.equals(&amount(0, 0)));
    assert_eq!(c.output.unspents.len(), 2);
    let first = c.output.unspents[0].data;
    let second = c.output.unspents[1].data;
    assert_eq!(first.wallet, wallet(CAROL));
    assert_eq!(second.wallet, wallet(CAROL));
    assert_eq!(first.salt, 1);
    assert_eq!(second.salt, 2);
    assert!(first.value.equals(&amount(25, 0)));
    assert!(first.value.equals(&second.value));
    assert!(first.value.checked_add(&second.value).unwrap().equals(&Reward::at(1)));
    assert_eq!(c.hash, HashMaker::generate(&c.output.hash));
    assert_eq!(c.output.number, 2);
}

#[test]
fn coinbase_with_fees_pays_three_outputs() {
    let t1 = payment("h1", 10, 6, amount(1, 0), (1, 2));
    let t2 = payment("h2", 20, 6, amount(5, 1), (3, 4));
    let transactions = vec![t1.clone(), t2.clone()];
    let c = Coinbase::new(&transactions, &wallet(CAROL), &None, &relay(), (7, 8, 9)).unwrap();
    assert_eq!(c.size, 3);
    assert_eq!(c.merkel, MerkelRoot::pair(&t1.hash, &t2.hash));
    assert!(c.fees.equals(&amount(15, 1)));
    assert!(c.relay_fee.equals(&amount(15, 2)));
    assert!(c.validator_fee.equals(&amount(135, 2)));
    assert_eq!(
        c.output.unspents,
        vec![
            Unspent::new(&wallet(CAROL), c.reward, 7),
            Unspent::new(&relay_wallet(), c.relay_fee, 8),
            Unspent::new(&wallet(CAROL), c.validator_fee, 9),
        ]
    );
    let split = Coinbase::split(&transactions).unwrap();
    assert_eq!(split.fees, c.fees);
    assert_eq!(split.relay_fee, c.relay_fee);
    assert_eq!(split.validator_fee, c.validator_fee);
    assert_eq!(c.validation(&None, &transactions), Ok(()));
}

#[test]
fn relay_fee_is_rounded_to_twelve_places() {
    let t = payment("h1", 10, 6, amount(1_234_567_890_123, 12), (1, 2));
    let split = Coinbase::split(&vec![t]).unwrap();
    assert_eq!(split.fees, amount(1_234_567_890_123, 12));
    assert_eq!(split.relay_fee, amount(123_456_789_012, 12));
    assert!(split.validator_fee.equals(&amount(1_111_111_101_111, 12)));
}

#[test]
fn coinbase_needs_the_relay_wallet_for_fees() {
    let t1 = payment("h1", 10, 6, amount(1, 0), (1, 2));
    let blind = Relay::new(Some(peer("relay")), None, "a".to_string());
    assert_eq!(
        Coinbase::new(&vec![t1], &wallet(CAROL), &None, &blind, (7, 8, 9)),
        Err(CoinbaseError::RelayWallet)
    );
    assert!(Coinbase::new(&Vec::new(), &wallet(CAROL), &None, &blind, (7, 8, 9)).is_ok());
}

#[test]
fn coinbase_amount_overflow() {
    let max = amount((1i128 << 96) - 1, 0);
    let mut t1 = payment("h1", 10, 6, amount(1, 0), (1, 2));
    let mut t2 = payment("h2", 20, 6, amount(1, 0), (3, 4));
    t1.fee = max;
    t2.fee = max;
    let transactions = vec![t1, t2];
    assert_eq!(
        Coinbase::new(&transactions, &wallet(CAROL), &None, &relay(), (7, 8, 9)),
        Err(CoinbaseError::Amount)
    );
    assert!(Coinbase::split(&transactions).is_none());
    let c = Coinbase::new(&Vec::new(), &wallet(CAROL), &None, &relay(), (7, 8, 9)).unwrap();
    assert_eq!(c.validation(&None, &transactions).err(), Some(CoinbaseError::Merkel));
}

#[test]
fn coinbase_validation_names_the_first_failure() {
    let t1 = payment("h1", 10, 6, amount(1, 0), (1, 2));
    let transactions = vec![t1.clone()];
    let good = Coinbase::new(&transactions, &wallet(CAROL), &None, &relay(), (7, 8, 9)).unwrap();
    assert_eq!(good.validation(&None, &transactions), Ok(()));

    let mut reward = good.clone();
    reward.reward = amount(51, 0);
    assert_eq!(reward.validation(&None, &transactions), Err(CoinbaseError::Reward));

    let mut same_reward = good.clone();
    same_reward.reward = amount(50, 0);
    assert_eq!(same_reward.validation(&None, &transactions), Ok(()));

    let mut merkel = good.clone();
    merkel.merkel = "First".to_string();
    assert_eq!(merkel.validation(&None, &transactions), Err(CoinbaseError::Merkel));
    assert_eq!(good.validation(&None, &Vec::new()), Err(CoinbaseError::Merkel));

    let mut fees = good.clone();
    fees.fees = amount(2, 0);
    assert_eq!(fees.validation(&None, &transactions), Err(CoinbaseError::Fees));
    let mut relay_fee = good.clone();
    relay_fee.relay_fee = amount(2, 1);
    assert_eq!(relay_fee.validation(&None, &transactions), Err(CoinbaseError::Fees));
    let mut validator_fee = good.clone();
    validator_fee.validator_fee = amount(1, 0);
    assert_eq!(validator_fee.validation(&None, &transactions), Err(CoinbaseError::Fees));

    let mut unpaid = good.clone();
    unpaid.output.unspents.remove(1);
    assert_eq!(unpaid.validation(&None, &transactions), Err(CoinbaseError::RelayFee));
    assert!(Coinbase::has_payment(&good.output.unspents, &amount(10, 2)));
    assert!(!Coinbase::has_payment(&unpaid.output.unspents, &amount(10, 2)));
}

#[test]
fn header_of_the_first_block() {
    let coinbase = Coinbase::new(&Vec::new(), &wallet(CAROL), &None, &relay(), (1, 2, 3)).unwrap();
    let body = Body::new(coinbase, Vec::new());
    let header = Header::new(
        &wallet(CAROL),
        &body,
        &peer("maker"),
        &peer("relay"),
        &CAROL.to_string(),
        &None,
        DATE.to_string(),
    )
    .unwrap();
    assert_eq!(header.number, 1);
    assert_eq!(header.previous, "This Is The Genesis Block");
    assert_eq!(header.hash, body.hash());
    assert_eq!(header.merkel, MerkelRoot::pair(&body.coinbase.hash, &body.coinbase.merkel));
    assert_eq!(header.validator, peer("maker"));
    assert_eq!(header.relay, peer("relay"));
    assert_eq!(header.date, DATE);
    assert_eq!(header.signature.key, wallet(CAROL));
    assert!(header.signature.verify(&header.hash));
    assert!(Header::new(
        &wallet(CAROL),
        &body,
        &peer("maker"),
        &peer("relay"),
        &"no phrase".to_string(),
        &None,
        DATE.to_string(),
    )
    .is_none());
}

#[test]
fn body_hash_covers_the_transactions() {
    let coinbase = Coinbase::new(&Vec::new(), &wallet(CAROL), &None, &relay(), (1, 2, 3)).unwrap();
    let empty = Body::new(coinbase.clone(), Vec::new());
    let full = Body::new(coinbase.clone(), vec![payment("h1", 10, 6, amount(1, 0), (1, 2))]);
    assert_ne!(empty.hash(), full.hash());
    let mut text = String::new();
    coinbase.write(&mut text);
    text.push_str("0;");
    assert_eq!(empty.hash(), HashMaker::generate(&text));
}

#[test]
fn genesis_block_on_an_empty_chain() {
    let mut chain = fresh();
    let block = build(&mut chain, Vec::new(), (1, 2, 3)).unwrap();
    assert_eq!(block.header.number, 1);
    assert_eq!(block.header.previous, "This Is The Genesis Block");
    assert_eq!(block.body.coinbase.output.unspents.len(), 2);
    let a = block.body.coinbase.output.unspents[0].data.value;
    let b = block.body.coinbase.output.unspents[1].data.value;
    assert!(a.equals(&b));
    assert!(a.checked_add(&b).unwrap().equals(&Reward::at(1)));
    assert_eq!(chain.tip, Some(block.clone()));
    assert_eq!(chain.ledger.people.len(), 2);
    assert_eq!(chain.ledger.people[0], start_ledger().people[0]);
    assert_eq!(chain.ledger.people[1].wallet, wallet(CAROL));
    assert_eq!(chain.ledger.people[1].utxos.len(), 2);
    assert_eq!(chain.ledger.people[1].utxos[0].block, 1);
    assert_eq!(chain.ledger.people[1].utxos[0].trx_hash, block.body.coinbase.hash);
    assert_eq!(chain.ledger.people[1].utxos[0].output_hash, block.body.coinbase.output.hash);
    assert_eq!(
        chain.ledger.people[1].utxos[0].unspent_hash,
        block.body.coinbase.output.unspents[0].hash
    );
    assert_eq!(chain.ledger.balance(&wallet(CAROL)).map(|b| b.equals(&amount(50, 0))), Ok(true));
    assert_eq!(chain.validators[0].waiting, 2);
    assert_eq!(chain.validators[1].waiting, 0);
}

#[test]
fn building_fails_without_changing_anything() {
    let mut chain = fresh();
    let before_ledger = chain.ledger.clone();

    assert_eq!(
        build(&mut chain, Vec::new(), (7, 7, 7)),
        Err(BlockError::Ledger(LedgerError::Duplicate))
    );
    assert_eq!(chain.ledger, before_ledger);
    assert_eq!(chain.validators, registry());
    assert_eq!(chain.tip, None);
    assert_eq!(chain.turn, Turn::new());

    let no_relay = Block::new(
        &mut chain.ledger,
        &mut chain.validators,
        Vec::new(),
        &wallet(CAROL),
        &peer("maker"),
        &CAROL.to_string(),
        &mut chain.tip,
        &Relay::new(None, Some(relay_wallet()), "a".to_string()),
        &mut chain.turn,
        &Sync::Synced,
        (1, 2, 3),
        DATE.to_string(),
    );
    assert_eq!(no_relay, Err(BlockError::NoRelay));

    let bad_phrase = Block::new(
        &mut chain.ledger,
        &mut chain.validators,
        Vec::new(),
        &wallet(CAROL),
        &peer("maker"),
        &"no phrase".to_string(),
        &mut chain.tip,
        &relay(),
        &mut chain.turn,
        &Sync::Synced,
        (1, 2, 3),
        DATE.to_string(),
    );
    assert_eq!(bad_phrase, Err(BlockError::Signing));

    let t1 = payment("h1", 10, 6, amount(1, 0), (1, 2));
    let blind = Block::new(
        &mut chain.ledger,
        &mut chain.validators,
        vec![t1],
        &wallet(CAROL),
        &peer("maker"),
        &CAROL.to_string(),
        &mut chain.tip,
        &Relay::new(Some(peer("relay")), None, "a".to_string()),
        &mut chain.turn,
        &Sync::Synced,
        (1, 2, 3),
        DATE.to_string(),
    );
    assert_eq!(blind, Err(BlockError::BadCoinbase(CoinbaseError::RelayWallet)));
    assert_eq!(chain.ledger, before_ledger);
    assert_eq!(chain.tip, None);
}

#[test]
fn a_second_block_continues_the_first() {
    let mut chain = fresh();
    let first = build(&mut chain, Vec::new(), (1, 2, 3)).unwrap();
    let t1 = payment("h1", 10, 6, amount(1, 0), (1, 2));
    assert_eq!(t1.validate(&mut chain.ledger), Ok(()));
    let second = build(&mut chain, vec![t1.clone()], (4, 5, 6)).unwrap();
    assert_eq!(second.header.number, 2);
    assert_eq!(second.header.previous, first.header.hash);
    assert_eq!(second.body.transactions, vec![t1.clone()]);
    assert_eq!(second.body.coinbase.output.unspents.len(), 3);
    assert_eq!(chain.tip, Some(second.clone()));
    let alice_holds: Vec<String> =
        chain.ledger.people[0].utxos.iter().map(|u| u.unspent_hash.clone()).collect();
    assert_eq!(
        alice_holds,
        vec!["h2".to_string(), "h3".to_string(), t1.output.unspents[0].hash.clone()]
    );
    let bob_has = chain.ledger.balance(&wallet(BOB)).unwrap();
    assert!(bob_has.equals(&amount(6, 0)));
    let relay_has = chain.ledger.balance(&relay_wallet()).unwrap();
    assert!(relay_has.equals(&amount(1, 1)));
}

#[test]
fn received_blocks_are_accepted_in_order() {
    let mut maker = fresh();
    let first = build(&mut maker, Vec::new(), (1, 2, 3)).unwrap();
    let t1 = payment("h1", 10, 6, amount(1, 0), (1, 2));
    let t2 = payment("h2", 20, 6, amount(1, 0), (3, 4));
    assert_eq!(t1.validate(&mut maker.ledger), Ok(()));
    assert_eq!(t2.validate(&mut maker.ledger), Ok(()));
    let second = build(&mut maker, vec![t1.clone(), t2.clone()], (4, 5, 6)).unwrap();

    let mut other = fresh();
    other.turn = Turn { shift: false, waiting: 2 };
    let mut pool: Vec<Transaction> = Vec::new();
    assert_eq!(accept(&mut other, &mut pool, &first), Ok(first.clone()));
    assert_eq!(other.tip, Some(first.clone()));
    assert_eq!(other.validators[0].waiting, 2);
    assert_eq!(other.validators[1].waiting, 0);
    assert_eq!(other.turn, Turn { shift: false, waiting: 1 });

    let t3 = payment("h3", 30, 6, amount(1, 0), (5, 6));
    assert_eq!(t1.validate(&mut other.ledger), Ok(()));
    assert_eq!(t3.validate(&mut other.ledger), Ok(()));
    pool.push(t3.clone());
    pool.push(t1.clone());
    assert_eq!(accept(&mut other, &mut pool, &second), Ok(second.clone()));
    assert_eq!(pool, vec![t3.clone()]);
    assert_eq!(other.tip, Some(second.clone()));
    assert_eq!(other.turn, Turn { shift: true, waiting: 0 });
    assert_eq!(other.validators[0].waiting, 2);
    assert_eq!(other.validators[1].waiting, 0);
    let held: Vec<String> =
        other.ledger.people[0].utxos.iter().map(|u| u.unspent_hash.clone()).collect();
    assert_eq!(
        held,
        vec![t1.output.unspents[0].hash.clone(), t2.output.unspents[0].hash.clone()]
    );
    assert!(other.ledger.balance(&wallet(BOB)).unwrap().equals(&amount(12, 0)));
}

#[test]
fn block_on_the_wrong_tip_is_a_chain_mismatch() {
    let mut maker = fresh();
    let first = build(&mut maker, Vec::new(), (1, 2, 3)).unwrap();
    let second = build(&mut maker, Vec::new(), (4, 5, 6)).unwrap();
    let third = build(&mut maker, Vec::new(), (7, 8, 9)).unwrap();

    let mut other = fresh();
    let t1 = payment("h1", 10, 6, amount(1, 0), (1, 2));
    let mut pool = vec![t1.clone()];
    assert_eq!(accept(&mut other, &mut pool, &second), Err(BlockError::ChainMismatch));
    assert_eq!(other.tip, None);
    assert_eq!(accept(&mut other, &mut pool, &first), Ok(first.clone()));
    let ledger = other.ledger.clone();
    assert_eq!(accept(&mut other, &mut pool, &third), Err(BlockError::ChainMismatch));
    assert_eq!(accept(&mut other, &mut pool, &first), Err(BlockError::ChainMismatch));
    assert_eq!(other.ledger, ledger);
    assert_eq!(pool, vec![t1]);
    assert_eq!(other.tip, Some(first));
    assert_eq!(other.validators[0].waiting, 2);
    assert_eq!(other.validators[1].waiting, 0);
}

#[test]
fn block_with_a_bad_signature_is_refused() {
    let mut maker = fresh();
    let mut first = build(&mut maker, Vec::new(), (1, 2, 3)).unwrap();
    first.body.coinbase.size = 9;
    let mut other = fresh();
    let mut pool = Vec::new();
    assert_eq!(accept(&mut other, &mut pool, &first), Err(BlockError::BadSignature));
    let mut foreign = build(&mut fresh(), Vec::new(), (1, 2, 3)).unwrap();
    foreign.header.signature =
        Sign::make(&BOB.to_string(), &foreign.header.hash, &wallet(CAROL)).unwrap();
    assert_eq!(accept(&mut other, &mut pool, &foreign), Err(BlockError::BadSignature));
    assert_eq!(other.tip, None);
    assert_eq!(other.ledger, start_ledger());
}

#[test]
fn rejected_block_rolls_everything_back() {
    let t1 = payment("h1", 10, 6, amount(1, 0), (1, 2));
    let t2 = payment("h2", 20, 6, amount(1, 0), (3, 4));
    let spent = payment("gone", 20, 6, amount(1, 0), (5, 6));

    let mut maker = fresh();
    maker.ledger.people[0].utxos.push(utxo("gone", amount(20, 0)));
    assert_eq!(t1.validate(&mut maker.ledger), Ok(()));
    assert_eq!(t2.validate(&mut maker.ledger), Ok(()));
    assert_eq!(spent.validate(&mut maker.ledger), Ok(()));
    let block = build(&mut maker, vec![t1.clone(), t2.clone(), spent.clone()], (1, 2, 3)).unwrap();

    let mut other = fresh();
    assert_eq!(t1.validate(&mut other.ledger), Ok(()));
    let mut pool = vec![t1.clone()];
    let ledger = other.ledger.clone();
    assert_eq!(
        accept(&mut other, &mut pool, &block),
        Err(BlockError::BadTransaction(TrxError::Utxo(LedgerError::NotFound)))
    );
    assert_eq!(pool, vec![t1.clone()]);
    assert_eq!(other.ledger, ledger);
    assert_eq!(other.tip, None);
    assert_eq!(other.validators, registry());
    assert_eq!(other.turn, Turn::new());
}

#[test]
fn rejected_coinbase_rolls_everything_back() {
    let t1 = payment("h1", 10, 6, amount(1, 0), (1, 2));
    let t2 = payment("h2", 20, 6, amount(1, 0), (3, 4));
    let mut maker = fresh();
    assert_eq!(t1.validate(&mut maker.ledger), Ok(()));
    assert_eq!(t2.validate(&mut maker.ledger), Ok(()));
    let mut block = build(&mut maker, vec![t1.clone(), t2.clone()], (1, 2, 3)).unwrap();
    block.body.coinbase.reward = amount(1000, 0);
    resign(&mut block);

    let mut other = fresh();
    assert_eq!(t1.validate(&mut other.ledger), Ok(()));
    let mut pool = vec![t1.clone()];
    let ledger = other.ledger.clone();
    assert_eq!(
        accept(&mut other, &mut pool, &block),
        Err(BlockError::BadCoinbase(CoinbaseError::Reward))
    );
    assert_eq!(pool, vec![t1.clone()]);
    assert_eq!(other.ledger, ledger);
    assert_eq!(other.tip, None);
    assert_eq!(other.validators, registry());
}

#[test]
fn outputs_that_cannot_be_recorded_reject_the_block() {
    let mut maker = fresh();
    let mut block = build(&mut maker, Vec::new(), (1, 2, 3)).unwrap();
    let twin = block.body.coinbase.output.unspents[0].clone();
    block.body.coinbase.output.unspents[1] = twin;
    resign(&mut block);
    let mut other = fresh();
    let mut pool = Vec::new();
    assert_eq!(
        accept(&mut other, &mut pool, &block),
        Err(BlockError::Ledger(LedgerError::Duplicate))
    );
    assert_eq!(other.ledger, start_ledger());
    assert_eq!(other.tip, None);
    let mut ledger = start_ledger();
    assert_eq!(block.handle_outputs(&mut ledger), Err(LedgerError::Duplicate));
    assert_eq!(ledger, start_ledger());
}

#[test]
fn an_unsynced_node_keeps_its_turn_on_commit() {
    let mut maker = fresh();
    let first = build(&mut maker, Vec::new(), (1, 2, 3)).unwrap();
    let mut other = fresh();
    other.turn = Turn { shift: false, waiting: 2 };
    let mut pool = Vec::new();
    let r = first.validation(
        &mut other.tip,
        &mut other.ledger,
        &mut other.validators,
        &mut pool,
        &mut other.turn,
        &Sync::NotSynced,
    );
    assert_eq!(r, Ok(first));
    assert_eq!(other.turn, Turn { shift: false, waiting: 2 });
}

#[test]
fn fees_that_do_not_add_up_fail_the_coinbase() {
    let max = amount((1i128 << 96) - 1, 0);
    let mut t1 = payment("h1", 10, 6, amount(1, 0), (1, 2));
    let mut t2 = payment("h2", 20, 6, amount(1, 0), (3, 4));
    let honest = vec![t1.clone(), t2.clone()];
    let c = Coinbase::new(&honest, &wallet(CAROL), &None, &relay(), (7, 8, 9)).unwrap();
    t1.fee = max;
    t2.fee = max;
    assert_eq!(c.validation(&None, &vec![t1, t2]), Err(CoinbaseError::Fees));
}

fn split(fees: Amount, relay_fee: Amount, validator_fee: Amount) -> Option<FeeSplit> {
    Some(FeeSplit { fees, relay_fee, validator_fee })
}

#[test]
fn a_coinbase_is_judged_against_what_is_given() {
    let t1 = payment("h1", 10, 6, amount(1, 0), (1, 2));
    let c = Coinbase::new(&vec![t1], &wallet(CAROL), &None, &relay(), (7, 8, 9)).unwrap();
    let merkel = c.merkel.clone();
    let good = || split(amount(10, 1), amount(100, 3), amount(9, 1));
    assert_eq!(c.judge(&amount(50, 0), &merkel, good()), Ok(()));
    assert_eq!(c.judge(&amount(49, 0), &merkel, good()), Err(CoinbaseError::Reward));
    assert_eq!(c.judge(&amount(50, 0), &"other".to_string(), good()), Err(CoinbaseError::Merkel));
    assert_eq!(c.judge(&amount(50, 0), &merkel, None), Err(CoinbaseError::Fees));
    assert_eq!(
        c.judge(&amount(50, 0), &merkel, split(amount(2, 0), amount(1, 1), amount(9, 1))),
        Err(CoinbaseError::Fees)
    );
    assert_eq!(
        c.judge(&amount(50, 0), &merkel, split(amount(1, 0), amount(2, 1), amount(9, 1))),
        Err(CoinbaseError::Fees)
    );
    assert_eq!(
        c.judge(&amount(50, 0), &merkel, split(amount(1, 0), amount(1, 1), amount(8, 1))),
        Err(CoinbaseError::Fees)
    );
    let mut unpaid = c.clone();
    unpaid.output.unspents[1].data.value = amount(2, 1);
    assert_eq!(unpaid.judge(&amount(50, 0), &merkel, good()), Err(CoinbaseError::RelayFee));
    let mut free = c.clone();
    free.fees = amount(0, 0);
    free.relay_fee = amount(0, 0);
    free.validator_fee = amount(0, 0);
    free.output.unspents.clear();
    assert_eq!(
        free.judge(&amount(50, 0), &merkel, split(amount(0, 5), amount(0, 1), amount(0, 0))),
        Ok(())
    );
}

#[test]
fn a_block_is_judged_with_the_verdict_it_is_given() {
    let mut maker = fresh();
    let mut first = build(&mut maker, Vec::new(), (1, 2, 3)).unwrap();
    let mut other = fresh();
    let mut pool = Vec::new();
    let refused = first.judge(
        false,
        &mut other.tip,
        &mut other.ledger,
        &mut other.validators,
        &mut pool,
        &mut other.turn,
        &Sync::Synced,
    );
    assert_eq!(refused, Err(BlockError::BadSignature));
    assert_eq!(other.tip, None);
    first.header.signature.signature.bytes[0] ^= 1;
    assert_eq!(accept(&mut other, &mut pool, &first), Err(BlockError::BadSignature));
    let taken = first.judge(
        true,
        &mut other.tip,
        &mut other.ledger,
        &mut other.validators,
        &mut pool,
        &mut other.turn,
        &Sync::Synced,
    );
    assert_eq!(taken, Ok(first.clone()));
    assert_eq!(other.tip, Some(first));
}
