//! Blocks: building one, and validating one that was received.

use crate::coinbase::{Coinbase, CoinbaseError, CoinbaseView};
use crate::hashing::{hash_of, number_field, write_number, HashMaker};
use crate::header::{expected_previous, Header, HeaderView};
use crate::identity::{ed25519_signed, PeerId, Public, Sign};
use crate::search::{first_index, lemma_first_index_is};
use crate::transaction::{trx_hashes, Output, Transaction, TransactionView, TrxError, UnspentView};
use crate::trun_sync::{Sync, Turn};
use crate::utxo::{Ledger, LedgerError, PersonView, UTXO};
use crate::validator::{Relay, Validator, ValidatorView};
use crate::waiting::Waiting;
use vstd::prelude::*;
use vstd::string::*;

verus! {

/// The body of a block: the coinbase and the transactions it confirms.
#[derive(Debug, PartialEq, Eq)]
pub struct Body {
    pub coinbase: Coinbase,
    pub transactions: Vec<Transaction>,
}

/// The view of a [`Body`].
pub struct BodyView {
    pub coinbase: CoinbaseView,
    pub transactions: Seq<TransactionView>,
}

impl DeepView for Body {
    type V = BodyView;

    open spec fn deep_view(&self) -> BodyView {
        BodyView { coinbase: self.coinbase@, transactions: self.transactions.deep_view() }
    }
}

impl View for Body {
    type V = BodyView;

    open spec fn view(&self) -> BodyView {
        self.deep_view()
    }
}

/// Copies a list of transactions.
pub fn copy_transactions(transactions: &Vec<Transaction>) -> (r: Vec<Transaction>)
    ensures
        r.deep_view() == transactions.deep_view(),
{
    let r = transactions.clone();
    assert(r.deep_view() =~= transactions.deep_view());
    r
}

impl Clone for Body {
    fn clone(&self) -> (r: Self)
        ensures
            r@ == self@,
    {
        Body {
            coinbase: self.coinbase.clone(),
            transactions: copy_transactions(&self.transactions),
        }
    }
}

impl Body {
    /// A body of a coinbase and transactions.
    pub fn new(coinbase: Coinbase, transactions: Vec<Transaction>) -> (r: Self)
        ensures
            r.coinbase == coinbase,
            r.transactions == transactions,
    {
        Body { coinbase, transactions }
    }

    /// The text a body is hashed by: the coinbase, the count of
    /// transactions, and each transaction.
    pub open spec fn spec_text(b: BodyView) -> Seq<char> {
        Coinbase::spec_text(b.coinbase) + number_field(b.transactions.len())
            + Transaction::spec_texts(b.transactions)
    }

    /// The hash of a body.
    pub open spec fn spec_hash(b: BodyView) -> Seq<char> {
        hash_of(Body::spec_text(b))
    }

    /// Computes the hash of the body.
    pub fn hash(&self) -> (r: String)
        ensures
            r@ == Body::spec_hash(self@),
    {
        let mut text = String::new();
        self.coinbase.write(&mut text);
        write_number(&mut text, self.transactions.len() as u64);
        Transaction::write_all(&self.transactions, &mut text);
        assert(text@ =~= Body::spec_text(self@));
        HashMaker::generate(&text)
    }
}

/// A block: header and body.
#[derive(Debug, PartialEq, Eq)]
pub struct Block {
    pub header: Header,
    pub body: Body,
}

/// The view of a [`Block`].
pub struct BlockView {
    pub header: HeaderView,
    pub body: BodyView,
}

impl DeepView for Block {
    type V = BlockView;

    open spec fn deep_view(&self) -> BlockView {
        BlockView { header: self.header@, body: self.body@ }
    }
}

impl View for Block {
    type V = BlockView;

    open spec fn view(&self) -> BlockView {
        self.deep_view()
    }
}

impl Clone for Block {
    fn clone(&self) -> (r: Self)
        ensures
            r@ == self@,
    {
        Block { header: self.header.clone(), body: self.body.clone() }
    }
}

/// The view of an optional block.
pub open spec fn tip_view(tip: Option<Block>) -> Option<BlockView> {
    match tip {
        Some(b) => Some(b@),
        None => None,
    }
}

/// Copies an optional block.
pub fn copy_tip(tip: &Option<Block>) -> (r: Option<Block>)
    ensures
        tip_view(r) == tip_view(*tip),
{
    match tip {
        Some(b) => Some(b.clone()),
        None => None,
    }
}

/// Why a block was refused, or could not be built.
#[derive(Clone, Copy, Debug, PartialEq, Eq, Structural)]
pub enum BlockError {
    /// The block does not continue the local chain tip.
    ChainMismatch,
    /// The signature over the hash of the body does not verify.
    BadSignature,
    /// A transaction of the body is invalid.
    BadTransaction(TrxError),
    /// The coinbase is not the one the block calls for.
    BadCoinbase(CoinbaseError),
    /// An output could not be recorded as unspent.
    Ledger(LedgerError),
    /// The seed phrase was rejected when signing.
    Signing,
    /// The relay's peer is not known.
    NoRelay,
}


/// The ledger after each listed output of one transaction is recorded as
/// unspent, one after the other; the first refusal gives the error.
pub open spec fn spec_generate_all(
    people: Seq<PersonView>,
    block: u64,
    trx_hash: Seq<char>,
    output_hash: Seq<char>,
    unspents: Seq<UnspentView>,
) -> Result<Seq<PersonView>, LedgerError>
    decreases unspents.len(),
{
    if unspents.len() == 0 {
        Ok(people)
    } else {
        match Ledger::spec_generate(
            people,
            unspents[0].data.wallet,
            UTXO::spec_from(block, trx_hash, output_hash, unspents[0]),
        ) {
            Ok(next) => spec_generate_all(next, block, trx_hash, output_hash, unspents.drop_first()),
            Err(e) => Err(e),
        }
    }
}

/// The ledger after the outputs of each transaction are recorded.
pub open spec fn spec_generate_trxs(
    people: Seq<PersonView>,
    block: u64,
    transactions: Seq<TransactionView>,
) -> Result<Seq<PersonView>, LedgerError>
    decreases transactions.len(),
{
    if transactions.len() == 0 {
        Ok(people)
    } else {
        match spec_generate_all(
            people,
            block,
            transactions[0].hash,
            transactions[0].output.hash,
            transactions[0].output.unspents,
        ) {
            Ok(next) => spec_generate_trxs(next, block, transactions.drop_first()),
            Err(e) => Err(e),
        }
    }
}

/// Ledger and pending pool after the transactions of a block are staged:
/// one that is pending leaves the pool, any other is validated and spends
/// its inputs. The first invalid one gives the error.
pub open spec fn spec_stage(
    people: Seq<PersonView>,
    pool: Seq<TransactionView>,
    transactions: Seq<TransactionView>,
) -> Result<(Seq<PersonView>, Seq<TransactionView>), TrxError>
    decreases transactions.len(),
{
    if transactions.len() == 0 {
        Ok((people, pool))
    } else {
        let i = first_index(trx_hashes(pool), transactions[0].hash);
        if i < pool.len() {
            spec_stage(people, pool.remove(i), transactions.drop_first())
        } else {
            match Transaction::spec_validate(transactions[0], people) {
                Ok(next) => spec_stage(next, pool, transactions.drop_first()),
                Err(e) => Err(e),
            }
        }
    }
}

/// What building a block leaves behind: the block, and the state with
/// the block committed.
pub struct Built {
    pub block: BlockView,
    pub ledger: Seq<PersonView>,
    pub validators: Seq<ValidatorView>,
    pub turn: Turn,
}

/// What accepting a received block leaves behind.
pub struct Accepted {
    pub ledger: Seq<PersonView>,
    pub pool: Seq<TransactionView>,
    pub validators: Seq<ValidatorView>,
    pub turn: Turn,
}

impl Transaction {
    /// Where the transaction of that hash stands in the pool.
    pub fn position(pool: &Vec<Transaction>, hash: &String) -> (r: Option<usize>)
        ensures
            match r {
                Some(i) => i < pool.len() && i == first_index(trx_hashes(pool.deep_view()), hash@),
                None => first_index(trx_hashes(pool.deep_view()), hash@) == pool.len(),
            },
    {
        let mut i: usize = 0;
        while i < pool.len()
            invariant
                i <= pool.len(),
                forall|j: int| 0 <= j < i ==> trx_hashes(pool.deep_view())[j] != hash@,
            decreases pool.len() - i,
        {
            if pool[i].hash == *hash {
                proof {
                    lemma_first_index_is(trx_hashes(pool.deep_view()), hash@, i as int);
                }
                return Some(i);
            }
            i += 1;
        }
        proof {
            lemma_first_index_is(trx_hashes(pool.deep_view()), hash@, i as int);
        }
        None
    }
}

impl Block {
    /// The ledger after every output of the block is recorded as unspent:
    /// those of the coinbase first, then those of each transaction.
    pub open spec fn spec_handle_outputs(people: Seq<PersonView>, b: BlockView) -> Result<
        Seq<PersonView>,
        LedgerError,
    > {
        match spec_generate_all(
            people,
            b.header.number,
            b.body.coinbase.hash,
            b.body.coinbase.output.hash,
            b.body.coinbase.output.unspents,
        ) {
            Ok(next) => spec_generate_trxs(next, b.header.number, b.body.transactions),
            Err(e) => Err(e),
        }
    }

    #[verifier::loop_isolation(false)]
    fn record_outputs(block: u64, trx_hash: &String, output: &Output, ledger: &mut Ledger) -> (r: Result<
        (),
        LedgerError,
    >)
        ensures
            match spec_generate_all(old(ledger)@, block, trx_hash@, output@.hash, output@.unspents) {
                Ok(after) => r is Ok && final(ledger)@ == after,
                Err(e) => r == Err::<(), LedgerError>(e),
            },
            Ledger::wf(old(ledger)@) ==> Ledger::wf(final(ledger)@),
    {
        let ghost all = output@.unspents;
        let mut i: usize = 0;
        assert(all.skip(0) =~= all);
        while i < output.unspents.len()
            invariant
                i <= output.unspents.len(),
                spec_generate_all(old(ledger)@, block, trx_hash@, output@.hash, all)
                    == spec_generate_all(ledger@, block, trx_hash@, output@.hash, all.skip(i as int)),
                Ledger::wf(old(ledger)@) ==> Ledger::wf(ledger@),
            decreases output.unspents.len() - i,
        {
            let ghost rest = all.skip(i as int);
            let ghost before = ledger@;
            proof {
                assert(rest[0] == output.unspents[i as int]@);
                assert(rest.drop_first() =~= all.skip(i + 1));
                assert(spec_generate_all(before, block, trx_hash@, output@.hash, rest)
                    == match Ledger::spec_generate(
                    before,
                    rest[0].data.wallet,
                    UTXO::spec_from(block, trx_hash@, output@.hash, rest[0]),
                ) {
                    Ok(next) => spec_generate_all(
                        next,
                        block,
                        trx_hash@,
                        output@.hash,
                        rest.drop_first(),
                    ),
                    Err(e) => Err(e),
                });
            }
            match UTXO::generate(block, trx_hash, &output.hash, &output.unspents[i], ledger) {
                Ok(()) => {},
                Err(e) => {
                    return Err(e);
                },
            }
            i += 1;
        }
        assert(all.skip(i as int) =~= Seq::<UnspentView>::empty());
        Ok(())
    }

    #[verifier::loop_isolation(false)]
    fn record_all(&self, ledger: &mut Ledger) -> (r: Result<(), LedgerError>)
        ensures
            match Block::spec_handle_outputs(old(ledger)@, self@) {
                Ok(after) => r is Ok && final(ledger)@ == after,
                Err(e) => r == Err::<(), LedgerError>(e),
            },
            Ledger::wf(old(ledger)@) ==> Ledger::wf(final(ledger)@),
    {
        let number = self.header.number;
        match Block::record_outputs(
            number,
            &self.body.coinbase.hash,
            &self.body.coinbase.output,
            ledger,
        ) {
            Ok(()) => {},
            Err(e) => {
                return Err(e);
            },
        }
        let ghost mid = ledger@;
        let ghost all = self@.body.transactions;
        let mut i: usize = 0;
        assert(all.skip(0) =~= all);
        while i < self.body.transactions.len()
            invariant
                i <= self.body.transactions.len(),
                spec_generate_trxs(mid, number, all) == spec_generate_trxs(
                    ledger@,
                    number,
                    all.skip(i as int),
                ),
                Ledger::wf(old(ledger)@) ==> Ledger::wf(ledger@),
            decreases self.body.transactions.len() - i,
        {
            let ghost rest = all.skip(i as int);
            let ghost before = ledger@;
            proof {
                assert(rest[0] == self.body.transactions[i as int]@);
                assert(rest.drop_first() =~= all.skip(i + 1));
                assert(spec_generate_trxs(before, number, rest) == match spec_generate_all(
                    before,
                    number,
                    rest[0].hash,
                    rest[0].output.hash,
                    rest[0].output.unspents,
                ) {
                    Ok(next) => spec_generate_trxs(next, number, rest.drop_first()),
                    Err(e) => Err(e),
                });
            }
            let trx = &self.body.transactions[i];
            match Block::record_outputs(number, &trx.hash, &trx.output, ledger) {
                Ok(()) => {},
                Err(e) => {
                    return Err(e);
                },
            }
            i += 1;
        }
        assert(all.skip(i as int) =~= Seq::<TransactionView>::empty());
        Ok(())
    }

    /// Records every output of the block as an unspent output of the
    /// wallet it pays: the coinbase's outputs, then each transaction's.
    /// All of them are recorded, or none: where one is refused, the
    /// ledger stays as it was.
    pub fn handle_outputs(&self, ledger: &mut Ledger) -> (r: Result<(), LedgerError>)
        ensures
            match Block::spec_handle_outputs(old(ledger)@, self@) {
                Ok(after) => r is Ok && final(ledger)@ == after,
                Err(e) => r == Err::<(), LedgerError>(e) && *final(ledger) == *old(ledger),
            },
            Ledger::wf(old(ledger)@) ==> Ledger::wf(final(ledger)@),
    {
        let mut scratch = ledger.clone();
        match self.record_all(&mut scratch) {
            Ok(()) => {
                *ledger = scratch;
                Ok(())
            },
            Err(e) => Err(e),
        }
    }
}


impl Block {
    /// What building a block decides: the block and the state after it,
    /// or why none was built.
    #[verifier::opaque]
    pub open spec fn spec_new(
        people: Seq<PersonView>,
        validators: Seq<ValidatorView>,
        turn: Turn,
        sync_state: Sync,
        transactions: Seq<TransactionView>,
        wallet: Seq<u8>,
        peerid: Seq<char>,
        private: Seq<char>,
        tip: Option<BlockView>,
        relay: crate::validator::RelayView,
        salts: (u32, u32, u32),
        date: Seq<char>,
    ) -> Result<Built, BlockError> {
        match Coinbase::spec_new(transactions, wallet, tip, relay.wallet, salts) {
            Err(e) => Err(BlockError::BadCoinbase(e)),
            Ok(coinbase) => match relay.peerid {
                None => Err(BlockError::NoRelay),
                Some(relay_id) => {
                    let body = BodyView { coinbase, transactions };
                    match ed25519_signed(private, Body::spec_hash(body)) {
                        None => Err(BlockError::Signing),
                        Some(signature) => {
                            let block = BlockView {
                                header: Header::spec_new(
                                    wallet,
                                    body,
                                    peerid,
                                    relay_id,
                                    signature,
                                    tip,
                                    date,
                                ),
                                body,
                            };
                            match Block::spec_handle_outputs(people, block) {
                                Err(e) => Err(BlockError::Ledger(e)),
                                Ok(ledger) => Ok(
                                    Built {
                                        block,
                                        ledger,
                                        validators: Waiting::spec_update(validators, peerid),
                                        turn: Waiting::spec_turn(turn, sync_state),
                                    },
                                ),
                            }
                        },
                    }
                },
            },
        }
    }

    /// Builds the next block out of `transactions` and commits it.
    ///
    /// The coinbase pays the reward of the next height and splits the
    /// fees; the header continues `last_block`, or starts the chain with
    /// number one and the genesis marker, and is signed with the key pair
    /// of `private`. On success every output of the block is unspent in
    /// the ledger, the waiting counters are rotated for this node as the
    /// maker, and the block is the new chain tip. On failure nothing has
    /// changed. Salts and date are drawn by the caller.
    #[verifier::rlimit(30)]
    pub fn new(
        ledger: &mut Ledger,
        validators: &mut Vec<Validator>,
        transactions: Vec<Transaction>,
        wallet: &Public,
        peerid: &PeerId,
        private: &String,
        last_block: &mut Option<Block>,
        relay: &Relay,
        turn: &mut Turn,
        sync_state: &Sync,
        salts: (u32, u32, u32),
        date: String,
    ) -> (r: Result<Block, BlockError>)
        ensures
            match Block::spec_new(
                old(ledger)@,
                old(validators).deep_view(),
                *old(turn),
                *sync_state,
                transactions.deep_view(),
                wallet@,
                peerid@,
                private@,
                tip_view(*old(last_block)),
                relay@,
                salts,
                date@,
            ) {
                Ok(built) => {
                    &&& r is Ok
                    &&& r->Ok_0@ == built.block
                    &&& final(ledger)@ == built.ledger
                    &&& final(validators).deep_view() == built.validators
                    &&& *final(turn) == built.turn
                    &&& tip_view(*final(last_block)) == Some(built.block)
                },
                Err(e) => {
                    &&& r == Err::<Block, BlockError>(e)
                    &&& *final(ledger) == *old(ledger)
                    &&& *final(validators) == *old(validators)
                    &&& *final(turn) == *old(turn)
                    &&& *final(last_block) == *old(last_block)
                },
            },
            Ledger::wf(old(ledger)@) ==> Ledger::wf(final(ledger)@),
    {
        reveal(Block::spec_new);
        let coinbase = match Coinbase::new(&transactions, wallet, last_block, relay, salts) {
            Ok(c) => c,
            Err(e) => {
                return Err(BlockError::BadCoinbase(e));
            },
        };
        let relay_id = match &relay.peerid {
            Some(p) => p,
            None => {
                return Err(BlockError::NoRelay);
            },
        };
        let body = Body::new(coinbase, transactions);
        let header = match Header::new(wallet, &body, peerid, relay_id, private, last_block, date) {
            Some(h) => h,
            None => {
                return Err(BlockError::Signing);
            },
        };
        let block = Block { header, body };
        match block.handle_outputs(ledger) {
            Ok(()) => {},
            Err(e) => {
                return Err(BlockError::Ledger(e));
            },
        }
        Waiting::update(validators, peerid, turn, sync_state);
        *last_block = Some(block.clone());
        Ok(block)
    }

    /// What judging a received block decides, given whether its
    /// signature verified over the hash of its body: the state with the
    /// block committed, or the first check that failed.
    #[verifier::opaque]
    pub open spec fn spec_judge(
        b: BlockView,
        signed: bool,
        tip: Option<BlockView>,
        people: Seq<PersonView>,
        pool: Seq<TransactionView>,
        validators: Seq<ValidatorView>,
        turn: Turn,
        sync_state: Sync,
    ) -> Result<Accepted, BlockError> {
        if expected_previous(tip) != b.header.previous {
            Err(BlockError::ChainMismatch)
        } else if !signed {
            Err(BlockError::BadSignature)
        } else {
            match spec_stage(people, pool, b.body.transactions) {
                Err(e) => Err(BlockError::BadTransaction(e)),
                Ok(staged) => match Coinbase::spec_validation(
                    b.body.coinbase,
                    tip,
                    b.body.transactions,
                ) {
                    Err(e) => Err(BlockError::BadCoinbase(e)),
                    Ok(()) => match Block::spec_handle_outputs(staged.0, b) {
                        Err(e) => Err(BlockError::Ledger(e)),
                        Ok(ledger) => Ok(
                            Accepted {
                                ledger,
                                pool: staged.1,
                                validators: Waiting::spec_update(validators, b.header.validator),
                                turn: Waiting::spec_turn(turn, sync_state),
                            },
                        ),
                    },
                },
            }
        }
    }

    /// What validating a received block decides: the state with the
    /// block committed, or the first check that failed.
    pub open spec fn spec_validation(
        b: BlockView,
        tip: Option<BlockView>,
        people: Seq<PersonView>,
        pool: Seq<TransactionView>,
        validators: Seq<ValidatorView>,
        turn: Turn,
        sync_state: Sync,
    ) -> Result<Accepted, BlockError> {
        Block::spec_judge(
            b,
            Sign::spec_verify(b.header.signature, Body::spec_hash(b.body)),
            tip,
            people,
            pool,
            validators,
            turn,
            sync_state,
        )
    }

    /// Validates a received block against the chain tip and commits it.
    ///
    /// The checks, in order: the block names the tip's hash as its
    /// predecessor, or the genesis marker on an empty chain
    /// (`ChainMismatch`); the signature over the hash of the body verifies
    /// (`BadSignature`); every transaction is pending, or valid against
    /// the ledger (`BadTransaction`); the coinbase is the one the height
    /// and the transactions call for (`BadCoinbase`); every output can be
    /// recorded as unspent (`Ledger`).
    ///
    /// On success the block's pending transactions have left the pool,
    /// the inputs of the others are spent, every output of the block is
    /// unspent in the ledger, the waiting counters are rotated for the
    /// block's maker, the block is the new chain tip, and a copy of it
    /// comes back for persistence. On failure the ledger, the pool, the
    /// registry, the turn and the tip are exactly as they were.
    pub fn validation(
        &self,
        last_block: &mut Option<Block>,
        ledger: &mut Ledger,
        validators: &mut Vec<Validator>,
        mempool: &mut Vec<Transaction>,
        turn: &mut Turn,
        sync_state: &Sync,
    ) -> (r: Result<Block, BlockError>)
        ensures
            match Block::spec_validation(
                self@,
                tip_view(*old(last_block)),
                old(ledger)@,
                old(mempool).deep_view(),
                old(validators).deep_view(),
                *old(turn),
                *sync_state,
            ) {
                Ok(accepted) => {
                    &&& r is Ok
                    &&& r->Ok_0@ == self@
                    &&& final(ledger)@ == accepted.ledger
                    &&& final(mempool).deep_view() == accepted.pool
                    &&& final(validators).deep_view() == accepted.validators
                    &&& *final(turn) == accepted.turn
                    &&& tip_view(*final(last_block)) == Some(self@)
                },
                Err(e) => {
                    &&& r == Err::<Block, BlockError>(e)
                    &&& *final(ledger) == *old(ledger)
                    &&& *final(mempool) == *old(mempool)
                    &&& *final(validators) == *old(validators)
                    &&& *final(turn) == *old(turn)
                    &&& *final(last_block) == *old(last_block)
                },
            },
            Ledger::wf(old(ledger)@) ==> Ledger::wf(final(ledger)@),
    {
        let body_hash = self.body.hash();
        let signed = self.header.signature.verify(&body_hash);
        self.judge(signed, last_block, ledger, validators, mempool, turn, sync_state)
    }

    /// Judges a received block against the chain tip and commits it,
    /// given whether its signature verified over the hash of its body.
    ///
    /// The checks and their errors are those of [`Block::validation`],
    /// with `signed` in place of the verification. On failure the
    /// ledger, the pool, the registry, the turn and the tip are exactly
    /// as they were.
    #[verifier::loop_isolation(false)]
    #[verifier::rlimit(30)]
    pub fn judge(
        &self,
        signed: bool,
        last_block: &mut Option<Block>,
        ledger: &mut Ledger,
        validators: &mut Vec<Validator>,
        mempool: &mut Vec<Transaction>,
        turn: &mut Turn,
        sync_state: &Sync,
    ) -> (r: Result<Block, BlockError>)
        ensures
            match Block::spec_judge(
                self@,
                signed,
                tip_view(*old(last_block)),
                old(ledger)@,
                old(mempool).deep_view(),
                old(validators).deep_view(),
                *old(turn),
                *sync_state,
            ) {
                Ok(accepted) => {
                    &&& r is Ok
                    &&& r->Ok_0@ == self@
                    &&& final(ledger)@ == accepted.ledger
                    &&& final(mempool).deep_view() == accepted.pool
                    &&& final(validators).deep_view() == accepted.validators
                    &&& *final(turn) == accepted.turn
                    &&& tip_view(*final(last_block)) == Some(self@)
                },
                Err(e) => {
                    &&& r == Err::<Block, BlockError>(e)
                    &&& *final(ledger) == *old(ledger)
                    &&& *final(mempool) == *old(mempool)
                    &&& *final(validators) == *old(validators)
                    &&& *final(turn) == *old(turn)
                    &&& *final(last_block) == *old(last_block)
                },
            },
            Ledger::wf(old(ledger)@) ==> Ledger::wf(final(ledger)@),
    {
        reveal(Block::spec_judge);
        let expected = match last_block {
            Some(b) => b.header.hash.clone(),
            None => String::from_str("This Is The Genesis Block"),
        };
        if !(expected == self.header.previous) {
            return Err(BlockError::ChainMismatch);
        }
        if !signed {
            return Err(BlockError::BadSignature);
        }
        let mut scratch = ledger.clone();
        let mut pool = copy_transactions(mempool);
        let ghost all = self@.body.transactions;
        let mut i: usize = 0;
        assert(all.skip(0) =~= all);
        while i < self.body.transactions.len()
            invariant
                i <= self.body.transactions.len(),
                spec_stage(old(ledger)@, old(mempool).deep_view(), all) == spec_stage(
                    scratch@,
                    pool.deep_view(),
                    all.skip(i as int),
                ),
                Ledger::wf(old(ledger)@) ==> Ledger::wf(scratch@),
            decreases self.body.transactions.len() - i,
        {
            let ghost rest = all.skip(i as int);
            let ghost people = scratch@;
            let ghost pending = pool.deep_view();
            proof {
                assert(rest[0] == self.body.transactions[i as int]@);
                assert(rest.drop_first() =~= all.skip(i + 1));
                let at = first_index(trx_hashes(pending), rest[0].hash);
                assert(spec_stage(people, pending, rest) == if at < pending.len() {
                    spec_stage(people, pending.remove(at), rest.drop_first())
                } else {
                    match Transaction::spec_validate(rest[0], people) {
                        Ok(next) => spec_stage(next, pending, rest.drop_first()),
                        Err(e) => Err(e),
                    }
                });
            }
            let trx = &self.body.transactions[i];
            match Transaction::position(&pool, &trx.hash) {
                Some(at) => {
                    pool.remove(at);
                    assert(pool.deep_view() =~= pending.remove(at as int));
                },
                None => {
                    match trx.validate(&mut scratch) {
                        Ok(()) => {},
                        Err(e) => {
                            return Err(BlockError::BadTransaction(e));
                        },
                    }
                },
            }
            i += 1;
        }
        assert(all.skip(i as int) =~= Seq::<TransactionView>::empty());
        match self.body.coinbase.validation(last_block, &self.body.transactions) {
            Ok(()) => {},
            Err(e) => {
                return Err(BlockError::BadCoinbase(e));
            },
        }
        match self.record_all(&mut scratch) {
            Ok(()) => {},
            Err(e) => {
                return Err(BlockError::Ledger(e));
            },
        }
        Waiting::update(validators, &self.header.validator, turn, sync_state);
        *ledger = scratch;
        *mempool = pool;
        *last_block = Some(self.clone());
        Ok(self.clone())
    }
}


impl BlockError {
    /// What the operator is told of each error.
    pub open spec fn spec_describe(self) -> Seq<char> {
        match self {
            BlockError::ChainMismatch => "Block validation problem!, previous hash doesn't match and Block rejected."@,
            BlockError::BadSignature => "Block signature is wrong and Block rejected."@,
            BlockError::BadTransaction(e) => e.spec_describe(),
            BlockError::BadCoinbase(e) => e.spec_describe(),
            BlockError::Ledger(e) => e.spec_describe(),
            BlockError::Signing => "Your seed phrase is wrong!"@,
            BlockError::NoRelay => "The relay's peer is not known!"@,
        }
    }

    /// The error in words, for the operator.
    pub fn describe(&self) -> (r: &'static str)
        ensures
            r@ == self.spec_describe(),
    {
        match self {
            BlockError::ChainMismatch => "Block validation problem!, previous hash doesn't match and Block rejected.",
            BlockError::BadSignature => "Block signature is wrong and Block rejected.",
            BlockError::BadTransaction(e) => e.describe(),
            BlockError::BadCoinbase(e) => e.describe(),
            BlockError::Ledger(e) => e.describe(),
            BlockError::Signing => "Your seed phrase is wrong!",
            BlockError::NoRelay => "The relay's peer is not known!",
        }
    }
}

} // verus!
