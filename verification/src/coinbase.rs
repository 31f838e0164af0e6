//! The coinbase of a block: the reward and the split of the fees.

use crate::amount::{Amount, LEDGER_SCALE};
use crate::block::Block;
use crate::hashing::{hash_of, number_field, text_field, write_number, write_text, HashMaker};
use crate::identity::Public;
use crate::merkel::{merkle_root, MerkelRoot};
use crate::reward::Reward;
use crate::transaction::{
    trx_hashes, Output, OutputView, Transaction, TransactionView, Unspent, UnspentView,
};
use crate::utxo::{amount_field, lemma_total_none, total, write_amount};
use crate::validator::Relay;
use vstd::prelude::*;
use vstd::string::*;

verus! {

/// Why a coinbase was refused, or could not be built.
#[derive(Clone, Copy, Debug, PartialEq, Eq, Structural)]
pub enum CoinbaseError {
    /// The reward is not the one the height gives.
    Reward,
    /// The Merkle root is not that of the block's transactions.
    Merkel,
    /// Fees, relay fee or validator fee are not those of the transactions.
    Fees,
    /// The relay is owed a fee and no output pays it.
    RelayFee,
    /// The relay's wallet is not known, so its fee cannot be paid.
    RelayWallet,
    /// The amounts do not fit a decimal.
    Amount,
}

/// The reward and fee distribution at the head of a block's body.
#[derive(Debug, PartialEq, Eq)]
pub struct Coinbase {
    pub hash: String,
    pub size: u8,
    pub merkel: String,
    pub reward: Amount,
    pub output: Output,
    pub fees: Amount,
    pub relay_fee: Amount,
    pub validator_fee: Amount,
}

/// The view of a [`Coinbase`].
pub struct CoinbaseView {
    pub hash: Seq<char>,
    pub size: u8,
    pub merkel: Seq<char>,
    pub reward: Amount,
    pub output: OutputView,
    pub fees: Amount,
    pub relay_fee: Amount,
    pub validator_fee: Amount,
}

impl DeepView for Coinbase {
    type V = CoinbaseView;

    open spec fn deep_view(&self) -> CoinbaseView {
        CoinbaseView {
            hash: self.hash@,
            size: self.size,
            merkel: self.merkel@,
            reward: self.reward,
            output: self.output@,
            fees: self.fees,
            relay_fee: self.relay_fee,
            validator_fee: self.validator_fee,
        }
    }
}

impl View for Coinbase {
    type V = CoinbaseView;

    open spec fn view(&self) -> CoinbaseView {
        self.deep_view()
    }
}

impl Clone for Coinbase {
    fn clone(&self) -> (r: Self)
        ensures
            r@ == self@,
    {
        Coinbase {
            hash: self.hash.clone(),
            size: self.size,
            merkel: self.merkel.clone(),
            reward: self.reward,
            output: self.output.clone(),
            fees: self.fees,
            relay_fee: self.relay_fee,
            validator_fee: self.validator_fee,
        }
    }
}

/// The fees of the transactions, in order.
pub open spec fn trx_fees(transactions: Seq<TransactionView>) -> Seq<Amount> {
    transactions.map_values(|t: TransactionView| t.fee)
}

/// Fees, relay fee and validator fee of a block.
pub struct FeeSplit {
    pub fees: Amount,
    pub relay_fee: Amount,
    pub validator_fee: Amount,
}

impl Coinbase {
    /// One tenth, the relay's share of the fees.
    pub open spec fn relay_share() -> Amount {
        Amount { mantissa: 10, scale: 2 }
    }

    /// Two, by which the genesis reward is divided.
    pub open spec fn two() -> Amount {
        Amount { mantissa: 20, scale: 1 }
    }

    /// The fee split of a list of transactions: the fees are their total,
    /// the relay has a tenth of it, rounded to the ledger's precision, and
    /// the validator the rest. `None` where the decimal arithmetic fails.
    pub open spec fn spec_split(transactions: Seq<TransactionView>) -> Option<FeeSplit> {
        match total(trx_fees(transactions)) {
            None => None,
            Some(fees) => match fees.spec_mul(&Coinbase::relay_share()) {
                None => None,
                Some(tenth) => {
                    let relay_fee = tenth.spec_round(LEDGER_SCALE);
                    match fees.spec_sub(&relay_fee) {
                        None => None,
                        Some(validator_fee) => Some(FeeSplit { fees, relay_fee, validator_fee }),
                    }
                },
            },
        }
    }

    /// Computes the fee split of the transactions.
    #[verifier::loop_isolation(false)]
    pub fn split(transactions: &Vec<Transaction>) -> (r: Option<FeeSplit>)
        ensures
            r == Coinbase::spec_split(transactions.deep_view()),
            r is Some ==> r->0.fees.wf() && r->0.relay_fee.wf() && r->0.validator_fee.wf(),
    {
        let ghost fee_list = trx_fees(transactions.deep_view());
        let mut fees = Amount { mantissa: 0, scale: 0 };
        let mut i: usize = 0;
        assert(fee_list.take(0) =~= Seq::<Amount>::empty());
        while i < transactions.len()
            invariant
                i <= transactions.len(),
                total(fee_list.take(i as int)) == Some(fees),
                fees.wf(),
            decreases transactions.len() - i,
        {
            proof {
                let next = fee_list.take(i + 1);
                assert(next.drop_last() =~= fee_list.take(i as int));
                assert(next.last() == transactions[i as int].fee);
                assert(total(next) == fees.spec_add(&transactions[i as int].fee));
            }
            match fees.checked_add(&transactions[i].fee) {
                Some(s) => {
                    fees = s;
                },
                None => {
                    proof {
                        lemma_total_none(fee_list, i + 1);
                    }
                    return None;
                },
            }
            i += 1;
        }
        assert(fee_list.take(i as int) =~= fee_list);
        let tenth = match fees.checked_mul(&Amount { mantissa: 10, scale: 2 }) {
            Some(t) => t,
            None => {
                return None;
            },
        };
        let relay_fee = tenth.round(LEDGER_SCALE);
        match fees.checked_sub(&relay_fee) {
            Some(validator_fee) => Some(FeeSplit { fees, relay_fee, validator_fee }),
            None => None,
        }
    }

    /// The first half of a coinbase's text: hash, size, root and reward.
    pub open spec fn spec_text_head(c: CoinbaseView) -> Seq<char> {
        text_field(c.hash) + number_field(c.size as nat) + text_field(c.merkel) + amount_field(
            c.reward,
        )
    }

    /// The second half: the outputs and the three fees.
    pub open spec fn spec_text_tail(c: CoinbaseView) -> Seq<char> {
        Output::spec_text(c.output) + amount_field(c.fees) + amount_field(c.relay_fee)
            + amount_field(c.validator_fee)
    }

    /// The text of a coinbase within a block body.
    pub open spec fn spec_text(c: CoinbaseView) -> Seq<char> {
        Coinbase::spec_text_head(c) + Coinbase::spec_text_tail(c)
    }

    fn write_head(&self, out: &mut String)
        ensures
            final(out)@ == old(out)@ + Coinbase::spec_text_head(self@),
    {
        write_text(out, self.hash.as_str());
        write_number(out, self.size as u64);
        write_text(out, self.merkel.as_str());
        write_amount(out, &self.reward);
        assert(out@ =~= old(out)@ + Coinbase::spec_text_head(self@));
    }

    fn write_tail(&self, out: &mut String)
        ensures
            final(out)@ == old(out)@ + Coinbase::spec_text_tail(self@),
    {
        self.output.write(out);
        write_amount(out, &self.fees);
        write_amount(out, &self.relay_fee);
        write_amount(out, &self.validator_fee);
        assert(out@ =~= old(out)@ + Coinbase::spec_text_tail(self@));
    }

    /// Appends the coinbase's text.
    pub fn write(&self, out: &mut String)
        ensures
            final(out)@ == old(out)@ + Coinbase::spec_text(self@),
    {
        self.write_head(out);
        self.write_tail(out);
        assert(out@ =~= old(out)@ + Coinbase::spec_text(self@));
    }
}


impl Coinbase {
    /// Whether one of the outputs pays exactly `amount`.
    pub open spec fn pays(unspents: Seq<UnspentView>, amount: Amount) -> bool {
        exists|i: int| 0 <= i < unspents.len() && (#[trigger] unspents[i]).data.value.spec_equals(&amount)
    }

    /// Tells whether one of the outputs pays exactly `amount`.
    pub fn has_payment(unspents: &Vec<Unspent>, amount: &Amount) -> (r: bool)
        ensures
            r == Coinbase::pays(unspents.deep_view(), *amount),
    {
        let mut i: usize = 0;
        while i < unspents.len()
            invariant
                i <= unspents.len(),
                forall|j: int| 0 <= j < i ==> !(#[trigger] unspents.deep_view()[j]).data.value.spec_equals(amount),
            decreases unspents.len() - i,
        {
            if unspents[i].data.value.equals(amount) {
                assert(unspents.deep_view()[i as int].data.value.spec_equals(amount));
                return true;
            }
            i += 1;
        }
        false
    }

    /// The outputs of a coinbase. Without fees the reward goes to the
    /// validator in two halves; with fees the validator has the reward
    /// and its fee, and the relay its fee in between.
    pub open spec fn spec_outputs(
        wallet: Seq<u8>,
        relay_wallet: Option<Seq<u8>>,
        reward: Amount,
        split: FeeSplit,
        salts: (u32, u32, u32),
    ) -> Result<Seq<UnspentView>, CoinbaseError> {
        if split.fees.mantissa == 0 {
            match reward.spec_div(&Coinbase::two()) {
                Some(half) => Ok(
                    seq![
                        Unspent::spec_new(wallet, half, salts.0),
                        Unspent::spec_new(wallet, half, salts.1),
                    ],
                ),
                None => Err(CoinbaseError::Amount),
            }
        } else {
            match relay_wallet {
                Some(relay) => Ok(
                    seq![
                        Unspent::spec_new(wallet, reward, salts.0),
                        Unspent::spec_new(relay, split.relay_fee, salts.1),
                        Unspent::spec_new(wallet, split.validator_fee, salts.2),
                    ],
                ),
                None => Err(CoinbaseError::RelayWallet),
            }
        }
    }

    /// The coinbase of a block of `transactions` on top of `tip`.
    pub open spec fn spec_new(
        transactions: Seq<TransactionView>,
        wallet: Seq<u8>,
        tip: Option<crate::block::BlockView>,
        relay_wallet: Option<Seq<u8>>,
        salts: (u32, u32, u32),
    ) -> Result<CoinbaseView, CoinbaseError> {
        match Coinbase::spec_split(transactions) {
            None => Err(CoinbaseError::Amount),
            Some(split) => {
                let reward = Reward::spec_at(Reward::next_height(tip));
                match Coinbase::spec_outputs(wallet, relay_wallet, reward, split, salts) {
                    Err(e) => Err(e),
                    Ok(unspents) => {
                        let output = Output::spec_new(unspents);
                        Ok(
                            CoinbaseView {
                                hash: hash_of(output.hash),
                                size: ((transactions.len() + 1) % 256) as u8,
                                merkel: merkle_root(trx_hashes(transactions)),
                                reward,
                                output,
                                fees: split.fees,
                                relay_fee: split.relay_fee,
                                validator_fee: split.validator_fee,
                            },
                        )
                    },
                }
            },
        }
    }

    /// Builds the coinbase of a block of `transactions` on top of
    /// `last_block`, for the validator `wallet` behind `relay`.
    ///
    /// The reward is that of the next height; the fees are the total of
    /// the transactions' fees, of which the relay has a tenth. The salts
    /// of the outputs are drawn by the caller. Errors: `Amount` where the
    /// decimal arithmetic fails, `RelayWallet` where fees are owed to a
    /// relay whose wallet is not known.
    pub fn new(
        transactions: &Vec<Transaction>,
        wallet: &Public,
        last_block: &Option<Block>,
        relay: &Relay,
        salts: (u32, u32, u32),
    ) -> (r: Result<Coinbase, CoinbaseError>)
        ensures
            match Coinbase::spec_new(
                transactions.deep_view(),
                wallet@,
                crate::block::tip_view(*last_block),
                relay@.wallet,
                salts,
            ) {
                Ok(c) => r is Ok && r->Ok_0@ == c,
                Err(e) => r == Err::<Coinbase, CoinbaseError>(e),
            },
    {
        let split = match Coinbase::split(transactions) {
            Some(s) => s,
            None => {
                return Err(CoinbaseError::Amount);
            },
        };
        let hashes = Transaction::hashes(transactions);
        let merkel = MerkelRoot::make(&hashes);
        let size = ((transactions.len() % 256 + 1) % 256) as u8;
        let reward = Reward::calculate(last_block);
        let mut outputs: Vec<Unspent> = Vec::new();
        if split.fees.mantissa == 0 {
            let half = match reward.checked_div(&Amount { mantissa: 20, scale: 1 }) {
                Some(h) => h,
                None => {
                    return Err(CoinbaseError::Amount);
                },
            };
            outputs.push(Unspent::new(wallet, half, salts.0));
            outputs.push(Unspent::new(wallet, half, salts.1));
            assert(outputs.deep_view() =~= seq![
                Unspent::spec_new(wallet@, half, salts.0),
                Unspent::spec_new(wallet@, half, salts.1),
            ]);
        } else {
            let relay_wallet = match &relay.wallet {
                Some(w) => *w,
                None => {
                    return Err(CoinbaseError::RelayWallet);
                },
            };
            outputs.push(Unspent::new(wallet, reward, salts.0));
            outputs.push(Unspent::new(&relay_wallet, split.relay_fee, salts.1));
            outputs.push(Unspent::new(wallet, split.validator_fee, salts.2));
            assert(outputs.deep_view() =~= seq![
                Unspent::spec_new(wallet@, reward, salts.0),
                Unspent::spec_new(relay_wallet@, split.relay_fee, salts.1),
                Unspent::spec_new(wallet@, split.validator_fee, salts.2),
            ]);
        }
        let output = Output::new(outputs);
        let hash = HashMaker::generate(&output.hash);
        Ok(
            Coinbase {
                hash,
                size,
                merkel,
                reward,
                output,
                fees: split.fees,
                relay_fee: split.relay_fee,
                validator_fee: split.validator_fee,
            },
        )
    }

    /// What judging decides of a coinbase, given the reward of the next
    /// height, the Merkle root of the block's transactions, and their
    /// fee split, where there is one.
    pub open spec fn spec_judge(
        c: CoinbaseView,
        reward: Amount,
        merkel: Seq<char>,
        split: Option<FeeSplit>,
    ) -> Result<(), CoinbaseError> {
        if !c.reward.spec_equals(&reward) {
            Err(CoinbaseError::Reward)
        } else if merkel != c.merkel {
            Err(CoinbaseError::Merkel)
        } else {
            match split {
                None => Err(CoinbaseError::Fees),
                Some(split) => {
                    if !(split.fees.spec_equals(&c.fees) && split.relay_fee.spec_equals(&c.relay_fee)
                        && split.validator_fee.spec_equals(&c.validator_fee)) {
                        Err(CoinbaseError::Fees)
                    } else if split.relay_fee.mantissa > 0 && !Coinbase::pays(
                        c.output.unspents,
                        split.relay_fee,
                    ) {
                        Err(CoinbaseError::RelayFee)
                    } else {
                        Ok(())
                    }
                },
            }
        }
    }

    /// Judges the coinbase against what was computed for its block.
    ///
    /// The declared reward must equal `reward` (`Reward`), the declared
    /// Merkle root must be `merkel` (`Merkel`), and fees, relay fee and
    /// validator fee must equal those of `split`, which must exist
    /// (`Fees`); where the relay is owed a fee, one output must pay
    /// exactly that amount (`RelayFee`). Amounts are equal where they
    /// denote the same number.
    pub fn judge(&self, reward: &Amount, merkel: &String, split: Option<FeeSplit>) -> (r: Result<
        (),
        CoinbaseError,
    >)
        ensures
            r == Coinbase::spec_judge(self@, *reward, merkel@, split),
    {
        if !self.reward.equals(reward) {
            return Err(CoinbaseError::Reward);
        }
        if !(*merkel == self.merkel) {
            return Err(CoinbaseError::Merkel);
        }
        let split = match split {
            Some(s) => s,
            None => {
                return Err(CoinbaseError::Fees);
            },
        };
        if !(split.fees.equals(&self.fees) && split.relay_fee.equals(&self.relay_fee)
            && split.validator_fee.equals(&self.validator_fee)) {
            return Err(CoinbaseError::Fees);
        }
        if split.relay_fee.mantissa > 0 && !Coinbase::has_payment(
            &self.output.unspents,
            &split.relay_fee,
        ) {
            return Err(CoinbaseError::RelayFee);
        }
        Ok(())
    }

    /// What validation decides of a coinbase at the head of a block of
    /// `transactions` on top of `tip`.
    pub open spec fn spec_validation(
        c: CoinbaseView,
        tip: Option<crate::block::BlockView>,
        transactions: Seq<TransactionView>,
    ) -> Result<(), CoinbaseError> {
        Coinbase::spec_judge(
            c,
            Reward::spec_at(Reward::next_height(tip)),
            merkle_root(trx_hashes(transactions)),
            Coinbase::spec_split(transactions),
        )
    }

    /// Validates the coinbase of a received block.
    ///
    /// The reward must be that of the next height, the Merkle root that of
    /// the block's transactions, and fees, relay fee and validator fee
    /// those that the transactions give; where the relay is owed a fee,
    /// one output must pay exactly that amount. The error names the first
    /// of these that does not hold.
    pub fn validation(&self, last_block: &Option<Block>, transactions: &Vec<Transaction>) -> (r: Result<
        (),
        CoinbaseError,
    >)
        ensures
            r == Coinbase::spec_validation(
                self@,
                crate::block::tip_view(*last_block),
                transactions.deep_view(),
            ),
    {
        let reward = Reward::calculate(last_block);
        let hashes = Transaction::hashes(transactions);
        let merkel = MerkelRoot::make(&hashes);
        let split = Coinbase::split(transactions);
        self.judge(&reward, &merkel, split)
    }
}


impl CoinbaseError {
    /// What the operator is told of each error.
    pub open spec fn spec_describe(self) -> Seq<char> {
        match self {
            CoinbaseError::Reward => "Received block's reward in coinbase is incorrect!"@,
            CoinbaseError::Merkel => "Merkel root of coinbase is wrong!"@,
            CoinbaseError::Fees => "Fees of coinbase transaction are wrong!"@,
            CoinbaseError::RelayFee => "Coinbase's relay fee is wrong!"@,
            CoinbaseError::RelayWallet => "The relay's wallet is not known!"@,
            CoinbaseError::Amount => "Coinbase amounts do not fit a decimal!"@,
        }
    }

    /// The error in words, for the operator.
    pub fn describe(&self) -> (r: &'static str)
        ensures
            r@ == self.spec_describe(),
    {
        match self {
            CoinbaseError::Reward => "Received block's reward in coinbase is incorrect!",
            CoinbaseError::Merkel => "Merkel root of coinbase is wrong!",
            CoinbaseError::Fees => "Fees of coinbase transaction are wrong!",
            CoinbaseError::RelayFee => "Coinbase's relay fee is wrong!",
            CoinbaseError::RelayWallet => "The relay's wallet is not known!",
            CoinbaseError::Amount => "Coinbase amounts do not fit a decimal!",
        }
    }
}

} // verus!
