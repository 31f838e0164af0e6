//! Transactions: what they hold, how they are hashed, and when one is valid.

use crate::amount::Amount;
use crate::hashing::{
    hash_of, hex_text, number_field, text_field, write_hex, write_number, write_text, HashMaker,
};
use crate::identity::{Public, Sign, SignView};
use crate::merkel::{merkle_root, MerkelRoot};
use crate::utxo::{
    amount_field, total, unspent_amounts, write_amount, Ledger, LedgerError, PersonView, UtxoView, UTXO,
};
use vstd::prelude::*;
use vstd::string::*;

verus! {

/// How a transaction is signed: by one key or by several.
#[derive(Clone, Copy, Debug, PartialEq, Eq, Structural)]
pub enum Script {
    Single,
    Multi,
}

/// What an output pays: the receiving wallet, a salt that tells equal
/// payments apart, and the amount.
#[derive(Clone, Copy, Debug, PartialEq, Eq)]
pub struct UnspentData {
    pub wallet: Public,
    pub salt: u32,
    pub value: Amount,
}

/// The view of an [`UnspentData`].
pub struct UnspentDataView {
    pub wallet: Seq<u8>,
    pub salt: u32,
    pub value: Amount,
}

impl DeepView for UnspentData {
    type V = UnspentDataView;

    open spec fn deep_view(&self) -> UnspentDataView {
        UnspentDataView { wallet: self.wallet@, salt: self.salt, value: self.value }
    }
}

impl View for UnspentData {
    type V = UnspentDataView;

    open spec fn view(&self) -> UnspentDataView {
        self.deep_view()
    }
}

/// A new output of a transaction, with the hash it will be known by.
#[derive(Debug, PartialEq, Eq)]
pub struct Unspent {
    pub hash: String,
    pub data: UnspentData,
}

/// The view of an [`Unspent`].
pub struct UnspentView {
    pub hash: Seq<char>,
    pub data: UnspentDataView,
}

impl DeepView for Unspent {
    type V = UnspentView;

    open spec fn deep_view(&self) -> UnspentView {
        UnspentView { hash: self.hash@, data: self.data@ }
    }
}

impl View for Unspent {
    type V = UnspentView;

    open spec fn view(&self) -> UnspentView {
        self.deep_view()
    }
}

impl Clone for Unspent {
    fn clone(&self) -> (r: Self)
        ensures
            r@ == self@,
    {
        Unspent { hash: self.hash.clone(), data: self.data }
    }
}

impl UnspentData {
    /// The text an output's hash is taken of: the wallet in hex, the salt
    /// and the amount.
    pub open spec fn spec_text(d: UnspentDataView) -> Seq<char> {
        hex_text(d.wallet) + number_field(d.salt as nat) + amount_field(d.value)
    }

    /// Appends the text.
    pub fn write(&self, out: &mut String)
        ensures
            final(out)@ == old(out)@ + UnspentData::spec_text(self@),
    {
        write_hex(out, self.wallet.bytes.as_slice());
        write_number(out, self.salt as u64);
        write_amount(out, &self.value);
        assert(out@ =~= old(out)@ + UnspentData::spec_text(self@));
    }
}

impl Unspent {
    /// The output that pays `value` to `wallet` under `salt`.
    pub open spec fn spec_new(wallet: Seq<u8>, value: Amount, salt: u32) -> UnspentView {
        let data = UnspentDataView { wallet, salt, value };
        UnspentView { hash: hash_of(UnspentData::spec_text(data)), data }
    }

    /// A new output paying `value` to `wallet`. The salt is drawn by the
    /// caller; the hash is taken of wallet, salt and value.
    pub fn new(wallet: &Public, value: Amount, salt: u32) -> (r: Self)
        ensures
            r@ == Unspent::spec_new(wallet@, value, salt),
    {
        let data = UnspentData { wallet: *wallet, salt, value };
        let mut text = String::new();
        data.write(&mut text);
        assert(text@ =~= UnspentData::spec_text(data@));
        Unspent { hash: HashMaker::generate(&text), data }
    }

    /// The text of one output in a list: its hash, then what it pays.
    pub open spec fn spec_text(u: UnspentView) -> Seq<char> {
        text_field(u.hash) + UnspentData::spec_text(u.data)
    }

    /// The texts of the outputs, joined.
    pub open spec fn spec_texts(unspents: Seq<UnspentView>) -> Seq<char>
        decreases unspents.len(),
    {
        if unspents.len() == 0 {
            Seq::<char>::empty()
        } else {
            Unspent::spec_texts(unspents.drop_last()) + Unspent::spec_text(unspents.last())
        }
    }

    /// Appends the output's text.
    pub fn write(&self, out: &mut String)
        ensures
            final(out)@ == old(out)@ + Unspent::spec_text(self@),
    {
        write_text(out, self.hash.as_str());
        self.data.write(out);
        assert(out@ =~= old(out)@ + Unspent::spec_text(self@));
    }

    /// Appends the texts of the outputs.
    pub fn write_all(unspents: &Vec<Unspent>, out: &mut String)
        ensures
            final(out)@ == old(out)@ + Unspent::spec_texts(unspents.deep_view()),
    {
        let mut i: usize = 0;
        assert(unspents.deep_view().take(0) =~= Seq::<UnspentView>::empty());
        while i < unspents.len()
            invariant
                i <= unspents.len(),
                out@ == old(out)@ + Unspent::spec_texts(unspents.deep_view().take(i as int)),
            decreases unspents.len() - i,
        {
            unspents[i].write(out);
            proof {
                let next = unspents.deep_view().take(i + 1);
                assert(next.drop_last() =~= unspents.deep_view().take(i as int));
                assert(next.last() == unspents[i as int]@);
                assert(out@ =~= old(out)@ + Unspent::spec_texts(next));
            }
            i += 1;
        }
        assert(unspents.deep_view().take(i as int) =~= unspents.deep_view());
    }
}

/// The inputs of a transaction: the outputs it spends, their count, and
/// the hash of their list.
#[derive(Debug, PartialEq, Eq)]
pub struct Input {
    pub hash: String,
    pub number: u8,
    pub utxos: Vec<UTXO>,
}

/// The view of an [`Input`].
pub struct InputView {
    pub hash: Seq<char>,
    pub number: u8,
    pub utxos: Seq<UtxoView>,
}

impl DeepView for Input {
    type V = InputView;

    open spec fn deep_view(&self) -> InputView {
        InputView { hash: self.hash@, number: self.number, utxos: self.utxos.deep_view() }
    }
}

impl View for Input {
    type V = InputView;

    open spec fn view(&self) -> InputView {
        self.deep_view()
    }
}

impl Clone for Input {
    fn clone(&self) -> (r: Self)
        ensures
            r@ == self@,
    {
        let utxos = self.utxos.clone();
        assert(utxos.deep_view() =~= self.utxos.deep_view());
        Input { hash: self.hash.clone(), number: self.number, utxos }
    }
}

impl Input {
    /// The hash of a list of spent outputs.
    pub open spec fn spec_hash(utxos: Seq<UtxoView>) -> Seq<char> {
        hash_of(UTXO::spec_texts(utxos))
    }

    /// The inputs that spend `utxos`.
    pub open spec fn spec_new(utxos: Seq<UtxoView>) -> InputView {
        InputView { hash: Input::spec_hash(utxos), number: (utxos.len() % 256) as u8, utxos }
    }

    /// Computes the hash of a list of spent outputs.
    pub fn hash_utxos(utxos: &Vec<UTXO>) -> (r: String)
        ensures
            r@ == Input::spec_hash(utxos.deep_view()),
    {
        let mut text = String::new();
        UTXO::write_all(utxos, &mut text);
        assert(text@ =~= UTXO::spec_texts(utxos.deep_view()));
        HashMaker::generate(&text)
    }

    /// The inputs that spend `utxos`; the count wraps at 256.
    pub fn new(utxos: Vec<UTXO>) -> (r: Self)
        ensures
            r@ == Input::spec_new(utxos.deep_view()),
    {
        let hash = Input::hash_utxos(&utxos);
        let number = (utxos.len() % 256) as u8;
        Input { hash, number, utxos }
    }

    /// The text of the inputs within a transaction.
    pub open spec fn spec_text(i: InputView) -> Seq<char> {
        text_field(i.hash) + number_field(i.number as nat) + number_field(i.utxos.len())
            + UTXO::spec_texts(i.utxos)
    }

    /// Appends the text.
    pub fn write(&self, out: &mut String)
        ensures
            final(out)@ == old(out)@ + Input::spec_text(self@),
    {
        write_text(out, self.hash.as_str());
        write_number(out, self.number as u64);
        write_number(out, self.utxos.len() as u64);
        UTXO::write_all(&self.utxos, out);
        assert(out@ =~= old(out)@ + Input::spec_text(self@));
    }
}

/// The outputs of a transaction: the new outputs, their count, and the
/// hash of their list.
#[derive(Debug, PartialEq, Eq)]
pub struct Output {
    pub hash: String,
    pub number: usize,
    pub unspents: Vec<Unspent>,
}

/// The view of an [`Output`].
pub struct OutputView {
    pub hash: Seq<char>,
    pub number: usize,
    pub unspents: Seq<UnspentView>,
}

impl DeepView for Output {
    type V = OutputView;

    open spec fn deep_view(&self) -> OutputView {
        OutputView { hash: self.hash@, number: self.number, unspents: self.unspents.deep_view() }
    }
}

impl View for Output {
    type V = OutputView;

    open spec fn view(&self) -> OutputView {
        self.deep_view()
    }
}

impl Clone for Output {
    fn clone(&self) -> (r: Self)
        ensures
            r@ == self@,
    {
        let unspents = self.unspents.clone();
        assert(unspents.deep_view() =~= self.unspents.deep_view());
        Output { hash: self.hash.clone(), number: self.number, unspents }
    }
}

impl Output {
    /// The hash of a list of new outputs.
    pub open spec fn spec_hash(unspents: Seq<UnspentView>) -> Seq<char> {
        hash_of(Unspent::spec_texts(unspents))
    }

    /// The outputs made of `unspents`.
    pub open spec fn spec_new(unspents: Seq<UnspentView>) -> OutputView {
        OutputView { hash: Output::spec_hash(unspents), number: unspents.len() as usize, unspents }
    }

    /// Computes the hash of a list of new outputs.
    pub fn hash_unspents(unspents: &Vec<Unspent>) -> (r: String)
        ensures
            r@ == Output::spec_hash(unspents.deep_view()),
    {
        let mut text = String::new();
        Unspent::write_all(unspents, &mut text);
        assert(text@ =~= Unspent::spec_texts(unspents.deep_view()));
        HashMaker::generate(&text)
    }

    /// The outputs made of `unspents`.
    pub fn new(unspents: Vec<Unspent>) -> (r: Self)
        ensures
            r@ == Output::spec_new(unspents.deep_view()),
    {
        let hash = Output::hash_unspents(&unspents);
        let number = unspents.len();
        Output { hash, number, unspents }
    }

    /// The text of the outputs within a transaction.
    pub open spec fn spec_text(o: OutputView) -> Seq<char> {
        text_field(o.hash) + number_field(o.number as nat) + number_field(o.unspents.len())
            + Unspent::spec_texts(o.unspents)
    }

    /// Appends the text.
    pub fn write(&self, out: &mut String)
        ensures
            final(out)@ == old(out)@ + Output::spec_text(self@),
    {
        write_text(out, self.hash.as_str());
        write_number(out, self.number as u64);
        write_number(out, self.unspents.len() as u64);
        Unspent::write_all(&self.unspents, out);
        assert(out@ =~= old(out)@ + Output::spec_text(self@));
    }
}

/// What a relay answers to a posted transaction.
#[derive(Debug, PartialEq, Eq)]
pub struct TxRes {
    pub hash: String,
    pub status: String,
    pub description: String,
}

impl TxRes {
    /// Whether the relay reports success.
    pub fn accepted(&self) -> (r: bool)
        ensures
            r == (self.status@ == "success"@),
    {
        let success = String::from_str("success");
        self.status == success
    }
}


/// Why a transaction was refused.
#[derive(Clone, Copy, Debug, PartialEq, Eq, Structural)]
pub enum TrxError {
    /// The input hash or the output hash is not that of the contents.
    InputOutputHash,
    /// The transaction hash is not the root of input and output hash.
    TransactionHash,
    /// No signature, too many for a single-signature script, or one that
    /// does not verify.
    Signature,
    /// An input is not among the signer's unspent outputs.
    Utxo(LedgerError),
    /// The amounts do not fit a decimal.
    Amount,
    /// The seed phrase was rejected when signing.
    Signing,
}

/// A transfer: spent outputs in, new outputs out, signed by the spender.
#[derive(Debug, PartialEq, Eq)]
pub struct Transaction {
    pub hash: String,
    pub input: Input,
    pub output: Output,
    pub value: Amount,
    pub fee: Amount,
    pub script: Script,
    pub signature: Vec<Sign>,
    pub date: String,
}

/// The view of a [`Transaction`].
pub struct TransactionView {
    pub hash: Seq<char>,
    pub input: InputView,
    pub output: OutputView,
    pub value: Amount,
    pub fee: Amount,
    pub script: Script,
    pub signature: Seq<SignView>,
    pub date: Seq<char>,
}

impl DeepView for Transaction {
    type V = TransactionView;

    open spec fn deep_view(&self) -> TransactionView {
        TransactionView {
            hash: self.hash@,
            input: self.input@,
            output: self.output@,
            value: self.value,
            fee: self.fee,
            script: self.script,
            signature: self.signature.deep_view(),
            date: self.date@,
        }
    }
}

impl View for Transaction {
    type V = TransactionView;

    open spec fn view(&self) -> TransactionView {
        self.deep_view()
    }
}

impl Clone for Transaction {
    fn clone(&self) -> (r: Self)
        ensures
            r@ == self@,
    {
        let signature = self.signature.clone();
        assert(signature.deep_view() =~= self.signature.deep_view());
        Transaction {
            hash: self.hash.clone(),
            input: self.input.clone(),
            output: self.output.clone(),
            value: self.value,
            fee: self.fee,
            script: self.script,
            signature,
            date: self.date.clone(),
        }
    }
}

/// The hashes of the transactions, in order.
pub open spec fn trx_hashes(transactions: Seq<TransactionView>) -> Seq<Seq<char>> {
    transactions.map_values(|t: TransactionView| t.hash)
}

/// The ledger after the wallet has spent every listed output, one after
/// the other; the first that it does not hold gives the error.
pub open spec fn spec_consume_all(people: Seq<PersonView>, wallet: Seq<u8>, utxos: Seq<UtxoView>) -> Result<
    Seq<PersonView>,
    LedgerError,
>
    decreases utxos.len(),
{
    if utxos.len() == 0 {
        Ok(people)
    } else {
        match Ledger::spec_consume(people, wallet, utxos[0].unspent_hash) {
            Ok(next) => spec_consume_all(next, wallet, utxos.drop_first()),
            Err(e) => Err(e),
        }
    }
}

impl Transaction {
    /// Input and output hash are those of the contents.
    pub open spec fn contents_hashed(t: TransactionView) -> bool {
        &&& Input::spec_hash(t.input.utxos) == t.input.hash
        &&& Output::spec_hash(t.output.unspents) == t.output.hash
    }

    /// The transaction hash is the root of input and output hash.
    pub open spec fn root_hashed(t: TransactionView) -> bool {
        merkle_root(seq![t.input.hash, t.output.hash]) == t.hash
    }

    /// There is a signature, a single-signature script carries exactly
    /// one, and the first verifies over the transaction hash under the
    /// key it names.
    pub open spec fn signed(t: TransactionView) -> bool {
        &&& t.signature.len() >= 1
        &&& t.script == Script::Single ==> t.signature.len() == 1
        &&& Sign::spec_verify(t.signature[0], t.hash)
    }

    /// The wallet that signed: the key of the first signature.
    pub open spec fn signer(t: TransactionView) -> Seq<u8> {
        t.signature[0].key
    }

    /// Every input is among the signer's unspent outputs, each after the
    /// ones before it are spent.
    pub open spec fn inputs_available(t: TransactionView, people: Seq<PersonView>) -> bool {
        spec_consume_all(people, Transaction::signer(t), t.input.utxos) is Ok
    }

    /// What validation decides: the ledger with the inputs spent, or the
    /// first check that failed.
    pub open spec fn spec_validate(t: TransactionView, people: Seq<PersonView>) -> Result<
        Seq<PersonView>,
        TrxError,
    > {
        if !Transaction::contents_hashed(t) {
            Err(TrxError::InputOutputHash)
        } else if !Transaction::root_hashed(t) {
            Err(TrxError::TransactionHash)
        } else if !Transaction::signed(t) {
            Err(TrxError::Signature)
        } else {
            match spec_consume_all(people, Transaction::signer(t), t.input.utxos) {
                Ok(after) => Ok(after),
                Err(e) => Err(TrxError::Utxo(e)),
            }
        }
    }

    /// Checks the signatures: see [`Transaction::signed`].
    pub fn verify_signature(&self) -> (r: bool)
        ensures
            r == Transaction::signed(self@),
    {
        if self.signature.len() == 0 {
            return false;
        }
        if let Script::Single = self.script {
            if self.signature.len() != 1 {
                return false;
            }
        }
        assert(self.signature.deep_view()[0] == self.signature[0]@);
        self.signature[0].verify(&self.hash)
    }

    /// What judging decides, given the hashes computed of the contents
    /// and whether the first signature verified: the ledger with the
    /// inputs spent, or the first check that failed.
    pub open spec fn spec_judge(
        t: TransactionView,
        input_hash: Seq<char>,
        output_hash: Seq<char>,
        trx_hash: Seq<char>,
        verified: bool,
        people: Seq<PersonView>,
    ) -> Result<Seq<PersonView>, TrxError> {
        if !(input_hash == t.input.hash && output_hash == t.output.hash) {
            Err(TrxError::InputOutputHash)
        } else if trx_hash != t.hash {
            Err(TrxError::TransactionHash)
        } else if !(t.signature.len() >= 1 && (t.script == Script::Single ==> t.signature.len() == 1)
            && verified) {
            Err(TrxError::Signature)
        } else {
            match spec_consume_all(people, Transaction::signer(t), t.input.utxos) {
                Ok(after) => Ok(after),
                Err(e) => Err(TrxError::Utxo(e)),
            }
        }
    }

    /// Judges the transaction, given what was computed of it:
    /// `input_hash` and `output_hash` are the hashes of its contents,
    /// `trx_hash` is their root, and `verified` tells whether its first
    /// signature verified over its hash.
    ///
    /// The computed hashes must be the declared ones
    /// (`InputOutputHash`, `TransactionHash`); there must be a signature,
    /// exactly one under a single-signature script, and it must have
    /// verified (`Signature`); and every input must be among the
    /// signer's unspent outputs (`Utxo`). On success the inputs have
    /// left the ledger; on failure the ledger is as it was.
    #[verifier::loop_isolation(false)]
    pub fn judge(
        &self,
        input_hash: &String,
        output_hash: &String,
        trx_hash: &String,
        verified: bool,
        ledger: &mut Ledger,
    ) -> (r: Result<(), TrxError>)
        ensures
            match Transaction::spec_judge(
                self@,
                input_hash@,
                output_hash@,
                trx_hash@,
                verified,
                old(ledger)@,
            ) {
                Ok(after) => r is Ok && final(ledger)@ == after,
                Err(e) => r == Err::<(), TrxError>(e) && *final(ledger) == *old(ledger),
            },
            Ledger::wf(old(ledger)@) ==> Ledger::wf(final(ledger)@),
    {
        if !(*input_hash == self.input.hash && *output_hash == self.output.hash) {
            return Err(TrxError::InputOutputHash);
        }
        if !(*trx_hash == self.hash) {
            return Err(TrxError::TransactionHash);
        }
        if self.signature.len() == 0 || !verified {
            return Err(TrxError::Signature);
        }
        if let Script::Single = self.script {
            if self.signature.len() != 1 {
                return Err(TrxError::Signature);
            }
        }
        let signer = self.signature[0].key;
        assert(self.signature.deep_view()[0] == self.signature[0]@);
        let mut scratch = ledger.clone();
        let mut i: usize = 0;
        assert(self@.input.utxos.skip(0) =~= self@.input.utxos);
        while i < self.input.utxos.len()
            invariant
                i <= self.input.utxos.len(),
                signer@ == Transaction::signer(self@),
                spec_consume_all(old(ledger)@, signer@, self@.input.utxos) == spec_consume_all(
                    scratch@,
                    signer@,
                    self@.input.utxos.skip(i as int),
                ),
                Ledger::wf(old(ledger)@) ==> Ledger::wf(scratch@),
                *ledger == *old(ledger),
            decreases self.input.utxos.len() - i,
        {
            let ghost rest = self@.input.utxos.skip(i as int);
            assert(rest[0] == self.input.utxos[i as int]@);
            assert(rest.drop_first() =~= self@.input.utxos.skip(i + 1));
            let ghost before = scratch@;
            assert(spec_consume_all(before, signer@, rest) == match Ledger::spec_consume(
                before,
                signer@,
                rest[0].unspent_hash,
            ) {
                Ok(next) => spec_consume_all(next, signer@, rest.drop_first()),
                Err(e) => Err(e),
            });
            match self.input.utxos[i].check(&mut scratch, &signer) {
                Ok(()) => {},
                Err(e) => {
                    return Err(TrxError::Utxo(e));
                },
            }
            i += 1;
        }
        assert(self@.input.utxos.skip(i as int) =~= Seq::<UtxoView>::empty());
        *ledger = scratch;
        Ok(())
    }

    /// Validates the transaction against the ledger and spends its inputs.
    ///
    /// It succeeds exactly when the input and output hashes are those of
    /// the contents, the transaction hash is their root, the signature
    /// verifies, and every input is among the signer's unspent outputs.
    /// Then those outputs have left the ledger. Otherwise the ledger is
    /// as it was, and the error names the first check that failed.
    pub fn validate(&self, ledger: &mut Ledger) -> (r: Result<(), TrxError>)
        ensures
            r is Ok <==> Transaction::contents_hashed(self@) && Transaction::root_hashed(self@)
                && Transaction::signed(self@) && Transaction::inputs_available(self@, old(ledger)@),
            match Transaction::spec_validate(self@, old(ledger)@) {
                Ok(after) => r is Ok && final(ledger)@ == after,
                Err(e) => r == Err::<(), TrxError>(e) && *final(ledger) == *old(ledger),
            },
            Ledger::wf(old(ledger)@) ==> Ledger::wf(final(ledger)@),
    {
        let input_hash = Input::hash_utxos(&self.input.utxos);
        let output_hash = Output::hash_unspents(&self.output.unspents);
        let trx_hash = MerkelRoot::pair(&input_hash, &output_hash);
        let verified = if self.signature.len() > 0 {
            assert(self.signature.deep_view()[0] == self.signature[0]@);
            self.signature[0].verify(&self.hash)
        } else {
            false
        };
        self.judge(&input_hash, &output_hash, &trx_hash, verified, ledger)
    }
}


impl Transaction {
    /// The text of one signature: signature and key in hex.
    pub open spec fn sign_text(s: SignView) -> Seq<char> {
        hex_text(s.signature) + hex_text(s.key)
    }

    /// The texts of the signatures, joined.
    pub open spec fn sign_texts(signs: Seq<SignView>) -> Seq<char>
        decreases signs.len(),
    {
        if signs.len() == 0 {
            Seq::<char>::empty()
        } else {
            Transaction::sign_texts(signs.drop_last()) + Transaction::sign_text(signs.last())
        }
    }

    /// The mark a script leaves in a transaction's text.
    pub open spec fn script_mark(s: Script) -> char {
        match s {
            Script::Single => 'S',
            Script::Multi => 'M',
        }
    }

    /// The first half of a transaction's text: hash, inputs and outputs.
    pub open spec fn spec_text_head(t: TransactionView) -> Seq<char> {
        text_field(t.hash) + Input::spec_text(t.input) + Output::spec_text(t.output)
    }

    /// The second half: value, fee, script, signatures and date.
    pub open spec fn spec_text_tail(t: TransactionView) -> Seq<char> {
        amount_field(t.value) + amount_field(t.fee) + seq![Transaction::script_mark(t.script)]
            + number_field(t.signature.len()) + Transaction::sign_texts(t.signature) + text_field(
            t.date,
        )
    }

    /// The text of a transaction within a block body: every field, framed.
    pub open spec fn spec_text(t: TransactionView) -> Seq<char> {
        Transaction::spec_text_head(t) + Transaction::spec_text_tail(t)
    }

    /// The texts of the transactions, joined.
    pub open spec fn spec_texts(transactions: Seq<TransactionView>) -> Seq<char>
        decreases transactions.len(),
    {
        if transactions.len() == 0 {
            Seq::<char>::empty()
        } else {
            Transaction::spec_texts(transactions.drop_last()) + Transaction::spec_text(
                transactions.last(),
            )
        }
    }

    fn write_signs(signs: &Vec<Sign>, out: &mut String)
        ensures
            final(out)@ == old(out)@ + Transaction::sign_texts(signs.deep_view()),
    {
        let mut i: usize = 0;
        assert(signs.deep_view().take(0) =~= Seq::<SignView>::empty());
        while i < signs.len()
            invariant
                i <= signs.len(),
                out@ == old(out)@ + Transaction::sign_texts(signs.deep_view().take(i as int)),
            decreases signs.len() - i,
        {
            let ghost mid = out@;
            write_hex(out, signs[i].signature.bytes.as_slice());
            write_hex(out, signs[i].key.bytes.as_slice());
            proof {
                let next = signs.deep_view().take(i + 1);
                assert(next.drop_last() =~= signs.deep_view().take(i as int));
                assert(next.last() == signs[i as int]@);
                assert(out@ =~= mid + Transaction::sign_text(signs[i as int]@));
                assert(out@ =~= old(out)@ + Transaction::sign_texts(next));
            }
            i += 1;
        }
        assert(signs.deep_view().take(i as int) =~= signs.deep_view());
    }

    fn write_head(&self, out: &mut String)
        ensures
            final(out)@ == old(out)@ + Transaction::spec_text_head(self@),
    {
        write_text(out, self.hash.as_str());
        self.input.write(out);
        self.output.write(out);
        assert(out@ =~= old(out)@ + Transaction::spec_text_head(self@));
    }

    fn write_tail(&self, out: &mut String)
        ensures
            final(out)@ == old(out)@ + Transaction::spec_text_tail(self@),
    {
        write_amount(out, &self.value);
        write_amount(out, &self.fee);
        match self.script {
            Script::Single => out.push('S'),
            Script::Multi => out.push('M'),
        }
        let ghost mid = out@;
        assert(mid =~= old(out)@ + (amount_field(self.value) + amount_field(self.fee) + seq![
            Transaction::script_mark(self.script),
        ]));
        write_number(out, self.signature.len() as u64);
        Transaction::write_signs(&self.signature, out);
        write_text(out, self.date.as_str());
        assert(out@ =~= mid + (number_field(self@.signature.len()) + Transaction::sign_texts(
            self@.signature,
        ) + text_field(self@.date)));
        assert(out@ =~= old(out)@ + Transaction::spec_text_tail(self@));
    }

    /// Appends the transaction's text.
    pub fn write(&self, out: &mut String)
        ensures
            final(out)@ == old(out)@ + Transaction::spec_text(self@),
    {
        self.write_head(out);
        self.write_tail(out);
        assert(out@ =~= old(out)@ + Transaction::spec_text(self@));
    }

    /// Appends the texts of the transactions.
    pub fn write_all(transactions: &Vec<Transaction>, out: &mut String)
        ensures
            final(out)@ == old(out)@ + Transaction::spec_texts(transactions.deep_view()),
    {
        let mut i: usize = 0;
        assert(transactions.deep_view().take(0) =~= Seq::<TransactionView>::empty());
        while i < transactions.len()
            invariant
                i <= transactions.len(),
                out@ == old(out)@ + Transaction::spec_texts(transactions.deep_view().take(i as int)),
            decreases transactions.len() - i,
        {
            transactions[i].write(out);
            proof {
                let next = transactions.deep_view().take(i + 1);
                assert(next.drop_last() =~= transactions.deep_view().take(i as int));
                assert(next.last() == transactions[i as int]@);
                assert(out@ =~= old(out)@ + Transaction::spec_texts(next));
            }
            i += 1;
        }
        assert(transactions.deep_view().take(i as int) =~= transactions.deep_view());
    }

    /// One hundredth, the share of a payment that is its fee.
    pub open spec fn fee_rate() -> Amount {
        Amount { mantissa: 1, scale: 2 }
    }

    /// The fee of a payment: one hundredth of its value; `None` where the
    /// value is ill-formed or the product does not fit a decimal.
    pub fn fee_for(value: &Amount) -> (r: Option<Amount>)
        ensures
            r == value.spec_mul(&Transaction::fee_rate()),
    {
        value.checked_mul(&Amount { mantissa: 1, scale: 2 })
    }

    /// The new outputs of a payment of `value` with `fee` out of inputs
    /// worth `sum`: the change back to the payer, where the inputs are
    /// worth more than value and fee together, and the payment itself.
    pub open spec fn spec_outputs(
        wallet: Seq<u8>,
        to: Seq<u8>,
        value: Amount,
        fee: Amount,
        sum: Amount,
        salts: (u32, u32),
    ) -> Result<Seq<UnspentView>, TrxError> {
        match value.spec_add(&fee) {
            None => Err(TrxError::Amount),
            Some(spend) => {
                if spend.wf() && sum.wf() && spend.below(&sum) {
                    match sum.spec_sub(&spend) {
                        None => Err(TrxError::Amount),
                        Some(change) => Ok(
                            seq![
                                Unspent::spec_new(wallet, change, salts.0),
                                Unspent::spec_new(to, value, salts.1),
                            ],
                        ),
                    }
                } else {
                    Ok(seq![Unspent::spec_new(to, value, salts.0)])
                }
            },
        }
    }

    /// The transaction that `new` builds, given the signature over its hash.
    pub open spec fn spec_assemble(
        input: InputView,
        output: OutputView,
        value: Amount,
        fee: Amount,
        sign: SignView,
        date: Seq<char>,
    ) -> TransactionView {
        TransactionView {
            hash: hash_of(input.hash + output.hash),
            input,
            output,
            value,
            fee,
            script: Script::Single,
            signature: seq![sign],
            date,
        }
    }

    /// What building a payment decides: the transaction, or why none is
    /// built.
    pub open spec fn spec_new(
        wallet: Seq<u8>,
        private: Seq<char>,
        value: Amount,
        to: Seq<u8>,
        utxos: Seq<UtxoView>,
        fee: Amount,
        salts: (u32, u32),
        date: Seq<char>,
    ) -> Result<TransactionView, TrxError> {
        match total(unspent_amounts(utxos)) {
            None => Err(TrxError::Amount),
            Some(sum) => match Transaction::spec_outputs(wallet, to, value, fee, sum, salts) {
                Err(e) => Err(e),
                Ok(unspents) => {
                    let input = Input::spec_new(utxos);
                    let output = Output::spec_new(unspents);
                    match crate::identity::ed25519_signed(
                        private,
                        hash_of(input.hash + output.hash),
                    ) {
                        None => Err(TrxError::Signing),
                        Some(signature) => Ok(
                            Transaction::spec_assemble(
                                input,
                                output,
                                value,
                                fee,
                                SignView { signature, key: wallet },
                                date,
                            ),
                        ),
                    }
                },
            },
        }
    }

    /// Builds and signs a payment of `value` from `wallet` to `to`.
    ///
    /// The inputs are `utxos`; their total pays value and fee, and what is
    /// left returns to `wallet` as change. `salts` and `date` are drawn by
    /// the caller. Errors: `Amount` where a sum or difference does not fit
    /// a decimal, `Signing` where the seed phrase is rejected. A
    /// transaction that comes back is hashed as validation asks.
    pub fn new(
        wallet: &Public,
        private: &String,
        value: Amount,
        to: &Public,
        utxos: Vec<UTXO>,
        fee: Amount,
        salts: (u32, u32),
        date: String,
    ) -> (r: Result<Transaction, TrxError>)
        ensures
            match Transaction::spec_new(
                wallet@,
                private@,
                value,
                to@,
                utxos.deep_view(),
                fee,
                salts,
                date@,
            ) {
                Ok(t) => r is Ok && r->Ok_0@ == t,
                Err(e) => r == Err::<Transaction, TrxError>(e),
            },
            r is Ok ==> Transaction::contents_hashed(r->Ok_0@) && Transaction::root_hashed(r->Ok_0@),
    {
        let sum = match UTXO::sum(&utxos) {
            Some(s) => s,
            None => {
                return Err(TrxError::Amount);
            },
        };
        let spend = match value.checked_add(&fee) {
            Some(s) => s,
            None => {
                return Err(TrxError::Amount);
            },
        };
        let mut unspents: Vec<Unspent> = Vec::new();
        if spend.less_than(&sum) {
            let change = match sum.checked_sub(&spend) {
                Some(c) => c,
                None => {
                    return Err(TrxError::Amount);
                },
            };
            unspents.push(Unspent::new(wallet, change, salts.0));
            unspents.push(Unspent::new(to, value, salts.1));
            assert(unspents.deep_view() =~= seq![
                Unspent::spec_new(wallet@, change, salts.0),
                Unspent::spec_new(to@, value, salts.1),
            ]);
        } else {
            unspents.push(Unspent::new(to, value, salts.0));
            assert(unspents.deep_view() =~= seq![Unspent::spec_new(to@, value, salts.0)]);
        }
        let input = Input::new(utxos);
        let output = Output::new(unspents);
        let hash = MerkelRoot::pair(&input.hash, &output.hash);
        let sign = match Sign::make(private, &hash, wallet) {
            Some(s) => s,
            None => {
                return Err(TrxError::Signing);
            },
        };
        let mut signature: Vec<Sign> = Vec::new();
        signature.push(sign);
        assert(signature.deep_view() =~= seq![sign@]);
        Ok(Transaction { hash, input, output, value, fee, script: Script::Single, signature, date })
    }
}


impl Transaction {
    /// The hashes of the transactions, in order.
    pub fn hashes(transactions: &Vec<Transaction>) -> (r: Vec<String>)
        ensures
            r.deep_view() == trx_hashes(transactions.deep_view()),
    {
        let mut r: Vec<String> = Vec::new();
        let mut i: usize = 0;
        while i < transactions.len()
            invariant
                i <= transactions.len(),
                r.deep_view() =~= trx_hashes(transactions.deep_view()).take(i as int),
            decreases transactions.len() - i,
        {
            let ghost before = r.deep_view();
            let h = transactions[i].hash.clone();
            r.push(h);
            proof {
                assert(trx_hashes(transactions.deep_view())[i as int] == transactions[i as int]@.hash);
                assert(r.deep_view() =~= before.push(h@));
            }
            i += 1;
        }
        assert(r.deep_view() =~= trx_hashes(transactions.deep_view()));
        r
    }
}


impl TrxError {
    /// What the operator is told of each error.
    pub open spec fn spec_describe(self) -> Seq<char> {
        match self {
            TrxError::InputOutputHash => "Transaction is incorrect.(input/output hash problem!)"@,
            TrxError::TransactionHash => "Transaction is incorrect.(transaction hash problem!)"@,
            TrxError::Signature => "Transaction is incorrect.(signature problem!)"@,
            TrxError::Utxo(e) => e.spec_describe(),
            TrxError::Amount => "Transaction is incorrect.(amount problem!)"@,
            TrxError::Signing => "Your seed phrase is wrong!"@,
        }
    }

    /// The error in words, for the operator.
    pub fn describe(&self) -> (r: &'static str)
        ensures
            r@ == self.spec_describe(),
    {
        match self {
            TrxError::InputOutputHash => "Transaction is incorrect.(input/output hash problem!)",
            TrxError::TransactionHash => "Transaction is incorrect.(transaction hash problem!)",
            TrxError::Signature => "Transaction is incorrect.(signature problem!)",
            TrxError::Utxo(e) => e.describe(),
            TrxError::Amount => "Transaction is incorrect.(amount problem!)",
            TrxError::Signing => "Your seed phrase is wrong!",
        }
    }
}

} // verus!
