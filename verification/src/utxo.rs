//! The ledger store: unspent outputs, kept per wallet.

use crate::amount::Amount;
use crate::hashing::{number_field, text_field, write_number, write_text};
use crate::identity::Public;
use crate::search::{first_index, lemma_first_index, lemma_first_index_is};
use crate::transaction::{Unspent, UnspentView};
use vstd::prelude::*;
use vstd::string::*;

verus! {

/// Why the ledger store refused an operation.
#[derive(Clone, Copy, Debug, PartialEq, Eq, Structural)]
pub enum LedgerError {
    /// The wallet holds no such unspent output.
    NotFound,
    /// The wallet already holds an unspent output of that hash.
    Duplicate,
    /// The wallet's amounts do not add up within a decimal.
    Overflow,
}

/// An unspent output: the block and transaction that made it, the hash it
/// is known by, and its amount.
#[derive(Debug, PartialEq, Eq)]
pub struct UTXO {
    pub block: u64,
    pub trx_hash: String,
    pub output_hash: String,
    pub unspent_hash: String,
    pub unspent: Amount,
}

/// The view of a [`UTXO`].
pub struct UtxoView {
    pub block: u64,
    pub trx_hash: Seq<char>,
    pub output_hash: Seq<char>,
    pub unspent_hash: Seq<char>,
    pub unspent: Amount,
}

impl DeepView for UTXO {
    type V = UtxoView;

    open spec fn deep_view(&self) -> UtxoView {
        UtxoView {
            block: self.block,
            trx_hash: self.trx_hash@,
            output_hash: self.output_hash@,
            unspent_hash: self.unspent_hash@,
            unspent: self.unspent,
        }
    }
}

impl View for UTXO {
    type V = UtxoView;

    open spec fn view(&self) -> UtxoView {
        self.deep_view()
    }
}

impl Clone for UTXO {
    fn clone(&self) -> (r: Self)
        ensures
            r@ == self@,
    {
        UTXO {
            block: self.block,
            trx_hash: self.trx_hash.clone(),
            output_hash: self.output_hash.clone(),
            unspent_hash: self.unspent_hash.clone(),
            unspent: self.unspent,
        }
    }
}

/// A wallet and the unspent outputs it holds.
#[derive(Debug, PartialEq, Eq)]
pub struct Person {
    pub wallet: Public,
    pub utxos: Vec<UTXO>,
}

/// The view of a [`Person`].
pub struct PersonView {
    pub wallet: Seq<u8>,
    pub utxos: Seq<UtxoView>,
}

impl DeepView for Person {
    type V = PersonView;

    open spec fn deep_view(&self) -> PersonView {
        PersonView { wallet: self.wallet@, utxos: self.utxos.deep_view() }
    }
}

impl View for Person {
    type V = PersonView;

    open spec fn view(&self) -> PersonView {
        self.deep_view()
    }
}

impl Clone for Person {
    fn clone(&self) -> (r: Self)
        ensures
            r@ == self@,
    {
        let utxos = self.utxos.clone();
        assert(utxos.deep_view() =~= self.utxos.deep_view());
        Person { wallet: self.wallet, utxos }
    }
}

impl Person {
    /// A wallet with the outputs it holds.
    pub fn new(wallet: Public, utxos: Vec<UTXO>) -> (r: Self)
        ensures
            r.wallet == wallet,
            r.utxos == utxos,
    {
        Person { wallet, utxos }
    }
}

/// The amount text as a record field; `!` stands for an amount that no
/// decimal can hold.
pub open spec fn amount_field(a: Amount) -> Seq<char> {
    if a.wf() {
        text_field(a.spec_text())
    } else {
        seq!['!']
    }
}

/// Appends an amount as a record field.
pub fn write_amount(out: &mut String, a: &Amount)
    ensures
        final(out)@ == old(out)@ + amount_field(*a),
{
    match a.to_text() {
        Some(text) => {
            write_text(out, text.as_str());
        },
        None => {
            out.push('!');
            assert(out@ =~= old(out)@ + amount_field(*a));
        },
    }
}

/// The wallets of the persons, in order.
pub open spec fn wallets(people: Seq<PersonView>) -> Seq<Seq<u8>> {
    people.map_values(|p: PersonView| p.wallet)
}

/// The hashes the outputs are known by, in order.
pub open spec fn unspent_hashes(utxos: Seq<UtxoView>) -> Seq<Seq<char>> {
    utxos.map_values(|u: UtxoView| u.unspent_hash)
}

/// The amounts of the outputs, in order.
pub open spec fn unspent_amounts(utxos: Seq<UtxoView>) -> Seq<Amount> {
    utxos.map_values(|u: UtxoView| u.unspent)
}

/// The sum of the amounts, added from the left starting at zero; `None`
/// as soon as one addition fails.
pub open spec fn total(amounts: Seq<Amount>) -> Option<Amount>
    decreases amounts.len(),
{
    if amounts.len() == 0 {
        Some(Amount { mantissa: 0, scale: 0 })
    } else {
        match total(amounts.drop_last()) {
            Some(t) => t.spec_add(&amounts.last()),
            None => None,
        }
    }
}

impl UTXO {
    /// The text a list of outputs is hashed by: each output's block,
    /// hashes and amount as record fields, one output after the other.
    pub open spec fn spec_text(u: UtxoView) -> Seq<char> {
        number_field(u.block as nat) + text_field(u.trx_hash) + text_field(u.output_hash)
            + text_field(u.unspent_hash) + amount_field(u.unspent)
    }

    /// The texts of the outputs, joined.
    pub open spec fn spec_texts(utxos: Seq<UtxoView>) -> Seq<char>
        decreases utxos.len(),
    {
        if utxos.len() == 0 {
            Seq::<char>::empty()
        } else {
            UTXO::spec_texts(utxos.drop_last()) + UTXO::spec_text(utxos.last())
        }
    }

    /// Appends the output's text.
    pub fn write(&self, out: &mut String)
        ensures
            final(out)@ == old(out)@ + UTXO::spec_text(self@),
    {
        write_number(out, self.block);
        write_text(out, self.trx_hash.as_str());
        write_text(out, self.output_hash.as_str());
        write_text(out, self.unspent_hash.as_str());
        write_amount(out, &self.unspent);
        assert(out@ =~= old(out)@ + UTXO::spec_text(self@));
    }

    /// Appends the texts of the outputs.
    pub fn write_all(utxos: &Vec<UTXO>, out: &mut String)
        ensures
            final(out)@ == old(out)@ + UTXO::spec_texts(utxos.deep_view()),
    {
        let mut i: usize = 0;
        assert(utxos.deep_view().take(0) =~= Seq::<UtxoView>::empty());
        while i < utxos.len()
            invariant
                i <= utxos.len(),
                out@ == old(out)@ + UTXO::spec_texts(utxos.deep_view().take(i as int)),
            decreases utxos.len() - i,
        {
            utxos[i].write(out);
            proof {
                let next = utxos.deep_view().take(i + 1);
                assert(next.drop_last() =~= utxos.deep_view().take(i as int));
                assert(next.last() == utxos[i as int]@);
                assert(out@ =~= old(out)@ + UTXO::spec_texts(next));
            }
            i += 1;
        }
        assert(utxos.deep_view().take(i as int) =~= utxos.deep_view());
    }
}


/// The ledger store: every wallet that holds unspent outputs, with them.
#[derive(Debug, PartialEq, Eq)]
pub struct Ledger {
    pub people: Vec<Person>,
}

impl DeepView for Ledger {
    type V = Seq<PersonView>;

    open spec fn deep_view(&self) -> Seq<PersonView> {
        self.people.deep_view()
    }
}

impl View for Ledger {
    type V = Seq<PersonView>;

    open spec fn view(&self) -> Seq<PersonView> {
        self.people.deep_view()
    }
}

impl Clone for Ledger {
    fn clone(&self) -> (r: Self)
        ensures
            r@ == self@,
    {
        let people = self.people.clone();
        assert(people.deep_view() =~= self.people.deep_view());
        Ledger { people }
    }
}

impl Ledger {
    /// No wallet stands twice, and no wallet holds two outputs of one hash.
    pub open spec fn wf(people: Seq<PersonView>) -> bool {
        &&& wallets(people).no_duplicates()
        &&& forall|p: int| 0 <= p < people.len() ==> #[trigger] unspent_hashes(people[p].utxos).no_duplicates()
    }

    /// The outputs a wallet holds; none where the wallet is unknown.
    pub open spec fn holdings(people: Seq<PersonView>, wallet: Seq<u8>) -> Seq<UtxoView> {
        let p = first_index(wallets(people), wallet);
        if p < people.len() {
            people[p].utxos
        } else {
            Seq::empty()
        }
    }

    /// Whether the wallet holds an output of that hash.
    pub open spec fn holds(people: Seq<PersonView>, wallet: Seq<u8>, hash: Seq<char>) -> bool {
        unspent_hashes(Ledger::holdings(people, wallet)).contains(hash)
    }

    /// The ledger after the wallet has spent the output of that hash, or
    /// `NotFound` where it holds none.
    pub open spec fn spec_consume(people: Seq<PersonView>, wallet: Seq<u8>, hash: Seq<char>) -> Result<
        Seq<PersonView>,
        LedgerError,
    > {
        let p = first_index(wallets(people), wallet);
        if p < people.len() {
            let u = first_index(unspent_hashes(people[p].utxos), hash);
            if u < people[p].utxos.len() {
                Ok(people.update(p, PersonView { wallet, utxos: people[p].utxos.remove(u) }))
            } else {
                Err(LedgerError::NotFound)
            }
        } else {
            Err(LedgerError::NotFound)
        }
    }

    /// The ledger after the wallet has received the output: appended to
    /// the wallet's outputs, or the first of a wallet not seen before;
    /// `Duplicate` where the wallet holds an output of that hash already.
    pub open spec fn spec_generate(people: Seq<PersonView>, wallet: Seq<u8>, utxo: UtxoView) -> Result<
        Seq<PersonView>,
        LedgerError,
    > {
        let p = first_index(wallets(people), wallet);
        if p < people.len() {
            if unspent_hashes(people[p].utxos).contains(utxo.unspent_hash) {
                Err(LedgerError::Duplicate)
            } else {
                Ok(people.update(p, PersonView { wallet, utxos: people[p].utxos.push(utxo) }))
            }
        } else {
            Ok(people.push(PersonView { wallet, utxos: seq![utxo] }))
        }
    }

    /// The wallet's balance: the total of what it holds; `NotFound` for a
    /// wallet the ledger does not know, `Overflow` where the total does
    /// not fit a decimal.
    pub open spec fn spec_balance(people: Seq<PersonView>, wallet: Seq<u8>) -> Result<Amount, LedgerError> {
        let p = first_index(wallets(people), wallet);
        if p < people.len() {
            match total(unspent_amounts(people[p].utxos)) {
                Some(t) => Ok(t),
                None => Err(LedgerError::Overflow),
            }
        } else {
            Err(LedgerError::NotFound)
        }
    }

    /// An empty ledger.
    pub fn new() -> (r: Self)
        ensures
            r@ == Seq::<PersonView>::empty(),
            Ledger::wf(r@),
    {
        let r = Ledger { people: Vec::new() };
        assert(r@ =~= Seq::<PersonView>::empty());
        assert(wallets(r@) =~= Seq::<Seq<u8>>::empty());
        r
    }

    /// Where the wallet stands among the persons.
    pub fn position(&self, wallet: &Public) -> (r: Option<usize>)
        ensures
            match r {
                Some(p) => p < self@.len() && p == first_index(wallets(self@), wallet@),
                None => first_index(wallets(self@), wallet@) == self@.len(),
            },
    {
        let mut i: usize = 0;
        while i < self.people.len()
            invariant
                i <= self.people.len(),
                forall|j: int| 0 <= j < i ==> wallets(self@)[j] != wallet@,
            decreases self.people.len() - i,
        {
            if self.people[i].wallet.same(wallet) {
                proof {
                    lemma_first_index_is(wallets(self@), wallet@, i as int);
                }
                return Some(i);
            }
            i += 1;
        }
        proof {
            lemma_first_index_is(wallets(self@), wallet@, i as int);
        }
        None
    }

    /// The wallet's balance.
    pub fn balance(&self, wallet: &Public) -> (r: Result<Amount, LedgerError>)
        ensures
            r == Ledger::spec_balance(self@, wallet@),
            r is Ok ==> r->Ok_0.wf(),
    {
        match self.position(wallet) {
            Some(p) => {
                match UTXO::sum(&self.people[p].utxos) {
                    Some(t) => Ok(t),
                    None => Err(LedgerError::Overflow),
                }
            },
            None => Err(LedgerError::NotFound),
        }
    }
}

impl UTXO {
    /// The total of the outputs' amounts; `None` where it does not fit a
    /// decimal.
    #[verifier::loop_isolation(false)]
    pub fn sum(utxos: &Vec<UTXO>) -> (r: Option<Amount>)
        ensures
            r == total(unspent_amounts(utxos.deep_view())),
            r is Some ==> r->0.wf(),
    {
        let mut sum = Amount { mantissa: 0, scale: 0 };
        let mut i: usize = 0;
        assert(unspent_amounts(utxos.deep_view()).take(0) =~= Seq::<Amount>::empty());
        while i < utxos.len()
            invariant
                i <= utxos.len(),
                total(unspent_amounts(utxos.deep_view()).take(i as int)) == Some(sum),
                sum.wf(),
            decreases utxos.len() - i,
        {
            proof {
                let next = unspent_amounts(utxos.deep_view()).take(i + 1);
                assert(next.drop_last() =~= unspent_amounts(utxos.deep_view()).take(i as int));
                assert(next.last() == utxos[i as int].unspent);
                assert(total(next) == sum.spec_add(&utxos[i as int].unspent));
            }
            match sum.checked_add(&utxos[i].unspent) {
                Some(s) => {
                    sum = s;
                },
                None => {
                    proof {
                        lemma_total_none(unspent_amounts(utxos.deep_view()), i + 1);
                    }
                    return None;
                },
            }
            i += 1;
        }
        assert(unspent_amounts(utxos.deep_view()).take(i as int) =~= unspent_amounts(
            utxos.deep_view(),
        ));
        Some(sum)
    }
}

/// A total that fails on a prefix fails on the whole.
pub proof fn lemma_total_none(amounts: Seq<Amount>, n: int)
    requires
        0 <= n <= amounts.len(),
        total(amounts.take(n)) is None,
    ensures
        total(amounts) is None,
    decreases amounts.len() - n,
{
    if n < amounts.len() {
        assert(amounts.take(n + 1).drop_last() =~= amounts.take(n));
        lemma_total_none(amounts, n + 1);
    } else {
        assert(amounts.take(n) =~= amounts);
    }
}


impl UTXO {
    /// Where the output of that hash stands among the outputs.
    pub fn position(utxos: &Vec<UTXO>, hash: &String) -> (r: Option<usize>)
        ensures
            match r {
                Some(u) => u < utxos.len() && u == first_index(
                    unspent_hashes(utxos.deep_view()),
                    hash@,
                ),
                None => first_index(unspent_hashes(utxos.deep_view()), hash@) == utxos.len(),
            },
    {
        let mut i: usize = 0;
        while i < utxos.len()
            invariant
                i <= utxos.len(),
                forall|j: int| 0 <= j < i ==> unspent_hashes(utxos.deep_view())[j] != hash@,
            decreases utxos.len() - i,
        {
            if utxos[i].unspent_hash == *hash {
                proof {
                    lemma_first_index_is(unspent_hashes(utxos.deep_view()), hash@, i as int);
                }
                return Some(i);
            }
            i += 1;
        }
        proof {
            lemma_first_index_is(unspent_hashes(utxos.deep_view()), hash@, i as int);
        }
        None
    }

    /// Spends this output out of the wallet's holdings: the wallet's first
    /// output of the same `unspent_hash` leaves the ledger. Where the
    /// wallet holds none, the ledger stays as it is and the answer is
    /// `NotFound`.
    pub fn check(&self, ledger: &mut Ledger, wallet: &Public) -> (r: Result<(), LedgerError>)
        ensures
            match Ledger::spec_consume(old(ledger)@, wallet@, self.unspent_hash@) {
                Ok(after) => r is Ok && final(ledger)@ == after,
                Err(e) => r == Err::<(), LedgerError>(e) && *final(ledger) == *old(ledger),
            },
            Ledger::wf(old(ledger)@) ==> Ledger::wf(final(ledger)@),
    {
        match ledger.position(wallet) {
            Some(p) => {
                match UTXO::position(&ledger.people[p].utxos, &self.unspent_hash) {
                    Some(u) => {
                        ledger.people[p].utxos.remove(u);
                        proof {
                            let before = old(ledger)@;
                            let after = before.update(
                                p as int,
                                PersonView {
                                    wallet: wallet@,
                                    utxos: before[p as int].utxos.remove(u as int),
                                },
                            );
                            lemma_first_index(wallets(before), wallet@);
                            assert(ledger.people@[p as int].utxos@ == old(ledger).people@[p as int].utxos@.remove(
                                u as int,
                            ));
                            assert(ledger.people@[p as int].utxos.deep_view() =~= before[p as int].utxos.remove(
                                u as int,
                            ));
                            assert(ledger@ =~= after);
                            lemma_consume_keeps_wf(before, wallet@, self.unspent_hash@);
                        }
                        Ok(())
                    },
                    None => Err(LedgerError::NotFound),
                }
            },
            None => Err(LedgerError::NotFound),
        }
    }
}

/// Spending keeps the ledger well-formed.
pub proof fn lemma_consume_keeps_wf(people: Seq<PersonView>, wallet: Seq<u8>, hash: Seq<char>)
    requires
        Ledger::spec_consume(people, wallet, hash) is Ok,
    ensures
        Ledger::wf(people) ==> Ledger::wf(Ledger::spec_consume(people, wallet, hash)->Ok_0),
{
    if Ledger::wf(people) {
        let after = Ledger::spec_consume(people, wallet, hash)->Ok_0;
        let p = first_index(wallets(people), wallet);
        let u = first_index(unspent_hashes(people[p].utxos), hash);
        lemma_first_index(wallets(people), wallet);
        lemma_first_index(unspent_hashes(people[p].utxos), hash);
        assert(wallets(after) =~= wallets(people));
        assert forall|q: int| 0 <= q < after.len() implies #[trigger] unspent_hashes(
            after[q].utxos,
        ).no_duplicates() by {
            if q == p {
                let hs = unspent_hashes(people[p].utxos);
                assert(hs.no_duplicates());
                assert(unspent_hashes(after[q].utxos) =~= hs.remove(u));
                assert forall|i: int, j: int|
                    0 <= i < hs.remove(u).len() && 0 <= j < hs.remove(u).len() && i != j implies hs.remove(
                    u,
                )[i] != hs.remove(u)[j] by {
                    let i2 = if i < u { i } else { i + 1 };
                    let j2 = if j < u { j } else { j + 1 };
                    assert(hs.remove(u)[i] == hs[i2]);
                    assert(hs.remove(u)[j] == hs[j2]);
                }
            } else {
                assert(after[q] == people[q]);
            }
        }
    }
}


impl UTXO {
    /// The output record that block `block` makes of `unspent`, an output
    /// of the transaction `trx_hash` whose outputs hash to `output_hash`.
    pub open spec fn spec_from(
        block: u64,
        trx_hash: Seq<char>,
        output_hash: Seq<char>,
        unspent: UnspentView,
    ) -> UtxoView {
        UtxoView {
            block,
            trx_hash,
            output_hash,
            unspent_hash: unspent.hash,
            unspent: unspent.data.value,
        }
    }

    /// Records `unspent` as an unspent output of the wallet it pays: the
    /// record joins the wallet's holdings, or starts them. Where the
    /// wallet holds an output of the same hash already, the ledger stays
    /// as it is and the answer is `Duplicate`.
    pub fn generate(
        block: u64,
        trx_hash: &String,
        output_hash: &String,
        unspent: &Unspent,
        ledger: &mut Ledger,
    ) -> (r: Result<(), LedgerError>)
        ensures
            match Ledger::spec_generate(
                old(ledger)@,
                unspent.data.wallet@,
                UTXO::spec_from(block, trx_hash@, output_hash@, unspent@),
            ) {
                Ok(after) => r is Ok && final(ledger)@ == after,
                Err(e) => r == Err::<(), LedgerError>(e) && *final(ledger) == *old(ledger),
            },
            Ledger::wf(old(ledger)@) ==> Ledger::wf(final(ledger)@),
    {
        let utxo = UTXO {
            block,
            trx_hash: trx_hash.clone(),
            output_hash: output_hash.clone(),
            unspent_hash: unspent.hash.clone(),
            unspent: unspent.data.value,
        };
        let ghost before = old(ledger)@;
        let ghost wallet = unspent.data.wallet@;
        proof {
            lemma_first_index(wallets(before), wallet);
            lemma_generate_keeps_wf(before, wallet, utxo@);
        }
        match ledger.position(&unspent.data.wallet) {
            Some(p) => {
                match UTXO::position(&ledger.people[p].utxos, &utxo.unspent_hash) {
                    Some(_u) => {
                        proof {
                            lemma_first_index(
                                unspent_hashes(before[p as int].utxos),
                                utxo.unspent_hash@,
                            );
                        }
                        Err(LedgerError::Duplicate)
                    },
                    None => {
                        proof {
                            lemma_first_index(
                                unspent_hashes(before[p as int].utxos),
                                utxo.unspent_hash@,
                            );
                        }
                        ledger.people[p].utxos.push(utxo);
                        proof {
                            assert(ledger.people@[p as int].utxos.deep_view() =~= before[p as int].utxos.push(
                                utxo@,
                            ));
                            assert(ledger@ =~= before.update(
                                p as int,
                                PersonView { wallet, utxos: before[p as int].utxos.push(utxo@) },
                            ));
                        }
                        Ok(())
                    },
                }
            },
            None => {
                let mut utxos: Vec<UTXO> = Vec::new();
                utxos.push(utxo);
                assert(utxos.deep_view() =~= seq![utxo@]);
                ledger.people.push(Person::new(unspent.data.wallet, utxos));
                assert(ledger@ =~= before.push(PersonView { wallet, utxos: seq![utxo@] }));
                Ok(())
            },
        }
    }
}

/// Receiving keeps the ledger well-formed.
pub proof fn lemma_generate_keeps_wf(people: Seq<PersonView>, wallet: Seq<u8>, utxo: UtxoView)
    ensures
        Ledger::wf(people) && Ledger::spec_generate(people, wallet, utxo) is Ok ==> Ledger::wf(
            Ledger::spec_generate(people, wallet, utxo)->Ok_0,
        ),
{
    if Ledger::wf(people) && Ledger::spec_generate(people, wallet, utxo) is Ok {
        let after = Ledger::spec_generate(people, wallet, utxo)->Ok_0;
        let p = first_index(wallets(people), wallet);
        lemma_first_index(wallets(people), wallet);
        if p < people.len() {
            let hs = unspent_hashes(people[p].utxos);
            assert(wallets(after) =~= wallets(people));
            assert forall|q: int| 0 <= q < after.len() implies #[trigger] unspent_hashes(
                after[q].utxos,
            ).no_duplicates() by {
                if q == p {
                    assert(hs.no_duplicates());
                    assert(unspent_hashes(after[q].utxos) =~= hs.push(utxo.unspent_hash));
                    assert forall|i: int, j: int|
                        0 <= i < hs.len() + 1 && 0 <= j < hs.len() + 1 && i != j implies hs.push(
                        utxo.unspent_hash,
                    )[i] != hs.push(utxo.unspent_hash)[j] by {
                        if i < hs.len() {
                            assert(hs.contains(hs[i]));
                        }
                        if j < hs.len() {
                            assert(hs.contains(hs[j]));
                        }
                    }
                } else {
                    assert(after[q] == people[q]);
                }
            }
        } else {
            let ws = wallets(people);
            assert(wallets(after) =~= ws.push(wallet));
            assert forall|i: int, j: int|
                0 <= i < ws.len() + 1 && 0 <= j < ws.len() + 1 && i != j implies ws.push(wallet)[i]
                != ws.push(wallet)[j] by {
                if i < ws.len() {
                    assert(ws.contains(ws[i]));
                }
                if j < ws.len() {
                    assert(ws.contains(ws[j]));
                }
            }
            assert forall|q: int| 0 <= q < after.len() implies #[trigger] unspent_hashes(
                after[q].utxos,
            ).no_duplicates() by {
                if q < people.len() {
                    assert(after[q] == people[q]);
                } else {
                    assert(unspent_hashes(after[q].utxos) =~= seq![utxo.unspent_hash]);
                }
            }
        }
    }
}


impl LedgerError {
    /// What the operator is told of each error.
    pub open spec fn spec_describe(self) -> Seq<char> {
        match self {
            LedgerError::NotFound => "UTXO does not exist!"@,
            LedgerError::Duplicate => "UTXO exists already!"@,
            LedgerError::Overflow => "The wallet's amounts do not fit a decimal!"@,
        }
    }

    /// The error in words, for the operator.
    pub fn describe(&self) -> (r: &'static str)
        ensures
            r@ == self.spec_describe(),
    {
        match self {
            LedgerError::NotFound => "UTXO does not exist!",
            LedgerError::Duplicate => "UTXO exists already!",
            LedgerError::Overflow => "The wallet's amounts do not fit a decimal!",
        }
    }
}


impl UTXO {
    /// Tells whether two records are the same.
    pub fn same(&self, other: &UTXO) -> (r: bool)
        ensures
            r == (self@ == other@),
    {
        self.block == other.block && self.trx_hash == other.trx_hash && self.output_hash
            == other.output_hash && self.unspent_hash == other.unspent_hash && self.unspent.mantissa
            == other.unspent.mantissa && self.unspent.scale == other.unspent.scale
    }

    /// Tells whether two lists hold the same records in the same order.
    pub fn same_list(a: &Vec<UTXO>, b: &Vec<UTXO>) -> (r: bool)
        ensures
            r == (a.deep_view() == b.deep_view()),
    {
        if a.len() != b.len() {
            assert(a.deep_view().len() != b.deep_view().len());
            return false;
        }
        let mut i: usize = 0;
        while i < a.len()
            invariant
                i <= a.len(),
                a.len() == b.len(),
                forall|j: int| 0 <= j < i ==> a.deep_view()[j] == b.deep_view()[j],
            decreases a.len() - i,
        {
            if !a[i].same(&b[i]) {
                assert(a.deep_view()[i as int] != b.deep_view()[i as int]);
                return false;
            }
            i += 1;
        }
        assert(a.deep_view() =~= b.deep_view());
        true
    }
}

impl Ledger {
    /// Copies what a wallet holds; nothing for a wallet the ledger does
    /// not know.
    pub fn holdings_of(&self, wallet: &Public) -> (r: Vec<UTXO>)
        ensures
            r.deep_view() == Ledger::holdings(self@, wallet@),
    {
        match self.position(wallet) {
            Some(p) => {
                let r = self.people[p].utxos.clone();
                assert(r.deep_view() =~= self.people[p as int].utxos.deep_view());
                r
            },
            None => {
                let r: Vec<UTXO> = Vec::new();
                assert(r.deep_view() =~= Seq::<UtxoView>::empty());
                r
            },
        }
    }

    /// The balance to show for a wallet that held `before`: its balance
    /// now, where what it holds has changed and the balance can be told.
    pub open spec fn spec_surface(
        before: Seq<UtxoView>,
        people: Seq<PersonView>,
        wallet: Seq<u8>,
    ) -> Option<Amount> {
        if Ledger::holdings(people, wallet) != before {
            match Ledger::spec_balance(people, wallet) {
                Ok(b) => Some(b),
                Err(_) => None,
            }
        } else {
            None
        }
    }

    /// Recomputes the balance of a wallet whose holdings have changed
    /// since they were `before`; `None` where they have not, or where
    /// the balance cannot be told.
    pub fn surface(&self, before: &Vec<UTXO>, wallet: &Public) -> (r: Option<Amount>)
        ensures
            r == Ledger::spec_surface(before.deep_view(), self@, wallet@),
    {
        let now = self.holdings_of(wallet);
        if UTXO::same_list(&now, before) {
            None
        } else {
            match self.balance(wallet) {
                Ok(b) => Some(b),
                Err(_) => None,
            }
        }
    }
}


impl UTXO {
    /// Tells whether no two of the outputs are known by one hash.
    #[verifier::loop_isolation(false)]
    pub fn distinct(utxos: &Vec<UTXO>) -> (r: bool)
        ensures
            r == unspent_hashes(utxos.deep_view()).no_duplicates(),
    {
        let ghost hs = unspent_hashes(utxos.deep_view());
        let mut i: usize = 0;
        while i < utxos.len()
            invariant
                i <= utxos.len(),
                forall|a: int, b: int| 0 <= a < b < i ==> hs[a] != hs[b],
            decreases utxos.len() - i,
        {
            let mut j: usize = 0;
            while j < i
                invariant
                    j <= i,
                    i < utxos.len(),
                    forall|b: int| 0 <= b < j ==> hs[b] != hs[i as int],
                decreases i - j,
            {
                if utxos[j].unspent_hash == utxos[i].unspent_hash {
                    assert(hs[j as int] == hs[i as int]);
                    return false;
                }
                j += 1;
            }
            i += 1;
        }
        assert forall|a: int, b: int| 0 <= a < hs.len() && 0 <= b < hs.len() && a != b implies hs[a]
            != hs[b] by {
            if a < b {
                assert(hs[a] != hs[b]);
            } else {
                assert(hs[b] != hs[a]);
            }
        }
        true
    }
}

impl Ledger {
    /// Tells whether the ledger is well-formed: no wallet stands twice,
    /// and no wallet holds two outputs of one hash.
    #[verifier::loop_isolation(false)]
    pub fn well_formed(&self) -> (r: bool)
        ensures
            r == Ledger::wf(self@),
    {
        let ghost ws = wallets(self@);
        let mut i: usize = 0;
        while i < self.people.len()
            invariant
                i <= self.people.len(),
                forall|a: int, b: int| 0 <= a < b < i ==> ws[a] != ws[b],
                forall|p: int| 0 <= p < i ==> #[trigger] unspent_hashes(self@[p].utxos).no_duplicates(),
            decreases self.people.len() - i,
        {
            let mut j: usize = 0;
            while j < i
                invariant
                    j <= i,
                    i < self.people.len(),
                    forall|b: int| 0 <= b < j ==> ws[b] != ws[i as int],
                decreases i - j,
            {
                if self.people[j].wallet.same(&self.people[i].wallet) {
                    assert(ws[j as int] == ws[i as int]);
                    return false;
                }
                j += 1;
            }
            if !UTXO::distinct(&self.people[i].utxos) {
                assert(!unspent_hashes(self@[i as int].utxos).no_duplicates());
                return false;
            }
            i += 1;
        }
        assert forall|a: int, b: int| 0 <= a < ws.len() && 0 <= b < ws.len() && a != b implies ws[a]
            != ws[b] by {
            if a < b {
                assert(ws[a] != ws[b]);
            } else {
                assert(ws[b] != ws[a]);
            }
        }
        true
    }
}

} // verus!
