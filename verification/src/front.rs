//! What the operator's front end asks of the node before and beside the
//! network session: checking keys and memory, and preparing a payment.

use crate::amount::Amount;
use crate::identity::{new_phrase, phrase_public, ss58_key, ss58_text, wallet_of_phrase, Public};
use crate::transaction::{Transaction, TrxError};
use crate::utxo::UTXO;
use vstd::prelude::*;
use vstd::string::*;

verus! {

/// The answer to a key check: whether the seed phrase is one, and the
/// wallet's address or the complaint.
#[derive(Debug, PartialEq, Eq)]
pub struct Response {
    pub key: bool,
    pub status: String,
}

/// A new pair of keys: the seed phrase and the wallet's address.
#[derive(Debug, PartialEq, Eq)]
pub struct Keys {
    pub private: String,
    pub public: String,
}

/// Checks a seed phrase. A phrase that derives a key is answered with the
/// wallet's address, any other with a complaint.
pub fn check_key(pkey: String) -> (r: Response)
    ensures
        match phrase_public(pkey@) {
            Some(key) => r.key && r.status@ == ss58_text(key),
            None => !r.key && r.status@ == "The private key you entered is incorrect!"@,
        },
{
    match wallet_of_phrase(&pkey) {
        Some(public) => Response { key: true, status: public.to_address() },
        None => Response {
            key: false,
            status: String::from_str("The private key you entered is incorrect!"),
        },
    }
}

/// Draws a new seed phrase and gives it with its wallet's address.
pub fn generate_keys() -> (r: Keys)
    ensures
        phrase_public(r.private@) is Some,
        r.public@ == ss58_text(phrase_public(r.private@)->0),
{
    let (private, public) = new_phrase();
    Keys { private, public: public.to_address() }
}

/// Bytes in a gibibyte.
pub const GIBIBYTE: u64 = 1024 * 1024 * 1024;

/// Tells whether a machine with `total_bytes` of memory can run a node:
/// it takes four whole gibibytes.
pub fn memory_check(total_bytes: u64) -> (r: bool)
    ensures
        r == (total_bytes >= 4 * GIBIBYTE),
{
    total_bytes >= 4 * GIBIBYTE
}

/// Blocks shown on one page of the front end.
pub const PAGE_SIZE: u64 = 4;

/// How many of the latest blocks to skip for page `page`, counted from
/// one; `None` for page zero and for a page beyond what `u64` can count.
pub fn page_skip(page: u64) -> (r: Option<u64>)
    ensures
        r == (if 1 <= page && (page - 1) * PAGE_SIZE <= u64::MAX {
            Some(((page - 1) * PAGE_SIZE) as u64)
        } else {
            None
        }),
{
    if page == 0 {
        None
    } else if page - 1 > u64::MAX / 4 {
        None
    } else {
        Some((page - 1) * 4)
    }
}

/// The request for unspent outputs to pay with.
#[derive(Debug, PartialEq, Eq)]
pub struct ReqBody {
    pub public_key: String,
    pub request: String,
    pub value: String,
}

impl ReqBody {
    /// The request of `wallet` for outputs worth `value`.
    pub fn new(wallet: String, value: String) -> (r: Self)
        ensures
            r.public_key@ == wallet@,
            r.request@ == "utxo"@,
            r.value@ == value@,
    {
        ReqBody { public_key: wallet, request: String::from_str("utxo"), value }
    }
}

/// The relay's answer to a request for unspent outputs.
#[derive(Debug, PartialEq, Eq)]
pub struct ResBody {
    pub public_key: String,
    pub utxo_data: Vec<UTXO>,
    pub status: String,
    pub description: String,
}

/// What the front end is told of a payment.
#[derive(Debug, PartialEq, Eq)]
pub struct ResponseToFront {
    pub status: String,
    pub description: String,
}

impl ResponseToFront {
    /// The word that a payment was sent.
    pub fn success() -> (r: Self)
        ensures
            r.status@ == "success"@,
            r.description@ == "Transaction Successfully Sent"@,
    {
        ResponseToFront {
            status: String::from_str("success"),
            description: String::from_str("Transaction Successfully Sent"),
        }
    }

    /// The word that a payment failed, and why.
    pub fn error(description: String) -> (r: Self)
        ensures
            r.status@ == "error"@,
            r.description@ == description@,
    {
        ResponseToFront { status: String::from_str("error"), description }
    }
}

/// Why no payment was prepared.
#[derive(Clone, Copy, Debug, PartialEq, Eq, Structural)]
pub enum PaymentError {
    /// The relay did not hand out unspent outputs.
    Refused,
    /// The payer's or the payee's address is no wallet.
    Address,
    /// The value is no decimal.
    Value,
    /// The transaction could not be built.
    Transaction(TrxError),
}

/// What preparing a payment decides before the transaction is built:
/// the payer, the payee, the value and the fee it is built with, or why
/// none is built.
pub open spec fn spec_payment(
    wallet: Seq<char>,
    to: Seq<char>,
    value: Seq<char>,
    status: Seq<char>,
) -> Result<(Seq<u8>, Seq<u8>, Amount, Amount), PaymentError> {
    if status != "success"@ {
        Err(PaymentError::Refused)
    } else {
        match (ss58_key(wallet), ss58_key(to)) {
            (Some(payer), Some(payee)) => match Amount::spec_parse(value) {
                None => Err(PaymentError::Value),
                Some(v) => match v.spec_mul(&Transaction::fee_rate()) {
                    None => Err(PaymentError::Transaction(TrxError::Amount)),
                    Some(fee) => Ok((payer, payee, v, fee)),
                },
            },
            _ => Err(PaymentError::Address),
        }
    }
}

/// Prepares the payment of `value` from `wallet` to `to` out of the
/// unspent outputs in the relay's answer. The fee is a hundredth of the
/// value. Salts and date are drawn by the caller.
///
/// Errors: `Refused` where the relay's answer is no success, `Address`
/// where an address is no wallet, `Value` where the value is no decimal,
/// and `Transaction` with what [`Transaction::new`] reports.
pub fn prepare_payment(
    wallet: &String,
    private: &String,
    to: &String,
    value: &String,
    response: ResBody,
    salts: (u32, u32),
    date: String,
) -> (r: Result<Transaction, PaymentError>)
    ensures
        match spec_payment(wallet@, to@, value@, response.status@) {
            Err(e) => r == Err::<Transaction, PaymentError>(e),
            Ok(parts) => match Transaction::spec_new(
                parts.0,
                private@,
                parts.2,
                parts.1,
                response.utxo_data.deep_view(),
                parts.3,
                salts,
                date@,
            ) {
                Ok(t) => r is Ok && r->Ok_0@ == t,
                Err(e) => r == Err::<Transaction, PaymentError>(PaymentError::Transaction(e)),
            },
        },
{
    let success = String::from_str("success");
    if !(response.status == success) {
        return Err(PaymentError::Refused);
    }
    let payer = match Public::parse(wallet) {
        Some(p) => p,
        None => {
            return Err(PaymentError::Address);
        },
    };
    let payee = match Public::parse(to) {
        Some(p) => p,
        None => {
            return Err(PaymentError::Address);
        },
    };
    let amount = match Amount::parse(value) {
        Some(a) => a,
        None => {
            return Err(PaymentError::Value);
        },
    };
    let fee = match Transaction::fee_for(&amount) {
        Some(f) => f,
        None => {
            return Err(PaymentError::Transaction(TrxError::Amount));
        },
    };
    match Transaction::new(&payer, private, amount, &payee, response.utxo_data, fee, salts, date) {
        Ok(t) => Ok(t),
        Err(e) => Err(PaymentError::Transaction(e)),
    }
}

} // verus!
