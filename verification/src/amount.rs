//! Ledger amounts: fixed-point decimals held as a mantissa and a scale.
//!
//! The arithmetic is that of `rust_decimal`; this module holds the plain
//! value the rest of the library reads, and the calls into the crate.

use rust_decimal::Decimal;
use std::str::FromStr;
use vstd::arithmetic::power::pow;
use vstd::prelude::*;

verus! {

/// Largest count of decimal places a `Decimal` can carry.
pub const MAX_SCALE: u32 = 28;

/// Largest magnitude of a 96-bit mantissa.
pub const MAX_MANTISSA: i128 = 0xFFFF_FFFF_FFFF_FFFF_FFFF_FFFF;

/// Decimal places of the ledger's fixed precision.
pub const LEDGER_SCALE: u32 = 12;

/// A decimal number: `mantissa / 10^scale`.
#[derive(Clone, Copy, Debug, PartialEq, Eq, Structural)]
pub struct Amount {
    pub mantissa: i128,
    pub scale: u32,
}

/// What `Decimal::checked_add` gives for two decimals, each written as
/// mantissa and scale; `None` where it reports overflow.
pub uninterp spec fn decimal_sum(am: int, asc: nat, bm: int, bsc: nat) -> Option<(int, nat)>;

/// What `Decimal::checked_sub` gives.
pub uninterp spec fn decimal_difference(am: int, asc: nat, bm: int, bsc: nat) -> Option<(int, nat)>;

/// What `Decimal::checked_mul` gives.
pub uninterp spec fn decimal_product(am: int, asc: nat, bm: int, bsc: nat) -> Option<(int, nat)>;

/// What `Decimal::checked_div` gives; `None` on division by zero too.
pub uninterp spec fn decimal_quotient(am: int, asc: nat, bm: int, bsc: nat) -> Option<(int, nat)>;

/// What `Decimal::round_dp` gives for a decimal and a count of places.
pub uninterp spec fn decimal_rounded(m: int, sc: nat, places: nat) -> (int, nat);

/// The decimal that `Decimal::from_str` reads out of a text, as mantissa
/// and scale; `None` where it reads none.
pub uninterp spec fn decimal_parsed(text: Seq<char>) -> Option<(int, nat)>;

/// The text that `Decimal`'s `Display` writes for a mantissa and scale.
pub uninterp spec fn decimal_text(m: int, sc: nat) -> Seq<char>;

/// Mantissa and scale of an optional amount, as mathematical integers.
pub open spec fn parts(a: Option<Amount>) -> Option<(int, nat)> {
    match a {
        Some(x) => Some((x.mantissa as int, x.scale as nat)),
        None => None,
    }
}

/// The amount with the given parts, where there are any.
pub open spec fn amount_of(p: Option<(int, nat)>) -> Option<Amount> {
    match p {
        Some(x) => Some(Amount { mantissa: x.0 as i128, scale: x.1 as u32 }),
        None => None,
    }
}

impl Amount {
    /// A mantissa of at most 96 bits and a scale of at most 28.
    pub open spec fn wf(&self) -> bool {
        &&& -MAX_MANTISSA <= self.mantissa <= MAX_MANTISSA
        &&& self.scale <= MAX_SCALE
    }

    /// Two amounts denote the same number.
    pub open spec fn same_value(&self, other: &Amount) -> bool {
        self.mantissa * pow(10, other.scale as nat) == other.mantissa * pow(10, self.scale as nat)
    }

    /// This amount denotes a smaller number than the other.
    pub open spec fn below(&self, other: &Amount) -> bool {
        self.mantissa * pow(10, other.scale as nat) < other.mantissa * pow(10, self.scale as nat)
    }

    /// The sum as the decimal arithmetic computes it.
    pub open spec fn spec_add(&self, other: &Amount) -> Option<Amount> {
        if self.wf() && other.wf() {
            amount_of(
                decimal_sum(
                    self.mantissa as int,
                    self.scale as nat,
                    other.mantissa as int,
                    other.scale as nat,
                ),
            )
        } else {
            None
        }
    }

    /// The difference as the decimal arithmetic computes it.
    pub open spec fn spec_sub(&self, other: &Amount) -> Option<Amount> {
        if self.wf() && other.wf() {
            amount_of(
                decimal_difference(
                    self.mantissa as int,
                    self.scale as nat,
                    other.mantissa as int,
                    other.scale as nat,
                ),
            )
        } else {
            None
        }
    }

    /// The product as the decimal arithmetic computes it.
    pub open spec fn spec_mul(&self, other: &Amount) -> Option<Amount> {
        if self.wf() && other.wf() {
            amount_of(
                decimal_product(
                    self.mantissa as int,
                    self.scale as nat,
                    other.mantissa as int,
                    other.scale as nat,
                ),
            )
        } else {
            None
        }
    }

    /// The quotient as the decimal arithmetic computes it.
    pub open spec fn spec_div(&self, other: &Amount) -> Option<Amount> {
        if self.wf() && other.wf() {
            amount_of(
                decimal_quotient(
                    self.mantissa as int,
                    self.scale as nat,
                    other.mantissa as int,
                    other.scale as nat,
                ),
            )
        } else {
            None
        }
    }

    /// The amount rounded to `places` decimal places, as the decimal
    /// arithmetic rounds it; an ill-formed amount stays as it is.
    pub open spec fn spec_round(&self, places: u32) -> Amount {
        if self.wf() {
            let r = decimal_rounded(self.mantissa as int, self.scale as nat, places as nat);
            Amount { mantissa: r.0 as i128, scale: r.1 as u32 }
        } else {
            *self
        }
    }

    /// The decimal text of a well-formed amount.
    pub open spec fn spec_text(&self) -> Seq<char> {
        decimal_text(self.mantissa as int, self.scale as nat)
    }

    /// Builds an amount, or `None` where the parts do not fit a decimal.
    pub fn new(mantissa: i128, scale: u32) -> (r: Option<Amount>)
        ensures
            r == (if (Amount { mantissa, scale }).wf() {
                Some(Amount { mantissa, scale })
            } else {
                None
            }),
    {
        let a = Amount { mantissa, scale };
        if a.is_valid() {
            Some(a)
        } else {
            None
        }
    }

    /// The amount a text denotes, as the decimal arithmetic reads it.
    pub open spec fn spec_parse(text: Seq<char>) -> Option<Amount> {
        amount_of(decimal_parsed(text))
    }

    /// Reads an amount out of its decimal text; `None` where the text is
    /// no decimal.
    pub fn parse(text: &String) -> (r: Option<Amount>)
        ensures
            r == Amount::spec_parse(text@),
            r is Some ==> r->0.wf(),
    {
        decimal_parse(text)
    }

    /// Zero, written with one decimal place.
    pub fn zero() -> (r: Amount)
        ensures
            r == (Amount { mantissa: 0, scale: 1 }),
            r.wf(),
    {
        Amount { mantissa: 0, scale: 1 }
    }

    /// Tells whether the parts fit a decimal.
    pub fn is_valid(&self) -> (r: bool)
        ensures
            r == self.wf(),
    {
        -MAX_MANTISSA <= self.mantissa && self.mantissa <= MAX_MANTISSA && self.scale <= MAX_SCALE
    }

    /// Tells whether the amount is above zero.
    pub fn is_positive(&self) -> (r: bool)
        ensures
            r == (self.mantissa > 0),
    {
        self.mantissa > 0
    }

    /// Adds; `None` where either side is ill-formed or the sum overflows.
    pub fn checked_add(&self, other: &Amount) -> (r: Option<Amount>)
        ensures
            r == self.spec_add(other),
            r is Some ==> r->0.wf(),
    {
        if self.is_valid() && other.is_valid() {
            decimal_add(*self, *other)
        } else {
            None
        }
    }

    /// Subtracts; `None` where either side is ill-formed or the result overflows.
    pub fn checked_sub(&self, other: &Amount) -> (r: Option<Amount>)
        ensures
            r == self.spec_sub(other),
            r is Some ==> r->0.wf(),
    {
        if self.is_valid() && other.is_valid() {
            decimal_sub(*self, *other)
        } else {
            None
        }
    }

    /// Multiplies; `None` where either side is ill-formed or the product overflows.
    pub fn checked_mul(&self, other: &Amount) -> (r: Option<Amount>)
        ensures
            r == self.spec_mul(other),
            r is Some ==> r->0.wf(),
    {
        if self.is_valid() && other.is_valid() {
            decimal_mul(*self, *other)
        } else {
            None
        }
    }

    /// Divides; `None` where either side is ill-formed, the divisor is zero
    /// or the quotient overflows.
    pub fn checked_div(&self, other: &Amount) -> (r: Option<Amount>)
        ensures
            r == self.spec_div(other),
            r is Some ==> r->0.wf(),
    {
        if self.is_valid() && other.is_valid() {
            decimal_div(*self, *other)
        } else {
            None
        }
    }

    /// Rounds to `places` decimal places; an ill-formed amount stays as
    /// it is.
    pub fn round(&self, places: u32) -> (r: Amount)
        ensures
            r == self.spec_round(places),
            self.wf() ==> r.wf(),
    {
        if self.is_valid() {
            decimal_round(*self, places)
        } else {
            *self
        }
    }

    /// Numeric equality: `1.0` equals `1.00`. Ill-formed amounts equal
    /// only themselves.
    pub fn equals(&self, other: &Amount) -> (r: bool)
        ensures
            r == self.spec_equals(other),
    {
        if self.is_valid() && other.is_valid() {
            !decimal_less(*self, *other) && !decimal_less(*other, *self)
        } else {
            self.mantissa == other.mantissa && self.scale == other.scale
        }
    }

    /// Numeric order: whether this amount is less than the other; `false`
    /// where either is ill-formed.
    pub fn less_than(&self, other: &Amount) -> (r: bool)
        ensures
            r == (self.wf() && other.wf() && self.below(other)),
    {
        if self.is_valid() && other.is_valid() {
            decimal_less(*self, *other)
        } else {
            false
        }
    }

    /// What `equals` decides.
    pub open spec fn spec_equals(&self, other: &Amount) -> bool {
        if self.wf() && other.wf() {
            self.same_value(other)
        } else {
            *self == *other
        }
    }

    /// The decimal text, as it enters hashes and messages; `None` for an
    /// ill-formed amount.
    pub fn to_text(&self) -> (r: Option<String>)
        ensures
            r is Some <==> self.wf(),
            r is Some ==> r->0@ == self.spec_text(),
    {
        if self.is_valid() {
            Some(decimal_display(*self))
        } else {
            None
        }
    }
}

/// Calls `Decimal::checked_add` on the two decimals with these mantissas
/// and scales. The result is named, not computed here; the crate keeps
/// every result within 96 bits and 28 places.
#[verifier::external_body]
fn decimal_add(a: Amount, b: Amount) -> (r: Option<Amount>)
    requires
        a.wf(),
        b.wf(),
    ensures
        parts(r) == decimal_sum(a.mantissa as int, a.scale as nat, b.mantissa as int, b.scale as nat),
        r is Some ==> r->0.wf(),
{
    let x = Decimal::from_i128_with_scale(a.mantissa, a.scale);
    let y = Decimal::from_i128_with_scale(b.mantissa, b.scale);
    match x.checked_add(y) {
        Some(d) => Some(Amount { mantissa: d.mantissa(), scale: d.scale() }),
        None => None,
    }
}

/// Calls `Decimal::checked_sub`; the result is named.
#[verifier::external_body]
fn decimal_sub(a: Amount, b: Amount) -> (r: Option<Amount>)
    requires
        a.wf(),
        b.wf(),
    ensures
        parts(r) == decimal_difference(
            a.mantissa as int,
            a.scale as nat,
            b.mantissa as int,
            b.scale as nat,
        ),
        r is Some ==> r->0.wf(),
{
    let x = Decimal::from_i128_with_scale(a.mantissa, a.scale);
    let y = Decimal::from_i128_with_scale(b.mantissa, b.scale);
    match x.checked_sub(y) {
        Some(d) => Some(Amount { mantissa: d.mantissa(), scale: d.scale() }),
        None => None,
    }
}

/// Calls `Decimal::checked_mul`; the result is named.
#[verifier::external_body]
fn decimal_mul(a: Amount, b: Amount) -> (r: Option<Amount>)
    requires
        a.wf(),
        b.wf(),
    ensures
        parts(r) == decimal_product(
            a.mantissa as int,
            a.scale as nat,
            b.mantissa as int,
            b.scale as nat,
        ),
        r is Some ==> r->0.wf(),
{
    let x = Decimal::from_i128_with_scale(a.mantissa, a.scale);
    let y = Decimal::from_i128_with_scale(b.mantissa, b.scale);
    match x.checked_mul(y) {
        Some(d) => Some(Amount { mantissa: d.mantissa(), scale: d.scale() }),
        None => None,
    }
}

/// Calls `Decimal::checked_div`; the result is named.
#[verifier::external_body]
fn decimal_div(a: Amount, b: Amount) -> (r: Option<Amount>)
    requires
        a.wf(),
        b.wf(),
    ensures
        parts(r) == decimal_quotient(
            a.mantissa as int,
            a.scale as nat,
            b.mantissa as int,
            b.scale as nat,
        ),
        r is Some ==> r->0.wf(),
{
    let x = Decimal::from_i128_with_scale(a.mantissa, a.scale);
    let y = Decimal::from_i128_with_scale(b.mantissa, b.scale);
    match x.checked_div(y) {
        Some(d) => Some(Amount { mantissa: d.mantissa(), scale: d.scale() }),
        None => None,
    }
}

/// Calls `Decimal`'s `<`, which compares the numbers exactly after
/// bringing both to one scale.
#[verifier::external_body]
fn decimal_less(a: Amount, b: Amount) -> (r: bool)
    requires
        a.wf(),
        b.wf(),
    ensures
        r == a.below(&b),
{
    Decimal::from_i128_with_scale(a.mantissa, a.scale) < Decimal::from_i128_with_scale(
        b.mantissa,
        b.scale,
    )
}

/// Calls `Decimal::round_dp`; the result is named.
#[verifier::external_body]
fn decimal_round(a: Amount, places: u32) -> (r: Amount)
    requires
        a.wf(),
    ensures
        (r.mantissa as int, r.scale as nat) == decimal_rounded(
            a.mantissa as int,
            a.scale as nat,
            places as nat,
        ),
        r.wf(),
{
    let d = Decimal::from_i128_with_scale(a.mantissa, a.scale).round_dp(places);
    Amount { mantissa: d.mantissa(), scale: d.scale() }
}

/// Calls `Decimal::from_str`; what it reads is named. A decimal that is
/// read has a mantissa of at most 96 bits and a scale of at most 28.
#[verifier::external_body]
fn decimal_parse(text: &String) -> (r: Option<Amount>)
    ensures
        parts(r) == decimal_parsed(text@),
        r is Some ==> r->0.wf(),
{
    match Decimal::from_str(text.as_str()) {
        Ok(d) => Some(Amount { mantissa: d.mantissa(), scale: d.scale() }),
        Err(_) => None,
    }
}

/// Calls `Decimal`'s `Display` through `to_string`; the text is named.
#[verifier::external_body]
fn decimal_display(a: Amount) -> (r: String)
    requires
        a.wf(),
    ensures
        r@ == decimal_text(a.mantissa as int, a.scale as nat),
{
    Decimal::from_i128_with_scale(a.mantissa, a.scale).to_string()
}

} // verus!
