//! Money values: a decimal amount tagged with a currency.
//!
//! Equality and ordering of money are defined only between values of the same
//! currency; comparing across currencies yields `None` rather than an answer.
//! All arithmetic is same-currency and goes through `rust_decimal` (see the
//! `decimal` module), so the contracts state results with the named decimal
//! operations and pin the value model [`crate::amount::Amount::v28`] exactly
//! for comparisons and clamping.

use vstd::prelude::*;
use core::cmp::Ordering;
use crate::amount::{Amount, amount_cmp};
use crate::decimal::{add_of, sub_of, mul_of, round_of, add_fits, sub_fits, mul_fits, dec_add,
    dec_sub, dec_mul, dec_round};

verus! {

/// The closed set of currency identifiers.
#[derive(Clone, Copy, Debug, PartialEq, Eq, Structural)]
pub enum Currency {
    CAD,
    USD,
}

/// Failures of the money and exchange operations.
#[derive(Clone, Copy, Debug, PartialEq, Eq, Structural)]
pub enum MoneyError {
    /// The requested currency pair has no registered rate.
    CouldNotFindExchangeRate,
    /// A same-currency operation received operands of different currencies.
    MismatchedCurrencies,
    /// A rate that is not positive (or cannot be inverted) was offered.
    InvalidRate,
    /// An intermediate decimal result exceeded the representable range.
    AmountOutOfRange,
}

/// An immutable amount of one currency.
#[derive(Clone, Copy, Debug)]
pub struct Money {
    pub amount: Amount,
    pub currency: Currency,
}

impl Money {
    /// The amount is representable by the underlying decimal type.
    pub open spec fn wf(self) -> bool {
        self.amount.wf()
    }
}

/// The same-currency three-way clamp: values below the range move to its
/// lower bound, values above it to its upper bound, and values inside it
/// stay unchanged.
pub open spec fn clamp_spec(m: Money, lo: Money, hi: Money) -> Money {
    if m.amount.v28() < lo.amount.v28() {
        lo
    } else if m.amount.v28() > hi.amount.v28() {
        hi
    } else {
        m
    }
}

impl PartialEq for Money {
    /// Money values are equal when they share a currency and their amounts
    /// have the same numeric value.
    fn eq(&self, other: &Money) -> (r: bool) {
        if self.currency == other.currency {
            match amount_cmp(&self.amount, &other.amount) {
                Ordering::Equal => true,
                _ => false,
            }
        } else {
            false
        }
    }
}

impl vstd::std_specs::cmp::PartialEqSpecImpl for Money {
    open spec fn obeys_eq_spec() -> bool {
        true
    }

    open spec fn eq_spec(&self, other: &Money) -> bool {
        self.currency == other.currency && self.amount.v28() == other.amount.v28()
    }
}

impl PartialOrd for Money {
    /// Ordering is defined only between values of the same currency and
    /// follows the numeric value of the amounts.
    fn partial_cmp(&self, other: &Money) -> (r: Option<Ordering>) {
        if self.currency == other.currency {
            Some(amount_cmp(&self.amount, &other.amount))
        } else {
            None
        }
    }
}

impl vstd::std_specs::cmp::PartialOrdSpecImpl for Money {
    open spec fn obeys_partial_cmp_spec() -> bool {
        true
    }

    open spec fn partial_cmp_spec(&self, other: &Money) -> Option<Ordering> {
        if self.currency != other.currency {
            None
        } else if self.amount.v28() < other.amount.v28() {
            Some(Ordering::Less)
        } else if self.amount.v28() == other.amount.v28() {
            Some(Ordering::Equal)
        } else {
            Some(Ordering::Greater)
        }
    }
}

impl Money {
    /// Same-currency addition; a currency mismatch is a caller error and is
    /// excluded by contract.  `None` only when the decimal sum overflows.
    pub fn add(self, other: Money) -> (r: Option<Money>)
        requires
            self.wf(),
            other.wf(),
            self.currency == other.currency,
        ensures
            r is Some <==> add_fits(self.amount, other.amount),
            r matches Some(m) ==> m == (Money {
                amount: add_of(self.amount, other.amount),
                currency: self.currency,
            }) && m.wf(),
    {
        match dec_add(&self.amount, &other.amount) {
            Some(a) => Some(Money { amount: a, currency: self.currency }),
            None => None,
        }
    }

    /// Same-currency subtraction; a currency mismatch is a caller error and
    /// is excluded by contract.  `None` only when the decimal difference
    /// overflows.
    pub fn sub(self, other: Money) -> (r: Option<Money>)
        requires
            self.wf(),
            other.wf(),
            self.currency == other.currency,
        ensures
            r is Some <==> sub_fits(self.amount, other.amount),
            r matches Some(m) ==> m == (Money {
                amount: sub_of(self.amount, other.amount),
                currency: self.currency,
            }) && m.wf(),
    {
        match dec_sub(&self.amount, &other.amount) {
            Some(a) => Some(Money { amount: a, currency: self.currency }),
            None => None,
        }
    }

    /// Scalar multiplication by a decimal factor; the currency is preserved.
    /// `None` only when the decimal product overflows.
    pub fn mul(self, factor: Amount) -> (r: Option<Money>)
        requires
            self.wf(),
            factor.wf(),
        ensures
            r is Some <==> mul_fits(self.amount, factor),
            r matches Some(m) ==> m == (Money {
                amount: mul_of(self.amount, factor),
                currency: self.currency,
            }) && m.wf(),
    {
        match dec_mul(&self.amount, &factor) {
            Some(a) => Some(Money { amount: a, currency: self.currency }),
            None => None,
        }
    }

    /// Same-currency three-way clamp.
    pub fn clamp(self, min: Money, max: Money) -> (r: Money)
        requires
            self.currency == min.currency,
            self.currency == max.currency,
        ensures
            r == clamp_spec(self, min, max),
    {
        match amount_cmp(&self.amount, &min.amount) {
            Ordering::Less => min,
            _ => match amount_cmp(&self.amount, &max.amount) {
                Ordering::Greater => max,
                _ => self,
            },
        }
    }
}

/// Equality up to rounding at a fixed number of fractional digits.
pub trait RoundedEq: Sized {
    /// When the comparison may be asked for.
    spec fn rounded_eq_pre(&self, other: &Self) -> bool;

    /// What the comparison returns.
    spec fn rounded_eq_spec(&self, other: Self, dp: u32) -> bool;

    /// True when the two values agree after rounding to `dp` fractional
    /// digits.
    fn rounded_eq(&self, other: Self, dp: u32) -> (r: bool)
        requires
            self.rounded_eq_pre(&other),
        ensures
            r == self.rounded_eq_spec(other, dp),
    ;
}

impl RoundedEq for Money {
    open spec fn rounded_eq_pre(&self, other: &Money) -> bool {
        self.wf() && other.wf()
    }

    /// Two money values are rounded-equal at `dp` digits when they share a
    /// currency and their amounts round (half to even) to the same value.
    open spec fn rounded_eq_spec(&self, other: Money, dp: u32) -> bool {
        self.currency == other.currency && round_of(self.amount.v28(), dp as int) == round_of(
            other.amount.v28(),
            dp as int,
        )
    }

    fn rounded_eq(&self, other: Money, dp: u32) -> (r: bool) {
        if self.currency == other.currency {
            let ra = dec_round(&self.amount, dp);
            let rb = dec_round(&other.amount, dp);
            match amount_cmp(&ra, &rb) {
                Ordering::Equal => true,
                _ => false,
            }
        } else {
            false
        }
    }
}

/// Law: clamping a value already inside the range returns it unchanged.
pub proof fn lemma_clamp_within(m: Money, lo: Money, hi: Money)
    requires
        m.currency == lo.currency,
        m.currency == hi.currency,
        lo.amount.v28() <= m.amount.v28() <= hi.amount.v28(),
    ensures
        clamp_spec(m, lo, hi) == m,
{
}

/// Law: clamping a value below the lower bound returns the lower bound.
pub proof fn lemma_clamp_below(m: Money, lo: Money, hi: Money)
    requires
        m.currency == lo.currency,
        m.currency == hi.currency,
        m.amount.v28() < lo.amount.v28(),
    ensures
        clamp_spec(m, lo, hi) == lo,
{
}

/// Law: clamping a value above the upper bound of a proper range returns the
/// upper bound.
pub proof fn lemma_clamp_above(m: Money, lo: Money, hi: Money)
    requires
        m.currency == lo.currency,
        m.currency == hi.currency,
        lo.amount.v28() <= hi.amount.v28(),
        m.amount.v28() > hi.amount.v28(),
    ensures
        clamp_spec(m, lo, hi) == hi,
{
}

} // verus!
