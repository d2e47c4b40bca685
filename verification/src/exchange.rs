//! A pair-symmetric exchange-rate table and the cross-currency operations.
//!
//! Registering a rate for `from -> to` always registers its reciprocal for
//! `to -> from` in the same all-or-nothing operation, so the table is
//! pair-symmetric by construction.  Same-currency lookups are implicit
//! (rate one) and are never stored; there is no triangulation through a
//! third currency.  Comparisons convert the second operand into the first
//! operand's currency: the left operand's currency is authoritative.

use vstd::prelude::*;
use std::collections::HashMap;
use core::cmp::Ordering;
use crate::amount::{Amount, amount_cmp, pow10};
use crate::decimal::{add_of, sub_of, mul_of, inv_of, add_fits, sub_fits, mul_fits, dec_inv};
use crate::money::{Currency, Money, MoneyError, clamp_spec};

verus! {

broadcast use vstd::std_specs::hash::group_hash_axioms;

/// A small integer identifying each currency.
pub open spec fn currency_index(c: Currency) -> u64 {
    match c {
        Currency::CAD => 0,
        Currency::USD => 1,
    }
}

/// The table key of an ordered currency pair.
pub open spec fn pair_key(from: Currency, to: Currency) -> u64 {
    (currency_index(from) * 65536 + currency_index(to)) as u64
}

fn currency_index_exec(c: Currency) -> (r: u64)
    ensures
        r == currency_index(c),
{
    match c {
        Currency::CAD => 0,
        Currency::USD => 1,
    }
}

fn pair_key_exec(from: Currency, to: Currency) -> (r: u64)
    ensures
        r == pair_key(from, to),
{
    currency_index_exec(from) * 65536 + currency_index_exec(to)
}

/// The sole owner of a table of exchange rates, keyed by ordered currency
/// pair.
pub struct Exchange {
    rates: HashMap<u64, Amount>,
}

impl Exchange {
    /// The rate table, keyed by [`pair_key`].
    pub closed spec fn rates_map(self) -> Map<u64, Amount> {
        self.rates@
    }

    /// The registered rate for an ordered pair, if any.
    pub open spec fn rate_of(self, from: Currency, to: Currency) -> Option<Amount> {
        if self.rates_map().contains_key(pair_key(from, to)) {
            Some(self.rates_map()[pair_key(from, to)])
        } else {
            None
        }
    }

    /// Every stored rate is representable.
    pub open spec fn wf(self) -> bool {
        forall|k: u64|
            self.rates_map().contains_key(k) ==> (#[trigger] self.rates_map()[k]).wf()
    }

    /// What converting `money` into `to` yields: the identity for the same
    /// currency, multiplication by the registered rate otherwise, and
    /// nothing when no rate is registered.
    pub open spec fn convert_spec(self, money: Money, to: Currency) -> Option<Money> {
        if money.currency == to {
            Some(money)
        } else {
            match self.rate_of(money.currency, to) {
                Some(rate) => Some(
                    Money { amount: mul_of(money.amount, rate), currency: to },
                ),
                None => None,
            }
        }
    }

    /// No rate is registered to convert `m` into `to`.
    pub open spec fn rate_missing(self, m: Money, to: Currency) -> bool {
        m.currency != to && self.rate_of(m.currency, to) is None
    }

    /// Converting `m` into `to` succeeds: it is the identity, or a rate is
    /// registered and the product fits.
    pub open spec fn convert_fits(self, m: Money, to: Currency) -> bool {
        m.currency == to || (self.rate_of(m.currency, to) matches Some(rt) && mul_fits(
            m.amount,
            rt,
        ))
    }

    /// The amount `m` converts to (meaningful where conversion can succeed).
    pub open spec fn converted_amount(self, m: Money, to: Currency) -> Amount {
        match self.convert_spec(m, to) {
            Some(x) => x.amount,
            None => m.amount,
        }
    }

    /// An exchange with no registered rates.
    pub fn new() -> (r: Exchange)
        ensures
            r.rates_map() == Map::<u64, Amount>::empty(),
            r.wf(),
    {
        Exchange { rates: HashMap::new() }
    }

    /// Registers `rate` for `from -> to` and its reciprocal for `to -> from`,
    /// overwriting any prior entries for both directions.  A rate that is
    /// not positive, or whose computed reciprocal is not positive (one so
    /// large that its reciprocal rounds to zero is not invertible), is
    /// rejected before either half of the pair is committed.
    pub fn set_rate(&mut self, from: Currency, to: Currency, rate: Amount) -> (r: Result<
        (),
        MoneyError,
    >)
        requires
            old(self).wf(),
            rate.wf(),
        ensures
            final(self).wf(),
            r is Ok <==> (rate.v28() > 0 && inv_of(rate).v28() > 0),
            rate.v28() > 0 && rate.v28() <= pow10(56) ==> r is Ok,
            match r {
                Ok(()) => final(self).rates_map() == old(self).rates_map()
                    .insert(pair_key(from, to), rate)
                    .insert(pair_key(to, from), inv_of(rate)),
                Err(e) => e == MoneyError::InvalidRate && final(self).rates_map() == old(
                    self,
                ).rates_map(),
            },
    {
        let zero = Amount { mantissa: 0, scale: 0 };
        match amount_cmp(&rate, &zero) {
            Ordering::Greater => {},
            _ => {
                return Err(MoneyError::InvalidRate);
            },
        }
        let inverse = match dec_inv(&rate) {
            Some(inv) => inv,
            None => {
                return Err(MoneyError::InvalidRate);
            },
        };
        match amount_cmp(&inverse, &zero) {
            Ordering::Greater => {},
            _ => {
                return Err(MoneyError::InvalidRate);
            },
        }
        let key = pair_key_exec(from, to);
        let inverse_key = pair_key_exec(to, from);
        let _ = self.rates.insert(key, rate);
        let _ = self.rates.insert(inverse_key, inverse);
        proof {
            assert forall|k: u64| self.rates_map().contains_key(k) implies (
            #[trigger] self.rates_map()[k]).wf() by {
                if k != key && k != inverse_key {
                    assert(old(self).rates_map().contains_key(k));
                }
            }
        }
        Ok(())
    }

    /// The conversion rate from one currency to another: one for the same
    /// currency, the registered rate otherwise, and an error when no rate
    /// is registered for the pair.
    pub fn get_rate(&self, from: Currency, to: Currency) -> (r: Result<Amount, MoneyError>)
        requires
            self.wf(),
        ensures
            match r {
                Ok(a) => a.wf() && (if from == to {
                    a == Amount::one()
                } else {
                    self.rate_of(from, to) == Some(a)
                }),
                Err(e) => e == MoneyError::CouldNotFindExchangeRate && from != to && self.rate_of(
                    from,
                    to,
                ) is None,
            },
            (from != to && self.rate_of(from, to) is None) ==> r is Err,
    {
        if from == to {
            return Ok(Amount { mantissa: 1, scale: 0 });
        }
        let key = pair_key_exec(from, to);
        match self.rates.get(&key) {
            Some(rate) => Ok(*rate),
            None => Err(MoneyError::CouldNotFindExchangeRate),
        }
    }

    /// Converts money into the target currency: the identity when it is
    /// already there (no rounding is introduced), otherwise multiplication
    /// by the registered rate.
    pub fn convert(&self, money: Money, currency: Currency) -> (r: Result<Money, MoneyError>)
        requires
            self.wf(),
            money.wf(),
        ensures
            money.currency == currency ==> r == Ok::<Money, MoneyError>(money),
            r is Ok <==> self.convert_fits(money, currency),
            r == Err::<Money, MoneyError>(MoneyError::CouldNotFindExchangeRate)
                <==> self.rate_missing(money, currency),
            r matches Ok(m) ==> self.convert_spec(money, currency) == Some(m) && m.wf(),
            r matches Err(e) ==> e == MoneyError::CouldNotFindExchangeRate || e
                == MoneyError::AmountOutOfRange,
    {
        if money.currency == currency {
            return Ok(money);
        }
        let rate = match self.get_rate(money.currency, currency) {
            Ok(rt) => rt,
            Err(e) => {
                return Err(e);
            },
        };
        match money.mul(rate) {
            Some(m) => Ok(Money { amount: m.amount, currency }),
            None => Err(MoneyError::AmountOutOfRange),
        }
    }

    /// Adds two money values and expresses the sum in `output_currency`.
    /// Operands already in that currency are combined directly; the others
    /// are converted first, then combined.
    pub fn add(&self, first: Money, second: Money, output_currency: Currency) -> (r: Result<
        Money,
        MoneyError,
    >)
        requires
            self.wf(),
            first.wf(),
            second.wf(),
        ensures
            r matches Ok(m) ==> (self.convert_spec(first, output_currency) matches Some(f)
                && self.convert_spec(second, output_currency) matches Some(s) && m == (Money {
                amount: add_of(f.amount, s.amount),
                currency: output_currency,
            }) && m.wf()),
            r is Ok <==> (self.convert_fits(first, output_currency) && self.convert_fits(
                second,
                output_currency,
            ) && add_fits(
                self.converted_amount(first, output_currency),
                self.converted_amount(second, output_currency),
            )),
            r == Err::<Money, MoneyError>(MoneyError::CouldNotFindExchangeRate) <==> (
            self.rate_missing(first, output_currency) || (self.convert_fits(
                first,
                output_currency,
            ) && self.rate_missing(second, output_currency))),
            r matches Err(e) ==> e == MoneyError::CouldNotFindExchangeRate || e
                == MoneyError::AmountOutOfRange,
    {
        if first.currency == output_currency && second.currency == output_currency {
            match first.add(second) {
                Some(m) => Ok(m),
                None => Err(MoneyError::AmountOutOfRange),
            }
        } else {
            let f = match self.convert(first, output_currency) {
                Ok(m) => m,
                Err(e) => {
                    return Err(e);
                },
            };
            let s = match self.convert(second, output_currency) {
                Ok(m) => m,
                Err(e) => {
                    return Err(e);
                },
            };
            match f.add(s) {
                Some(m) => Ok(m),
                None => Err(MoneyError::AmountOutOfRange),
            }
        }
    }

    /// Subtracts the second money value from the first and expresses the
    /// difference in `output_currency`, converting only what is not already
    /// in that currency.
    pub fn sub(&self, first: Money, second: Money, output_currency: Currency) -> (r: Result<
        Money,
        MoneyError,
    >)
        requires
            self.wf(),
            first.wf(),
            second.wf(),
        ensures
            r matches Ok(m) ==> (self.convert_spec(first, output_currency) matches Some(f)
                && self.convert_spec(second, output_currency) matches Some(s) && m == (Money {
                amount: sub_of(f.amount, s.amount),
                currency: output_currency,
            }) && m.wf()),
            r is Ok <==> (self.convert_fits(first, output_currency) && self.convert_fits(
                second,
                output_currency,
            ) && sub_fits(
                self.converted_amount(first, output_currency),
                self.converted_amount(second, output_currency),
            )),
            r == Err::<Money, MoneyError>(MoneyError::CouldNotFindExchangeRate) <==> (
            self.rate_missing(first, output_currency) || (self.convert_fits(
                first,
                output_currency,
            ) && self.rate_missing(second, output_currency))),
            r matches Err(e) ==> e == MoneyError::CouldNotFindExchangeRate || e
                == MoneyError::AmountOutOfRange,
    {
        if first.currency == output_currency && second.currency == output_currency {
            match first.sub(second) {
                Some(m) => Ok(m),
                None => Err(MoneyError::AmountOutOfRange),
            }
        } else {
            let f = match self.convert(first, output_currency) {
                Ok(m) => m,
                Err(e) => {
                    return Err(e);
                },
            };
            let s = match self.convert(second, output_currency) {
                Ok(m) => m,
                Err(e) => {
                    return Err(e);
                },
            };
            match f.sub(s) {
                Some(m) => Ok(m),
                None => Err(MoneyError::AmountOutOfRange),
            }
        }
    }

    /// `first < second`, compared in `first`'s currency: with equal
    /// currencies the amounts are compared directly, otherwise `second` is
    /// converted into `first`'s currency first.
    pub fn lt(&self, first: Money, second: Money) -> (r: Result<bool, MoneyError>)
        requires
            self.wf(),
            first.wf(),
            second.wf(),
        ensures
            first.currency == second.currency ==> r == Ok::<bool, MoneyError>(
                first.amount.v28() < second.amount.v28(),
            ),
            r matches Ok(b) ==> (self.convert_spec(second, first.currency) matches Some(s) && b
                == (first.amount.v28() < s.amount.v28())),
            r is Ok <==> self.convert_fits(second, first.currency),
            r == Err::<bool, MoneyError>(MoneyError::CouldNotFindExchangeRate)
                <==> self.rate_missing(second, first.currency),
            r matches Err(e) ==> e == MoneyError::CouldNotFindExchangeRate || e
                == MoneyError::AmountOutOfRange,
    {
        if first.currency == second.currency {
            Ok(matches!(amount_cmp(&first.amount, &second.amount), Ordering::Less))
        } else {
            let s = match self.convert(second, first.currency) {
                Ok(m) => m,
                Err(e) => {
                    return Err(e);
                },
            };
            Ok(matches!(amount_cmp(&first.amount, &s.amount), Ordering::Less))
        }
    }

    /// `first <= second`, compared in `first`'s currency.
    pub fn lte(&self, first: Money, second: Money) -> (r: Result<bool, MoneyError>)
        requires
            self.wf(),
            first.wf(),
            second.wf(),
        ensures
            first.currency == second.currency ==> r == Ok::<bool, MoneyError>(
                first.amount.v28() <= second.amount.v28(),
            ),
            r matches Ok(b) ==> (self.convert_spec(second, first.currency) matches Some(s) && b
                == (first.amount.v28() <= s.amount.v28())),
            r is Ok <==> self.convert_fits(second, first.currency),
            r == Err::<bool, MoneyError>(MoneyError::CouldNotFindExchangeRate)
                <==> self.rate_missing(second, first.currency),
            r matches Err(e) ==> e == MoneyError::CouldNotFindExchangeRate || e
                == MoneyError::AmountOutOfRange,
    {
        if first.currency == second.currency {
            Ok(!matches!(amount_cmp(&first.amount, &second.amount), Ordering::Greater))
        } else {
            let s = match self.convert(second, first.currency) {
                Ok(m) => m,
                Err(e) => {
                    return Err(e);
                },
            };
            Ok(!matches!(amount_cmp(&first.amount, &s.amount), Ordering::Greater))
        }
    }

    /// `first == second`, compared in `first`'s currency.
    pub fn eq(&self, first: Money, second: Money) -> (r: Result<bool, MoneyError>)
        requires
            self.wf(),
            first.wf(),
            second.wf(),
        ensures
            first.currency == second.currency ==> r == Ok::<bool, MoneyError>(
                first.amount.v28() == second.amount.v28(),
            ),
            r matches Ok(b) ==> (self.convert_spec(second, first.currency) matches Some(s) && b
                == (first.amount.v28() == s.amount.v28())),
            r is Ok <==> self.convert_fits(second, first.currency),
            r == Err::<bool, MoneyError>(MoneyError::CouldNotFindExchangeRate)
                <==> self.rate_missing(second, first.currency),
            r matches Err(e) ==> e == MoneyError::CouldNotFindExchangeRate || e
                == MoneyError::AmountOutOfRange,
    {
        if first.currency == second.currency {
            Ok(matches!(amount_cmp(&first.amount, &second.amount), Ordering::Equal))
        } else {
            let s = match self.convert(second, first.currency) {
                Ok(m) => m,
                Err(e) => {
                    return Err(e);
                },
            };
            Ok(matches!(amount_cmp(&first.amount, &s.amount), Ordering::Equal))
        }
    }

    /// `first >= second`, compared in `first`'s currency.
    pub fn gte(&self, first: Money, second: Money) -> (r: Result<bool, MoneyError>)
        requires
            self.wf(),
            first.wf(),
            second.wf(),
        ensures
            first.currency == second.currency ==> r == Ok::<bool, MoneyError>(
                first.amount.v28() >= second.amount.v28(),
            ),
            r matches Ok(b) ==> (self.convert_spec(second, first.currency) matches Some(s) && b
                == (first.amount.v28() >= s.amount.v28())),
            r is Ok <==> self.convert_fits(second, first.currency),
            r == Err::<bool, MoneyError>(MoneyError::CouldNotFindExchangeRate)
                <==> self.rate_missing(second, first.currency),
            r matches Err(e) ==> e == MoneyError::CouldNotFindExchangeRate || e
                == MoneyError::AmountOutOfRange,
    {
        if first.currency == second.currency {
            Ok(!matches!(amount_cmp(&first.amount, &second.amount), Ordering::Less))
        } else {
            let s = match self.convert(second, first.currency) {
                Ok(m) => m,
                Err(e) => {
                    return Err(e);
                },
            };
            Ok(!matches!(amount_cmp(&first.amount, &s.amount), Ordering::Less))
        }
    }

    /// `first > second`, compared in `first`'s currency.
    pub fn gt(&self, first: Money, second: Money) -> (r: Result<bool, MoneyError>)
        requires
            self.wf(),
            first.wf(),
            second.wf(),
        ensures
            first.currency == second.currency ==> r == Ok::<bool, MoneyError>(
                first.amount.v28() > second.amount.v28(),
            ),
            r matches Ok(b) ==> (self.convert_spec(second, first.currency) matches Some(s) && b
                == (first.amount.v28() > s.amount.v28())),
            r is Ok <==> self.convert_fits(second, first.currency),
            r == Err::<bool, MoneyError>(MoneyError::CouldNotFindExchangeRate)
                <==> self.rate_missing(second, first.currency),
            r matches Err(e) ==> e == MoneyError::CouldNotFindExchangeRate || e
                == MoneyError::AmountOutOfRange,
    {
        if first.currency == second.currency {
            Ok(matches!(amount_cmp(&first.amount, &second.amount), Ordering::Greater))
        } else {
            let s = match self.convert(second, first.currency) {
                Ok(m) => m,
                Err(e) => {
                    return Err(e);
                },
            };
            Ok(matches!(amount_cmp(&first.amount, &s.amount), Ordering::Greater))
        }
    }

    /// Clamps `input` into the range `[min, max]`, expressing everything in
    /// `output_currency`; operands already in that currency are not
    /// converted, so no rounding is introduced for them.
    pub fn clamp(&self, input: Money, min: Money, max: Money, output_currency: Currency) -> (r:
        Result<Money, MoneyError>)
        requires
            self.wf(),
            input.wf(),
            min.wf(),
            max.wf(),
        ensures
            r matches Ok(m) ==> (self.convert_spec(input, output_currency) matches Some(i2)
                && self.convert_spec(min, output_currency) matches Some(lo2) && self.convert_spec(
                max,
                output_currency,
            ) matches Some(hi2) && m == clamp_spec(i2, lo2, hi2)),
            r is Ok <==> (self.convert_fits(input, output_currency) && self.convert_fits(
                min,
                output_currency,
            ) && self.convert_fits(max, output_currency)),
            r == Err::<Money, MoneyError>(MoneyError::CouldNotFindExchangeRate) <==> (
            self.rate_missing(input, output_currency) || (self.convert_fits(
                input,
                output_currency,
            ) && self.rate_missing(min, output_currency)) || (self.convert_fits(
                input,
                output_currency,
            ) && self.convert_fits(min, output_currency) && self.rate_missing(
                max,
                output_currency,
            ))),
            r matches Err(e) ==> e == MoneyError::CouldNotFindExchangeRate || e
                == MoneyError::AmountOutOfRange,
    {
        if input.currency == output_currency && min.currency == output_currency && max.currency
            == output_currency {
            Ok(input.clamp(min, max))
        } else {
            let i2 = match self.convert(input, output_currency) {
                Ok(m) => m,
                Err(e) => {
                    return Err(e);
                },
            };
            let lo2 = match self.convert(min, output_currency) {
                Ok(m) => m,
                Err(e) => {
                    return Err(e);
                },
            };
            let hi2 = match self.convert(max, output_currency) {
                Ok(m) => m,
                Err(e) => {
                    return Err(e);
                },
            };
            Ok(i2.clamp(lo2, hi2))
        }
    }
}

/// Law (rate-pair symmetry): registering a rate for a pair of distinct
/// currencies makes the pair map to that rate and the reverse pair to its
/// reciprocal, as [`Exchange::set_rate`]'s contract records the table.
pub proof fn lemma_rate_symmetry(
    pre: Exchange,
    post: Exchange,
    from: Currency,
    to: Currency,
    rate: Amount,
)
    requires
        from != to,
        post.rates_map() == pre.rates_map().insert(pair_key(from, to), rate).insert(
            pair_key(to, from),
            inv_of(rate),
        ),
    ensures
        post.rate_of(from, to) == Some(rate),
        post.rate_of(to, from) == Some(inv_of(rate)),
{
    assert(pair_key(from, to) != pair_key(to, from));
}

} // verus!
