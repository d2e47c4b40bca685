//! Progressive tax brackets, deduction rules and tax schedules.
//!
//! A bracket taxes only the slice of income that falls within it; a schedule
//! sums the contributions of all its brackets, which reproduces the marginal
//! total because every bracket zeroes its contribution below its lower bound
//! and caps it at its upper bound.  Deduction rules reduce the taxable base
//! by a capped fraction of each claimed deduction.

use vstd::prelude::*;
use std::collections::HashMap;
use core::cmp::Ordering;
use crate::amount::{Amount, amount_cmp};
use crate::decimal::{add_of, sub_of, mul_of, add_fits, sub_fits, mul_fits};
use crate::money::{Currency, Money};

verus! {

broadcast use vstd::std_specs::hash::group_hash_axioms;

/// Failures of the tax engine.
#[derive(Clone, Copy, Debug, PartialEq, Eq, Structural)]
pub enum TaxError {
    /// A bracket or schedule was offered money of the wrong currency.
    MismatchedCurrencies,
    /// A claimed deduction's category has no registered rule.
    CouldNotFindDeduction,
    /// An intermediate decimal result exceeded the representable range.
    AmountOutOfRange,
}

/// A half-open (or, without an upper bound, open-ended) income interval
/// taxed at a single marginal rate.
#[derive(Clone, Copy, Debug)]
pub struct TaxBracket {
    pub min_money: Money,
    pub max_money: Option<Money>,
    pub rate: Amount,
}

/// Both bounds of the bracket, where present, are in this currency.
pub open spec fn bracket_currency_ok(b: TaxBracket, c: Currency) -> bool {
    &&& b.min_money.currency == c
    &&& (b.max_money matches Some(mx) ==> mx.currency == c)
}

/// All amounts of the bracket are representable.
pub open spec fn bracket_amounts_wf(b: TaxBracket) -> bool {
    &&& b.min_money.wf()
    &&& b.rate.wf()
    &&& (b.max_money matches Some(mx) ==> mx.wf())
}

impl TaxBracket {
    /// Representable amounts and matching bound currencies.
    pub open spec fn wf(self) -> bool {
        &&& bracket_amounts_wf(self)
        &&& (self.max_money matches Some(mx) ==> mx.currency == self.min_money.currency)
    }

    /// The tax this bracket alone contributes for the given income: nothing
    /// below the lower bound, the filled-bracket amount at or above the
    /// upper bound, and the rate applied to the slice above the lower bound
    /// in between.  A filled bracket contributes its upper bound times its
    /// rate — not the bracket's width times its rate — which is what makes
    /// the worked totals of the test suite come out.
    pub open spec fn tax_spec(self, income: Money) -> Amount {
        if income.amount.v28() < self.min_money.amount.v28() {
            Amount::zero()
        } else {
            match self.max_money {
                Some(mx) => if income.amount.v28() >= mx.amount.v28() {
                    mul_of(mx.amount, self.rate)
                } else {
                    mul_of(sub_of(income.amount, self.min_money.amount), self.rate)
                },
                None => mul_of(sub_of(income.amount, self.min_money.amount), self.rate),
            }
        }
    }

    /// Whether computing this bracket's tax succeeds: always below the
    /// lower bound (the contribution is zero), and otherwise exactly when
    /// the decimal arithmetic of the contributing formula fits.
    pub open spec fn tax_fits(self, income: Money) -> bool {
        if income.amount.v28() < self.min_money.amount.v28() {
            true
        } else {
            match self.max_money {
                Some(mx) => if income.amount.v28() >= mx.amount.v28() {
                    mul_fits(mx.amount, self.rate)
                } else {
                    sub_fits(income.amount, self.min_money.amount) && mul_fits(
                        sub_of(income.amount, self.min_money.amount),
                        self.rate,
                    )
                },
                None => sub_fits(income.amount, self.min_money.amount) && mul_fits(
                    sub_of(income.amount, self.min_money.amount),
                    self.rate,
                ),
            }
        }
    }

    /// A bracket with both bounds; the bounds must share a currency.
    fn new_tax_bracket_with_max(min_money: Money, max_money: Money, rate: Amount) -> (r: Result<
        TaxBracket,
        TaxError,
    >)
        ensures
            match r {
                Ok(b) => min_money.currency == max_money.currency && b == (TaxBracket {
                    min_money,
                    max_money: Some(max_money),
                    rate,
                }),
                Err(e) => e == TaxError::MismatchedCurrencies && min_money.currency
                    != max_money.currency,
            },
    {
        if min_money.currency != max_money.currency {
            Err(TaxError::MismatchedCurrencies)
        } else {
            Ok(TaxBracket { min_money, max_money: Some(max_money), rate })
        }
    }

    /// A bracket over `[min_money, max_money)`, or over `[min_money, ∞)`
    /// when no upper bound is given.  Mismatched bound currencies are
    /// rejected and nothing is constructed.
    pub fn new(min_money: Money, max_money: Option<Money>, rate: Amount) -> (r: Result<
        TaxBracket,
        TaxError,
    >)
        ensures
            match r {
                Ok(b) => b == (TaxBracket { min_money, max_money, rate }) && (
                max_money matches Some(mx) ==> mx.currency == min_money.currency),
                Err(e) => e == TaxError::MismatchedCurrencies && (max_money matches Some(mx)
                    && mx.currency != min_money.currency),
            },
            (max_money matches Some(mx) && mx.currency != min_money.currency) <==> r is Err,
    {
        match max_money {
            Some(mx) => Self::new_tax_bracket_with_max(min_money, mx, rate),
            None => Ok(TaxBracket { min_money, max_money: None, rate }),
        }
    }

    /// The tax contributed by this bracket alone.  The income must be in
    /// the bracket's currency; `None` only when the decimal arithmetic
    /// overflows.
    pub fn calculate_tax(&self, taxable_income: Money) -> (r: Option<Money>)
        requires
            self.wf(),
            taxable_income.wf(),
            taxable_income.currency == self.min_money.currency,
        ensures
            r is Some <==> self.tax_fits(taxable_income),
            r matches Some(m) ==> m.currency == self.min_money.currency && m.amount
                == self.tax_spec(taxable_income) && m.amount.wf(),
            taxable_income.amount.v28() < self.min_money.amount.v28() ==> (r matches Some(m) && m
                == (Money {
                amount: Amount::zero(),
                currency: self.min_money.currency,
            })),
    {
        if matches!(
            amount_cmp(&taxable_income.amount, &self.min_money.amount),
            Ordering::Less
        ) {
            return Some(
                Money { amount: Amount { mantissa: 0, scale: 0 }, currency: self.min_money.currency },
            );
        }
        match self.max_money {
            Some(mx) => {
                if !matches!(amount_cmp(&taxable_income.amount, &mx.amount), Ordering::Less) {
                    mx.mul(self.rate)
                } else {
                    match taxable_income.sub(self.min_money) {
                        Some(slice) => slice.mul(self.rate),
                        None => None,
                    }
                }
            },
            None => {
                match taxable_income.sub(self.min_money) {
                    Some(slice) => slice.mul(self.rate),
                    None => None,
                }
            },
        }
    }
}

/// The categories a deduction rule may be registered for.
#[derive(Clone, Copy, Debug, PartialEq, Eq, Structural)]
pub enum TaxDeductionCategory {
    CapitalGains,
    EmployeeStockOptions,
}

/// A deduction rule: an optional cap and the fraction of the claimed amount
/// that is actually deductible.
#[derive(Clone, Copy, Debug)]
pub struct TaxDeductionRule {
    pub tax_deduction_type: TaxDeductionCategory,
    pub max_amount: Option<Money>,
    pub inclusion_rate: Amount,
}

/// One claimed deduction, to be resolved against the rule of its category.
#[derive(Clone, Copy, Debug)]
pub struct TaxDeduction {
    pub tax_deduction_type: TaxDeductionCategory,
    pub money_to_deduct: Money,
}

/// The rule's amounts are representable and its cap, if any, is in `c`.
pub open spec fn rule_wf(r: TaxDeductionRule, c: Currency) -> bool {
    &&& r.inclusion_rate.wf()
    &&& (r.max_amount matches Some(mx) ==> mx.wf() && mx.currency == c)
}

impl TaxDeductionRule {
    /// The deductible amount for one claim: the inclusion rate applied to
    /// the claimed amount, or to the cap when the claim exceeds it.
    pub open spec fn deduction_spec(self, d: TaxDeduction) -> Amount {
        match self.max_amount {
            Some(mx) => if d.money_to_deduct.amount.v28() > mx.amount.v28() {
                mul_of(mx.amount, self.inclusion_rate)
            } else {
                mul_of(d.money_to_deduct.amount, self.inclusion_rate)
            },
            None => mul_of(d.money_to_deduct.amount, self.inclusion_rate),
        }
    }

    /// Whether the deductible amount computes: the product of the
    /// inclusion rate with the capped claim fits.
    pub open spec fn deduction_fits(self, d: TaxDeduction) -> bool {
        match self.max_amount {
            Some(mx) => if d.money_to_deduct.amount.v28() > mx.amount.v28() {
                mul_fits(mx.amount, self.inclusion_rate)
            } else {
                mul_fits(d.money_to_deduct.amount, self.inclusion_rate)
            },
            None => mul_fits(d.money_to_deduct.amount, self.inclusion_rate),
        }
    }

    /// The deductible amount for one claim.  Claim and cap are assumed to
    /// be in the same currency (the schedule enforces this); `None` only
    /// when the decimal arithmetic overflows.
    pub fn apply_deduction(&self, deduction: TaxDeduction) -> (r: Option<Money>)
        requires
            deduction.money_to_deduct.wf(),
            self.inclusion_rate.wf(),
            self.max_amount matches Some(mx) ==> mx.wf() && mx.currency
                == deduction.money_to_deduct.currency,
        ensures
            r is Some <==> self.deduction_fits(deduction),
            r matches Some(m) ==> m.currency == deduction.money_to_deduct.currency && m.amount
                == self.deduction_spec(deduction) && m.amount.wf(),
    {
        match self.max_amount {
            Some(mx) => {
                if matches!(
                    amount_cmp(&deduction.money_to_deduct.amount, &mx.amount),
                    Ordering::Greater
                ) {
                    mx.mul(self.inclusion_rate)
                } else {
                    deduction.money_to_deduct.mul(self.inclusion_rate)
                }
            },
            None => deduction.money_to_deduct.mul(self.inclusion_rate),
        }
    }
}

/// A small integer identifying each deduction category.
pub open spec fn category_index(c: TaxDeductionCategory) -> u64 {
    match c {
        TaxDeductionCategory::CapitalGains => 0,
        TaxDeductionCategory::EmployeeStockOptions => 1,
    }
}

fn category_index_exec(c: TaxDeductionCategory) -> (r: u64)
    ensures
        r == category_index(c),
{
    match c {
        TaxDeductionCategory::CapitalGains => 0,
        TaxDeductionCategory::EmployeeStockOptions => 1,
    }
}

/// Brackets ordered by ascending lower bound.
pub open spec fn sorted_by_min(s: Seq<TaxBracket>) -> bool {
    forall|i: int, j: int| #![trigger s[i], s[j]]
        0 <= i < j < s.len() ==> s[i].min_money.amount.v28() <= s[j].min_money.amount.v28()
}

/// The sum of the taxes that each bracket contributes for this income,
/// accumulated left to right with the named decimal addition.
pub open spec fn sum_taxes(brs: Seq<TaxBracket>, income: Money) -> Amount
    decreases brs.len(),
{
    if brs.len() == 0 {
        Amount::zero()
    } else {
        add_of(sum_taxes(brs.drop_last(), income), brs.last().tax_spec(income))
    }
}

/// Whether every step of [`sum_taxes`] fits: each bracket's own tax
/// computes, and so does each running addition.
pub open spec fn sum_taxes_fits(brs: Seq<TaxBracket>, income: Money) -> bool
    decreases brs.len(),
{
    if brs.len() == 0 {
        true
    } else {
        sum_taxes_fits(brs.drop_last(), income) && brs.last().tax_fits(income) && add_fits(
            sum_taxes(brs.drop_last(), income),
            brs.last().tax_spec(income),
        )
    }
}

/// When the whole deduction fold fits, so does every prefix of it.
proof fn lemma_deductions_total_fits_prefix(s: TaxSchedule, ds: Seq<TaxDeduction>, k: int)
    requires
        s.deductions_total_fits(ds),
        0 <= k <= ds.len(),
    ensures
        s.deductions_total_fits(ds.subrange(0, k)),
    decreases ds.len() - k,
{
    if k == ds.len() {
        assert(ds.subrange(0, k) =~= ds);
    } else {
        lemma_deductions_total_fits_prefix(s, ds, k + 1);
        assert(ds.subrange(0, k + 1).drop_last() =~= ds.subrange(0, k));
    }
}

/// When the whole fold fits, so does every prefix of it.
proof fn lemma_sum_taxes_fits_prefix(brs: Seq<TaxBracket>, income: Money, k: int)
    requires
        sum_taxes_fits(brs, income),
        0 <= k <= brs.len(),
    ensures
        sum_taxes_fits(brs.subrange(0, k), income),
    decreases brs.len() - k,
{
    if k == brs.len() {
        assert(brs.subrange(0, k) =~= brs);
    } else {
        lemma_sum_taxes_fits_prefix(brs, income, k + 1);
        assert(brs.subrange(0, k + 1).drop_last() =~= brs.subrange(0, k));
    }
}

/// Where a bracket belongs among sorted brackets: before the suffix of
/// strictly greater lower bounds and after every equal or smaller one, so
/// brackets with equal lower bounds keep their given order.
pub open spec fn insert_sorted(s: Seq<TaxBracket>, b: TaxBracket) -> Seq<TaxBracket>
    decreases s.len(),
{
    if s.len() == 0 {
        seq![b]
    } else if s.last().min_money.amount.v28() > b.min_money.amount.v28() {
        insert_sorted(s.drop_last(), b).push(s.last())
    } else {
        s.push(b)
    }
}

/// The brackets in ascending order of lower bound, placed one by one with
/// [`insert_sorted`]: a stable sort, equal lower bounds keeping their given
/// order.
pub open spec fn sort_by_min_spec(s: Seq<TaxBracket>) -> Seq<TaxBracket>
    decreases s.len(),
{
    if s.len() == 0 {
        Seq::empty()
    } else {
        insert_sorted(sort_by_min_spec(s.drop_last()), s.last())
    }
}

/// Inserting at the first strictly greater position is [`insert_sorted`].
proof fn lemma_insert_at_position(s: Seq<TaxBracket>, b: TaxBracket, pos: int)
    requires
        0 <= pos <= s.len(),
        forall|j: int| #![trigger s[j]]
            0 <= j < pos ==> s[j].min_money.amount.v28() <= b.min_money.amount.v28(),
        forall|j: int| #![trigger s[j]]
            pos <= j < s.len() ==> s[j].min_money.amount.v28() > b.min_money.amount.v28(),
    ensures
        s.insert(pos, b) == insert_sorted(s, b),
    decreases s.len(),
{
    if s.len() == 0 {
        assert(s.insert(0, b) =~= seq![b]);
    } else if pos == s.len() {
        assert(s.insert(pos, b) =~= s.push(b));
    } else {
        lemma_insert_at_position(s.drop_last(), b, pos);
        assert(s.insert(pos, b) =~= s.drop_last().insert(pos, b).push(s.last()));
    }
}

/// The index of the first bracket whose lower bound exceeds `b`'s, which is
/// where `b` belongs in a sorted sequence (after any equal lower bounds).
fn insert_position(out: &Vec<TaxBracket>, b: &TaxBracket) -> (pos: usize)
    requires
        sorted_by_min(out@),
    ensures
        pos <= out@.len(),
        forall|j: int| #![trigger out@[j]]
            0 <= j < pos ==> out@[j].min_money.amount.v28() <= b.min_money.amount.v28(),
        forall|j: int| #![trigger out@[j]]
            pos <= j < out@.len() ==> out@[j].min_money.amount.v28()
                > b.min_money.amount.v28(),
{
    let n = out.len();
    let mut pos: usize = 0;
    while pos < n
        invariant
            pos <= n,
            n == out@.len(),
            sorted_by_min(out@),
            forall|j: int| #![trigger out@[j]]
                0 <= j < pos ==> out@[j].min_money.amount.v28() <= b.min_money.amount.v28(),
        decreases n - pos,
    {
        match amount_cmp(&out[pos].min_money.amount, &b.min_money.amount) {
            Ordering::Greater => {
                return pos;
            },
            _ => {
                pos = pos + 1;
            },
        }
    }
    pos
}

/// Sorts brackets by ascending lower bound (insertion sort); the result
/// holds exactly the given brackets and is the stable sort
/// [`sort_by_min_spec`] of the input.
fn sort_brackets(input: Vec<TaxBracket>) -> (out: Vec<TaxBracket>)
    ensures
        out@ == sort_by_min_spec(input@),
        out@.to_multiset() == input@.to_multiset(),
        sorted_by_min(out@),
{
    broadcast use vstd::seq_lib::group_to_multiset_ensures;

    let n = input.len();
    let mut out: Vec<TaxBracket> = Vec::new();
    let mut i: usize = 0;
    proof {
        assert(input@.subrange(0, 0) =~= out@);
    }
    while i < n
        invariant
            i <= n,
            n == input@.len(),
            out@.len() == i,
            out@ == sort_by_min_spec(input@.subrange(0, i as int)),
            out@.to_multiset() == input@.subrange(0, i as int).to_multiset(),
            sorted_by_min(out@),
        decreases n - i,
    {
        broadcast use vstd::seq_lib::group_to_multiset_ensures;

        let b = input[i];
        let pos = insert_position(&out, &b);
        let ghost pre = out@;
        out.insert(pos, b);
        proof {
            assert(out@ =~= pre.subrange(0, pos as int).push(b) + pre.subrange(
                pos as int,
                pre.len() as int,
            ));
            assert forall|x: int, y: int| #![trigger out@[x], out@[y]]
                0 <= x < y < out@.len() implies out@[x].min_money.amount.v28()
                <= out@[y].min_money.amount.v28() by {
                if x < pos {
                    assert(out@[x] == pre[x]);
                } else if x == pos {
                    assert(out@[x] == b);
                } else {
                    assert(out@[x] == pre[x - 1]);
                }
                if y < pos {
                    assert(out@[y] == pre[y]);
                } else if y == pos {
                    assert(out@[y] == b);
                } else {
                    assert(out@[y] == pre[y - 1]);
                }
            }
            lemma_insert_at_position(pre, b, pos as int);
            assert(input@.subrange(0, i as int + 1) =~= input@.subrange(0, i as int).push(
                input@[i as int],
            ));
            assert(input@.subrange(0, i as int + 1).drop_last() =~= input@.subrange(0, i as int));
        }
        i = i + 1;
    }
    proof {
        assert(input@.subrange(0, n as int) =~= input@);
    }
    out
}

/// An ordered collection of brackets and a table of deduction rules, all
/// pinned to one currency.
#[derive(Debug, Clone)]
pub struct TaxSchedule {
    brackets: Vec<TaxBracket>,
    deductions_map: HashMap<u64, TaxDeductionRule>,
    tax_currency: Currency,
}

impl TaxSchedule {
    /// The brackets, sorted by ascending lower bound.
    pub closed spec fn brackets_seq(self) -> Seq<TaxBracket> {
        self.brackets@
    }

    /// The currency every bracket and deduction of this schedule is in.
    pub closed spec fn currency(self) -> Currency {
        self.tax_currency
    }

    /// The deduction rules, keyed by [`category_index`].
    pub closed spec fn rule_map(self) -> Map<u64, TaxDeductionRule> {
        self.deductions_map@
    }

    /// The registered rule for a category, if any.
    pub open spec fn rule_for(self, c: TaxDeductionCategory) -> Option<TaxDeductionRule> {
        if self.rule_map().contains_key(category_index(c)) {
            Some(self.rule_map()[category_index(c)])
        } else {
            None
        }
    }

    /// Every bracket is representable and in the schedule's currency, and
    /// so is the cap of every registered rule.
    pub open spec fn wf(self) -> bool {
        &&& forall|i: int| #![trigger self.brackets_seq()[i]]
            0 <= i < self.brackets_seq().len() ==> bracket_amounts_wf(self.brackets_seq()[i])
                && bracket_currency_ok(self.brackets_seq()[i], self.currency())
        &&& forall|k: u64|
            self.rule_map().contains_key(k) ==> rule_wf(
                #[trigger] self.rule_map()[k],
                self.currency(),
            )
    }

    /// There is a claimed deduction whose category has no registered rule.
    pub open spec fn missing_rule(self, ds: Seq<TaxDeduction>) -> bool {
        exists|i: int|
            0 <= i < ds.len() && self.rule_for((#[trigger] ds[i]).tax_deduction_type) is None
    }

    /// The sum of the deductible amounts of the claims, accumulated left to
    /// right with the named decimal addition.  Claims without a registered
    /// rule contribute nothing; the callers rule them out beforehand.
    pub open spec fn deductions_total_spec(self, ds: Seq<TaxDeduction>) -> Amount
        decreases ds.len(),
    {
        if ds.len() == 0 {
            Amount::zero()
        } else {
            let d = ds.last();
            let ded = match self.rule_for(d.tax_deduction_type) {
                Some(rule) => rule.deduction_spec(d),
                None => Amount::zero(),
            };
            add_of(self.deductions_total_spec(ds.drop_last()), ded)
        }
    }

    /// Whether every step of [`TaxSchedule::deductions_total_spec`] fits:
    /// each claim's deductible amount computes, and so does each running
    /// addition.
    pub open spec fn deductions_total_fits(self, ds: Seq<TaxDeduction>) -> bool
        decreases ds.len(),
    {
        if ds.len() == 0 {
            true
        } else {
            let d = ds.last();
            let ded = match self.rule_for(d.tax_deduction_type) {
                Some(rule) => rule.deduction_spec(d),
                None => Amount::zero(),
            };
            let dfits = match self.rule_for(d.tax_deduction_type) {
                Some(rule) => rule.deduction_fits(d),
                None => true,
            };
            self.deductions_total_fits(ds.drop_last()) && dfits && add_fits(
                self.deductions_total_spec(ds.drop_last()),
                ded,
            )
        }
    }

    fn validate_currency_on_bracket(bracket: &TaxBracket, currency: Currency) -> (b: bool)
        ensures
            b == bracket_currency_ok(*bracket, currency),
    {
        match bracket.max_money {
            Some(mx) => mx.currency == currency && bracket.min_money.currency == currency,
            None => bracket.min_money.currency == currency,
        }
    }

    fn validate_currency_on_brackets(brackets: &Vec<TaxBracket>, currency: Currency) -> (b: bool)
        ensures
            b == (forall|i: int|
                0 <= i < brackets@.len() ==> bracket_currency_ok(
                    #[trigger] brackets@[i],
                    currency,
                )),
    {
        let n = brackets.len();
        let mut i: usize = 0;
        while i < n
            invariant
                i <= n,
                n == brackets@.len(),
                forall|j: int|
                    0 <= j < i ==> bracket_currency_ok(#[trigger] brackets@[j], currency),
            decreases n - i,
        {
            if !Self::validate_currency_on_bracket(&brackets[i], currency) {
                return false;
            }
            i = i + 1;
        }
        true
    }

    /// A schedule over the given brackets, pinned to `currency`.  Any
    /// bracket denominated in another currency is rejected and nothing is
    /// constructed; accepted brackets are stored sorted by ascending lower
    /// bound.  Overlaps and gaps between brackets are the caller's
    /// responsibility and are accepted as given.
    pub fn new(brackets: Vec<TaxBracket>, currency: Currency) -> (r: Result<TaxSchedule, TaxError>)
        requires
            forall|i: int| 0 <= i < brackets@.len() ==> bracket_amounts_wf(#[trigger] brackets@[i]),
        ensures
            match r {
                Ok(s) => {
                    &&& s.wf()
                    &&& s.currency() == currency
                    &&& s.brackets_seq() == sort_by_min_spec(brackets@)
                    &&& s.brackets_seq().to_multiset() == brackets@.to_multiset()
                    &&& sorted_by_min(s.brackets_seq())
                    &&& s.rule_map() == Map::<u64, TaxDeductionRule>::empty()
                    &&& forall|i: int|
                        0 <= i < brackets@.len() ==> bracket_currency_ok(
                            #[trigger] brackets@[i],
                            currency,
                        )
                },
                Err(e) => e == TaxError::MismatchedCurrencies && exists|i: int|
                    0 <= i < brackets@.len() && !bracket_currency_ok(
                        #[trigger] brackets@[i],
                        currency,
                    ),
            },
    {
        broadcast use vstd::seq_lib::group_to_multiset_ensures;

        if !Self::validate_currency_on_brackets(&brackets, currency) {
            return Err(TaxError::MismatchedCurrencies);
        }
        let sorted = sort_brackets(brackets);
        let s = TaxSchedule {
            brackets: sorted,
            deductions_map: HashMap::new(),
            tax_currency: currency,
        };
        proof {
            assert forall|i: int|
                0 <= i < s.brackets_seq().len() implies bracket_amounts_wf(
                #[trigger] s.brackets_seq()[i],
            ) && bracket_currency_ok(s.brackets_seq()[i], currency) by {
                let x = s.brackets_seq()[i];
                assert(s.brackets_seq().contains(x));
                assert(brackets@.to_multiset().count(x) > 0);
                assert(brackets@.contains(x));
                let j = choose|j: int| 0 <= j < brackets@.len() && brackets@[j] == x;
                assert(bracket_amounts_wf(brackets@[j]));
                assert(bracket_currency_ok(brackets@[j], currency));
            }
        }
        Ok(s)
    }

    /// Registers (or overwrites) the deduction rule for a category.  The
    /// rule's cap, if any, must be in the schedule's currency.
    pub fn set_deduction(
        &mut self,
        tax_deduction_category: TaxDeductionCategory,
        tax_deduction_rule: TaxDeductionRule,
    )
        requires
            old(self).wf(),
            rule_wf(tax_deduction_rule, old(self).currency()),
        ensures
            final(self).wf(),
            final(self).currency() == old(self).currency(),
            final(self).brackets_seq() == old(self).brackets_seq(),
            final(self).rule_map() == old(self).rule_map().insert(
                category_index(tax_deduction_category),
                tax_deduction_rule,
            ),
            final(self).rule_for(tax_deduction_category) == Some(tax_deduction_rule),
            forall|c: TaxDeductionCategory|
                c != tax_deduction_category ==> #[trigger] final(self).rule_for(c) == old(
                    self,
                ).rule_for(c),
    {
        let k = category_index_exec(tax_deduction_category);
        let _ = self.deductions_map.insert(k, tax_deduction_rule);
        proof {
            assert forall|kk: u64| self.rule_map().contains_key(kk) implies rule_wf(
                #[trigger] self.rule_map()[kk],
                self.currency(),
            ) by {
                if kk != k {
                    assert(old(self).rule_map().contains_key(kk));
                }
            }
            assert forall|i: int|
                0 <= i < self.brackets_seq().len() implies bracket_amounts_wf(
                #[trigger] self.brackets_seq()[i],
            ) && bracket_currency_ok(self.brackets_seq()[i], self.currency()) by {
                assert(old(self).brackets_seq()[i] == self.brackets_seq()[i]);
            }
        }
    }

    /// The total tax owed on the income: the sum over all brackets of the
    /// tax each contributes.  The income must be in the schedule's
    /// currency; the only failure is decimal overflow.
    pub fn calculate_tax(&self, taxable_income: Money) -> (r: Result<Money, TaxError>)
        requires
            self.wf(),
            taxable_income.wf(),
            taxable_income.currency == self.currency(),
        ensures
            r is Ok <==> sum_taxes_fits(self.brackets_seq(), taxable_income),
            r matches Ok(m) ==> m.currency == taxable_income.currency && m.amount == sum_taxes(
                self.brackets_seq(),
                taxable_income,
            ) && m.amount.wf(),
            r matches Err(e) ==> e == TaxError::AmountOutOfRange,
    {
        let ghost brs = self.brackets_seq();
        let n = self.brackets.len();
        let mut acc = Money {
            amount: Amount { mantissa: 0, scale: 0 },
            currency: taxable_income.currency,
        };
        let mut i: usize = 0;
        proof {
            assert(brs.subrange(0, 0) =~= Seq::<TaxBracket>::empty());
        }
        while i < n
            invariant
                i <= n,
                n == brs.len(),
                brs == self.brackets_seq(),
                self.wf(),
                taxable_income.wf(),
                taxable_income.currency == self.currency(),
                acc.currency == taxable_income.currency,
                acc.wf(),
                acc.amount == sum_taxes(brs.subrange(0, i as int), taxable_income),
                sum_taxes_fits(brs.subrange(0, i as int), taxable_income),
            decreases n - i,
        {
            let b = self.brackets[i];
            proof {
                assert(bracket_amounts_wf(brs[i as int]));
                assert(bracket_currency_ok(brs[i as int], self.currency()));
            }
            let t = match b.calculate_tax(taxable_income) {
                Some(t) => t,
                None => {
                    proof {
                        if sum_taxes_fits(brs, taxable_income) {
                            lemma_sum_taxes_fits_prefix(brs, taxable_income, i as int + 1);
                            let p1 = brs.subrange(0, i as int + 1);
                            assert(p1.drop_last() =~= brs.subrange(0, i as int));
                            assert(p1.last() == brs[i as int]);
                            assert(false);
                        }
                    }
                    return Err(TaxError::AmountOutOfRange);
                },
            };
            acc = match acc.add(t) {
                Some(a) => a,
                None => {
                    proof {
                        if sum_taxes_fits(brs, taxable_income) {
                            lemma_sum_taxes_fits_prefix(brs, taxable_income, i as int + 1);
                            let p1 = brs.subrange(0, i as int + 1);
                            assert(p1.drop_last() =~= brs.subrange(0, i as int));
                            assert(p1.last() == brs[i as int]);
                            assert(false);
                        }
                    }
                    return Err(TaxError::AmountOutOfRange);
                },
            };
            proof {
                let prefix = brs.subrange(0, i as int + 1);
                assert(prefix.drop_last() =~= brs.subrange(0, i as int));
                assert(prefix.last() == brs[i as int]);
            }
            i = i + 1;
        }
        proof {
            assert(brs.subrange(0, n as int) =~= brs);
        }
        Ok(acc)
    }

    /// The total deductible amount of the claims: each claim's rule is
    /// looked up by category — any unregistered category fails the whole
    /// computation — and the capped, inclusion-weighted amounts are summed.
    fn determine_deductions_amount(&self, deductions: &Vec<TaxDeduction>) -> (r: Result<
        Money,
        TaxError,
    >)
        requires
            self.wf(),
            forall|i: int| #![trigger deductions@[i]]
                0 <= i < deductions@.len() ==> deductions@[i].money_to_deduct.wf()
                    && deductions@[i].money_to_deduct.currency == self.currency(),
        ensures
            r is Ok <==> (!self.missing_rule(deductions@) && self.deductions_total_fits(
                deductions@,
            )),
            r == Err::<Money, TaxError>(TaxError::CouldNotFindDeduction) <==> self.missing_rule(
                deductions@,
            ),
            r matches Ok(m) ==> m.currency == self.currency() && m.amount
                == self.deductions_total_spec(deductions@) && m.amount.wf(),
            r matches Err(e) ==> e == TaxError::CouldNotFindDeduction || e
                == TaxError::AmountOutOfRange,
    {
        let n = deductions.len();
        let mut i: usize = 0;
        while i < n
            invariant
                i <= n,
                n == deductions@.len(),
                forall|j: int|
                    0 <= j < i ==> self.rule_for(
                        (#[trigger] deductions@[j]).tax_deduction_type,
                    ) is Some,
            decreases n - i,
        {
            let k = category_index_exec(deductions[i].tax_deduction_type);
            if !self.deductions_map.contains_key(&k) {
                proof {
                    assert(self.rule_for(deductions@[i as int].tax_deduction_type) is None);
                }
                return Err(TaxError::CouldNotFindDeduction);
            }
            i = i + 1;
        }
        let ghost ds = deductions@;
        let mut acc = Money {
            amount: Amount { mantissa: 0, scale: 0 },
            currency: self.tax_currency,
        };
        let mut w: usize = 0;
        proof {
            assert(ds.subrange(0, 0) =~= Seq::<TaxDeduction>::empty());
        }
        while w < n
            invariant
                w <= n,
                n == ds.len(),
                ds == deductions@,
                self.wf(),
                forall|i: int| #![trigger ds[i]]
                    0 <= i < ds.len() ==> ds[i].money_to_deduct.wf()
                        && ds[i].money_to_deduct.currency == self.currency(),
                forall|j: int|
                    0 <= j < n ==> self.rule_for(
                        (#[trigger] ds[j]).tax_deduction_type,
                    ) is Some,
                acc.currency == self.currency(),
                acc.wf(),
                acc.amount == self.deductions_total_spec(ds.subrange(0, w as int)),
                self.deductions_total_fits(ds.subrange(0, w as int)),
            decreases n - w,
        {
            let d = deductions[w];
            let k = category_index_exec(d.tax_deduction_type);
            let rule = *self.deductions_map.get(&k).unwrap();
            proof {
                assert(self.rule_map().contains_key(k));
                assert(rule_wf(self.rule_map()[k], self.currency()));
                assert(self.rule_for(d.tax_deduction_type) == Some(rule));
            }
            let ded = match rule.apply_deduction(d) {
                Some(m) => m,
                None => {
                    proof {
                        if self.deductions_total_fits(ds) {
                            lemma_deductions_total_fits_prefix(*self, ds, w as int + 1);
                            let p1 = ds.subrange(0, w as int + 1);
                            assert(p1.drop_last() =~= ds.subrange(0, w as int));
                            assert(p1.last() == ds[w as int]);
                            assert(false);
                        }
                    }
                    return Err(TaxError::AmountOutOfRange);
                },
            };
            acc = match acc.add(ded) {
                Some(a) => a,
                None => {
                    proof {
                        if self.deductions_total_fits(ds) {
                            lemma_deductions_total_fits_prefix(*self, ds, w as int + 1);
                            let p1 = ds.subrange(0, w as int + 1);
                            assert(p1.drop_last() =~= ds.subrange(0, w as int));
                            assert(p1.last() == ds[w as int]);
                            assert(false);
                        }
                    }
                    return Err(TaxError::AmountOutOfRange);
                },
            };
            proof {
                let prefix = ds.subrange(0, w as int + 1);
                assert(prefix.drop_last() =~= ds.subrange(0, w as int));
                assert(prefix.last() == ds[w as int]);
            }
            w = w + 1;
        }
        proof {
            assert(ds.subrange(0, n as int) =~= ds);
        }
        Ok(acc)
    }

    /// The total tax owed after deductions: the deductible total is
    /// resolved first — failing without computing any tax when a claimed
    /// category is unregistered — and the tax is then computed on the
    /// income less that total.
    pub fn calculate_tax_with_deductions(
        &self,
        income: Money,
        deductions: Vec<TaxDeduction>,
    ) -> (r: Result<Money, TaxError>)
        requires
            self.wf(),
            income.wf(),
            income.currency == self.currency(),
            forall|i: int| #![trigger deductions@[i]]
                0 <= i < deductions@.len() ==> deductions@[i].money_to_deduct.wf()
                    && deductions@[i].money_to_deduct.currency == self.currency(),
        ensures
            r is Ok <==> (!self.missing_rule(deductions@) && self.deductions_total_fits(
                deductions@,
            ) && sub_fits(income.amount, self.deductions_total_spec(deductions@))
                && sum_taxes_fits(
                self.brackets_seq(),
                (Money {
                    amount: sub_of(income.amount, self.deductions_total_spec(deductions@)),
                    currency: income.currency,
                }),
            )),
            r == Err::<Money, TaxError>(TaxError::CouldNotFindDeduction) <==> self.missing_rule(
                deductions@,
            ),
            r matches Ok(m) ==> m.currency == self.currency() && m.amount == sum_taxes(
                self.brackets_seq(),
                (Money {
                    amount: sub_of(income.amount, self.deductions_total_spec(deductions@)),
                    currency: income.currency,
                }),
            ) && m.amount.wf(),
            r matches Err(e) ==> e == TaxError::CouldNotFindDeduction || e
                == TaxError::AmountOutOfRange,
    {
        let total = match self.determine_deductions_amount(&deductions) {
            Ok(t) => t,
            Err(e) => {
                return Err(e);
            },
        };
        let base = match income.sub(total) {
            Some(b) => b,
            None => {
                return Err(TaxError::AmountOutOfRange);
            },
        };
        self.calculate_tax(base)
    }
}

} // verus!
