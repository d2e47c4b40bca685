//! Trusted bridge to the `rust_decimal` arithmetic.
//!
//! The rounding behaviour of decimal addition, subtraction, multiplication,
//! division and rounding is `rust_decimal`'s own; this crate does not restate
//! it.  Each operation's result is therefore given a name — an uninterpreted
//! spec function of the operands — and every contract in the crate that
//! mentions an arithmetic result speaks of that name.  The wrappers below are
//! the only places where the names are tied to the real computation.

use vstd::prelude::*;
use crate::amount::{Amount, pow10};

verus! {

/// What `rust_decimal` addition returns for these two representations.
pub uninterp spec fn add_of(a: Amount, b: Amount) -> Amount;

/// What `rust_decimal` subtraction returns for these two representations.
pub uninterp spec fn sub_of(a: Amount, b: Amount) -> Amount;

/// What `rust_decimal` multiplication returns for these two representations.
pub uninterp spec fn mul_of(a: Amount, b: Amount) -> Amount;

/// What `rust_decimal` division of one by this representation returns.
pub uninterp spec fn inv_of(a: Amount) -> Amount;

/// Whether `rust_decimal` addition of these two representations succeeds
/// (does not overflow).
pub uninterp spec fn add_fits(a: Amount, b: Amount) -> bool;

/// Whether `rust_decimal` subtraction of these two representations succeeds
/// (does not overflow).
pub uninterp spec fn sub_fits(a: Amount, b: Amount) -> bool;

/// Whether `rust_decimal` multiplication of these two representations
/// succeeds (does not overflow).
pub uninterp spec fn mul_fits(a: Amount, b: Amount) -> bool;

/// The value (scaled by `10^28`) of rounding a value (scaled by `10^28`) to
/// `dp` fractional digits, half to even.
pub uninterp spec fn round_of(v: int, dp: int) -> int;

/// Relies on `rust_decimal::Decimal::checked_add`: deterministic in the two
/// operand representations, `None` exactly on overflow, and every result is
/// representable (96-bit coefficient, scale at most 28).
#[verifier::external_body]
pub(crate) fn dec_add(a: &Amount, b: &Amount) -> (r: Option<Amount>)
    requires
        a.wf(),
        b.wf(),
    ensures
        r is Some <==> add_fits(*a, *b),
        r matches Some(c) ==> c == add_of(*a, *b) && c.wf(),
{
    let x = rust_decimal::Decimal::from_i128_with_scale(a.mantissa, a.scale);
    let y = rust_decimal::Decimal::from_i128_with_scale(b.mantissa, b.scale);
    x.checked_add(y).map(|d| Amount { mantissa: d.mantissa(), scale: d.scale() })
}

/// Relies on `rust_decimal::Decimal::checked_sub`: deterministic in the two
/// operand representations, `None` exactly on overflow, and every result is
/// representable.
#[verifier::external_body]
pub(crate) fn dec_sub(a: &Amount, b: &Amount) -> (r: Option<Amount>)
    requires
        a.wf(),
        b.wf(),
    ensures
        r is Some <==> sub_fits(*a, *b),
        r matches Some(c) ==> c == sub_of(*a, *b) && c.wf(),
{
    let x = rust_decimal::Decimal::from_i128_with_scale(a.mantissa, a.scale);
    let y = rust_decimal::Decimal::from_i128_with_scale(b.mantissa, b.scale);
    x.checked_sub(y).map(|d| Amount { mantissa: d.mantissa(), scale: d.scale() })
}

/// Relies on `rust_decimal::Decimal::checked_mul`: deterministic in the two
/// operand representations, `None` exactly on overflow, and every result is
/// representable.
#[verifier::external_body]
pub(crate) fn dec_mul(a: &Amount, b: &Amount) -> (r: Option<Amount>)
    requires
        a.wf(),
        b.wf(),
    ensures
        r is Some <==> mul_fits(*a, *b),
        r matches Some(c) ==> c == mul_of(*a, *b) && c.wf(),
{
    let x = rust_decimal::Decimal::from_i128_with_scale(a.mantissa, a.scale);
    let y = rust_decimal::Decimal::from_i128_with_scale(b.mantissa, b.scale);
    x.checked_mul(y).map(|d| Amount { mantissa: d.mantissa(), scale: d.scale() })
}

/// Relies on `rust_decimal::Decimal::checked_div` with dividend one:
/// deterministic in the divisor's representation, and `None` exactly on a
/// zero divisor.  Division fails only on a zero divisor or on overflow, and
/// the reciprocal of a representable non-zero value is at most `10^28` in
/// magnitude, which always fits, so overflow cannot happen here.  Every
/// result is representable.  The reciprocal of a positive value no greater
/// than `10^28` (whose scaled model is `10^56`) is at least `10^-28`, the
/// smallest positive decimal, so it rounds to something positive.
#[verifier::external_body]
pub(crate) fn dec_inv(a: &Amount) -> (r: Option<Amount>)
    requires
        a.wf(),
    ensures
        r is Some <==> a.v28() != 0,
        r matches Some(c) ==> c == inv_of(*a) && c.wf(),
        a.v28() > 0 && a.v28() <= pow10(56) ==> (r matches Some(c) ==> c.v28() > 0),
{
    let d = rust_decimal::Decimal::from_i128_with_scale(a.mantissa, a.scale);
    rust_decimal::Decimal::ONE
        .checked_div(d)
        .map(|q| Amount { mantissa: q.mantissa(), scale: q.scale() })
}

/// Relies on `rust_decimal::Decimal::round_dp`: banker's rounding to `dp`
/// fractional digits.  It never fails, the result is representable, and it
/// depends only on the numeric value of the operand and on `dp`: when the
/// scale is at most `dp` the operand is returned unchanged, and otherwise the
/// numeric value is rounded, so equal values round equally in any
/// representation.
#[verifier::external_body]
pub(crate) fn dec_round(a: &Amount, dp: u32) -> (r: Amount)
    requires
        a.wf(),
    ensures
        r.wf(),
        r.v28() == round_of(a.v28(), dp as int),
{
    let d = rust_decimal::Decimal::from_i128_with_scale(a.mantissa, a.scale).round_dp(dp);
    Amount { mantissa: d.mantissa(), scale: d.scale() }
}

} // verus!
