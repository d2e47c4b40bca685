//! Plain fixed-point decimal amounts.
//!
//! An [`Amount`] stores the coefficient and the number of fractional digits of
//! a decimal number: the represented value is `mantissa / 10^scale`.  Every
//! amount whose scale is at most [`MAX_SCALE`] has an exact integer model,
//! [`Amount::v28`], its value scaled by `10^28`; all ordering contracts in
//! this crate are stated over that model.

use vstd::prelude::*;
use core::cmp::Ordering;
use vstd::arithmetic::mul::lemma_mul_is_associative;

verus! {

/// Largest coefficient magnitude representable by the underlying 96-bit
/// decimal type: `2^96 - 1`.
pub const MAX_MANTISSA: i128 = 79228162514264337593543950335;

/// Largest number of fractional digits representable by the underlying
/// decimal type.
pub const MAX_SCALE: u32 = 28;

/// A decimal amount, as the pair of its coefficient and its number of
/// fractional digits: the value is `mantissa / 10^scale`.
#[derive(Clone, Copy, Debug, PartialEq, Eq, Structural)]
pub struct Amount {
    pub mantissa: i128,
    pub scale: u32,
}

/// `10^e` for `e >= 0`, and `1` for negative `e`.
pub open spec fn pow10(e: int) -> int
    decreases e,
{
    if e <= 0 {
        1
    } else {
        10 * pow10(e - 1)
    }
}

impl Amount {
    /// The amount is representable by the underlying decimal type.
    pub open spec fn wf(self) -> bool {
        &&& self.scale <= MAX_SCALE
        &&& -MAX_MANTISSA <= self.mantissa <= MAX_MANTISSA
    }

    /// The scale, cut off at [`MAX_SCALE`] so that every amount has an
    /// integer model.
    pub open spec fn capped_scale(self) -> int {
        if self.scale <= MAX_SCALE {
            self.scale as int
        } else {
            MAX_SCALE as int
        }
    }

    /// The represented value, scaled by `10^28` into an exact integer.
    /// For well-formed amounts this determines the numeric value exactly.
    pub open spec fn v28(self) -> int {
        self.mantissa * pow10(28 - self.capped_scale())
    }

    /// The amount of value zero.
    pub open spec fn zero() -> Amount {
        Amount { mantissa: 0, scale: 0 }
    }

    /// The amount of value one.
    pub open spec fn one() -> Amount {
        Amount { mantissa: 1, scale: 0 }
    }
}

/// `10^e` is positive.
pub proof fn lemma_pow10_pos(e: int)
    ensures
        pow10(e) >= 1,
    decreases e,
{
    if e > 0 {
        lemma_pow10_pos(e - 1);
    }
}

/// `10^e` is monotone in the exponent.
pub proof fn lemma_pow10_mono(a: int, b: int)
    requires
        a <= b,
    ensures
        pow10(a) <= pow10(b),
    decreases b - a,
{
    if a < b {
        lemma_pow10_mono(a, b - 1);
        lemma_pow10_pos(b - 1);
    }
}

/// The numeric value of `10^28`.
pub proof fn lemma_pow10_28()
    ensures
        pow10(28) == 10000000000000000000000000000int,
{
    reveal_with_fuel(pow10, 30);
}

/// `10^(a+b)` is the product of `10^a` and `10^b`.
pub proof fn lemma_pow10_split(a: int, b: int)
    requires
        a >= 0,
        b >= 0,
    ensures
        pow10(a + b) == pow10(a) * pow10(b),
    decreases a,
{
    if a > 0 {
        lemma_pow10_split(a - 1, b);
        lemma_mul_is_associative(10, pow10(a - 1), pow10(b));
    }
}

/// Multiplying both sides by a positive factor preserves order and equality.
proof fn lemma_mul_cmp(x: int, y: int, c: int)
    by (nonlinear_arith)
    requires
        c >= 1,
    ensures
        (x * c < y * c) <==> (x < y),
        (x * c == y * c) <==> (x == y),
{
}

/// `10^k` as an `i128`, for `k` up to [`MAX_SCALE`].
fn pow10_exec(k: u32) -> (r: i128)
    requires
        k <= MAX_SCALE,
    ensures
        r == pow10(k as int),
{
    let mut i: u32 = 0;
    let mut acc: i128 = 1;
    while i < k
        invariant
            i <= k,
            k <= MAX_SCALE,
            acc == pow10(i as int),
        decreases k - i,
    {
        proof {
            lemma_pow10_pos(i as int);
            lemma_pow10_28();
            lemma_pow10_mono(i as int + 1, 28);
            assert(pow10(i as int + 1) == 10 * pow10(i as int));
        }
        acc = acc * 10;
        i = i + 1;
    }
    acc
}

/// Three-way comparison of `am * p` against `bm`, without computing the
/// product when it exceeds the `i128` range.
fn cmp_scaled(am: i128, p: i128, bm: i128) -> (r: Ordering)
    requires
        p >= 1,
    ensures
        (r == Ordering::Less) <==> am * p < bm,
        (r == Ordering::Equal) <==> am * p == bm,
        (r == Ordering::Greater) <==> am * p > bm,
{
    match am.checked_mul(p) {
        Some(x) => {
            if x < bm {
                Ordering::Less
            } else if x == bm {
                Ordering::Equal
            } else {
                Ordering::Greater
            }
        },
        None => {
            proof {
                assert(am != 0) by {
                    if am == 0 {
                        assert(am * p == 0) by (nonlinear_arith)
                            requires am == 0;
                    }
                }
                assert(am > 0 ==> am * p >= am) by (nonlinear_arith)
                    requires p >= 1;
                assert(am < 0 ==> am * p <= am) by (nonlinear_arith)
                    requires p >= 1;
            }
            if am > 0 {
                Ordering::Greater
            } else {
                Ordering::Less
            }
        },
    }
}

/// Three-way comparison of two amounts by numeric value.
pub fn amount_cmp(a: &Amount, b: &Amount) -> (r: Ordering)
    ensures
        (r == Ordering::Less) <==> a.v28() < b.v28(),
        (r == Ordering::Equal) <==> a.v28() == b.v28(),
        (r == Ordering::Greater) <==> a.v28() > b.v28(),
{
    let sa = if a.scale <= MAX_SCALE { a.scale } else { MAX_SCALE };
    let sb = if b.scale <= MAX_SCALE { b.scale } else { MAX_SCALE };
    proof {
        lemma_pow10_pos(28 - sa as int);
        lemma_pow10_pos(28 - sb as int);
    }
    if sa == sb {
        proof {
            lemma_mul_cmp(a.mantissa as int, b.mantissa as int, pow10(28 - sa as int));
        }
        if a.mantissa < b.mantissa {
            Ordering::Less
        } else if a.mantissa == b.mantissa {
            Ordering::Equal
        } else {
            Ordering::Greater
        }
    } else if sa < sb {
        let p = pow10_exec(sb - sa);
        proof {
            lemma_pow10_pos((sb - sa) as int);
            lemma_pow10_split((sb - sa) as int, 28 - sb as int);
            lemma_mul_is_associative(a.mantissa as int, pow10((sb - sa) as int), pow10(28 - sb as int));
            lemma_mul_cmp(a.mantissa * pow10((sb - sa) as int), b.mantissa as int, pow10(28 - sb as int));
        }
        cmp_scaled(a.mantissa, p, b.mantissa)
    } else {
        let p = pow10_exec(sa - sb);
        proof {
            lemma_pow10_pos((sa - sb) as int);
            lemma_pow10_split((sa - sb) as int, 28 - sa as int);
            lemma_mul_is_associative(b.mantissa as int, pow10((sa - sb) as int), pow10(28 - sa as int));
            lemma_mul_cmp(b.mantissa * pow10((sa - sb) as int), a.mantissa as int, pow10(28 - sa as int));
        }
        match cmp_scaled(b.mantissa, p, a.mantissa) {
            Ordering::Less => Ordering::Greater,
            Ordering::Equal => Ordering::Equal,
            Ordering::Greater => Ordering::Less,
        }
    }
}

} // verus!
