//! Token amounts as exact decimal quantities.
//!
//! A raw amount `a` with `d` decimals stands for the number `a / 10^d`. It is
//! kept as the pair itself, so that nothing is lost to rounding; the integer
//! and fractional parts are computed on demand.

use vstd::prelude::*;
use vstd::arithmetic::power::{pow, lemma_pow0, lemma_pow_increases, lemma_pow_positive};

verus! {

/// `10^decimals`.
pub open spec fn scale(decimals: u32) -> int {
    pow(10, decimals as nat)
}

/// The decimal quantity `raw / 10^decimals`.
#[derive(Clone, Copy, Debug, PartialEq, Eq, Structural)]
pub struct Amount {
    /// The amount in the token's smallest unit.
    pub raw: u64,
    /// The number of fractional decimal digits.
    pub decimals: u32,
}

impl Amount {
    /// The integer part of the quantity.
    pub open spec fn spec_whole(self) -> int {
        self.raw as int / scale(self.decimals)
    }

    /// The fractional part of the quantity, in units of `10^-decimals`.
    pub open spec fn spec_fraction(self) -> int {
        self.raw as int % scale(self.decimals)
    }

    /// The integer part of `raw / 10^decimals`.
    pub fn whole(&self) -> (r: u64)
        ensures
            r == self.spec_whole(),
    {
        match power_of_ten(self.decimals) {
            Some(p) => self.raw / p,
            None => {
                proof {
                    lemma_small_dividend(self.raw as int, scale(self.decimals));
                }
                0
            },
        }
    }

    /// The fractional part of `raw / 10^decimals`, as a count of units of
    /// `10^-decimals`.
    pub fn fraction(&self) -> (r: u64)
        ensures
            r == self.spec_fraction(),
    {
        match power_of_ten(self.decimals) {
            Some(p) => self.raw % p,
            None => {
                proof {
                    lemma_small_dividend(self.raw as int, scale(self.decimals));
                }
                self.raw
            },
        }
    }
}

/// Converts a raw token amount to the decimal quantity `amount / 10^decimals`.
pub fn amount_to_decimals(amount: u64, decimals: u32) -> (r: Amount)
    ensures
        r.raw == amount,
        r.decimals == decimals,
        r.spec_whole() * scale(decimals) + r.spec_fraction() == amount,
        0 <= r.spec_fraction() < scale(decimals),
        0 <= r.spec_whole() <= amount,
{
    let r = Amount { raw: amount, decimals };
    proof {
        lemma_decimal_parts(amount as int, decimals);
    }
    r
}

/// `10^decimals`, where it fits in 64 bits.
pub fn power_of_ten(decimals: u32) -> (r: Option<u64>)
    ensures
        match r {
            Some(p) => p == scale(decimals) && p > 0,
            None => scale(decimals) > u64::MAX,
        },
{
    let mut p: u64 = 1;
    let mut i: u32 = 0;
    proof {
        lemma_pow0(10);
    }
    while i < decimals
        invariant
            i <= decimals,
            p == scale(i),
            p > 0,
        decreases decimals - i,
    {
        proof {
            lemma_scale_step(i);
        }
        match p.checked_mul(10) {
            Some(q) => {
                p = q;
                i = i + 1;
            },
            None => {
                proof {
                    lemma_pow_increases(10, (i + 1) as nat, decimals as nat);
                }
                return None;
            },
        }
    }
    Some(p)
}

/// Each further digit multiplies the scale by ten.
pub proof fn lemma_scale_step(decimals: u32)
    requires
        decimals < u32::MAX,
    ensures
        scale((decimals + 1) as u32) == 10 * scale(decimals),
{
    reveal(pow);
}

/// The scale is at least one.
pub proof fn lemma_scale_positive(decimals: u32)
    ensures
        scale(decimals) >= 1,
{
    lemma_pow_positive(10, decimals as nat);
}

/// A dividend below the divisor has quotient zero and is its own remainder.
proof fn lemma_small_dividend(a: int, m: int)
    requires
        0 <= a < m,
    ensures
        a / m == 0,
        a % m == a,
{
    vstd::arithmetic::div_mod::lemma_basic_div(a, m);
    vstd::arithmetic::div_mod::lemma_small_mod(a as nat, m as nat);
}

/// The integer and fractional parts put the raw amount together again, and
/// the fractional part is below one.
pub proof fn lemma_decimal_parts(amount: int, decimals: u32)
    requires
        0 <= amount,
    ensures
        (amount / scale(decimals)) * scale(decimals) + amount % scale(decimals) == amount,
        0 <= amount % scale(decimals) < scale(decimals),
        0 <= amount / scale(decimals) <= amount,
{
    let m = scale(decimals);
    lemma_scale_positive(decimals);
    vstd::arithmetic::div_mod::lemma_fundamental_div_mod(amount, m);
    vstd::arithmetic::div_mod::lemma_mod_bound(amount, m);
    vstd::arithmetic::div_mod::lemma_div_pos_is_pos(amount, m);
    vstd::arithmetic::div_mod::lemma_div_is_ordered_by_denominator(amount, 1, m);
    vstd::arithmetic::div_mod::lemma_div_basics(amount);
    assert((amount / m) * m == m * (amount / m)) by (nonlinear_arith);
}

} // verus!
