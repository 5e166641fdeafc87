//! Decimal numbers as `rust_decimal` holds them: a mantissa scaled by a
//! power of ten. The handlers convert their `rust_decimal::Decimal` values
//! into this form (mantissa and scale) so that the rules that read them can
//! be checked.

use vstd::prelude::*;
use crate::text::pow10;

verus! {

/// A decimal number `mantissa × 10^-scale`.
#[derive(Debug, Clone, Copy, PartialEq, Eq, Hash, Structural)]
pub struct DecimalValue {
    pub mantissa: i128,
    pub scale: u32,
}

/// 2^96: the mantissa bound of a decimal.
pub open spec fn mantissa_bound() -> int {
    0x1_0000_0000_0000_0000_0000_0000
}

impl DecimalValue {
    /// Well-formed as a `rust_decimal` value: scale at most 28, mantissa
    /// below 2^96 in magnitude.
    pub open spec fn wf(self) -> bool {
        &&& self.scale <= 28
        &&& -mantissa_bound() < self.mantissa < mantissa_bound()
    }

    /// The mantissa brought to scale `s` (for `s >= scale`): the value times
    /// `10^s`.
    pub open spec fn scaled_to(self, s: nat) -> int {
        self.mantissa * pow10((s - self.scale) as nat)
    }

    /// Whether `self` is smaller than `other` as numbers.
    pub open spec fn less_than(self, other: DecimalValue) -> bool {
        self.mantissa * pow10(other.scale as nat) < other.mantissa * pow10(self.scale as nat)
    }

    /// A whole number as a decimal.
    pub fn from_whole(n: i64) -> (d: DecimalValue)
        ensures
            d.mantissa == n,
            d.scale == 0,
            d.wf(),
    {
        DecimalValue { mantissa: n as i128, scale: 0 }
    }
}

/// Powers of ten grow with the exponent.
pub proof fn lemma_pow10_mono(i: nat, j: nat)
    requires
        i <= j,
    ensures
        1 <= pow10(i) <= pow10(j),
    decreases j,
{
    if i < j {
        lemma_pow10_mono(i, (j - 1) as nat);
    } else if j > 0 {
        lemma_pow10_mono(0, (j - 1) as nat);
    }
}

/// Powers of ten multiply by adding exponents.
pub proof fn lemma_pow10_add(i: nat, j: nat)
    ensures
        pow10(i + j) == pow10(i) * pow10(j),
    decreases j,
{
    if j > 0 {
        lemma_pow10_add(i, (j - 1) as nat);
        assert(pow10(i + j) == 10 * pow10((i + j - 1) as nat));
        assert(pow10(i) * pow10(j) == pow10(i) * (10 * pow10((j - 1) as nat)));
        assert(pow10(i) * (10 * pow10((j - 1) as nat)) == 10 * (pow10(i) * pow10(
            (j - 1) as nat,
        ))) by (nonlinear_arith);
        assert((i + j - 1) as nat == i + (j - 1) as nat);
    } else {
        assert(pow10(0) == 1);
        assert(i + j == i);
    }
}

/// `10^k` for `k <= 28`.
pub fn pow10_i128(k: u32) -> (r: i128)
    requires
        k <= 28,
    ensures
        r == pow10(k as nat),
{
    proof {
        assert(pow10(28) == 10000000000000000000000000000) by {
            reveal_with_fuel(pow10, 29);
        }
    }
    let mut r: i128 = 1;
    let mut i: u32 = 0;
    while i < k
        invariant
            i <= k <= 28,
            r == pow10(i as nat),
            pow10(28) == 10000000000000000000000000000,
        decreases k - i,
    {
        proof {
            lemma_pow10_mono((i + 1) as nat, 28);
        }
        r = r * 10;
        i = i + 1;
    }
    r
}

/// The sign of `a - b`: -1, 0 or 1.
pub open spec fn sign_of_diff(a: int, b: int) -> int {
    if a < b {
        -1
    } else if a == b {
        0
    } else {
        1
    }
}

/// Compare `x × 10^d` with `y`, returning the sign of the difference.
fn compare_scaled(x: i128, d: u32, y: i128) -> (r: i8)
    requires
        -mantissa_bound() < x < mantissa_bound(),
        -mantissa_bound() < y < mantissa_bound(),
        d <= 28,
    ensures
        r as int == sign_of_diff(x * pow10(d as nat), y as int),
{
    let bound: i128 = 0x1_0000_0000_0000_0000_0000_0000;
    let mut cur: i128 = x;
    let mut i: u32 = 0;
    assert(pow10(0) == 1);
    assert(x * pow10(0) == x);
    while i < d
        invariant
            i <= d <= 28,
            bound == mantissa_bound(),
            cur == x * pow10(i as nat),
            -bound * 10 < cur < bound * 10,
        ensures
            cur == x * pow10(i as nat),
            i == d || cur <= -bound || cur >= bound,
            -bound * 10 < cur < bound * 10,
        decreases d - i,
    {
        if cur >= bound || cur <= -bound {
            break;
        }
        proof {
            assert(x * pow10((i + 1) as nat) == 10 * (x * pow10(i as nat))) by (nonlinear_arith)
                requires
                    pow10((i + 1) as nat) == 10 * pow10(i as nat),
            ;
        }
        cur = cur * 10;
        i = i + 1;
    }
    if i == d {
        if cur < y {
            -1
        } else if cur == y {
            0
        } else {
            1
        }
    } else {
        proof {
            let rest = pow10((d - i) as nat);
            lemma_pow10_add(i as nat, (d - i) as nat);
            lemma_pow10_mono(0, (d - i) as nat);
            assert(pow10(0) == 1);
            assert(x * pow10(d as nat) == cur * rest) by (nonlinear_arith)
                requires
                    pow10(d as nat) == pow10(i as nat) * rest,
                    cur == x * pow10(i as nat),
                    (i + (d - i)) as nat == d as nat,
            ;
            if cur >= bound {
                assert(cur * rest >= bound) by (nonlinear_arith)
                    requires
                        cur >= bound,
                        rest >= 1,
                        bound > 0,
                ;
            } else {
                assert(cur * rest <= -bound) by (nonlinear_arith)
                    requires
                        cur <= -bound,
                        rest >= 1,
                        bound > 0,
                ;
            }
        }
        if cur < 0 {
            -1
        } else {
            1
        }
    }
}

impl DecimalValue {
    /// Whether `self` is numerically smaller than `other`, as
    /// `rust_decimal::Decimal`'s `<` orders decimals.
    pub fn lt(&self, other: &DecimalValue) -> (r: bool)
        requires
            self.wf(),
            other.wf(),
        ensures
            r == self.less_than(*other),
    {
        if self.scale <= other.scale {
            let c = compare_scaled(self.mantissa, other.scale - self.scale, other.mantissa);
            proof {
                let d = (other.scale - self.scale) as nat;
                let p = pow10(self.scale as nat);
                lemma_pow10_add(d, self.scale as nat);
                lemma_pow10_mono(0, self.scale as nat);
                assert(pow10(0) == 1);
                assert(d + self.scale == other.scale);
                assert(self.mantissa * pow10(other.scale as nat) == (self.mantissa * pow10(d)) * p)
                    by (nonlinear_arith)
                    requires
                        pow10(other.scale as nat) == pow10(d) * p,
                ;
                lemma_mul_pos_lt(self.mantissa * pow10(d), other.mantissa as int, p as int);
            }
            c < 0
        } else {
            let c = compare_scaled(other.mantissa, self.scale - other.scale, self.mantissa);
            proof {
                let d = (self.scale - other.scale) as nat;
                let p = pow10(other.scale as nat);
                lemma_pow10_add(d, other.scale as nat);
                lemma_pow10_mono(0, other.scale as nat);
                assert(pow10(0) == 1);
                assert(d + other.scale == self.scale);
                assert(other.mantissa * pow10(self.scale as nat) == (other.mantissa * pow10(d)) * p)
                    by (nonlinear_arith)
                    requires
                        pow10(self.scale as nat) == pow10(d) * p,
                ;
                lemma_mul_pos_lt(self.mantissa as int, other.mantissa * pow10(d), p as int);
            }
            c > 0
        }
    }
}

/// Multiplying both sides by a positive number keeps `<`.
pub proof fn lemma_mul_pos_lt(a: int, b: int, p: int)
    requires
        p > 0,
    ensures
        (a * p < b * p) == (a < b),
{
    if a < b {
        assert(a * p < b * p) by (nonlinear_arith)
            requires
                a < b,
                p > 0,
        ;
    } else {
        assert(a * p >= b * p) by (nonlinear_arith)
            requires
                a >= b,
                p > 0,
        ;
    }
}

} // verus!
