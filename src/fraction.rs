use vstd::prelude::*;
use vstd::arithmetic::power2::{pow2, lemma_pow2_pos, lemma_pow2_unfold, lemma_pow2_adds, lemma2_to64};
use crate::error::TuningError;

verus! {

/// A non-negative rational number times a power of two whose exponent is a
/// whole number of `1 / divisions` octaves:
/// `numerator / denominator * 2^(base / divisions)`.
///
/// With `divisions == 1` the value is the rational `numerator / denominator`
/// transposed up by `base` octaves. Octave transposition only touches `base`,
/// so it is exact however many octaves are composed.
#[derive(Clone, Copy, Debug)]
pub struct Fraction {
    pub numerator: u32,
    pub denominator: u32,
    pub base: u64,
    pub divisions: u32,
}

impl Fraction {
    pub open spec fn wf(&self) -> bool {
        self.denominator > 0 && self.divisions > 0
    }

    /// The whole octaves in the exponent.
    pub open spec fn octaves(&self) -> nat {
        (self.base / (self.divisions as u64)) as nat
    }

    /// What is left of the exponent after the whole octaves, in `1 / divisions` steps.
    pub open spec fn remainder(&self) -> nat {
        (self.base % (self.divisions as u64)) as nat
    }

    /// The two fractions stand for the same number. The irrational part
    /// `2^(remainder / divisions)` lies in `[1, 2)` and is rational only when it is 1,
    /// so equal numbers have equal fractional exponents and equal rational parts.
    pub open spec fn same_value(&self, other: &Fraction) -> bool {
        (self.numerator == 0 && other.numerator == 0) || (
            self.remainder() * other.divisions == other.remainder() * self.divisions
            && self.numerator * other.denominator * pow2(self.octaves())
                == other.numerator * self.denominator * pow2(other.octaves())
        )
    }

    /// The value is exactly `2^k`.
    pub open spec fn is_power_of_two(&self, k: nat) -> bool {
        self.numerator == self.denominator && self.base == k * self.divisions
    }

    /// `numerator / denominator`, with no octave added.
    pub fn new(numerator: u32, denominator: u32) -> (r: Result<Fraction, TuningError>)
        ensures
            denominator == 0 <==> r == Err::<Fraction, TuningError>(TuningError::InvalidFraction),
            denominator != 0 ==> r == Ok::<Fraction, TuningError>(
                (Fraction { numerator, denominator, base: 0, divisions: 1 }),
            ),
    {
        if denominator == 0 {
            Err(TuningError::InvalidFraction)
        } else {
            Ok(Fraction { numerator, denominator, base: 0, divisions: 1 })
        }
    }
}

/// Whether `x * 2^k == y`.
fn scaled_equal(x: u64, k0: u64, y0: u64) -> (r: bool)
    ensures
        r == (x * pow2(k0 as nat) == y0),
{
    let mut k: u64 = k0;
    let mut y: u64 = y0;
    while k > 0
        invariant
            (x * pow2(k as nat) == y) == (x * pow2(k0 as nat) == y0),
        decreases k,
    {
        proof {
            lemma_pow2_pos(k as nat);
            lemma_pow2_unfold(k as nat);
            assert(x * pow2(k as nat) == 2 * (x * pow2((k - 1) as nat))) by (nonlinear_arith)
                requires
                    pow2(k as nat) == 2 * pow2((k - 1) as nat),
            ;
        }
        if y == 0 {
            proof {
                assert(x * pow2(k as nat) == 0 <==> x == 0) by (nonlinear_arith)
                    requires
                        pow2(k as nat) > 0,
                ;
            }
            return x == 0;
        }
        if y % 2 == 1 {
            return false;
        }
        y = y / 2;
        k = k - 1;
    }
    proof {
        lemma2_to64();
        assert(x * pow2(0) == x);
    }
    x == y
}

impl PartialEq for Fraction {
    /// Equality of the numbers the fractions stand for.
    fn eq(&self, other: &Fraction) -> (r: bool) {
        if self.denominator == 0 || self.divisions == 0 || other.denominator == 0 || other.divisions == 0 {
            return self.numerator == other.numerator && self.denominator == other.denominator
                && self.base == other.base && self.divisions == other.divisions;
        }
        if self.numerator == 0 || other.numerator == 0 {
            proof {
                lemma_pow2_pos(self.octaves());
                lemma_pow2_pos(other.octaves());
                if self.numerator != 0 {
                    lemma_nonzero_product(self.numerator as int, other.denominator as int, pow2(self.octaves()) as int);
                } else {
                    assert(self.numerator * other.denominator * pow2(self.octaves()) == 0) by (nonlinear_arith)
                        requires self.numerator == 0;
                }
                if other.numerator != 0 {
                    lemma_nonzero_product(other.numerator as int, self.denominator as int, pow2(other.octaves()) as int);
                } else {
                    assert(other.numerator * self.denominator * pow2(other.octaves()) == 0) by (nonlinear_arith)
                        requires other.numerator == 0;
                }
            }
            return self.numerator == 0 && other.numerator == 0;
        }
        let q1: u64 = self.base / (self.divisions as u64);
        let q2: u64 = other.base / (other.divisions as u64);
        let r1: u64 = self.base % (self.divisions as u64);
        let r2: u64 = other.base % (other.divisions as u64);
        proof {
            assert(r1 * other.divisions < 0x1_0000_0000 * 0x1_0000_0000) by (nonlinear_arith)
                requires r1 < self.divisions, self.divisions < 0x1_0000_0000, other.divisions < 0x1_0000_0000;
            assert(r2 * self.divisions < 0x1_0000_0000 * 0x1_0000_0000) by (nonlinear_arith)
                requires r2 < other.divisions, self.divisions < 0x1_0000_0000, other.divisions < 0x1_0000_0000;
        }
        if r1 * (other.divisions as u64) != r2 * (self.divisions as u64) {
            return false;
        }
        proof {
            assert((self.numerator as u64) * (other.denominator as u64) < 0x1_0000_0000 * 0x1_0000_0000) by (nonlinear_arith)
                requires self.numerator < 0x1_0000_0000, other.denominator < 0x1_0000_0000;
            assert((other.numerator as u64) * (self.denominator as u64) < 0x1_0000_0000 * 0x1_0000_0000) by (nonlinear_arith)
                requires other.numerator < 0x1_0000_0000, self.denominator < 0x1_0000_0000;
        }
        let x: u64 = (self.numerator as u64) * (other.denominator as u64);
        let y: u64 = (other.numerator as u64) * (self.denominator as u64);
        if q1 >= q2 {
            let r = scaled_equal(x, q1 - q2, y);
            proof { lemma_cancel_octaves(x as int, y as int, q2 as nat, (q1 - q2) as nat); }
            r
        } else {
            let r = scaled_equal(y, q2 - q1, x);
            proof { lemma_cancel_octaves(y as int, x as int, q1 as nat, (q2 - q1) as nat); }
            r
        }
    }
}

/// A product of positive factors is positive.
proof fn lemma_nonzero_product(a: int, b: int, c: int)
    requires
        a > 0,
        b > 0,
        c > 0,
    ensures
        a * b * c > 0,
{
    assert(a * b * c > 0) by (nonlinear_arith)
        requires a > 0, b > 0, c > 0;
}

/// `x * 2^(m + k) == y * 2^m` exactly when `x * 2^k == y`.
proof fn lemma_cancel_octaves(x: int, y: int, m: nat, k: nat)
    ensures
        (x * pow2(m + k) == y * pow2(m)) == (x * pow2(k) == y),
{
    lemma_pow2_adds(k, m);
    lemma_pow2_pos(m);
    assert(m + k == k + m);
    let p = pow2(m) as int;
    let a = x * pow2(k);
    assert(x * (pow2(k) * pow2(m)) == a * p) by (nonlinear_arith)
        requires a == x * pow2(k), p == pow2(m);
    assert((a * p == y * p) == (a == y)) by (nonlinear_arith)
        requires p > 0;
}

impl vstd::std_specs::cmp::PartialEqSpecImpl for Fraction {
    open spec fn obeys_eq_spec() -> bool {
        true
    }

    open spec fn eq_spec(&self, other: &Fraction) -> bool {
        if self.wf() && other.wf() {
            self.same_value(other)
        } else {
            *self == *other
        }
    }
}

} // verus!
