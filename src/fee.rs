use vstd::prelude::*;

verus! {

/// A rational fraction `numerator / denominator` applied to token amounts.
#[derive(Clone, Copy, Debug, PartialEq, Eq, Structural)]
pub struct FeeFraction {
    pub numerator: u32,
    pub denominator: u32,
}

/// The floor of `value * numerator / denominator`.
pub open spec fn fraction_of(value: int, numerator: int, denominator: int) -> int {
    value * numerator / denominator
}

impl FeeFraction {
    /// A fraction is usable when it is at most one and its denominator is positive.
    pub open spec fn valid(&self) -> bool {
        self.denominator > 0 && self.numerator <= self.denominator
    }

    pub open spec fn spec_multiply(&self, value: u128) -> u128 {
        fraction_of(value as int, self.numerator as int, self.denominator as int) as u128
    }

    pub fn new(numerator: u32, denominator: u32) -> (r: FeeFraction)
        ensures
            r.numerator == numerator,
            r.denominator == denominator,
    {
        FeeFraction { numerator, denominator }
    }

    pub fn is_valid(&self) -> (r: bool)
        ensures
            r == self.valid(),
    {
        self.denominator > 0 && self.numerator <= self.denominator
    }

    /// Applies the fraction to `value`, rounding down; never more than `value`.
    pub fn multiply(&self, value: u128) -> (r: u128)
        requires
            self.valid(),
        ensures
            r as int == fraction_of(value as int, self.numerator as int, self.denominator as int),
            r == self.spec_multiply(value),
            r <= value,
    {
        let den = self.denominator as u128;
        let num = self.numerator as u128;
        let q = value / den;
        let rem = value % den;
        proof {
            lemma_split_fraction(value as int, num as int, den as int);
        }
        assert(rem * num < 0x1_0000_0000_0000_0000) by (nonlinear_arith)
            requires rem < den, num <= den, den <= 0xffff_ffff;
        assert(q * num <= q * den) by (nonlinear_arith)
            requires num <= den;
        assert(q * den <= value) by {
            vstd::arithmetic::div_mod::lemma_fundamental_div_mod(value as int, den as int);
        }
        let low = rem * num / den;
        let r = q * num + low;
        r
    }
}

/// `value * num / den` splits over the quotient and remainder of `value` by `den`,
/// and stays within `value` when `num <= den`.
proof fn lemma_split_fraction(value: int, num: int, den: int)
    requires
        0 <= value,
        0 <= num <= den,
        0 < den,
    ensures
        value * num / den == (value / den) * num + (value % den) * num / den,
        value * num / den <= value,
        (value / den) * num + (value % den) * num / den <= value,
{
    let q = value / den;
    let rem = value % den;
    vstd::arithmetic::div_mod::lemma_fundamental_div_mod(value, den);
    assert(value * num == (q * num) * den + rem * num) by (nonlinear_arith)
        requires value == den * q + rem;
    assert(0 <= rem * num) by (nonlinear_arith)
        requires 0 <= rem, 0 <= num;
    vstd::arithmetic::div_mod::lemma_hoist_over_denominator(rem * num, q * num, den as nat);
    assert(rem * num + (q * num) * den == value * num);
    assert(value * num <= value * den) by (nonlinear_arith)
        requires 0 <= value, num <= den;
    assert(value * num / den <= value * den / den) by {
        vstd::arithmetic::div_mod::lemma_div_is_ordered(value * num, value * den, den);
    }
    vstd::arithmetic::div_mod::lemma_div_multiples_vanish(value, den);
}

} // verus!
