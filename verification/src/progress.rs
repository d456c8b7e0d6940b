//! Exact rational progress values in `[0, 1]`.

use vstd::prelude::*;

verus! {

/// A normalized progress (phase) value, kept as the exact rational
/// `num / den`. Well-formed values satisfy `0 <= num <= den` and `0 < den`,
/// so they lie in `[0, 1]`.
#[derive(Debug, Clone, Copy, PartialEq, Eq, Structural)]
pub struct Progress {
    pub num: i32,
    pub den: i32,
}

/// The product of two tick-sized values fits the wide integer type used for
/// exact cross-multiplication.
pub(crate) proof fn lemma_i32_prod_fits(a: i32, b: i32)
    ensures
        i64::MIN <= a * b <= i64::MAX,
{
    assert(i64::MIN <= a * b <= i64::MAX) by (nonlinear_arith)
        requires
            i32::MIN <= a <= i32::MAX,
            i32::MIN <= b <= i32::MAX,
    ;
}

impl Progress {
    /// A valid progress value: a fraction in `[0, 1]`.
    pub open spec fn wf(self) -> bool {
        0 < self.den && 0 <= self.num <= self.den
    }

    /// `self <= other`, as rationals: `a/b <= c/d  <=>  a*d <= c*b` for
    /// positive denominators.
    pub open spec fn le_spec(self, other: Progress) -> bool {
        self.num * other.den <= other.num * self.den
    }

    /// `self < other`, as rationals.
    pub open spec fn lt_spec(self, other: Progress) -> bool {
        self.num * other.den < other.num * self.den
    }

    /// Builds the fraction `num / den`, which must lie in `[0, 1]`.
    pub fn new(num: i32, den: i32) -> (r: Progress)
        requires
            0 < den,
            0 <= num <= den,
        ensures
            r == (Progress { num, den }),
            r.wf(),
    {
        Progress { num, den }
    }

    /// Exact comparison `self <= other` of the two rationals.
    pub fn le(self, other: Progress) -> (r: bool)
        ensures
            r == self.le_spec(other),
    {
        proof {
            lemma_i32_prod_fits(self.num, other.den);
            lemma_i32_prod_fits(other.num, self.den);
        }
        (self.num as i64) * (other.den as i64) <= (other.num as i64) * (self.den as i64)
    }

    /// Exact comparison `self < other` of the two rationals.
    pub fn lt(self, other: Progress) -> (r: bool)
        ensures
            r == self.lt_spec(other),
    {
        proof {
            lemma_i32_prod_fits(self.num, other.den);
            lemma_i32_prod_fits(other.num, self.den);
        }
        (self.num as i64) * (other.den as i64) < (other.num as i64) * (self.den as i64)
    }
}

} // verus!
