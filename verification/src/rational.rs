//! Exact rational scalars.
//!
//! Every geometric quantity in the engine (positions, sizes, scale
//! factors, percentages) is an exact fraction of two machine integers.
//! Operations are checked: they return the mathematically exact result
//! whenever its numerator and denominator fit in `i64`, and `None`
//! otherwise, so no resolved value is ever silently rounded.

use vstd::prelude::*;

verus! {

/// The mathematical value of a [`Rational`]: a plain pair of unbounded
/// integers, compared by cross multiplication.
pub struct Frac {
    pub n: int,
    pub d: int,
}

pub open spec fn frac_eq(a: Frac, b: Frac) -> bool {
    a.n * b.d == b.n * a.d
}

/// `a <= b`, meaningful when both denominators are positive.
pub open spec fn frac_le(a: Frac, b: Frac) -> bool {
    a.n * b.d <= b.n * a.d
}

pub open spec fn frac_int(i: int) -> Frac {
    Frac { n: i, d: 1 }
}

pub open spec fn frac_add(a: Frac, b: Frac) -> Frac {
    Frac { n: a.n * b.d + b.n * a.d, d: a.d * b.d }
}

pub open spec fn frac_sub(a: Frac, b: Frac) -> Frac {
    Frac { n: a.n * b.d - b.n * a.d, d: a.d * b.d }
}

pub open spec fn frac_mul(a: Frac, b: Frac) -> Frac {
    Frac { n: a.n * b.n, d: a.d * b.d }
}

/// Division, with the sign moved into the numerator so that a positive
/// denominator stays positive.
pub open spec fn frac_div(a: Frac, b: Frac) -> Frac {
    let raw = Frac { n: a.n * b.d, d: a.d * b.n };
    if raw.d < 0 {
        Frac { n: -raw.n, d: -raw.d }
    } else {
        raw
    }
}

pub open spec fn frac_half(a: Frac) -> Frac {
    Frac { n: a.n, d: a.d * 2 }
}

pub open spec fn frac_min(a: Frac, b: Frac) -> Frac {
    if frac_le(a, b) {
        a
    } else {
        b
    }
}

pub open spec fn frac_max(a: Frac, b: Frac) -> Frac {
    if frac_le(a, b) {
        b
    } else {
        a
    }
}

pub open spec fn frac_avg(a: Frac, b: Frac) -> Frac {
    frac_half(frac_add(a, b))
}

/// Whether a fraction is representable as a [`Rational`].
pub open spec fn frac_fits(f: Frac) -> bool {
    &&& i64::MIN as int <= f.n <= i64::MAX as int
    &&& 1 <= f.d <= i64::MAX as int
}

/// An exact fraction of two `i64`s; the denominator is always positive.
#[derive(Clone, Copy, Debug)]
pub struct Rational {
    num: i64,
    den: i64,
}

impl View for Rational {
    type V = Frac;

    closed spec fn view(&self) -> Frac {
        Frac { n: self.num as int, d: self.den as int }
    }
}

#[verifier::type_invariant]
spec fn rational_inv(r: Rational) -> bool {
    r.den >= 1
}

impl Rational {
    /// Builds `num / den`; `None` exactly when `den` is zero or the
    /// sign-normalised pair does not fit.
    pub fn new(num: i64, den: i64) -> (r: Option<Rational>)
        ensures
            match r {
                Some(v) => v@.d >= 1 && frac_eq(v@, Frac { n: num as int, d: den as int }),
                None => den == 0 || (den < 0 && (num == i64::MIN || den == i64::MIN)),
            },
    {
        if den == 0 {
            None
        } else if den > 0 {
            Some(Rational { num, den })
        } else if num == i64::MIN || den == i64::MIN {
            None
        } else {
            proof {
                assert((-num as int) * (den as int) == (num as int) * (-den as int))
                    by (nonlinear_arith);
            }
            Some(Rational { num: -num, den: -den })
        }
    }

    pub fn from_int(i: i64) -> (r: Rational)
        ensures
            r@ == frac_int(i as int),
    {
        Rational { num: i, den: 1 }
    }

    pub fn zero() -> (r: Rational)
        ensures
            r@ == frac_int(0),
    {
        Rational { num: 0, den: 1 }
    }

    pub fn one() -> (r: Rational)
        ensures
            r@ == frac_int(1),
    {
        Rational { num: 1, den: 1 }
    }

    pub fn numerator(&self) -> (r: i64)
        ensures
            r as int == self@.n,
    {
        self.num
    }

    pub fn denominator(&self) -> (r: i64)
        ensures
            r as int == self@.d,
            r >= 1,
    {
        proof {
            use_type_invariant(*self);
        }
        self.den
    }

    pub fn is_zero(&self) -> (r: bool)
        ensures
            frac_fits(self@),
            r == (self@.n == 0),
    {
        proof {
            use_type_invariant(*self);
        }
        self.num == 0
    }

    /// Value equality: `a/b == c/d` as mathematical fractions.
    pub fn eq_value(&self, other: &Rational) -> (r: bool)
        ensures
            frac_fits(self@),
            frac_fits(other@),
            r == frac_eq(self@, other@),
    {
        proof {
            use_type_invariant(*self);
            use_type_invariant(*other);
            lemma_prod_fits(self.num as int, other.den as int);
            lemma_prod_fits(other.num as int, self.den as int);
        }
        (self.num as i128) * (other.den as i128) == (other.num as i128) * (self.den as i128)
    }

    pub fn le(&self, other: &Rational) -> (r: bool)
        ensures
            frac_fits(self@),
            frac_fits(other@),
            r == frac_le(self@, other@),
    {
        proof {
            use_type_invariant(*self);
            use_type_invariant(*other);
            lemma_prod_fits(self.num as int, other.den as int);
            lemma_prod_fits(other.num as int, self.den as int);
        }
        (self.num as i128) * (other.den as i128) <= (other.num as i128) * (self.den as i128)
    }

    pub fn checked_add(&self, other: &Rational) -> (r: Option<Rational>)
        ensures
            frac_fits(self@),
            frac_fits(other@),
            match r {
                Some(v) => v@ == frac_add(self@, other@) && frac_fits(frac_add(self@, other@)),
                None => !frac_fits(frac_add(self@, other@)),
            },
    {
        proof {
            use_type_invariant(*self);
            use_type_invariant(*other);
            lemma_num_den_prod(self.num as int, other.den as int);
            lemma_num_den_prod(other.num as int, self.den as int);
            lemma_prod_fits(self.den as int, other.den as int);
        }
        let n = (self.num as i128) * (other.den as i128) + (other.num as i128) * (self.den as i128);
        let d = (self.den as i128) * (other.den as i128);
        proof {
            lemma_pos_prod(self.den as int, other.den as int);
        }
        pack(n, d)
    }

    pub fn checked_sub(&self, other: &Rational) -> (r: Option<Rational>)
        ensures
            frac_fits(self@),
            frac_fits(other@),
            match r {
                Some(v) => v@ == frac_sub(self@, other@) && frac_fits(frac_sub(self@, other@)),
                None => !frac_fits(frac_sub(self@, other@)),
            },
    {
        proof {
            use_type_invariant(*self);
            use_type_invariant(*other);
            lemma_num_den_prod(self.num as int, other.den as int);
            lemma_num_den_prod(other.num as int, self.den as int);
            lemma_prod_fits(self.den as int, other.den as int);
        }
        let n = (self.num as i128) * (other.den as i128) - (other.num as i128) * (self.den as i128);
        let d = (self.den as i128) * (other.den as i128);
        proof {
            lemma_pos_prod(self.den as int, other.den as int);
        }
        pack(n, d)
    }

    pub fn checked_mul(&self, other: &Rational) -> (r: Option<Rational>)
        ensures
            frac_fits(self@),
            frac_fits(other@),
            match r {
                Some(v) => v@ == frac_mul(self@, other@) && frac_fits(frac_mul(self@, other@)),
                None => !frac_fits(frac_mul(self@, other@)),
            },
    {
        proof {
            use_type_invariant(*self);
            use_type_invariant(*other);
            lemma_prod_fits(self.num as int, other.num as int);
            lemma_prod_fits(self.den as int, other.den as int);
            lemma_pos_prod(self.den as int, other.den as int);
        }
        let n = (self.num as i128) * (other.num as i128);
        let d = (self.den as i128) * (other.den as i128);
        pack(n, d)
    }

    /// `None` exactly when the divisor is zero or the exact quotient does
    /// not fit.
    pub fn checked_div(&self, other: &Rational) -> (r: Option<Rational>)
        ensures
            frac_fits(self@),
            frac_fits(other@),
            match r {
                Some(v) => other@.n != 0 && v@ == frac_div(self@, other@) && frac_fits(
                    frac_div(self@, other@),
                ),
                None => other@.n == 0 || !frac_fits(frac_div(self@, other@)),
            },
    {
        proof {
            use_type_invariant(*self);
            use_type_invariant(*other);
            lemma_prod_fits(self.num as int, other.den as int);
            lemma_prod_fits(self.den as int, other.num as int);
        }
        if other.num == 0 {
            return None;
        }
        let mut n = (self.num as i128) * (other.den as i128);
        let mut d = (self.den as i128) * (other.num as i128);
        proof {
            assert((self.den as int) * (other.num as int) != 0) by (nonlinear_arith)
                requires
                    self.den as int >= 1,
                    other.num as int != 0,
            ;
        }
        if d < 0 {
            n = -n;
            d = -d;
        }
        pack(n, d)
    }

    pub fn checked_half(&self) -> (r: Option<Rational>)
        ensures
            frac_fits(self@),
            match r {
                Some(v) => v@ == frac_half(self@) && frac_fits(frac_half(self@)),
                None => !frac_fits(frac_half(self@)),
            },
    {
        proof {
            use_type_invariant(*self);
        }
        let n = self.num as i128;
        let d = (self.den as i128) * 2;
        pack(n, d)
    }

    pub fn min(&self, other: &Rational) -> (r: Rational)
        ensures
            frac_fits(self@),
            frac_fits(other@),
            r@ == frac_min(self@, other@),
    {
        if self.le(other) {
            *self
        } else {
            *other
        }
    }

    pub fn max(&self, other: &Rational) -> (r: Rational)
        ensures
            frac_fits(self@),
            frac_fits(other@),
            r@ == frac_max(self@, other@),
    {
        if self.le(other) {
            *other
        } else {
            *self
        }
    }
}

/// A product of two `i64`-sized factors fits in `i128`.
proof fn lemma_prod_fits(a: int, b: int)
    requires
        i64::MIN as int <= a <= i64::MAX as int,
        i64::MIN as int <= b <= i64::MAX as int,
    ensures
        -(i128::MAX as int) <= a * b <= i128::MAX as int,
{
    assert(-(i128::MAX as int) <= a * b <= i128::MAX as int) by (nonlinear_arith)
        requires
            i64::MIN as int <= a <= i64::MAX as int,
            i64::MIN as int <= b <= i64::MAX as int,
    ;
}

/// A numerator times a positive denominator stays clear of half the
/// `i128` range, so two such products can be added or subtracted.
proof fn lemma_num_den_prod(a: int, b: int)
    requires
        i64::MIN as int <= a <= i64::MAX as int,
        1 <= b <= i64::MAX as int,
    ensures
        -0x3FFFFFFFFFFFFFFF8000000000000000 <= a * b <= 0x3FFFFFFFFFFFFFFF8000000000000000,
{
    assert(-0x3FFFFFFFFFFFFFFF8000000000000000 <= a * b
        <= 0x3FFFFFFFFFFFFFFF8000000000000000) by (nonlinear_arith)
        requires
            i64::MIN as int <= a <= i64::MAX as int,
            1 <= b <= i64::MAX as int,
    ;
}

proof fn lemma_pos_prod(a: int, b: int)
    requires
        a >= 1,
        b >= 1,
    ensures
        a * b >= 1,
{
    assert(a * b >= 1) by (nonlinear_arith)
        requires
            a >= 1,
            b >= 1,
    ;
}

/// Packs an exact `i128` pair into a `Rational` when it fits.
fn pack(n: i128, d: i128) -> (r: Option<Rational>)
    requires
        d >= 1,
    ensures
        match r {
            Some(v) => v@ == (Frac { n: n as int, d: d as int }) && frac_fits(
                Frac { n: n as int, d: d as int },
            ),
            None => !frac_fits(Frac { n: n as int, d: d as int }),
        },
{
    if n >= i64::MIN as i128 && n <= i64::MAX as i128 && d <= i64::MAX as i128 {
        Some(Rational { num: n as i64, den: d as i64 })
    } else {
        None
    }
}

} // verus!
