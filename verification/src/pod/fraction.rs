//! The SPA fraction.

use core::cmp::Ordering;

use vstd::prelude::*;
use vstd::std_specs::cmp::{PartialEqSpecImpl, PartialOrdSpecImpl};

verus! {

/// A SPA Fraction.
#[derive(Debug, Clone, Copy)]
pub struct SpaFraction {
    /// The numerator.
    pub numer: u32,
    /// The denominator.
    pub denom: u32,
}

/// `(numer / denom, numer % denom)`, or `None` when the denominator is zero.
pub open spec fn spec_div_rem(f: SpaFraction) -> Option<(u32, u32)> {
    if f.denom == 0 {
        None
    } else {
        Some(((f.numer / f.denom) as u32, (f.numer % f.denom) as u32))
    }
}

/// The integer part of `f` over one, or `None` when `f` is undefined.
pub open spec fn spec_trunc(f: SpaFraction) -> Option<SpaFraction> {
    if f.denom == 0 {
        None
    } else {
        Some(SpaFraction { numer: (f.numer / f.denom) as u32, denom: 1 })
    }
}

/// The remainder of `f` over its denominator, or `None` when `f` is undefined.
pub open spec fn spec_fract(f: SpaFraction) -> Option<SpaFraction> {
    if f.denom == 0 {
        None
    } else {
        Some(SpaFraction { numer: (f.numer % f.denom) as u32, denom: f.denom })
    }
}

/// The least integer not below `f`, over one, or `None` when `f` is undefined.
pub open spec fn spec_ceil(f: SpaFraction) -> Option<SpaFraction> {
    if f.denom == 0 {
        None
    } else if f.numer % f.denom == 0 {
        Some(SpaFraction { numer: (f.numer / f.denom) as u32, denom: 1 })
    } else {
        Some(SpaFraction { numer: (f.numer / f.denom + 1) as u32, denom: 1 })
    }
}

/// `f` as a `u32`, if it is a defined fraction of integer value.
pub open spec fn spec_to_u32(f: SpaFraction) -> Option<u32> {
    if f.denom != 0 && f.numer % f.denom == 0 {
        Some((f.numer / f.denom) as u32)
    } else {
        None
    }
}

/// How `a` compares with `b` as rational numbers: `None` if either is
/// undefined, else by the cross products `a.numer * b.denom` and
/// `b.numer * a.denom`.
pub open spec fn fraction_order(a: SpaFraction, b: SpaFraction) -> Option<Ordering> {
    if a.denom == 0 || b.denom == 0 {
        None
    } else if a.numer * b.denom < b.numer * a.denom {
        Some(Ordering::Less)
    } else if a.numer * b.denom == b.numer * a.denom {
        Some(Ordering::Equal)
    } else {
        Some(Ordering::Greater)
    }
}

/// The product of two `u32`s, which always fits a `u64`.
fn wide_mul(x: u32, y: u32) -> (r: u64)
    ensures
        r == x * y,
{
    let a = x as u64;
    let b = y as u64;
    assert(a * b <= u64::MAX) by (nonlinear_arith)
        requires
            a <= u32::MAX,
            b <= u32::MAX,
    ;
    a * b
}

/// The cross products of `a` and `b`, which order them when both are defined.
fn cross_products(a: SpaFraction, b: SpaFraction) -> (r: (u64, u64))
    ensures
        r.0 == a.numer * b.denom,
        r.1 == b.numer * a.denom,
{
    (wide_mul(a.numer, b.denom), wide_mul(b.numer, a.denom))
}

/// How `a` compares with `b`.
fn compare_u64(a: u64, b: u64) -> (r: Ordering)
    ensures
        r == (if a < b {
            Ordering::Less
        } else if a == b {
            Ordering::Equal
        } else {
            Ordering::Greater
        }),
{
    if a < b {
        Ordering::Less
    } else if a == b {
        Ordering::Equal
    } else {
        Ordering::Greater
    }
}

/// `q * d + r == n` and `r < d` hold of the quotient and remainder of `n / d`.
proof fn lemma_div_rem(n: u32, d: u32)
    requires
        d > 0,
    ensures
        (n / d) * d + n % d == n,
        n % d < d,
        n / d <= n,
{
    let q = n / d;
    let r = n % d;
    assert(q * d + r == n && r < d && q <= n) by (nonlinear_arith)
        requires
            d > 0,
            q == n / d,
            r == n % d,
    ;
}

impl SpaFraction {
    /// Perform a checked `(numer / denom, numer % denom)`.
    pub fn checked_div_rem(self) -> (r: Option<(u32, u32)>)
        ensures
            r == spec_div_rem(self),
    {
        if self.denom == 0 {
            None
        } else {
            Some((self.numer / self.denom, self.numer % self.denom))
        }
    }

    /// Returns whether this fraction is defined. A fraction is undefined if
    /// its denominator is zero.
    pub fn is_defined(self) -> (r: bool)
        ensures
            r == (self.denom != 0),
    {
        self.denom != 0
    }

    /// Returns whether this fraction is representable as an integer.
    pub fn is_integer(self) -> (r: bool)
        ensures
            r == (self.denom != 0 && self.numer % self.denom == 0),
    {
        match self.checked_div_rem() {
            Some((_, rem)) => rem == 0,
            None => false,
        }
    }

    /// Returns whether this fraction is equal to the given `u32`.
    pub fn eq_u32(self, value: u32) -> (r: bool)
        ensures
            r == (self.denom != 0 && self.denom * value == self.numer),
    {
        if !self.is_defined() {
            return false;
        }
        wide_mul(self.denom, value) == self.numer as u64
    }

    /// Returns this fraction as a `u32`, if it can be represented as one
    /// losslessly: `None` if `denom == 0 || numer % denom != 0`.
    pub fn to_u32(self) -> (r: Option<u32>)
        ensures
            r == spec_to_u32(self),
    {
        match self.checked_div_rem() {
            Some((int_part, rem)) => {
                if rem == 0 {
                    Some(int_part)
                } else {
                    None
                }
            },
            None => None,
        }
    }

    /// Rounds this fraction towards zero, returning the integer part of it
    /// over one. Returns `None` if `denom == 0`.
    pub fn trunc(self) -> (r: Option<SpaFraction>)
        ensures
            r == spec_trunc(self),
    {
        match self.checked_div_rem() {
            Some((int_part, _rem)) => Some(SpaFraction { numer: int_part, denom: 1 }),
            None => None,
        }
    }

    /// Returns the fractional part of this fraction: the remainder over the
    /// same denominator. Returns `None` if `denom == 0`.
    pub fn fract(self) -> (r: Option<SpaFraction>)
        ensures
            r == spec_fract(self),
    {
        match self.checked_div_rem() {
            Some((_int_part, rem)) => Some(SpaFraction { numer: rem, denom: self.denom }),
            None => None,
        }
    }

    /// Rounds this fraction towards negative infinity. Since fractions are
    /// unsigned, this is [`SpaFraction::trunc`].
    pub fn floor(self) -> (r: Option<SpaFraction>)
        ensures
            r == spec_trunc(self),
    {
        self.trunc()
    }

    /// Rounds this fraction towards positive infinity. Returns `None` if
    /// `denom == 0`.
    pub fn ceil(self) -> (r: Option<SpaFraction>)
        ensures
            r == spec_ceil(self),
    {
        match self.checked_div_rem() {
            Some((int_part, rem)) => {
                if rem == 0 {
                    Some(SpaFraction { numer: int_part, denom: 1 })
                } else {
                    proof {
                        lemma_div_rem(self.numer, self.denom);
                        let n = self.numer;
                        let d = self.denom;
                        assert(int_part < u32::MAX) by (nonlinear_arith)
                            requires
                                int_part * d + rem == n,
                                rem > 0,
                                d > 1,
                                n <= u32::MAX,
                        ;
                    }
                    Some(SpaFraction { numer: int_part + 1, denom: 1 })
                }
            },
            None => None,
        }
    }

    /// Flips the numerator and denominator.
    pub fn flip(self) -> (r: SpaFraction)
        ensures
            r.numer == self.denom,
            r.denom == self.numer,
    {
        SpaFraction { numer: self.denom, denom: self.numer }
    }

    /// Returns the reciprocal of this fraction: `Some` only if
    /// `numer != 0 && denom != 0`.
    pub fn recip(self) -> (r: Option<SpaFraction>)
        ensures
            r == (if self.numer != 0 && self.denom != 0 {
                Some(SpaFraction { numer: self.denom, denom: self.numer })
            } else {
                None
            }),
    {
        if self.numer != 0 && self.denom != 0 {
            Some(self.flip())
        } else {
            None
        }
    }
}

/// The order of two fractions, computed with shortcuts: two zero
/// numerators are equal, equal denominators compare by numerator, equal
/// numerators compare by denominator in reverse, and otherwise by the cross
/// products.
fn compare_fractions(a: SpaFraction, b: SpaFraction) -> (r: Option<Ordering>)
    ensures
        r == fraction_order(a, b),
{
    if a.denom == 0 || b.denom == 0 {
        return None;
    }
    let ghost l = a.numer * b.denom;
    let ghost g = b.numer * a.denom;
    if a.numer == 0 && b.numer == 0 {
        Some(Ordering::Equal)
    } else if a.denom == b.denom {
        proof {
            lemma_mul_order(a.numer, b.numer, a.denom);
        }
        Some(compare_u64(a.numer_wide(), b.numer_wide()))
    } else if a.numer == b.numer {
        proof {
            lemma_mul_order(b.denom, a.denom, a.numer);
        }
        Some(compare_u64(b.denom_wide(), a.denom_wide()))
    } else {
        let (x, y) = cross_products(a, b);
        Some(compare_u64(x, y))
    }
}

/// Multiplying by a positive number keeps the order of two numbers.
proof fn lemma_mul_order(x: u32, y: u32, k: u32)
    requires
        k > 0,
    ensures
        (x * k < y * k) == (x < y),
        (x * k == y * k) == (x == y),
        x * k == k * x,
        y * k == k * y,
{
    assert((x * k < y * k) == (x < y)) by (nonlinear_arith)
        requires
            k > 0,
    ;
    assert((x * k == y * k) == (x == y)) by (nonlinear_arith)
        requires
            k > 0,
    ;
    assert(x * k == k * x && y * k == k * y) by (nonlinear_arith);
}

impl SpaFraction {
    /// The numerator, widened.
    fn numer_wide(self) -> (r: u64)
        ensures
            r == self.numer,
    {
        self.numer as u64
    }

    /// The denominator, widened.
    fn denom_wide(self) -> (r: u64)
        ensures
            r == self.denom,
    {
        self.denom as u64
    }
}

/// The quotient and remainder of a defined fraction are the Euclidean ones:
/// the quotient times the denominator plus the remainder is the numerator,
/// and the remainder is below the denominator; there are none exactly when
/// the denominator is zero.
pub proof fn lemma_div_rem_euclidean(f: SpaFraction)
    ensures
        spec_div_rem(f) is None <==> f.denom == 0,
        spec_div_rem(f) matches Some((q, r)) ==> q * f.denom + r == f.numer && r < f.denom,
{
    if f.denom != 0 {
        lemma_div_rem(f.numer, f.denom);
    }
}

/// `self.trunc() + self.fract() == self`: the integer part over one plus the
/// remainder over the denominator is the fraction itself, written over its own
/// denominator; both are `None` exactly when the fraction is undefined.
pub proof fn lemma_trunc_plus_fract(f: SpaFraction)
    ensures
        spec_trunc(f) is None <==> f.denom == 0,
        spec_fract(f) is None <==> f.denom == 0,
        f.denom != 0 ==> ({
            let t = spec_trunc(f).unwrap();
            let r = spec_fract(f).unwrap();
            &&& t.denom == 1
            &&& r.denom == f.denom
            &&& t.numer * r.denom + r.numer == f.numer
            &&& r.numer < r.denom
        }),
{
    if f.denom != 0 {
        lemma_div_rem(f.numer, f.denom);
    }
}

/// Floor and ceiling bracket a defined fraction: the floor is the truncation,
/// it is not above the fraction, the ceiling is not below it, and the ceiling
/// exceeds the floor by one exactly when the fraction is not an integer.
pub proof fn lemma_floor_ceil(f: SpaFraction)
    requires
        f.denom != 0,
    ensures
        ({
            let fl = spec_trunc(f).unwrap();
            let c = spec_ceil(f).unwrap();
            &&& fraction_order(fl, f) != Some(Ordering::Greater)
            &&& fraction_order(f, c) != Some(Ordering::Greater)
            &&& (f.numer % f.denom == 0 ==> c == fl)
            &&& (f.numer % f.denom != 0 ==> c.numer == fl.numer + 1 && c.denom == 1)
        }),
{
    lemma_floor_ceil_bounds(f.numer, f.denom);
    let fl = spec_trunc(f).unwrap();
    let c = spec_ceil(f).unwrap();
}

/// The integer part of `n / d` times `d` is not above `n`, and one more times
/// `d` is not below it when there is a remainder.
proof fn lemma_floor_ceil_bounds(n: u32, d: u32)
    requires
        d > 0,
    ensures
        n / d <= n,
        (n / d) * d <= n,
        (n / d) * d + n % d == n,
        n % d != 0 ==> n <= (n / d + 1) * d && n / d < u32::MAX,
{
    lemma_div_rem(n, d);
    let q = n / d;
    let r = n % d;
    assert(q * d <= n) by (nonlinear_arith)
        requires
            q * d + r == n,
            r >= 0,
    ;
    if r != 0 {
        assert(n <= (q + 1) * d) by (nonlinear_arith)
            requires
                q * d + r == n,
                r < d,
        ;
        assert(q < u32::MAX) by (nonlinear_arith)
            requires
                q * d + r == n,
                r > 0,
                d > 1,
                n <= u32::MAX,
        ;
    }
}

/// Comparison of defined fractions is a total preorder: reflexive,
/// antisymmetric (swapping the operands reverses the outcome) and transitive;
/// it is `None` exactly when either operand is undefined.
pub proof fn lemma_order_laws(a: SpaFraction, b: SpaFraction, c: SpaFraction)
    ensures
        fraction_order(a, b) is None <==> (a.denom == 0 || b.denom == 0),
        a.denom != 0 ==> fraction_order(a, a) == Some(Ordering::Equal),
        fraction_order(a, b) == Some(Ordering::Less) <==> fraction_order(b, a) == Some(
            Ordering::Greater,
        ),
        fraction_order(a, b) == Some(Ordering::Equal) <==> fraction_order(b, a) == Some(
            Ordering::Equal,
        ),
        fraction_order(a, b) == Some(Ordering::Less) && fraction_order(b, c) == Some(
            Ordering::Less,
        ) ==> fraction_order(a, c) == Some(Ordering::Less),
        fraction_order(a, b) == Some(Ordering::Equal) && fraction_order(b, c) == Some(
            Ordering::Equal,
        ) ==> fraction_order(a, c) == Some(Ordering::Equal),
{
    if a.denom != 0 && b.denom != 0 && c.denom != 0 {
        lemma_cross_transitive(a.numer, a.denom, b.numer, b.denom, c.numer, c.denom);
    }
}

/// Defined fractions compare as the rational numbers they stand for:
/// `a` is below, equal to or above `b` exactly when `a.numer * b.denom` is
/// below, equal to or above `b.numer * a.denom` (for positive denominators,
/// `a.numer / a.denom` against `b.numer / b.denom` over the rationals); in
/// particular a smaller integer part makes a smaller fraction.
pub proof fn lemma_order_is_rational(a: SpaFraction, b: SpaFraction)
    requires
        a.denom != 0,
        b.denom != 0,
    ensures
        fraction_order(a, b) == Some(Ordering::Less) <==> a.numer * b.denom < b.numer * a.denom,
        fraction_order(a, b) == Some(Ordering::Equal) <==> a.numer * b.denom == b.numer * a.denom,
        fraction_order(a, b) == Some(Ordering::Greater) <==> a.numer * b.denom > b.numer
            * a.denom,
        a.numer / a.denom < b.numer / b.denom ==> fraction_order(a, b) == Some(Ordering::Less),
{
    if a.numer / a.denom < b.numer / b.denom {
        lemma_smaller_quotient_cross(a.numer, a.denom, b.numer, b.denom);
    }
}

/// A smaller quotient means a smaller cross product.
proof fn lemma_smaller_quotient_cross(an: u32, ad: u32, bn: u32, bd: u32)
    requires
        ad > 0,
        bd > 0,
        an / ad < bn / bd,
    ensures
        an * bd < bn * ad,
{
    lemma_div_rem(an, ad);
    lemma_div_rem(bn, bd);
    let qa = an / ad;
    let qb = bn / bd;
    let ra = an % ad;
    let rb = bn % bd;
    assert(an * bd < bn * ad) by (nonlinear_arith)
        requires
            qa * ad + ra == an,
            ra < ad,
            qb * bd + rb == bn,
            0 <= rb,
            qa < qb,
            ad > 0,
            bd > 0,
            0 <= qa,
    ;
}

/// Cross-multiplied order and equality of positive-denominator fractions are
/// transitive.
proof fn lemma_cross_transitive(an: u32, ad: u32, bn: u32, bd: u32, cn: u32, cd: u32)
    requires
        ad > 0,
        bd > 0,
        cd > 0,
    ensures
        an * bd < bn * ad && bn * cd < cn * bd ==> an * cd < cn * ad,
        an * bd == bn * ad && bn * cd == cn * bd ==> an * cd == cn * ad,
{
    if an * bd < bn * ad && bn * cd < cn * bd {
        assert(an * cd < cn * ad) by (nonlinear_arith)
            requires
                an * bd < bn * ad,
                bn * cd < cn * bd,
                ad > 0,
                bd > 0,
                cd > 0,
                an >= 0,
                bn >= 0,
                cn >= 0,
        ;
    }
    if an * bd == bn * ad && bn * cd == cn * bd {
        assert(an * cd == cn * ad) by (nonlinear_arith)
            requires
                an * bd == bn * ad,
                bn * cd == cn * bd,
                ad > 0,
                bd > 0,
                cd > 0,
        ;
    }
}

/// A fraction equals a `u32` exactly when it converts to that `u32`, and it
/// is an integer exactly when it converts to some `u32`.
pub proof fn lemma_eq_u32_to_u32(f: SpaFraction, v: u32)
    ensures
        (f.denom != 0 && f.denom * v == f.numer) <==> spec_to_u32(f) == Some(v),
        (f.denom != 0 && f.numer % f.denom == 0) <==> spec_to_u32(f) is Some,
{
    if f.denom != 0 {
        lemma_div_rem(f.numer, f.denom);
        let n = f.numer as int;
        let d = f.denom as int;
        let q = f.numer / f.denom;
        let r = f.numer % f.denom;
        if d * v == n {
            assert(r == 0 && q == v) by (nonlinear_arith)
                requires
                    d * v == n,
                    q * d + r == n,
                    0 <= r < d,
                    d > 0,
            ;
        }
        if r == 0 && q == v {
            assert(d * v == n) by (nonlinear_arith)
                requires
                    q * d + r == n,
                    r == 0,
                    q == v,
            ;
        }
    }
}

/// Taking the reciprocal twice gives back a fraction whose numerator and
/// denominator are both nonzero; flipping twice gives back any fraction.
pub proof fn lemma_recip_involution(f: SpaFraction)
    ensures
        (f.numer != 0 && f.denom != 0) ==> (match (if f.numer != 0 && f.denom != 0 {
            Some(SpaFraction { numer: f.denom, denom: f.numer })
        } else {
            None::<SpaFraction>
        }) {
            Some(g) => g.numer != 0 && g.denom != 0 && SpaFraction { numer: g.denom, denom: g.numer }
                == f,
            None => false,
        }),
{
}

impl PartialEq for SpaFraction {
    fn eq(&self, other: &Self) -> (r: bool) {
        match compare_fractions(*self, *other) {
            Some(Ordering::Equal) => true,
            _ => false,
        }
    }
}

impl PartialEqSpecImpl for SpaFraction {
    open spec fn obeys_eq_spec() -> bool {
        true
    }

    open spec fn eq_spec(&self, other: &Self) -> bool {
        fraction_order(*self, *other) == Some(Ordering::Equal)
    }
}

impl Eq for SpaFraction {}

impl PartialOrd for SpaFraction {
    fn partial_cmp(&self, other: &Self) -> (r: Option<Ordering>) {
        compare_fractions(*self, *other)
    }
}

impl PartialOrdSpecImpl for SpaFraction {
    open spec fn obeys_partial_cmp_spec() -> bool {
        true
    }

    open spec fn partial_cmp_spec(&self, other: &Self) -> Option<Ordering> {
        fraction_order(*self, *other)
    }
}

} // verus!
