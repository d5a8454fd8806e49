//! Exact rational arithmetic for the viewer's coordinates.
//!
//! The fractal view is described by a center point and a zoom factor, all of
//! which are updated multiplicatively or by exact differences.  Representing
//! them as reduced fractions of bounded integers keeps every transition of
//! the viewport exact: zooming in and back out by the same factor restores
//! the zoom precisely, with no drift.

use vstd::prelude::*;
use vstd::arithmetic::div_mod::{
    lemma_div_multiples_vanish, lemma_fundamental_div_mod, lemma_mod_multiples_basic,
    lemma_mod_self_0, lemma_small_mod,
};

verus! {

/// Largest magnitude allowed for a numerator and largest allowed denominator.
/// Keeping both within `2^62` lets any product of two such values, and any
/// sum of two such products, fit comfortably in an `i128`.
pub const FRAC_BOUND: i64 = 0x4000_0000_0000_0000;

/// An exact rational `num / den` with `den >= 1`, stored in canonical
/// (reduced) form by every constructor of this module.
#[derive(Clone, Copy, PartialEq, Eq, Structural, Debug)]
pub struct Frac {
    pub num: i64,
    pub den: i64,
}

/// `f` denotes the rational value `n / d` (stated by cross-multiplication,
/// so no division appears and `d` may be any nonzero integer).
pub open spec fn is_val(f: Frac, n: int, d: int) -> bool {
    f.num * d == n * f.den
}

/// `a` and `b` denote the same rational value.
pub open spec fn same_value(a: Frac, b: Frac) -> bool {
    a.num * b.den == b.num * a.den
}

/// Magnitude of an integer.
pub open spec fn iabs(x: int) -> int {
    if x < 0 { -x } else { x }
}

/// Greatest common divisor by Euclid's rule.
pub open spec fn gcd(a: nat, b: nat) -> nat
    decreases b,
{
    if b == 0 {
        a
    } else {
        gcd(b, a % b)
    }
}

/// The divisor by which `n / d` is reduced to canonical form.
pub open spec fn gcd_of(n: int, d: int) -> int
    recommends d >= 1,
{
    gcd(iabs(n) as nat, d as nat) as int
}

/// Canonical numerator of the rational `n / d`.
pub open spec fn canon_num(n: int, d: int) -> int {
    n / gcd_of(n, d)
}

/// Canonical denominator of the rational `n / d`.
pub open spec fn canon_den(n: int, d: int) -> int {
    d / gcd_of(n, d)
}

/// The rational `n / d` fits in a `Frac` once reduced.
pub open spec fn representable(n: int, d: int) -> bool {
    -FRAC_BOUND <= canon_num(n, d) <= FRAC_BOUND && canon_den(n, d) <= FRAC_BOUND
}

impl Frac {
    /// Well-formed: positive bounded denominator, bounded numerator.
    pub open spec fn wf(self) -> bool {
        1 <= self.den <= FRAC_BOUND && -FRAC_BOUND <= self.num <= FRAC_BOUND
    }

    /// Direct constructor for a fraction already known to be in range.
    pub fn new(num: i64, den: i64) -> (r: Frac)
        requires
            1 <= den <= FRAC_BOUND,
            -FRAC_BOUND <= num <= FRAC_BOUND,
        ensures
            r.wf(),
            r.num == num,
            r.den == den,
            is_val(r, num as int, den as int),
    {
        Frac { num, den }
    }

    /// The integer `n` as a fraction.
    pub fn from_int(n: i64) -> (r: Frac)
        requires
            -FRAC_BOUND <= n <= FRAC_BOUND,
        ensures
            r.wf(),
            is_val(r, n as int, 1),
            r.num == n,
            r.den == 1,
    {
        Frac { num: n, den: 1 }
    }

    /// Canonical constructor: reduces `n / d` by the greatest common divisor
    /// and returns the result, or `None` exactly when even the reduced
    /// fraction is out of range.
    pub fn from_ratio(n: i128, d: i128) -> (r: Option<Frac>)
        requires
            1 <= d,
            i128::MIN < n,
        ensures
            r is Some <==> representable(n as int, d as int),
            r matches Some(f) ==> f.wf() && f.num == canon_num(n as int, d as int)
                && f.den == canon_den(n as int, d as int) && is_val(f, n as int, d as int),
    {
        let neg = n < 0;
        let mag: u128 = if neg {
            (-n) as u128
        } else {
            n as u128
        };
        let g: u128 = gcd_u128(mag, d as u128);
        proof {
            lemma_gcd_divides(mag as nat, d as nat);
            lemma_canon_facts(n as int, d as int);
        }
        let rn: u128 = mag / g;
        let rd: u128 = (d as u128) / g;
        proof {
            lemma_exact_div_cases(n as int, d as int);
            assert(rn as int == iabs(n as int) / gcd_of(n as int, d as int));
            assert(rd as int == canon_den(n as int, d as int));
        }
        if rn <= FRAC_BOUND as u128 && rd <= FRAC_BOUND as u128 {
            let num: i64 = if neg {
                -(rn as i64)
            } else {
                rn as i64
            };
            Some(Frac { num, den: rd as i64 })
        } else {
            None
        }
    }

    /// Exact product of two fractions, reduced; `None` exactly when the
    /// reduced product is out of range.
    pub fn mul_frac(&self, other: &Frac) -> (r: Option<Frac>)
        requires
            self.wf(),
            other.wf(),
        ensures
            r is Some <==> representable(self.num * other.num, self.den * other.den),
            r matches Some(f) ==> f.wf() && is_val(f, self.num * other.num, self.den * other.den)
                && f.num == canon_num(self.num * other.num, self.den * other.den)
                && f.den == canon_den(self.num * other.num, self.den * other.den),
    {
        proof {
            lemma_bounded_product(self.num as int, other.num as int);
            lemma_bounded_product(self.den as int, other.den as int);
            lemma_pos_product(self.den as int, other.den as int);
        }
        let n: i128 = (self.num as i128) * (other.num as i128);
        let d: i128 = (self.den as i128) * (other.den as i128);
        Frac::from_ratio(n, d)
    }

    /// Exact difference `self - other`, reduced; `None` exactly when the
    /// reduced difference is out of range.
    pub fn sub_frac(&self, other: &Frac) -> (r: Option<Frac>)
        requires
            self.wf(),
            other.wf(),
        ensures
            r is Some <==> representable(
                self.num * other.den - other.num * self.den,
                self.den * other.den,
            ),
            r matches Some(f) ==> f.wf()
                && is_val(f, self.num * other.den - other.num * self.den, self.den * other.den)
                && f.num == canon_num(
                    self.num * other.den - other.num * self.den,
                    self.den * other.den,
                )
                && f.den == canon_den(
                    self.num * other.den - other.num * self.den,
                    self.den * other.den,
                ),
    {
        proof {
            lemma_bounded_product(self.num as int, other.den as int);
            lemma_bounded_product(other.num as int, self.den as int);
            lemma_bounded_product(self.den as int, other.den as int);
            lemma_pos_product(self.den as int, other.den as int);
        }
        let n: i128 = (self.num as i128) * (other.den as i128)
            - (other.num as i128) * (self.den as i128);
        let d: i128 = (self.den as i128) * (other.den as i128);
        Frac::from_ratio(n, d)
    }

    /// Whether two fractions denote the same rational value.
    pub fn eq_value(&self, other: &Frac) -> (r: bool)
        requires
            self.wf(),
            other.wf(),
        ensures
            r == same_value(*self, *other),
    {
        proof {
            lemma_bounded_product(self.num as int, other.den as int);
            lemma_bounded_product(other.num as int, self.den as int);
        }
        (self.num as i128) * (other.den as i128) == (other.num as i128) * (self.den as i128)
    }
}

/// Euclid's algorithm; the result is `gcd` of the inputs.
pub fn gcd_u128(a: u128, b: u128) -> (g: u128)
    ensures
        g as nat == gcd(a as nat, b as nat),
{
    let mut x: u128 = a;
    let mut y: u128 = b;
    while y != 0
        invariant
            gcd(x as nat, y as nat) == gcd(a as nat, b as nat),
        decreases y,
    {
        let r: u128 = x % y;
        x = y;
        y = r;
    }
    x
}

/// `gcd` of two naturals, at least one positive, is positive and divides both.
pub proof fn lemma_gcd_divides(a: nat, b: nat)
    requires
        a > 0 || b > 0,
    ensures
        gcd(a, b) >= 1,
        a % gcd(a, b) == 0,
        b % gcd(a, b) == 0,
    decreases b,
{
    if b == 0 {
        lemma_mod_self_0(a as int);
        lemma_small_mod(0, a);
    } else {
        lemma_gcd_divides(b, a % b);
        let g = gcd(b, a % b) as int;
        let ai = a as int;
        let bi = b as int;
        let r = ai % bi;
        lemma_fundamental_div_mod(ai, bi);
        lemma_fundamental_div_mod(bi, g);
        lemma_fundamental_div_mod(r, g);
        let qa = ai / bi;
        let qb = bi / g;
        let qr = r / g;
        assert(ai == g * (qb * qa + qr)) by (nonlinear_arith)
            requires
                ai == bi * qa + r,
                bi == g * qb,
                r == g * qr,
        ;
        lemma_mod_multiples_basic(qb * qa + qr, g);
        assert(g * (qb * qa + qr) == (qb * qa + qr) * g) by (nonlinear_arith);
    }
}

/// Facts about canonical reduction of `n / d`: the reduced denominator is
/// positive, the reduced pair denotes the same rational, and reduction never
/// grows either component.
pub proof fn lemma_canon_facts(n: int, d: int)
    requires
        d >= 1,
    ensures
        gcd_of(n, d) >= 1,
        canon_den(n, d) >= 1,
        canon_num(n, d) * d == n * canon_den(n, d),
        iabs(canon_num(n, d)) <= iabs(n),
        canon_den(n, d) <= d,
        n == gcd_of(n, d) * canon_num(n, d),
        d == gcd_of(n, d) * canon_den(n, d),
        n >= 1 ==> canon_num(n, d) >= 1,
{
    let g = gcd_of(n, d);
    lemma_gcd_divides(iabs(n) as nat, d as nat);
    let m = iabs(n);
    lemma_fundamental_div_mod(m, g);
    lemma_fundamental_div_mod(d, g);
    let k = m / g;
    let cd = d / g;
    assert(m == g * k);
    assert(d == g * cd);
    // canonical numerator is +/- k
    if n >= 0 {
        assert(canon_num(n, d) == k) by {
            lemma_div_multiples_vanish(k, g);
        };
        assert(n == g * canon_num(n, d));
    } else {
        assert(n == g * (-k)) by (nonlinear_arith)
            requires
                m == g * k,
                n == -m,
        ;
        assert(canon_num(n, d) == -k) by {
            lemma_div_multiples_vanish(-k, g);
        };
        assert(n == g * canon_num(n, d));
    }
    let cn = canon_num(n, d);
    assert(cd >= 1) by (nonlinear_arith)
        requires
            d == g * cd,
            d >= 1,
            g >= 1,
    ;
    assert(cn * d == n * cd) by (nonlinear_arith)
        requires
            n == g * cn,
            d == g * cd,
    ;
    assert(k >= 0) by (nonlinear_arith)
        requires
            m == g * k,
            m >= 0,
            g >= 1,
    ;
    assert(k <= m) by (nonlinear_arith)
        requires
            m == g * k,
            g >= 1,
            k >= 0,
    ;
    assert(cd <= d) by (nonlinear_arith)
        requires
            d == g * cd,
            g >= 1,
            cd >= 1,
    ;
    if n >= 1 {
        assert(cn >= 1) by (nonlinear_arith)
            requires
                n == g * cn,
                n >= 1,
                g >= 1,
        ;
    }
}

/// Ties the unsigned reduction performed by `from_ratio` to the canonical
/// numerator: reducing the magnitude and negating afterwards agrees with
/// reducing the signed numerator.
proof fn lemma_exact_div_cases(n: int, d: int)
    requires
        d >= 1,
    ensures
        n >= 0 ==> canon_num(n, d) == iabs(n) / gcd_of(n, d),
        n < 0 ==> canon_num(n, d) == -(iabs(n) / gcd_of(n, d)),
        iabs(n) / gcd_of(n, d) >= 0,
        canon_den(n, d) >= 1,
        iabs(canon_num(n, d)) == iabs(n) / gcd_of(n, d),
{
    lemma_canon_facts(n, d);
    let g = gcd_of(n, d);
    lemma_gcd_divides(iabs(n) as nat, d as nat);
    let m = iabs(n);
    lemma_fundamental_div_mod(m, g);
    let k = m / g;
    assert(k >= 0) by (nonlinear_arith)
        requires
            m == g * k,
            m >= 0,
            g >= 1,
    ;
    if n >= 0 {
    } else {
        assert(n == g * (-k)) by (nonlinear_arith)
            requires
                m == g * k,
                n == -m,
        ;
        lemma_div_multiples_vanish(-k, g);
    }
}

/// A fraction whose raw pair is already in range is representable.
pub proof fn lemma_small_representable(n: int, d: int)
    requires
        1 <= d <= FRAC_BOUND,
        -FRAC_BOUND <= n <= FRAC_BOUND,
    ensures
        representable(n, d),
{
    lemma_canon_facts(n, d);
}

/// Bound on a product of two bounded values.
pub proof fn lemma_bounded_product(x: int, y: int)
    requires
        -FRAC_BOUND <= x <= FRAC_BOUND,
        -FRAC_BOUND <= y <= FRAC_BOUND,
    ensures
        -(FRAC_BOUND as int * FRAC_BOUND as int) <= x * y <= FRAC_BOUND as int * FRAC_BOUND as int,
{
    let b = FRAC_BOUND as int;
    assert(-(b * b) <= x * y <= b * b) by (nonlinear_arith)
        requires
            -b <= x <= b,
            -b <= y <= b,
            b >= 0,
    ;
}

/// A product of two positive values is positive.
pub proof fn lemma_pos_product(x: int, y: int)
    requires
        x >= 1,
        y >= 1,
    ensures
        x * y >= 1,
{
    assert(x * y >= 1) by (nonlinear_arith)
        requires
            x >= 1,
            y >= 1,
    ;
}

/// A value relation is independent of which pair represents the rational:
/// if `f` denotes `n1 / d1` and `n1 / d1` equals `n2 / d2` as rationals,
/// then `f` denotes `n2 / d2` as well.
pub proof fn lemma_val_equiv(f: Frac, n1: int, d1: int, n2: int, d2: int)
    requires
        d1 != 0,
        is_val(f, n1, d1),
        n1 * d2 == n2 * d1,
    ensures
        is_val(f, n2, d2),
{
    assert((f.num * d2) * d1 == (n2 * f.den) * d1) by (nonlinear_arith)
        requires
            f.num * d1 == n1 * f.den,
            n1 * d2 == n2 * d1,
    ;
    assert(f.num * d2 == n2 * f.den) by (nonlinear_arith)
        requires
            (f.num * d2) * d1 == (n2 * f.den) * d1,
            d1 != 0,
    ;
}

/// Cancellation of a common positive factor on both sides of an equation.
pub proof fn lemma_cancel_factor(x: int, y: int, c: int)
    requires
        x * c == y * c,
        c >= 1,
    ensures
        x == y,
{
    assert(x == y) by (nonlinear_arith)
        requires
            x * c == y * c,
            c >= 1,
    ;
}

/// If `a` denotes `na / da`, `b` denotes `nb / db`, and `r` denotes the
/// product of the raw pairs of `a` and `b`, then `r` denotes
/// `(na * nb) / (da * db)`.
#[verifier::rlimit(50)]
pub proof fn lemma_val_mul(a: Frac, b: Frac, r: Frac, na: int, da: int, nb: int, db: int)
    requires
        a.den >= 1,
        b.den >= 1,
        da != 0,
        db != 0,
        is_val(a, na, da),
        is_val(b, nb, db),
        is_val(r, a.num * b.num, a.den * b.den),
    ensures
        is_val(r, na * nb, da * db),
{
    let c = a.den * b.den;
    assert(c >= 1) by (nonlinear_arith)
        requires
            c == a.den * b.den,
            a.den >= 1,
            b.den >= 1,
    ;
    assert((a.num * b.num) * (da * db) == (na * nb) * c) by (nonlinear_arith)
        requires
            a.num * da == na * a.den,
            b.num * db == nb * b.den,
            c == a.den * b.den,
    ;
    assert((r.num * (da * db)) * c == (r.num * c) * (da * db)) by (nonlinear_arith);
    assert((r.num * c) * (da * db) == ((a.num * b.num) * (da * db)) * r.den) by (nonlinear_arith)
        requires
            r.num * c == (a.num * b.num) * r.den,
    ;
    assert(((na * nb) * c) * r.den == ((na * nb) * r.den) * c) by (nonlinear_arith);
    lemma_cancel_factor(r.num * (da * db), (na * nb) * r.den, c);
}

/// If `a` denotes `na / da`, `b` denotes `nb / db`, and `r` denotes the
/// difference of the raw pairs of `a` and `b`, then `r` denotes
/// `(na * db - nb * da) / (da * db)`.
#[verifier::rlimit(50)]
pub proof fn lemma_val_sub(a: Frac, b: Frac, r: Frac, na: int, da: int, nb: int, db: int)
    requires
        a.den >= 1,
        b.den >= 1,
        da != 0,
        db != 0,
        is_val(a, na, da),
        is_val(b, nb, db),
        is_val(r, a.num * b.den - b.num * a.den, a.den * b.den),
    ensures
        is_val(r, na * db - nb * da, da * db),
{
    let c = a.den * b.den;
    assert(c >= 1) by (nonlinear_arith)
        requires
            c == a.den * b.den,
            a.den >= 1,
            b.den >= 1,
    ;
    assert((a.num * b.den) * (da * db) == (na * db) * c) by (nonlinear_arith)
        requires
            a.num * da == na * a.den,
            c == a.den * b.den,
    ;
    assert((b.num * a.den) * (da * db) == (nb * da) * c) by (nonlinear_arith)
        requires
            b.num * db == nb * b.den,
            c == a.den * b.den,
    ;
    assert((a.num * b.den - b.num * a.den) * (da * db) == (na * db - nb * da) * c)
        by (nonlinear_arith)
        requires
            (a.num * b.den) * (da * db) == (na * db) * c,
            (b.num * a.den) * (da * db) == (nb * da) * c,
    ;
    assert((r.num * (da * db)) * c == (r.num * c) * (da * db)) by (nonlinear_arith);
    assert((r.num * c) * (da * db) == ((a.num * b.den - b.num * a.den) * (da * db)) * r.den)
        by (nonlinear_arith)
        requires
            r.num * c == (a.num * b.den - b.num * a.den) * r.den,
    ;
    assert(((na * db - nb * da) * c) * r.den == ((na * db - nb * da) * r.den) * c)
        by (nonlinear_arith);
    lemma_cancel_factor(r.num * (da * db), (na * db - nb * da) * r.den, c);
}

/// A fraction denoting a positive rational has a positive numerator.
pub proof fn lemma_val_pos(f: Frac, n: int, d: int)
    requires
        f.den >= 1,
        n >= 1,
        d >= 1,
        is_val(f, n, d),
    ensures
        f.num >= 1,
{
    assert(f.num >= 1) by (nonlinear_arith)
        requires
            f.num * d == n * f.den,
            n >= 1,
            d >= 1,
            f.den >= 1,
    ;
}

} // verus!
