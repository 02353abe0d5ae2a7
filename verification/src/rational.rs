//! Exact rational scalars.
//!
//! The synapse state is real-valued; here a value is an exact fraction of two
//! `i128` machine integers with a positive denominator. The mathematical model
//! of such a value is [`Rational`], a pair of unbounded integers, and the
//! contracts of the component are stated over that model.

use vstd::prelude::*;

verus! {

/// The mathematical value of a scalar: an integer fraction `n / d`.
/// Meaningful whenever `d > 0`; two values are the same number when the
/// cross products agree ([`q_eq`]).
pub struct Rational {
    pub n: int,
    pub d: int,
}

/// A well-formed rational has a positive denominator.
pub open spec fn q_wf(a: Rational) -> bool {
    a.d > 0
}

/// `a` and `b` denote the same number: `a.n / a.d == b.n / b.d`,
/// stated without division as equality of cross products.
pub open spec fn q_eq(a: Rational, b: Rational) -> bool {
    a.n * b.d == b.n * a.d
}

/// Exact sum.
pub open spec fn q_add(a: Rational, b: Rational) -> Rational {
    Rational { n: a.n * b.d + b.n * a.d, d: a.d * b.d }
}

/// Exact difference.
pub open spec fn q_sub(a: Rational, b: Rational) -> Rational {
    Rational { n: a.n * b.d - b.n * a.d, d: a.d * b.d }
}

/// Exact product.
pub open spec fn q_mul(a: Rational, b: Rational) -> Rational {
    Rational { n: a.n * b.n, d: a.d * b.d }
}

/// The rational denoting the integer `k`.
pub open spec fn q_int(k: int) -> Rational {
    Rational { n: k, d: 1 }
}

/// Bound on the numerator and denominator of every configured or received
/// scalar. Five such scalars enter one tick's computation, whose widest
/// intermediate product is below `3 * BOUND^5 < i128::MAX`, so the exact
/// arithmetic of a tick cannot overflow.
pub const BOUND: i128 = 33554432;

/// Numerator and denominator are small enough to take part in one tick's
/// arithmetic without overflow.
pub open spec fn q_bounded(a: Rational) -> bool {
    &&& -(BOUND as int) <= a.n <= BOUND as int
    &&& 0 < a.d <= BOUND as int
}

/// An exact rational scalar: `num / den` with `den > 0`.
#[derive(Clone, Copy, PartialEq, Eq, Structural)]
pub struct Rat {
    num: i128,
    den: i128,
}

impl View for Rat {
    type V = Rational;

    closed spec fn view(&self) -> Rational {
        Rational { n: self.num as int, d: self.den as int }
    }
}

impl Rat {
    /// The denominator is positive.
    pub open spec fn wf(self) -> bool {
        q_wf(self@)
    }

    /// Small enough to take part in a tick's arithmetic without overflow.
    pub open spec fn bounded(self) -> bool {
        q_bounded(self@)
    }

    /// The fraction `num / den`.
    pub fn new(num: i128, den: i128) -> (r: Self)
        requires
            den > 0,
        ensures
            r@ == (Rational { n: num as int, d: den as int }),
            r.wf(),
    {
        Rat { num, den }
    }

    /// The rational denoting zero.
    pub fn zero() -> (r: Self)
        ensures
            r@ == q_int(0),
            r.wf(),
            r.bounded(),
    {
        Rat { num: 0, den: 1 }
    }

    /// The rational denoting the integer `k`.
    pub fn from_int(k: i128) -> (r: Self)
        ensures
            r@ == q_int(k as int),
            r.wf(),
    {
        Rat { num: k, den: 1 }
    }

    /// The numerator of the exact representation.
    pub fn num(&self) -> (r: i128)
        ensures
            r as int == self@.n,
    {
        self.num
    }

    /// The denominator of the exact representation.
    pub fn den(&self) -> (r: i128)
        ensures
            r as int == self@.d,
    {
        self.den
    }

    /// Whether `self` and `other` denote the same number.
    pub fn eq_value(&self, other: &Rat) -> (r: bool)
        requires
            self.bounded(),
            other.bounded(),
        ensures
            r == q_eq(self@, other@),
    {
        proof {
            lemma_mul_bound(self@.n, other@.d, BOUND as int, BOUND as int);
            lemma_mul_bound(other@.n, self@.d, BOUND as int, BOUND as int);
        }
        self.num * other.den == other.num * self.den
    }
}

/// A product of values bounded in magnitude is bounded by the product of the
/// bounds.
pub proof fn lemma_mul_bound(x: int, y: int, bx: int, by_bound: int)
    by (nonlinear_arith)
    requires
        -bx <= x <= bx,
        -by_bound <= y <= by_bound,
        0 <= bx,
        0 <= by_bound,
    ensures
        -(bx * by_bound) <= x * y <= bx * by_bound,
{
}

/// A product of positive integers is positive.
pub proof fn lemma_mul_pos(x: int, y: int)
    by (nonlinear_arith)
    requires
        x > 0,
        y > 0,
    ensures
        x * y > 0,
{
}

/// Multiplication is commutative.
pub proof fn lemma_mul_comm(x: int, y: int)
    by (nonlinear_arith)
    ensures
        x * y == y * x,
{
}

/// Regrouping a product of four factors: the two inner pairs may trade their
/// second factors.
pub proof fn lemma_mul_swap(w: int, x: int, y: int, z: int)
    by (nonlinear_arith)
    ensures
        (w * x) * (y * z) == (w * y) * (x * z),
{
}

/// Regrouping a product of four factors: the two middle factors may pair up.
pub proof fn lemma_mul_swap_mid(w: int, x: int, y: int, z: int)
    by (nonlinear_arith)
    ensures
        (w * x) * (y * z) == (x * y) * (w * z),
{
}

/// Multiplication distributes over subtraction on the left.
pub proof fn lemma_mul_distrib_sub(x: int, y: int, z: int)
    by (nonlinear_arith)
    ensures
        x * (y - z) == x * y - x * z,
{
}

/// Multiplication distributes over subtraction on the right.
pub proof fn lemma_mul_distrib_sub_right(x: int, y: int, z: int)
    by (nonlinear_arith)
    ensures
        (x - y) * z == x * z - y * z,
{
}

/// Multiplication distributes over addition on the right.
pub proof fn lemma_mul_distrib_add_right(x: int, y: int, z: int)
    by (nonlinear_arith)
    ensures
        (x + y) * z == x * z + y * z,
{
}

/// `q_eq` is transitive across a middle value with a nonzero denominator.
pub proof fn lemma_q_eq_trans(a: Rational, b: Rational, c: Rational)
    requires
        q_eq(a, b),
        q_eq(b, c),
        b.d != 0,
    ensures
        q_eq(a, c),
{
    assert(a.n * c.d == c.n * a.d) by (nonlinear_arith)
        requires
            a.n * b.d == b.n * a.d,
            b.n * c.d == c.n * b.d,
            b.d != 0,
    ;
}

/// Multiplication distributes over subtraction:
/// `a * b - a * c` equals `a * (b - c)`.
pub proof fn lemma_q_mul_sub_distrib(a: Rational, b: Rational, c: Rational)
    ensures
        q_eq(q_sub(q_mul(a, b), q_mul(a, c)), q_mul(a, q_sub(b, c))),
{
    lemma_mul_swap(a.n, b.n, a.d, c.d);
    lemma_mul_swap(a.n, c.n, a.d, b.d);
    lemma_mul_distrib_sub(a.n * a.d, b.n * c.d, c.n * b.d);
    assert((a.n * b.n) * (a.d * c.d) - (a.n * c.n) * (a.d * b.d) == (a.n * a.d) * (b.n * c.d - c.n
        * b.d));
    lemma_mul_swap(a.d, b.d, a.d, c.d);
    assert((a.d * b.d) * (a.d * c.d) == (a.d * a.d) * (b.d * c.d));
    let sn: int = b.n * c.d - c.n * b.d;
    let sd: int = b.d * c.d;
    assert(((a.n * a.d) * sn) * (a.d * sd) == (a.n * sn) * ((a.d * a.d) * sd))
        by (nonlinear_arith);
}

/// Subtracting two sums with a common addend cancels the addend:
/// `(b + o) - (c + o)` equals `b - c`.
pub proof fn lemma_q_sub_add_common(b: Rational, c: Rational, o: Rational)
    ensures
        q_eq(q_sub(q_add(b, o), q_add(c, o)), q_sub(b, c)),
{
    lemma_mul_distrib_add_right(b.n * o.d, o.n * b.d, c.d * o.d);
    lemma_mul_distrib_add_right(c.n * o.d, o.n * c.d, b.d * o.d);
    lemma_mul_swap_mid(b.n, o.d, o.d, c.d);
    lemma_mul_comm(o.d, c.d);
    lemma_mul_swap_mid(c.n, o.d, o.d, b.d);
    lemma_mul_comm(o.d, b.d);
    lemma_mul_swap(o.n, b.d, c.d, o.d);
    lemma_mul_distrib_sub(o.d * o.d, b.n * c.d, c.n * b.d);
    assert((b.n * o.d + o.n * b.d) * (c.d * o.d) - (c.n * o.d + o.n * c.d) * (b.d * o.d) == (o.d
        * o.d) * (b.n * c.d - c.n * b.d));
    lemma_mul_swap(b.d, o.d, c.d, o.d);
    lemma_mul_comm(b.d * c.d, o.d * o.d);
    assert((b.d * o.d) * (c.d * o.d) == (o.d * o.d) * (b.d * c.d));
    let sn: int = b.n * c.d - c.n * b.d;
    let sd: int = b.d * c.d;
    assert(((o.d * o.d) * sn) * sd == sn * ((o.d * o.d) * sd)) by (nonlinear_arith);
}

/// Subtracting two differences with a common subtrahend cancels it:
/// `(b - q) - (c - q)` equals `b - c`.
pub proof fn lemma_q_sub_common_sub(b: Rational, c: Rational, q: Rational)
    ensures
        q_eq(q_sub(q_sub(b, q), q_sub(c, q)), q_sub(b, c)),
{
    lemma_mul_distrib_sub_right(b.n * q.d, q.n * b.d, c.d * q.d);
    lemma_mul_distrib_sub_right(c.n * q.d, q.n * c.d, b.d * q.d);
    lemma_mul_swap_mid(b.n, q.d, q.d, c.d);
    lemma_mul_comm(q.d, c.d);
    lemma_mul_swap_mid(c.n, q.d, q.d, b.d);
    lemma_mul_comm(q.d, b.d);
    lemma_mul_swap(q.n, b.d, c.d, q.d);
    lemma_mul_distrib_sub(q.d * q.d, b.n * c.d, c.n * b.d);
    assert((b.n * q.d - q.n * b.d) * (c.d * q.d) - (c.n * q.d - q.n * c.d) * (b.d * q.d) == (q.d
        * q.d) * (b.n * c.d - c.n * b.d));
    lemma_mul_swap(b.d, q.d, c.d, q.d);
    lemma_mul_comm(b.d * c.d, q.d * q.d);
    assert((b.d * q.d) * (c.d * q.d) == (q.d * q.d) * (b.d * c.d));
    let sn: int = b.n * c.d - c.n * b.d;
    let sd: int = b.d * c.d;
    assert(((q.d * q.d) * sn) * sd == sn * ((q.d * q.d) * sd)) by (nonlinear_arith);
}

/// Subtracting two differences with a common minuend leaves the opposite
/// difference of the subtrahends: `(a - q1) - (a - q2)` equals `q2 - q1`.
pub proof fn lemma_q_sub_common_minuend(a: Rational, q1: Rational, q2: Rational)
    ensures
        q_eq(q_sub(q_sub(a, q1), q_sub(a, q2)), q_sub(q2, q1)),
{
    lemma_mul_distrib_sub_right(a.n * q1.d, q1.n * a.d, a.d * q2.d);
    lemma_mul_distrib_sub_right(a.n * q2.d, q2.n * a.d, a.d * q1.d);
    lemma_mul_swap(a.n, q1.d, a.d, q2.d);
    lemma_mul_swap(a.n, q2.d, a.d, q1.d);
    lemma_mul_comm(q1.d, q2.d);
    lemma_mul_swap_mid(q1.n, a.d, a.d, q2.d);
    lemma_mul_swap_mid(q2.n, a.d, a.d, q1.d);
    lemma_mul_distrib_sub(a.d * a.d, q2.n * q1.d, q1.n * q2.d);
    assert((a.n * q1.d - q1.n * a.d) * (a.d * q2.d) - (a.n * q2.d - q2.n * a.d) * (a.d * q1.d) == (
    a.d * a.d) * (q2.n * q1.d - q1.n * q2.d));
    lemma_mul_swap(a.d, q1.d, a.d, q2.d);
    assert((a.d * q1.d) * (a.d * q2.d) == (a.d * a.d) * (q2.d * q1.d));
    let sn: int = q2.n * q1.d - q1.n * q2.d;
    let sd: int = q2.d * q1.d;
    assert(((a.d * a.d) * sn) * sd == sn * ((a.d * a.d) * sd)) by (nonlinear_arith);
}

/// Multiplying equal values by the same factor gives equal values.
pub proof fn lemma_q_mul_congruence(a: Rational, x: Rational, y: Rational)
    requires
        q_eq(x, y),
    ensures
        q_eq(q_mul(a, x), q_mul(a, y)),
{
    assert((a.n * x.n) * (a.d * y.d) == (a.n * y.n) * (a.d * x.d)) by (nonlinear_arith)
        requires
            x.n * y.d == y.n * x.d,
    ;
}

/// Multiplication is associative, exactly on representations.
pub proof fn lemma_q_mul_assoc(a: Rational, b: Rational, c: Rational)
    ensures
        q_mul(a, q_mul(b, c)) == q_mul(q_mul(a, b), c),
{
    assert(a.n * (b.n * c.n) == (a.n * b.n) * c.n) by (nonlinear_arith);
    assert(a.d * (b.d * c.d) == (a.d * b.d) * c.d) by (nonlinear_arith);
}

} // verus!
