//! The complex scalar backing every gate-matrix entry.
//!
//! A scalar is kept exactly as `(a + b*sqrt(2)) / d` with signed integer
//! components and a positive denominator. Every value a gate catalog needs
//! (integers, halves, `1/sqrt(2)`) lives in this set, and the set is closed
//! under addition, negation, conjugation and multiplication, so the complex
//! arithmetic below is exact: no rounding, no normalization, no epsilon
//! snapping. Two representations denote the same number exactly when they
//! agree under cross-multiplication (`sv_eqv` / `cv_eqv`).
use vstd::prelude::*;

verus! {

/// Mathematical model of one real scalar: the exact number `(a + b*sqrt(2)) / d`.
pub ghost struct ScalarV {
    pub a: int,
    pub b: int,
    pub d: int,
}

/// A representation is well formed when its denominator is positive.
pub open spec fn sv_wf(x: ScalarV) -> bool {
    x.d >= 1
}

/// The integer `n` as a scalar.
pub open spec fn sv_whole(n: int) -> ScalarV {
    ScalarV { a: n, b: 0, d: 1 }
}

/// `x` and `y` denote the same real number: cross-multiplied components agree.
/// (Since `sqrt(2)` is irrational, equal numbers have equal rational and
/// `sqrt(2)` parts, so comparing the two coordinates separately is exact.)
pub open spec fn sv_eqv(x: ScalarV, y: ScalarV) -> bool {
    x.a * y.d == y.a * x.d && x.b * y.d == y.b * x.d
}

/// Exact sum, on the common denominator.
pub open spec fn sv_add(x: ScalarV, y: ScalarV) -> ScalarV {
    ScalarV { a: x.a * y.d + y.a * x.d, b: x.b * y.d + y.b * x.d, d: x.d * y.d }
}

/// Exact negation.
pub open spec fn sv_neg(x: ScalarV) -> ScalarV {
    ScalarV { a: -x.a, b: -x.b, d: x.d }
}

/// Exact difference.
pub open spec fn sv_sub(x: ScalarV, y: ScalarV) -> ScalarV {
    sv_add(x, sv_neg(y))
}

/// Exact product: `(a1 + b1*sqrt(2))(a2 + b2*sqrt(2)) = a1*a2 + 2*b1*b2 + (a1*b2 + b1*a2)*sqrt(2)`.
pub open spec fn sv_mul(x: ScalarV, y: ScalarV) -> ScalarV {
    ScalarV { a: x.a * y.a + 2 * (x.b * y.b), b: x.a * y.b + x.b * y.a, d: x.d * y.d }
}

/// Mathematical model of one complex scalar.
pub ghost struct CplxV {
    pub re: ScalarV,
    pub im: ScalarV,
}

pub open spec fn cv_wf(x: CplxV) -> bool {
    sv_wf(x.re) && sv_wf(x.im)
}

/// `x` and `y` denote the same complex number.
pub open spec fn cv_eqv(x: CplxV, y: CplxV) -> bool {
    sv_eqv(x.re, y.re) && sv_eqv(x.im, y.im)
}

pub open spec fn cv_zero() -> CplxV {
    CplxV { re: sv_whole(0), im: sv_whole(0) }
}

pub open spec fn cv_one() -> CplxV {
    CplxV { re: sv_whole(1), im: sv_whole(0) }
}

/// Component-wise exact sum.
pub open spec fn cv_add(x: CplxV, y: CplxV) -> CplxV {
    CplxV { re: sv_add(x.re, y.re), im: sv_add(x.im, y.im) }
}

/// Component-wise exact negation.
pub open spec fn cv_neg(x: CplxV) -> CplxV {
    CplxV { re: sv_neg(x.re), im: sv_neg(x.im) }
}

/// Complex conjugate: the imaginary part flips sign.
pub open spec fn cv_conj(x: CplxV) -> CplxV {
    CplxV { re: x.re, im: sv_neg(x.im) }
}

/// Exact complex product `(re1*re2 - im1*im2, re1*im2 + im1*re2)`.
pub open spec fn cv_mul(x: CplxV, y: CplxV) -> CplxV {
    CplxV {
        re: sv_sub(sv_mul(x.re, y.re), sv_mul(x.im, y.im)),
        im: sv_add(sv_mul(x.re, y.im), sv_mul(x.im, y.re)),
    }
}

/// `n` fits the machine integer that carries scalar components.
pub open spec fn in_i64(n: int) -> bool {
    i64::MIN <= n <= i64::MAX
}

/// Every intermediate of the component-wise sum fits the machine integer.
pub open spec fn sv_add_ok(x: ScalarV, y: ScalarV) -> bool {
    &&& in_i64(x.a * y.d)
    &&& in_i64(y.a * x.d)
    &&& in_i64(x.a * y.d + y.a * x.d)
    &&& in_i64(x.b * y.d)
    &&& in_i64(y.b * x.d)
    &&& in_i64(x.b * y.d + y.b * x.d)
    &&& in_i64(x.d * y.d)
}

pub open spec fn sv_neg_ok(x: ScalarV) -> bool {
    in_i64(-x.a) && in_i64(-x.b)
}

pub open spec fn sv_sub_ok(x: ScalarV, y: ScalarV) -> bool {
    sv_neg_ok(y) && sv_add_ok(x, sv_neg(y))
}

/// Every intermediate of the component-wise product fits the machine integer.
pub open spec fn sv_mul_ok(x: ScalarV, y: ScalarV) -> bool {
    &&& in_i64(x.a * y.a)
    &&& in_i64(x.b * y.b)
    &&& in_i64(2 * (x.b * y.b))
    &&& in_i64(x.a * y.a + 2 * (x.b * y.b))
    &&& in_i64(x.a * y.b)
    &&& in_i64(x.b * y.a)
    &&& in_i64(x.a * y.b + x.b * y.a)
    &&& in_i64(x.d * y.d)
}

pub open spec fn cv_add_ok(x: CplxV, y: CplxV) -> bool {
    sv_add_ok(x.re, y.re) && sv_add_ok(x.im, y.im)
}

pub open spec fn cv_neg_ok(x: CplxV) -> bool {
    sv_neg_ok(x.re) && sv_neg_ok(x.im)
}

pub open spec fn cv_conj_ok(x: CplxV) -> bool {
    sv_neg_ok(x.im)
}

pub open spec fn cv_mul_ok(x: CplxV, y: CplxV) -> bool {
    &&& sv_mul_ok(x.re, y.re)
    &&& sv_mul_ok(x.im, y.im)
    &&& sv_mul_ok(x.re, y.im)
    &&& sv_mul_ok(x.im, y.re)
    &&& sv_sub_ok(sv_mul(x.re, y.re), sv_mul(x.im, y.im))
    &&& sv_add_ok(sv_mul(x.re, y.im), sv_mul(x.im, y.re))
}

/// One real scalar, exactly `(a + b*sqrt(2)) / d`.
#[derive(Clone, Copy, Debug, PartialEq, Eq, Structural)]
pub struct Scalar {
    pub a: i64,
    pub b: i64,
    pub d: i64,
}

impl View for Scalar {
    type V = ScalarV;

    open spec fn view(&self) -> ScalarV {
        ScalarV { a: self.a as int, b: self.b as int, d: self.d as int }
    }
}

impl Scalar {
    /// The scalar `(a + b*sqrt(2)) / d`.
    pub fn new(a: i64, b: i64, d: i64) -> (r: Scalar)
        requires
            d >= 1,
        ensures
            r@ == (ScalarV { a: a as int, b: b as int, d: d as int }),
            sv_wf(r@),
    {
        Scalar { a, b, d }
    }

    /// Exact sum.
    pub fn add(self, other: Scalar) -> (r: Scalar)
        requires
            sv_add_ok(self@, other@),
        ensures
            r@ == sv_add(self@, other@),
    {
        Scalar {
            a: self.a * other.d + other.a * self.d,
            b: self.b * other.d + other.b * self.d,
            d: self.d * other.d,
        }
    }

    /// Exact negation.
    pub fn neg(self) -> (r: Scalar)
        requires
            sv_neg_ok(self@),
        ensures
            r@ == sv_neg(self@),
    {
        Scalar { a: -self.a, b: -self.b, d: self.d }
    }

    /// Exact difference.
    pub fn sub(self, other: Scalar) -> (r: Scalar)
        requires
            sv_sub_ok(self@, other@),
        ensures
            r@ == sv_sub(self@, other@),
    {
        self.add(other.neg())
    }

    /// Exact product.
    pub fn mul(self, other: Scalar) -> (r: Scalar)
        requires
            sv_mul_ok(self@, other@),
        ensures
            r@ == sv_mul(self@, other@),
    {
        Scalar {
            a: self.a * other.a + 2 * (self.b * other.b),
            b: self.a * other.b + self.b * other.a,
            d: self.d * other.d,
        }
    }
}

/// One complex scalar: a pair of exact real components.
#[derive(Clone, Copy, Debug, PartialEq, Eq, Structural)]
pub struct Complex {
    pub re: Scalar,
    pub im: Scalar,
}

impl View for Complex {
    type V = CplxV;

    open spec fn view(&self) -> CplxV {
        CplxV { re: self.re@, im: self.im@ }
    }
}

impl Complex {
    /// The complex scalar with the given real and imaginary parts.
    pub fn new(re: Scalar, im: Scalar) -> (r: Complex)
        ensures
            r@ == (CplxV { re: re@, im: im@ }),
    {
        Complex { re, im }
    }

    /// The complex conjugate `(re, -im)`.
    pub fn conj(self) -> (r: Complex)
        requires
            cv_conj_ok(self@),
        ensures
            r@ == cv_conj(self@),
    {
        Complex { re: self.re, im: self.im.neg() }
    }

    /// The negation `(-re, -im)`.
    pub fn neg(self) -> (r: Complex)
        requires
            cv_neg_ok(self@),
        ensures
            r@ == cv_neg(self@),
    {
        Complex { re: self.re.neg(), im: self.im.neg() }
    }

    /// The component-wise sum.
    pub fn add(self, other: Complex) -> (r: Complex)
        requires
            cv_add_ok(self@, other@),
        ensures
            r@ == cv_add(self@, other@),
    {
        Complex { re: self.re.add(other.re), im: self.im.add(other.im) }
    }

    /// The complex product `(re*o.re - im*o.im, re*o.im + im*o.re)`.
    pub fn mul(self, other: Complex) -> (r: Complex)
        requires
            cv_mul_ok(self@, other@),
        ensures
            r@ == cv_mul(self@, other@),
    {
        Complex {
            re: self.re.mul(other.re).sub(self.im.mul(other.im)),
            im: self.re.mul(other.im).add(self.im.mul(other.re)),
        }
    }
}

/// Complex addition is commutative: `a + b == b + a`.
pub proof fn lemma_add_comm(x: CplxV, y: CplxV)
    ensures
        cv_add(x, y) == cv_add(y, x),
{
}

/// Scalar addition is commutative.
pub proof fn lemma_sv_add_comm(x: ScalarV, y: ScalarV)
    ensures
        sv_add(x, y) == sv_add(y, x),
{
    assert(x.a * y.d + y.a * x.d == y.a * x.d + x.a * y.d) by (nonlinear_arith);
    assert(x.b * y.d + y.b * x.d == y.b * x.d + x.b * y.d) by (nonlinear_arith);
    assert(x.d * y.d == y.d * x.d) by (nonlinear_arith);
}

/// Scalar multiplication is commutative.
pub proof fn lemma_sv_mul_comm(x: ScalarV, y: ScalarV)
    ensures
        sv_mul(x, y) == sv_mul(y, x),
{
    assert(x.a * y.a + 2 * (x.b * y.b) == y.a * x.a + 2 * (y.b * x.b)) by (nonlinear_arith);
    assert(x.a * y.b + x.b * y.a == y.a * x.b + y.b * x.a) by (nonlinear_arith);
    assert(x.d * y.d == y.d * x.d) by (nonlinear_arith);
}

/// Complex multiplication is commutative: `a * b == b * a`.
pub proof fn lemma_mul_comm(x: CplxV, y: CplxV)
    ensures
        cv_mul(x, y) == cv_mul(y, x),
{
    lemma_sv_mul_comm(x.re, y.re);
    lemma_sv_mul_comm(x.im, y.im);
    lemma_sv_mul_comm(x.re, y.im);
    lemma_sv_mul_comm(x.im, y.re);
    lemma_sv_add_comm(sv_mul(x.re, y.im), sv_mul(x.im, y.re));
}

/// Conjugation is an involution: `conj(conj(a)) == a`.
pub proof fn lemma_conj_involutive(x: CplxV)
    ensures
        cv_conj(cv_conj(x)) == x,
{
}

/// Negation is an involution: `neg(neg(a)) == a`.
pub proof fn lemma_neg_involutive(x: CplxV)
    ensures
        cv_neg(cv_neg(x)) == x,
{
}

/// `v` denotes the complex number zero: both numerators of both components
/// vanish, whatever the denominators.
pub open spec fn cv_zeroish(v: CplxV) -> bool {
    v.re.a == 0 && v.re.b == 0 && v.im.a == 0 && v.im.b == 0 && cv_wf(v)
}

/// Denoting the same number is transitive.
pub proof fn lemma_eqv_trans(x: CplxV, y: CplxV, z: CplxV)
    requires
        cv_wf(x),
        cv_wf(y),
        cv_wf(z),
        cv_eqv(x, y),
        cv_eqv(y, z),
    ensures
        cv_eqv(x, z),
{
    assert(x.re.a * z.re.d == z.re.a * x.re.d) by (nonlinear_arith)
        requires
            x.re.a * y.re.d == y.re.a * x.re.d,
            y.re.a * z.re.d == z.re.a * y.re.d,
            y.re.d >= 1;
    assert(x.re.b * z.re.d == z.re.b * x.re.d) by (nonlinear_arith)
        requires
            x.re.b * y.re.d == y.re.b * x.re.d,
            y.re.b * z.re.d == z.re.b * y.re.d,
            y.re.d >= 1;
    assert(x.im.a * z.im.d == z.im.a * x.im.d) by (nonlinear_arith)
        requires
            x.im.a * y.im.d == y.im.a * x.im.d,
            y.im.a * z.im.d == z.im.a * y.im.d,
            y.im.d >= 1;
    assert(x.im.b * z.im.d == z.im.b * x.im.d) by (nonlinear_arith)
        requires
            x.im.b * y.im.d == y.im.b * x.im.d,
            y.im.b * z.im.d == z.im.b * y.im.d,
            y.im.d >= 1;
}

/// The zero representation itself denotes zero.
pub proof fn lemma_zero_zeroish()
    ensures
        cv_zeroish(cv_zero()),
        cv_wf(cv_zero()),
        cv_wf(cv_one()),
{
}

/// Whatever denotes zero equals zero under `cv_eqv`.
pub proof fn lemma_zeroish_eqv_zero(z: CplxV)
    requires
        cv_zeroish(z),
    ensures
        cv_eqv(z, cv_zero()),
{
    assert(z.re.a * 1 == 0 * z.re.d) by (nonlinear_arith)
        requires
            z.re.a == 0;
    assert(z.re.b * 1 == 0 * z.re.d) by (nonlinear_arith)
        requires
            z.re.b == 0;
    assert(z.im.a * 1 == 0 * z.im.d) by (nonlinear_arith)
        requires
            z.im.a == 0;
    assert(z.im.b * 1 == 0 * z.im.d) by (nonlinear_arith)
        requires
            z.im.b == 0;
}

/// Adding two representations of zero yields a representation of zero.
pub proof fn lemma_add_zeroish_zeroish(x: CplxV, y: CplxV)
    requires
        cv_zeroish(x),
        cv_zeroish(y),
    ensures
        cv_zeroish(cv_add(x, y)),
{
    assert(x.re.a * y.re.d + y.re.a * x.re.d == 0) by (nonlinear_arith)
        requires
            x.re.a == 0,
            y.re.a == 0;
    assert(x.re.b * y.re.d + y.re.b * x.re.d == 0) by (nonlinear_arith)
        requires
            x.re.b == 0,
            y.re.b == 0;
    assert(x.im.a * y.im.d + y.im.a * x.im.d == 0) by (nonlinear_arith)
        requires
            x.im.a == 0,
            y.im.a == 0;
    assert(x.im.b * y.im.d + y.im.b * x.im.d == 0) by (nonlinear_arith)
        requires
            x.im.b == 0,
            y.im.b == 0;
    assert(x.re.d * y.re.d >= 1) by (nonlinear_arith)
        requires
            x.re.d >= 1,
            y.re.d >= 1;
    assert(x.im.d * y.im.d >= 1) by (nonlinear_arith)
        requires
            x.im.d >= 1,
            y.im.d >= 1;
}

/// Adding a representation of zero on the left leaves the value unchanged.
pub proof fn lemma_add_zeroish_left(z: CplxV, x: CplxV)
    requires
        cv_zeroish(z),
        cv_wf(x),
    ensures
        cv_eqv(cv_add(z, x), x),
        cv_wf(cv_add(z, x)),
{
    assert((z.re.a * x.re.d + x.re.a * z.re.d) * x.re.d == x.re.a * (z.re.d * x.re.d))
        by (nonlinear_arith)
        requires
            z.re.a == 0;
    assert((z.re.b * x.re.d + x.re.b * z.re.d) * x.re.d == x.re.b * (z.re.d * x.re.d))
        by (nonlinear_arith)
        requires
            z.re.b == 0;
    assert((z.im.a * x.im.d + x.im.a * z.im.d) * x.im.d == x.im.a * (z.im.d * x.im.d))
        by (nonlinear_arith)
        requires
            z.im.a == 0;
    assert((z.im.b * x.im.d + x.im.b * z.im.d) * x.im.d == x.im.b * (z.im.d * x.im.d))
        by (nonlinear_arith)
        requires
            z.im.b == 0;
    assert(z.re.d * x.re.d >= 1) by (nonlinear_arith)
        requires
            z.re.d >= 1,
            x.re.d >= 1;
    assert(z.im.d * x.im.d >= 1) by (nonlinear_arith)
        requires
            z.im.d >= 1,
            x.im.d >= 1;
}

/// Adding a representation of zero on the right leaves the value unchanged.
pub proof fn lemma_add_zeroish_right(x: CplxV, z: CplxV)
    requires
        cv_wf(x),
        cv_zeroish(z),
    ensures
        cv_eqv(cv_add(x, z), x),
        cv_wf(cv_add(x, z)),
{
    assert((x.re.a * z.re.d + z.re.a * x.re.d) * x.re.d == x.re.a * (x.re.d * z.re.d))
        by (nonlinear_arith)
        requires
            z.re.a == 0;
    assert((x.re.b * z.re.d + z.re.b * x.re.d) * x.re.d == x.re.b * (x.re.d * z.re.d))
        by (nonlinear_arith)
        requires
            z.re.b == 0;
    assert((x.im.a * z.im.d + z.im.a * x.im.d) * x.im.d == x.im.a * (x.im.d * z.im.d))
        by (nonlinear_arith)
        requires
            z.im.a == 0;
    assert((x.im.b * z.im.d + z.im.b * x.im.d) * x.im.d == x.im.b * (x.im.d * z.im.d))
        by (nonlinear_arith)
        requires
            z.im.b == 0;
    assert(x.re.d * z.re.d >= 1) by (nonlinear_arith)
        requires
            z.re.d >= 1,
            x.re.d >= 1;
    assert(x.im.d * z.im.d >= 1) by (nonlinear_arith)
        requires
            z.im.d >= 1,
            x.im.d >= 1;
}

/// A product with a representation of zero on the left denotes zero.
pub proof fn lemma_mul_zeroish_left(z: CplxV, y: CplxV)
    requires
        cv_zeroish(z),
        cv_wf(y),
    ensures
        cv_zeroish(cv_mul(z, y)),
{
    assert(z.re.a * y.re.a + 2 * (z.re.b * y.re.b) == 0) by (nonlinear_arith)
        requires
            z.re.a == 0,
            z.re.b == 0;
    assert(z.re.a * y.re.b + z.re.b * y.re.a == 0) by (nonlinear_arith)
        requires
            z.re.a == 0,
            z.re.b == 0;
    assert(z.im.a * (-y.im.a) + 2 * (z.im.b * (-y.im.b)) == 0) by (nonlinear_arith)
        requires
            z.im.a == 0,
            z.im.b == 0;
    assert(z.im.a * (-y.im.b) + z.im.b * (-y.im.a) == 0) by (nonlinear_arith)
        requires
            z.im.a == 0,
            z.im.b == 0;
    assert(z.im.a * y.im.a + 2 * (z.im.b * y.im.b) == 0) by (nonlinear_arith)
        requires
            z.im.a == 0,
            z.im.b == 0;
    assert(z.im.a * y.im.b + z.im.b * y.im.a == 0) by (nonlinear_arith)
        requires
            z.im.a == 0,
            z.im.b == 0;
    assert(z.re.a * y.im.a + 2 * (z.re.b * y.im.b) == 0) by (nonlinear_arith)
        requires
            z.re.a == 0,
            z.re.b == 0;
    assert(z.re.a * y.im.b + z.re.b * y.im.a == 0) by (nonlinear_arith)
        requires
            z.re.a == 0,
            z.re.b == 0;
    assert(z.im.a * y.re.a + 2 * (z.im.b * y.re.b) == 0) by (nonlinear_arith)
        requires
            z.im.a == 0,
            z.im.b == 0;
    assert(z.im.a * y.re.b + z.im.b * y.re.a == 0) by (nonlinear_arith)
        requires
            z.im.a == 0,
            z.im.b == 0;
    let p = sv_mul(z.re, y.re);
    let q = sv_mul(z.im, y.im);
    assert(p.a * q.d + (-q.a) * p.d == 0) by (nonlinear_arith)
        requires
            p.a == 0,
            q.a == 0;
    assert(p.b * q.d + (-q.b) * p.d == 0) by (nonlinear_arith)
        requires
            p.b == 0,
            q.b == 0;
    let r = sv_mul(z.re, y.im);
    let s = sv_mul(z.im, y.re);
    assert(r.a * s.d + s.a * r.d == 0) by (nonlinear_arith)
        requires
            r.a == 0,
            s.a == 0;
    assert(r.b * s.d + s.b * r.d == 0) by (nonlinear_arith)
        requires
            r.b == 0,
            s.b == 0;
    assert(p.d >= 1 && q.d >= 1 && r.d >= 1 && s.d >= 1) by (nonlinear_arith)
        requires
            z.re.d >= 1,
            z.im.d >= 1,
            y.re.d >= 1,
            y.im.d >= 1,
            p.d == z.re.d * y.re.d,
            q.d == z.im.d * y.im.d,
            r.d == z.re.d * y.im.d,
            s.d == z.im.d * y.re.d;
    assert(p.d * q.d >= 1) by (nonlinear_arith)
        requires
            p.d >= 1,
            q.d >= 1;
    assert(r.d * s.d >= 1) by (nonlinear_arith)
        requires
            r.d >= 1,
            s.d >= 1;
}

/// A product with a representation of zero on the right denotes zero.
pub proof fn lemma_mul_zeroish_right(x: CplxV, z: CplxV)
    requires
        cv_wf(x),
        cv_zeroish(z),
    ensures
        cv_zeroish(cv_mul(x, z)),
{
    lemma_mul_comm(x, z);
    lemma_mul_zeroish_left(z, x);
}

/// A well-formed product of well-formed scalars.
pub proof fn lemma_mul_wf(x: CplxV, y: CplxV)
    requires
        cv_wf(x),
        cv_wf(y),
    ensures
        cv_wf(cv_mul(x, y)),
{
    assert((x.re.d * y.re.d) * (x.im.d * y.im.d) >= 1) by (nonlinear_arith)
        requires
            x.re.d >= 1,
            x.im.d >= 1,
            y.re.d >= 1,
            y.im.d >= 1;
    assert((x.re.d * y.im.d) * (x.im.d * y.re.d) >= 1) by (nonlinear_arith)
        requires
            x.re.d >= 1,
            x.im.d >= 1,
            y.re.d >= 1,
            y.im.d >= 1;
}

/// Conjugation keeps well-formedness, and the conjugate of a representation
/// of zero denotes zero.
pub proof fn lemma_conj_wf(x: CplxV)
    requires
        cv_wf(x),
    ensures
        cv_wf(cv_conj(x)),
        cv_zeroish(x) ==> cv_zeroish(cv_conj(x)),
{
}

/// A scalar of unit modulus times its own conjugate denotes one. The
/// hypothesis is the norm equation `(a/dr)^2 + (c/di)^2 == 1`, cross
/// multiplied, for a scalar with no `sqrt(2)` part.
pub proof fn lemma_unit_norm(u: CplxV)
    requires
        cv_wf(u),
        u.re.b == 0,
        u.im.b == 0,
        (u.re.a * u.re.a) * (u.im.d * u.im.d) + (u.im.a * u.im.a) * (u.re.d * u.re.d) == (u.re.d
            * u.re.d) * (u.im.d * u.im.d),
    ensures
        cv_eqv(cv_mul(u, cv_conj(u)), cv_one()),
        cv_wf(cv_mul(u, cv_conj(u))),
{
    lemma_mul_wf(u, cv_conj(u));
    let m = cv_mul(u, cv_conj(u));
    let p = sv_mul(u.re, u.re);
    let q = sv_mul(u.im, sv_neg(u.im));
    assert(m.re.a * 1 == 1 * m.re.d) by (nonlinear_arith)
        requires
            m.re.a == p.a * q.d + (-q.a) * p.d,
            m.re.d == p.d * q.d,
            p.a == u.re.a * u.re.a + 2 * (u.re.b * u.re.b),
            q.a == u.im.a * (-u.im.a) + 2 * (u.im.b * (-u.im.b)),
            p.d == u.re.d * u.re.d,
            q.d == u.im.d * u.im.d,
            u.re.b == 0,
            u.im.b == 0,
            (u.re.a * u.re.a) * (u.im.d * u.im.d) + (u.im.a * u.im.a) * (u.re.d * u.re.d) == (
            u.re.d * u.re.d) * (u.im.d * u.im.d);
    assert(m.re.b * 1 == 0 * m.re.d) by (nonlinear_arith)
        requires
            m.re.b == p.b * q.d + (-q.b) * p.d,
            p.b == u.re.a * u.re.b + u.re.b * u.re.a,
            q.b == u.im.a * (-u.im.b) + u.im.b * (-u.im.a),
            u.re.b == 0,
            u.im.b == 0;
    let r = sv_mul(u.re, sv_neg(u.im));
    let s = sv_mul(u.im, u.re);
    assert(m.im.a * 1 == 0 * m.im.d) by (nonlinear_arith)
        requires
            m.im.a == r.a * s.d + s.a * r.d,
            r.a == u.re.a * (-u.im.a) + 2 * (u.re.b * (-u.im.b)),
            s.a == u.im.a * u.re.a + 2 * (u.im.b * u.re.b),
            r.d == u.re.d * u.im.d,
            s.d == u.im.d * u.re.d,
            u.re.b == 0,
            u.im.b == 0;
    assert(m.im.b * 1 == 0 * m.im.d) by (nonlinear_arith)
        requires
            m.im.b == r.b * s.d + s.b * r.d,
            r.b == u.re.a * (-u.im.b) + u.re.b * (-u.im.a),
            s.b == u.im.a * u.re.b + u.im.b * u.re.a,
            u.re.b == 0,
            u.im.b == 0;
}

/// One times its own conjugate denotes one.
pub proof fn lemma_one_unit()
    ensures
        cv_eqv(cv_mul(cv_one(), cv_conj(cv_one())), cv_one()),
        cv_wf(cv_mul(cv_one(), cv_conj(cv_one()))),
{
    assert((cv_one().re.a * cv_one().re.a) * (cv_one().im.d * cv_one().im.d) + (cv_one().im.a
        * cv_one().im.a) * (cv_one().re.d * cv_one().re.d) == (cv_one().re.d * cv_one().re.d) * (
    cv_one().im.d * cv_one().im.d)) by (nonlinear_arith)
        requires
            cv_one().re.a == 1,
            cv_one().im.a == 0,
            cv_one().re.d == 1,
            cv_one().im.d == 1;
    lemma_unit_norm(cv_one());
}

/// Cross-multiplied equality survives adding the same value: the core ring
/// identity behind `lemma_add_eqv_left`, over one coordinate.
proof fn lemma_cross_add(xa: int, ya: int, xd: int, yd: int, x2a: int, x2d: int)
    requires
        xa * x2d == x2a * xd,
    ensures
        (xa * yd + ya * xd) * (x2d * yd) == (x2a * yd + ya * x2d) * (xd * yd),
{
    vstd::arithmetic::mul::lemma_mul_is_distributive_add_other_way(x2d * yd, xa * yd, ya * xd);
    vstd::arithmetic::mul::lemma_mul_is_distributive_add_other_way(xd * yd, x2a * yd, ya * x2d);
    assert((xa * yd) * (x2d * yd) == (xa * x2d) * (yd * yd)) by (nonlinear_arith);
    assert((ya * xd) * (x2d * yd) == (ya * yd) * (xd * x2d)) by (nonlinear_arith);
    assert((x2a * yd) * (xd * yd) == (x2a * xd) * (yd * yd)) by (nonlinear_arith);
    assert((ya * x2d) * (xd * yd) == (ya * yd) * (xd * x2d)) by (nonlinear_arith);
}

/// Replacing the left operand of an addition by one denoting the same value
/// keeps the value of the sum.
pub proof fn lemma_add_eqv_left(x: CplxV, x2: CplxV, y: CplxV)
    requires
        cv_wf(x),
        cv_wf(x2),
        cv_wf(y),
        cv_eqv(x, x2),
    ensures
        cv_eqv(cv_add(x, y), cv_add(x2, y)),
        cv_wf(cv_add(x, y)),
        cv_wf(cv_add(x2, y)),
{
    lemma_cross_add(x.re.a, y.re.a, x.re.d, y.re.d, x2.re.a, x2.re.d);
    lemma_cross_add(x.re.b, y.re.b, x.re.d, y.re.d, x2.re.b, x2.re.d);
    lemma_cross_add(x.im.a, y.im.a, x.im.d, y.im.d, x2.im.a, x2.im.d);
    lemma_cross_add(x.im.b, y.im.b, x.im.d, y.im.d, x2.im.b, x2.im.d);
    assert(x.re.d * y.re.d >= 1 && x.im.d * y.im.d >= 1 && x2.re.d * y.re.d >= 1 && x2.im.d
        * y.im.d >= 1) by (nonlinear_arith)
        requires
            x.re.d >= 1,
            x.im.d >= 1,
            x2.re.d >= 1,
            x2.im.d >= 1,
            y.re.d >= 1,
            y.im.d >= 1;
}

} // verus!
