//! The single-qubit gate catalog: each constructor returns the canonical
//! 2x2 matrix of the named gate, and its entries are pinned exactly by the
//! contract. Unitarity of each catalog matrix is proved below over the exact
//! complex field.
use vstd::prelude::*;

use crate::Qubit;
use crate::catalog::{
    CatalogGate, cat_entry, cat_gram, cat_mm, lemma_gram_bridge, lemma_mm_bridge, lemma_perm_gram,
    perm_ok, perm_shape,
};
use crate::complex::{
    Complex, CplxV, Scalar, ScalarV, cv_add, cv_conj, cv_eqv, cv_mul, cv_one, cv_wf, cv_zero,
    cv_zeroish, lemma_add_eqv_left, lemma_add_zeroish_left, lemma_add_zeroish_right,
    lemma_add_zeroish_zeroish, lemma_conj_wf, lemma_eqv_trans, lemma_mul_wf,
    lemma_mul_zeroish_left, lemma_mul_zeroish_right, lemma_one_unit, lemma_unit_norm,
    lemma_zero_zeroish, lemma_zeroish_eqv_zero, sv_whole,
};
use crate::matrix::{
    gram_sum, ident_entry, identity_v, mat_mul_is, mat_view, mat_wf, mm_sum, unitary,
};

verus! {

/// A quantum gate on one qubit, as its 2x2 matrix.
pub struct SingleGate {
    pub matrix: Vec<Vec<Complex>>,
}

/// The capability an external state representation offers: apply a 2x2
/// unitary to the two-dimensional subspace addressed by `qubit`, leaving the
/// rest of the register's entanglement structure consistent (conceptually the
/// tensor product with the identity on every other position). The contract
/// prescribes only the matrix shape; error reporting for bad qubit references
/// is the implementer's own policy.
pub trait SingleGateApplicator {
    fn apply_single(&mut self, matrix: &Vec<Vec<Complex>>, qubit: &Qubit)
        requires
            mat_wf(mat_view(*matrix), 2),
    ;
}

/// `1/sqrt(2)`, written `sqrt(2)/2`.
pub open spec fn sv_half_rt2() -> ScalarV {
    ScalarV { a: 0, b: 1, d: 2 }
}

/// One half.
pub open spec fn sv_half() -> ScalarV {
    ScalarV { a: 1, b: 0, d: 2 }
}

/// Entry `(i, j)` of the Hadamard matrix: `1/sqrt(2)` everywhere, negated at `(1, 1)`.
pub open spec fn h_entry(i: int, j: int) -> CplxV {
    if i == 1 && j == 1 {
        CplxV { re: ScalarV { a: 0, b: -1, d: 2 }, im: sv_whole(0) }
    } else {
        CplxV { re: sv_half_rt2(), im: sv_whole(0) }
    }
}

pub open spec fn h_v() -> Seq<Seq<CplxV>> {
    Seq::new(2, |i: int| Seq::new(2, |j: int| h_entry(i, j)))
}

/// Entry `(i, j)` of Pauli-X: the identity with its rows exchanged.
pub open spec fn x_entry(i: int, j: int) -> CplxV {
    ident_entry(1 - i, j)
}

pub open spec fn x_v() -> Seq<Seq<CplxV>> {
    Seq::new(2, |i: int| Seq::new(2, |j: int| x_entry(i, j)))
}

/// Entry `(i, j)` of Pauli-Y: `-i` at `(0, 1)` and `i` at `(1, 0)`.
pub open spec fn y_entry(i: int, j: int) -> CplxV {
    if i == 0 && j == 1 {
        CplxV { re: sv_whole(0), im: sv_whole(-1) }
    } else if i == 1 && j == 0 {
        CplxV { re: sv_whole(0), im: sv_whole(1) }
    } else {
        cv_zero()
    }
}

pub open spec fn y_v() -> Seq<Seq<CplxV>> {
    Seq::new(2, |i: int| Seq::new(2, |j: int| y_entry(i, j)))
}

/// Entry `(i, j)` of Pauli-Z: diagonal `1, -1`.
pub open spec fn z_entry(i: int, j: int) -> CplxV {
    if i == 1 && j == 1 {
        CplxV { re: sv_whole(-1), im: sv_whole(0) }
    } else {
        ident_entry(i, j)
    }
}

pub open spec fn z_v() -> Seq<Seq<CplxV>> {
    Seq::new(2, |i: int| Seq::new(2, |j: int| z_entry(i, j)))
}

/// Entry `(i, j)` of the SQNOT matrix: both rows are `[1/2 + i/2, 1/2 - i/2]`.
pub open spec fn sqnot_entry(i: int, j: int) -> CplxV {
    if j == 0 {
        CplxV { re: sv_half(), im: sv_half() }
    } else {
        CplxV { re: sv_half(), im: ScalarV { a: -1, b: 0, d: 2 } }
    }
}

pub open spec fn sqnot_v() -> Seq<Seq<CplxV>> {
    Seq::new(2, |i: int| Seq::new(2, |j: int| sqnot_entry(i, j)))
}

/// Entry `(i, j)` of the phase-shift matrix: the identity with `z` in place
/// of the lower-right `1`. A caller supplies `z == cos(phi) + i*sin(phi)`.
pub open spec fn phase_entry(z: CplxV, i: int, j: int) -> CplxV {
    if i == 1 && j == 1 {
        z
    } else {
        ident_entry(i, j)
    }
}

pub open spec fn phase_v(z: CplxV) -> Seq<Seq<CplxV>> {
    Seq::new(2, |i: int| Seq::new(2, |j: int| phase_entry(z, i, j)))
}

impl SingleGate {
    /// The Hadamard gate `[[s, s], [s, -s]]` with `s = 1/sqrt(2)`.
    pub fn h() -> (g: SingleGate)
        ensures
            mat_view(g.matrix) == h_v(),
    {
        let zr = Scalar::new(0, 0, 1);
        let s = Complex::new(Scalar::new(0, 1, 2), zr);
        let sn = Complex::new(Scalar::new(0, -1, 2), zr);
        let m = vec![vec![s, s], vec![s, sn]];
        proof {
            assert(mat_view(m) =~~= h_v());
        }
        SingleGate { matrix: m }
    }

    /// The Pauli-X (NOT) gate `[[0, 1], [1, 0]]`.
    pub fn x() -> (g: SingleGate)
        ensures
            mat_view(g.matrix) == x_v(),
    {
        let zr = Scalar::new(0, 0, 1);
        let z0 = Complex::new(zr, zr);
        let o = Complex::new(Scalar::new(1, 0, 1), zr);
        let m = vec![vec![z0, o], vec![o, z0]];
        proof {
            assert(mat_view(m) =~~= x_v());
        }
        SingleGate { matrix: m }
    }

    /// The Pauli-Y gate `[[0, -i], [i, 0]]`.
    pub fn y() -> (g: SingleGate)
        ensures
            mat_view(g.matrix) == y_v(),
    {
        let zr = Scalar::new(0, 0, 1);
        let z0 = Complex::new(zr, zr);
        let mi = Complex::new(zr, Scalar::new(-1, 0, 1));
        let pi_ = Complex::new(zr, Scalar::new(1, 0, 1));
        let m = vec![vec![z0, mi], vec![pi_, z0]];
        proof {
            assert(mat_view(m) =~~= y_v());
        }
        SingleGate { matrix: m }
    }

    /// The Pauli-Z gate `[[1, 0], [0, -1]]`.
    pub fn z() -> (g: SingleGate)
        ensures
            mat_view(g.matrix) == z_v(),
    {
        let zr = Scalar::new(0, 0, 1);
        let z0 = Complex::new(zr, zr);
        let o = Complex::new(Scalar::new(1, 0, 1), zr);
        let no = Complex::new(Scalar::new(-1, 0, 1), zr);
        let m = vec![vec![o, z0], vec![z0, no]];
        proof {
            assert(mat_view(m) =~~= z_v());
        }
        SingleGate { matrix: m }
    }

    /// The identity gate `[[1, 0], [0, 1]]`.
    pub fn id() -> (g: SingleGate)
        ensures
            mat_view(g.matrix) == identity_v(2),
    {
        let zr = Scalar::new(0, 0, 1);
        let z0 = Complex::new(zr, zr);
        let o = Complex::new(Scalar::new(1, 0, 1), zr);
        let m = vec![vec![o, z0], vec![z0, o]];
        proof {
            assert(mat_view(m) =~~= identity_v(2));
        }
        SingleGate { matrix: m }
    }

    /// The SQNOT gate, both rows `[1/2 + i/2, 1/2 - i/2]`.
    pub fn sqnot() -> (g: SingleGate)
        ensures
            mat_view(g.matrix) == sqnot_v(),
    {
        let half = Scalar::new(1, 0, 2);
        let nhalf = Scalar::new(-1, 0, 2);
        let p = Complex::new(half, half);
        let q = Complex::new(half, nhalf);
        let m = vec![vec![p, q], vec![p, q]];
        proof {
            assert(mat_view(m) =~~= sqnot_v());
        }
        SingleGate { matrix: m }
    }

    /// The phase-shift gate `[[1, 0], [0, z]]`. The caller passes
    /// `z == cos(phi) + i*sin(phi)` for the desired angle `phi`; any complex
    /// value is accepted unconditionally, as the angle itself would be.
    pub fn phase(z: Complex) -> (g: SingleGate)
        ensures
            mat_view(g.matrix) == phase_v(z@),
    {
        let zr = Scalar::new(0, 0, 1);
        let z0 = Complex::new(zr, zr);
        let o = Complex::new(Scalar::new(1, 0, 1), zr);
        let m = vec![vec![o, z0], vec![z0, z]];
        proof {
            assert(mat_view(m) =~~= phase_v(z@));
        }
        SingleGate { matrix: m }
    }
}


proof fn h_gram_case_0_0()
    ensures
        cv_eqv(cat_gram(CatalogGate::Hadamard, 0, 0, 2), ident_entry(0, 0)),
{
    reveal_with_fuel(cat_gram, 3);
    lemma_zero_zeroish();
    assert(cat_gram(CatalogGate::Hadamard, 0, 0, 0) == cv_zero());
    assert(cv_zeroish(cat_gram(CatalogGate::Hadamard, 0, 0, 0)));
    assert(cat_gram(CatalogGate::Hadamard, 0, 0, 1) == cv_add(cat_gram(CatalogGate::Hadamard, 0, 0, 0), cv_mul(cat_entry(CatalogGate::Hadamard, 0, 0), cv_conj(cat_entry(CatalogGate::Hadamard, 0, 0)))));
    assert(cv_wf(cat_entry(CatalogGate::Hadamard, 0, 0)));
    assert(cv_wf(cat_entry(CatalogGate::Hadamard, 0, 0)));
    lemma_conj_wf(cat_entry(CatalogGate::Hadamard, 0, 0));
    lemma_mul_wf(cat_entry(CatalogGate::Hadamard, 0, 0), cv_conj(cat_entry(CatalogGate::Hadamard, 0, 0)));
    lemma_add_zeroish_left(cat_gram(CatalogGate::Hadamard, 0, 0, 0), cv_mul(cat_entry(CatalogGate::Hadamard, 0, 0), cv_conj(cat_entry(CatalogGate::Hadamard, 0, 0))));
    assert(cat_gram(CatalogGate::Hadamard, 0, 0, 2) == cv_add(cat_gram(CatalogGate::Hadamard, 0, 0, 1), cv_mul(cat_entry(CatalogGate::Hadamard, 0, 1), cv_conj(cat_entry(CatalogGate::Hadamard, 0, 1)))));
    assert(cv_wf(cat_entry(CatalogGate::Hadamard, 0, 1)));
    assert(cv_wf(cat_entry(CatalogGate::Hadamard, 0, 1)));
    lemma_conj_wf(cat_entry(CatalogGate::Hadamard, 0, 1));
    lemma_mul_wf(cat_entry(CatalogGate::Hadamard, 0, 1), cv_conj(cat_entry(CatalogGate::Hadamard, 0, 1)));
    lemma_add_eqv_left(cat_gram(CatalogGate::Hadamard, 0, 0, 1), cv_mul(cat_entry(CatalogGate::Hadamard, 0, 0), cv_conj(cat_entry(CatalogGate::Hadamard, 0, 0))), cv_mul(cat_entry(CatalogGate::Hadamard, 0, 1), cv_conj(cat_entry(CatalogGate::Hadamard, 0, 1))));
    lemma_eqv_trans(cat_gram(CatalogGate::Hadamard, 0, 0, 2), cv_add(cat_gram(CatalogGate::Hadamard, 0, 0, 1), cv_mul(cat_entry(CatalogGate::Hadamard, 0, 1), cv_conj(cat_entry(CatalogGate::Hadamard, 0, 1)))), cv_add(cv_mul(cat_entry(CatalogGate::Hadamard, 0, 0), cv_conj(cat_entry(CatalogGate::Hadamard, 0, 0))), cv_mul(cat_entry(CatalogGate::Hadamard, 0, 1), cv_conj(cat_entry(CatalogGate::Hadamard, 0, 1)))));
    assert((cv_add(cv_mul(cat_entry(CatalogGate::Hadamard, 0, 0), cv_conj(cat_entry(CatalogGate::Hadamard, 0, 0))), cv_mul(cat_entry(CatalogGate::Hadamard, 0, 1), cv_conj(cat_entry(CatalogGate::Hadamard, 0, 1))))).re.a == (((0) * (0) + 2 * ((1) * (1))) * ((1) * (1)) + (-((0) * (-(0)) + 2 * ((0) * (-(0))))) * ((2) * (2))) * (((2) * (2)) * ((1) * (1))) + (((0) * (0) + 2 * ((1) * (1))) * ((1) * (1)) + (-((0) * (-(0)) + 2 * ((0) * (-(0))))) * ((2) * (2))) * (((2) * (2)) * ((1) * (1))));
    assert(((((0) * (0) + 2 * ((1) * (1))) * ((1) * (1)) + (-((0) * (-(0)) + 2 * ((0) * (-(0))))) * ((2) * (2))) * (((2) * (2)) * ((1) * (1))) + (((0) * (0) + 2 * ((1) * (1))) * ((1) * (1)) + (-((0) * (-(0)) + 2 * ((0) * (-(0))))) * ((2) * (2))) * (((2) * (2)) * ((1) * (1)))) == 16) by (nonlinear_arith);
    assert((cv_add(cv_mul(cat_entry(CatalogGate::Hadamard, 0, 0), cv_conj(cat_entry(CatalogGate::Hadamard, 0, 0))), cv_mul(cat_entry(CatalogGate::Hadamard, 0, 1), cv_conj(cat_entry(CatalogGate::Hadamard, 0, 1))))).re.b == (((0) * (1) + (1) * (0)) * ((1) * (1)) + (-((0) * (-(0)) + (0) * (-(0)))) * ((2) * (2))) * (((2) * (2)) * ((1) * (1))) + (((0) * (1) + (1) * (0)) * ((1) * (1)) + (-((0) * (-(0)) + (0) * (-(0)))) * ((2) * (2))) * (((2) * (2)) * ((1) * (1))));
    assert(((((0) * (1) + (1) * (0)) * ((1) * (1)) + (-((0) * (-(0)) + (0) * (-(0)))) * ((2) * (2))) * (((2) * (2)) * ((1) * (1))) + (((0) * (1) + (1) * (0)) * ((1) * (1)) + (-((0) * (-(0)) + (0) * (-(0)))) * ((2) * (2))) * (((2) * (2)) * ((1) * (1)))) == 0) by (nonlinear_arith);
    assert((cv_add(cv_mul(cat_entry(CatalogGate::Hadamard, 0, 0), cv_conj(cat_entry(CatalogGate::Hadamard, 0, 0))), cv_mul(cat_entry(CatalogGate::Hadamard, 0, 1), cv_conj(cat_entry(CatalogGate::Hadamard, 0, 1))))).re.d == (((2) * (2)) * ((1) * (1))) * (((2) * (2)) * ((1) * (1))));
    assert(((((2) * (2)) * ((1) * (1))) * (((2) * (2)) * ((1) * (1)))) == 16) by (nonlinear_arith);
    assert((cv_add(cv_mul(cat_entry(CatalogGate::Hadamard, 0, 0), cv_conj(cat_entry(CatalogGate::Hadamard, 0, 0))), cv_mul(cat_entry(CatalogGate::Hadamard, 0, 1), cv_conj(cat_entry(CatalogGate::Hadamard, 0, 1))))).im.a == (((0) * (-(0)) + 2 * ((1) * (-(0)))) * ((1) * (2)) + ((0) * (0) + 2 * ((0) * (1))) * ((2) * (1))) * (((2) * (1)) * ((1) * (2))) + (((0) * (-(0)) + 2 * ((1) * (-(0)))) * ((1) * (2)) + ((0) * (0) + 2 * ((0) * (1))) * ((2) * (1))) * (((2) * (1)) * ((1) * (2))));
    assert(((((0) * (-(0)) + 2 * ((1) * (-(0)))) * ((1) * (2)) + ((0) * (0) + 2 * ((0) * (1))) * ((2) * (1))) * (((2) * (1)) * ((1) * (2))) + (((0) * (-(0)) + 2 * ((1) * (-(0)))) * ((1) * (2)) + ((0) * (0) + 2 * ((0) * (1))) * ((2) * (1))) * (((2) * (1)) * ((1) * (2)))) == 0) by (nonlinear_arith);
    assert((cv_add(cv_mul(cat_entry(CatalogGate::Hadamard, 0, 0), cv_conj(cat_entry(CatalogGate::Hadamard, 0, 0))), cv_mul(cat_entry(CatalogGate::Hadamard, 0, 1), cv_conj(cat_entry(CatalogGate::Hadamard, 0, 1))))).im.b == (((0) * (-(0)) + (1) * (-(0))) * ((1) * (2)) + ((0) * (1) + (0) * (0)) * ((2) * (1))) * (((2) * (1)) * ((1) * (2))) + (((0) * (-(0)) + (1) * (-(0))) * ((1) * (2)) + ((0) * (1) + (0) * (0)) * ((2) * (1))) * (((2) * (1)) * ((1) * (2))));
    assert(((((0) * (-(0)) + (1) * (-(0))) * ((1) * (2)) + ((0) * (1) + (0) * (0)) * ((2) * (1))) * (((2) * (1)) * ((1) * (2))) + (((0) * (-(0)) + (1) * (-(0))) * ((1) * (2)) + ((0) * (1) + (0) * (0)) * ((2) * (1))) * (((2) * (1)) * ((1) * (2)))) == 0) by (nonlinear_arith);
    assert((cv_add(cv_mul(cat_entry(CatalogGate::Hadamard, 0, 0), cv_conj(cat_entry(CatalogGate::Hadamard, 0, 0))), cv_mul(cat_entry(CatalogGate::Hadamard, 0, 1), cv_conj(cat_entry(CatalogGate::Hadamard, 0, 1))))).im.d == (((2) * (1)) * ((1) * (2))) * (((2) * (1)) * ((1) * (2))));
    assert(((((2) * (1)) * ((1) * (2))) * (((2) * (1)) * ((1) * (2)))) == 16) by (nonlinear_arith);
    assert((cv_add(cv_mul(cat_entry(CatalogGate::Hadamard, 0, 0), cv_conj(cat_entry(CatalogGate::Hadamard, 0, 0))), cv_mul(cat_entry(CatalogGate::Hadamard, 0, 1), cv_conj(cat_entry(CatalogGate::Hadamard, 0, 1))))).re.a * (ident_entry(0, 0)).re.d == (ident_entry(0, 0)).re.a * (cv_add(cv_mul(cat_entry(CatalogGate::Hadamard, 0, 0), cv_conj(cat_entry(CatalogGate::Hadamard, 0, 0))), cv_mul(cat_entry(CatalogGate::Hadamard, 0, 1), cv_conj(cat_entry(CatalogGate::Hadamard, 0, 1))))).re.d)
        by (nonlinear_arith)
        requires
            (cv_add(cv_mul(cat_entry(CatalogGate::Hadamard, 0, 0), cv_conj(cat_entry(CatalogGate::Hadamard, 0, 0))), cv_mul(cat_entry(CatalogGate::Hadamard, 0, 1), cv_conj(cat_entry(CatalogGate::Hadamard, 0, 1))))).re.a == 16,
            (cv_add(cv_mul(cat_entry(CatalogGate::Hadamard, 0, 0), cv_conj(cat_entry(CatalogGate::Hadamard, 0, 0))), cv_mul(cat_entry(CatalogGate::Hadamard, 0, 1), cv_conj(cat_entry(CatalogGate::Hadamard, 0, 1))))).re.d == 16,
            (ident_entry(0, 0)).re.a == 1,
            (ident_entry(0, 0)).re.d == 1;
    assert((cv_add(cv_mul(cat_entry(CatalogGate::Hadamard, 0, 0), cv_conj(cat_entry(CatalogGate::Hadamard, 0, 0))), cv_mul(cat_entry(CatalogGate::Hadamard, 0, 1), cv_conj(cat_entry(CatalogGate::Hadamard, 0, 1))))).re.b * (ident_entry(0, 0)).re.d == (ident_entry(0, 0)).re.b * (cv_add(cv_mul(cat_entry(CatalogGate::Hadamard, 0, 0), cv_conj(cat_entry(CatalogGate::Hadamard, 0, 0))), cv_mul(cat_entry(CatalogGate::Hadamard, 0, 1), cv_conj(cat_entry(CatalogGate::Hadamard, 0, 1))))).re.d)
        by (nonlinear_arith)
        requires
            (cv_add(cv_mul(cat_entry(CatalogGate::Hadamard, 0, 0), cv_conj(cat_entry(CatalogGate::Hadamard, 0, 0))), cv_mul(cat_entry(CatalogGate::Hadamard, 0, 1), cv_conj(cat_entry(CatalogGate::Hadamard, 0, 1))))).re.b == 0,
            (cv_add(cv_mul(cat_entry(CatalogGate::Hadamard, 0, 0), cv_conj(cat_entry(CatalogGate::Hadamard, 0, 0))), cv_mul(cat_entry(CatalogGate::Hadamard, 0, 1), cv_conj(cat_entry(CatalogGate::Hadamard, 0, 1))))).re.d == 16,
            (ident_entry(0, 0)).re.b == 0,
            (ident_entry(0, 0)).re.d == 1;
    assert((cv_add(cv_mul(cat_entry(CatalogGate::Hadamard, 0, 0), cv_conj(cat_entry(CatalogGate::Hadamard, 0, 0))), cv_mul(cat_entry(CatalogGate::Hadamard, 0, 1), cv_conj(cat_entry(CatalogGate::Hadamard, 0, 1))))).im.a * (ident_entry(0, 0)).im.d == (ident_entry(0, 0)).im.a * (cv_add(cv_mul(cat_entry(CatalogGate::Hadamard, 0, 0), cv_conj(cat_entry(CatalogGate::Hadamard, 0, 0))), cv_mul(cat_entry(CatalogGate::Hadamard, 0, 1), cv_conj(cat_entry(CatalogGate::Hadamard, 0, 1))))).im.d)
        by (nonlinear_arith)
        requires
            (cv_add(cv_mul(cat_entry(CatalogGate::Hadamard, 0, 0), cv_conj(cat_entry(CatalogGate::Hadamard, 0, 0))), cv_mul(cat_entry(CatalogGate::Hadamard, 0, 1), cv_conj(cat_entry(CatalogGate::Hadamard, 0, 1))))).im.a == 0,
            (cv_add(cv_mul(cat_entry(CatalogGate::Hadamard, 0, 0), cv_conj(cat_entry(CatalogGate::Hadamard, 0, 0))), cv_mul(cat_entry(CatalogGate::Hadamard, 0, 1), cv_conj(cat_entry(CatalogGate::Hadamard, 0, 1))))).im.d == 16,
            (ident_entry(0, 0)).im.a == 0,
            (ident_entry(0, 0)).im.d == 1;
    assert((cv_add(cv_mul(cat_entry(CatalogGate::Hadamard, 0, 0), cv_conj(cat_entry(CatalogGate::Hadamard, 0, 0))), cv_mul(cat_entry(CatalogGate::Hadamard, 0, 1), cv_conj(cat_entry(CatalogGate::Hadamard, 0, 1))))).im.b * (ident_entry(0, 0)).im.d == (ident_entry(0, 0)).im.b * (cv_add(cv_mul(cat_entry(CatalogGate::Hadamard, 0, 0), cv_conj(cat_entry(CatalogGate::Hadamard, 0, 0))), cv_mul(cat_entry(CatalogGate::Hadamard, 0, 1), cv_conj(cat_entry(CatalogGate::Hadamard, 0, 1))))).im.d)
        by (nonlinear_arith)
        requires
            (cv_add(cv_mul(cat_entry(CatalogGate::Hadamard, 0, 0), cv_conj(cat_entry(CatalogGate::Hadamard, 0, 0))), cv_mul(cat_entry(CatalogGate::Hadamard, 0, 1), cv_conj(cat_entry(CatalogGate::Hadamard, 0, 1))))).im.b == 0,
            (cv_add(cv_mul(cat_entry(CatalogGate::Hadamard, 0, 0), cv_conj(cat_entry(CatalogGate::Hadamard, 0, 0))), cv_mul(cat_entry(CatalogGate::Hadamard, 0, 1), cv_conj(cat_entry(CatalogGate::Hadamard, 0, 1))))).im.d == 16,
            (ident_entry(0, 0)).im.b == 0,
            (ident_entry(0, 0)).im.d == 1;
    assert(cv_eqv(cv_add(cv_mul(cat_entry(CatalogGate::Hadamard, 0, 0), cv_conj(cat_entry(CatalogGate::Hadamard, 0, 0))), cv_mul(cat_entry(CatalogGate::Hadamard, 0, 1), cv_conj(cat_entry(CatalogGate::Hadamard, 0, 1)))), ident_entry(0, 0)));
    assert(cv_wf(ident_entry(0, 0)));
    lemma_eqv_trans(cat_gram(CatalogGate::Hadamard, 0, 0, 2), cv_add(cv_mul(cat_entry(CatalogGate::Hadamard, 0, 0), cv_conj(cat_entry(CatalogGate::Hadamard, 0, 0))), cv_mul(cat_entry(CatalogGate::Hadamard, 0, 1), cv_conj(cat_entry(CatalogGate::Hadamard, 0, 1)))), ident_entry(0, 0));
}

proof fn h_gram_case_0_1()
    ensures
        cv_eqv(cat_gram(CatalogGate::Hadamard, 0, 1, 2), ident_entry(0, 1)),
{
    reveal_with_fuel(cat_gram, 3);
    lemma_zero_zeroish();
    assert(cat_gram(CatalogGate::Hadamard, 0, 1, 0) == cv_zero());
    assert(cv_zeroish(cat_gram(CatalogGate::Hadamard, 0, 1, 0)));
    assert(cat_gram(CatalogGate::Hadamard, 0, 1, 1) == cv_add(cat_gram(CatalogGate::Hadamard, 0, 1, 0), cv_mul(cat_entry(CatalogGate::Hadamard, 0, 0), cv_conj(cat_entry(CatalogGate::Hadamard, 1, 0)))));
    assert(cv_wf(cat_entry(CatalogGate::Hadamard, 0, 0)));
    assert(cv_wf(cat_entry(CatalogGate::Hadamard, 1, 0)));
    lemma_conj_wf(cat_entry(CatalogGate::Hadamard, 1, 0));
    lemma_mul_wf(cat_entry(CatalogGate::Hadamard, 0, 0), cv_conj(cat_entry(CatalogGate::Hadamard, 1, 0)));
    lemma_add_zeroish_left(cat_gram(CatalogGate::Hadamard, 0, 1, 0), cv_mul(cat_entry(CatalogGate::Hadamard, 0, 0), cv_conj(cat_entry(CatalogGate::Hadamard, 1, 0))));
    assert(cat_gram(CatalogGate::Hadamard, 0, 1, 2) == cv_add(cat_gram(CatalogGate::Hadamard, 0, 1, 1), cv_mul(cat_entry(CatalogGate::Hadamard, 0, 1), cv_conj(cat_entry(CatalogGate::Hadamard, 1, 1)))));
    assert(cv_wf(cat_entry(CatalogGate::Hadamard, 0, 1)));
    assert(cv_wf(cat_entry(CatalogGate::Hadamard, 1, 1)));
    lemma_conj_wf(cat_entry(CatalogGate::Hadamard, 1, 1));
    lemma_mul_wf(cat_entry(CatalogGate::Hadamard, 0, 1), cv_conj(cat_entry(CatalogGate::Hadamard, 1, 1)));
    lemma_add_eqv_left(cat_gram(CatalogGate::Hadamard, 0, 1, 1), cv_mul(cat_entry(CatalogGate::Hadamard, 0, 0), cv_conj(cat_entry(CatalogGate::Hadamard, 1, 0))), cv_mul(cat_entry(CatalogGate::Hadamard, 0, 1), cv_conj(cat_entry(CatalogGate::Hadamard, 1, 1))));
    lemma_eqv_trans(cat_gram(CatalogGate::Hadamard, 0, 1, 2), cv_add(cat_gram(CatalogGate::Hadamard, 0, 1, 1), cv_mul(cat_entry(CatalogGate::Hadamard, 0, 1), cv_conj(cat_entry(CatalogGate::Hadamard, 1, 1)))), cv_add(cv_mul(cat_entry(CatalogGate::Hadamard, 0, 0), cv_conj(cat_entry(CatalogGate::Hadamard, 1, 0))), cv_mul(cat_entry(CatalogGate::Hadamard, 0, 1), cv_conj(cat_entry(CatalogGate::Hadamard, 1, 1)))));
    assert((cv_add(cv_mul(cat_entry(CatalogGate::Hadamard, 0, 0), cv_conj(cat_entry(CatalogGate::Hadamard, 1, 0))), cv_mul(cat_entry(CatalogGate::Hadamard, 0, 1), cv_conj(cat_entry(CatalogGate::Hadamard, 1, 1))))).re.a == (((0) * (0) + 2 * ((1) * (1))) * ((1) * (1)) + (-((0) * (-(0)) + 2 * ((0) * (-(0))))) * ((2) * (2))) * (((2) * (2)) * ((1) * (1))) + (((0) * (0) + 2 * ((1) * (-1))) * ((1) * (1)) + (-((0) * (-(0)) + 2 * ((0) * (-(0))))) * ((2) * (2))) * (((2) * (2)) * ((1) * (1))));
    assert(((((0) * (0) + 2 * ((1) * (1))) * ((1) * (1)) + (-((0) * (-(0)) + 2 * ((0) * (-(0))))) * ((2) * (2))) * (((2) * (2)) * ((1) * (1))) + (((0) * (0) + 2 * ((1) * (-1))) * ((1) * (1)) + (-((0) * (-(0)) + 2 * ((0) * (-(0))))) * ((2) * (2))) * (((2) * (2)) * ((1) * (1)))) == 0) by (nonlinear_arith);
    assert((cv_add(cv_mul(cat_entry(CatalogGate::Hadamard, 0, 0), cv_conj(cat_entry(CatalogGate::Hadamard, 1, 0))), cv_mul(cat_entry(CatalogGate::Hadamard, 0, 1), cv_conj(cat_entry(CatalogGate::Hadamard, 1, 1))))).re.b == (((0) * (1) + (1) * (0)) * ((1) * (1)) + (-((0) * (-(0)) + (0) * (-(0)))) * ((2) * (2))) * (((2) * (2)) * ((1) * (1))) + (((0) * (-1) + (1) * (0)) * ((1) * (1)) + (-((0) * (-(0)) + (0) * (-(0)))) * ((2) * (2))) * (((2) * (2)) * ((1) * (1))));
    assert(((((0) * (1) + (1) * (0)) * ((1) * (1)) + (-((0) * (-(0)) + (0) * (-(0)))) * ((2) * (2))) * (((2) * (2)) * ((1) * (1))) + (((0) * (-1) + (1) * (0)) * ((1) * (1)) + (-((0) * (-(0)) + (0) * (-(0)))) * ((2) * (2))) * (((2) * (2)) * ((1) * (1)))) == 0) by (nonlinear_arith);
    assert((cv_add(cv_mul(cat_entry(CatalogGate::Hadamard, 0, 0), cv_conj(cat_entry(CatalogGate::Hadamard, 1, 0))), cv_mul(cat_entry(CatalogGate::Hadamard, 0, 1), cv_conj(cat_entry(CatalogGate::Hadamard, 1, 1))))).re.d == (((2) * (2)) * ((1) * (1))) * (((2) * (2)) * ((1) * (1))));
    assert(((((2) * (2)) * ((1) * (1))) * (((2) * (2)) * ((1) * (1)))) == 16) by (nonlinear_arith);
    assert((cv_add(cv_mul(cat_entry(CatalogGate::Hadamard, 0, 0), cv_conj(cat_entry(CatalogGate::Hadamard, 1, 0))), cv_mul(cat_entry(CatalogGate::Hadamard, 0, 1), cv_conj(cat_entry(CatalogGate::Hadamard, 1, 1))))).im.a == (((0) * (-(0)) + 2 * ((1) * (-(0)))) * ((1) * (2)) + ((0) * (0) + 2 * ((0) * (1))) * ((2) * (1))) * (((2) * (1)) * ((1) * (2))) + (((0) * (-(0)) + 2 * ((1) * (-(0)))) * ((1) * (2)) + ((0) * (0) + 2 * ((0) * (-1))) * ((2) * (1))) * (((2) * (1)) * ((1) * (2))));
    assert(((((0) * (-(0)) + 2 * ((1) * (-(0)))) * ((1) * (2)) + ((0) * (0) + 2 * ((0) * (1))) * ((2) * (1))) * (((2) * (1)) * ((1) * (2))) + (((0) * (-(0)) + 2 * ((1) * (-(0)))) * ((1) * (2)) + ((0) * (0) + 2 * ((0) * (-1))) * ((2) * (1))) * (((2) * (1)) * ((1) * (2)))) == 0) by (nonlinear_arith);
    assert((cv_add(cv_mul(cat_entry(CatalogGate::Hadamard, 0, 0), cv_conj(cat_entry(CatalogGate::Hadamard, 1, 0))), cv_mul(cat_entry(CatalogGate::Hadamard, 0, 1), cv_conj(cat_entry(CatalogGate::Hadamard, 1, 1))))).im.b == (((0) * (-(0)) + (1) * (-(0))) * ((1) * (2)) + ((0) * (1) + (0) * (0)) * ((2) * (1))) * (((2) * (1)) * ((1) * (2))) + (((0) * (-(0)) + (1) * (-(0))) * ((1) * (2)) + ((0) * (-1) + (0) * (0)) * ((2) * (1))) * (((2) * (1)) * ((1) * (2))));
    assert(((((0) * (-(0)) + (1) * (-(0))) * ((1) * (2)) + ((0) * (1) + (0) * (0)) * ((2) * (1))) * (((2) * (1)) * ((1) * (2))) + (((0) * (-(0)) + (1) * (-(0))) * ((1) * (2)) + ((0) * (-1) + (0) * (0)) * ((2) * (1))) * (((2) * (1)) * ((1) * (2)))) == 0) by (nonlinear_arith);
    assert((cv_add(cv_mul(cat_entry(CatalogGate::Hadamard, 0, 0), cv_conj(cat_entry(CatalogGate::Hadamard, 1, 0))), cv_mul(cat_entry(CatalogGate::Hadamard, 0, 1), cv_conj(cat_entry(CatalogGate::Hadamard, 1, 1))))).im.d == (((2) * (1)) * ((1) * (2))) * (((2) * (1)) * ((1) * (2))));
    assert(((((2) * (1)) * ((1) * (2))) * (((2) * (1)) * ((1) * (2)))) == 16) by (nonlinear_arith);
    assert((cv_add(cv_mul(cat_entry(CatalogGate::Hadamard, 0, 0), cv_conj(cat_entry(CatalogGate::Hadamard, 1, 0))), cv_mul(cat_entry(CatalogGate::Hadamard, 0, 1), cv_conj(cat_entry(CatalogGate::Hadamard, 1, 1))))).re.a * (ident_entry(0, 1)).re.d == (ident_entry(0, 1)).re.a * (cv_add(cv_mul(cat_entry(CatalogGate::Hadamard, 0, 0), cv_conj(cat_entry(CatalogGate::Hadamard, 1, 0))), cv_mul(cat_entry(CatalogGate::Hadamard, 0, 1), cv_conj(cat_entry(CatalogGate::Hadamard, 1, 1))))).re.d)
        by (nonlinear_arith)
        requires
            (cv_add(cv_mul(cat_entry(CatalogGate::Hadamard, 0, 0), cv_conj(cat_entry(CatalogGate::Hadamard, 1, 0))), cv_mul(cat_entry(CatalogGate::Hadamard, 0, 1), cv_conj(cat_entry(CatalogGate::Hadamard, 1, 1))))).re.a == 0,
            (cv_add(cv_mul(cat_entry(CatalogGate::Hadamard, 0, 0), cv_conj(cat_entry(CatalogGate::Hadamard, 1, 0))), cv_mul(cat_entry(CatalogGate::Hadamard, 0, 1), cv_conj(cat_entry(CatalogGate::Hadamard, 1, 1))))).re.d == 16,
            (ident_entry(0, 1)).re.a == 0,
            (ident_entry(0, 1)).re.d == 1;
    assert((cv_add(cv_mul(cat_entry(CatalogGate::Hadamard, 0, 0), cv_conj(cat_entry(CatalogGate::Hadamard, 1, 0))), cv_mul(cat_entry(CatalogGate::Hadamard, 0, 1), cv_conj(cat_entry(CatalogGate::Hadamard, 1, 1))))).re.b * (ident_entry(0, 1)).re.d == (ident_entry(0, 1)).re.b * (cv_add(cv_mul(cat_entry(CatalogGate::Hadamard, 0, 0), cv_conj(cat_entry(CatalogGate::Hadamard, 1, 0))), cv_mul(cat_entry(CatalogGate::Hadamard, 0, 1), cv_conj(cat_entry(CatalogGate::Hadamard, 1, 1))))).re.d)
        by (nonlinear_arith)
        requires
            (cv_add(cv_mul(cat_entry(CatalogGate::Hadamard, 0, 0), cv_conj(cat_entry(CatalogGate::Hadamard, 1, 0))), cv_mul(cat_entry(CatalogGate::Hadamard, 0, 1), cv_conj(cat_entry(CatalogGate::Hadamard, 1, 1))))).re.b == 0,
            (cv_add(cv_mul(cat_entry(CatalogGate::Hadamard, 0, 0), cv_conj(cat_entry(CatalogGate::Hadamard, 1, 0))), cv_mul(cat_entry(CatalogGate::Hadamard, 0, 1), cv_conj(cat_entry(CatalogGate::Hadamard, 1, 1))))).re.d == 16,
            (ident_entry(0, 1)).re.b == 0,
            (ident_entry(0, 1)).re.d == 1;
    assert((cv_add(cv_mul(cat_entry(CatalogGate::Hadamard, 0, 0), cv_conj(cat_entry(CatalogGate::Hadamard, 1, 0))), cv_mul(cat_entry(CatalogGate::Hadamard, 0, 1), cv_conj(cat_entry(CatalogGate::Hadamard, 1, 1))))).im.a * (ident_entry(0, 1)).im.d == (ident_entry(0, 1)).im.a * (cv_add(cv_mul(cat_entry(CatalogGate::Hadamard, 0, 0), cv_conj(cat_entry(CatalogGate::Hadamard, 1, 0))), cv_mul(cat_entry(CatalogGate::Hadamard, 0, 1), cv_conj(cat_entry(CatalogGate::Hadamard, 1, 1))))).im.d)
        by (nonlinear_arith)
        requires
            (cv_add(cv_mul(cat_entry(CatalogGate::Hadamard, 0, 0), cv_conj(cat_entry(CatalogGate::Hadamard, 1, 0))), cv_mul(cat_entry(CatalogGate::Hadamard, 0, 1), cv_conj(cat_entry(CatalogGate::Hadamard, 1, 1))))).im.a == 0,
            (cv_add(cv_mul(cat_entry(CatalogGate::Hadamard, 0, 0), cv_conj(cat_entry(CatalogGate::Hadamard, 1, 0))), cv_mul(cat_entry(CatalogGate::Hadamard, 0, 1), cv_conj(cat_entry(CatalogGate::Hadamard, 1, 1))))).im.d == 16,
            (ident_entry(0, 1)).im.a == 0,
            (ident_entry(0, 1)).im.d == 1;
    assert((cv_add(cv_mul(cat_entry(CatalogGate::Hadamard, 0, 0), cv_conj(cat_entry(CatalogGate::Hadamard, 1, 0))), cv_mul(cat_entry(CatalogGate::Hadamard, 0, 1), cv_conj(cat_entry(CatalogGate::Hadamard, 1, 1))))).im.b * (ident_entry(0, 1)).im.d == (ident_entry(0, 1)).im.b * (cv_add(cv_mul(cat_entry(CatalogGate::Hadamard, 0, 0), cv_conj(cat_entry(CatalogGate::Hadamard, 1, 0))), cv_mul(cat_entry(CatalogGate::Hadamard, 0, 1), cv_conj(cat_entry(CatalogGate::Hadamard, 1, 1))))).im.d)
        by (nonlinear_arith)
        requires
            (cv_add(cv_mul(cat_entry(CatalogGate::Hadamard, 0, 0), cv_conj(cat_entry(CatalogGate::Hadamard, 1, 0))), cv_mul(cat_entry(CatalogGate::Hadamard, 0, 1), cv_conj(cat_entry(CatalogGate::Hadamard, 1, 1))))).im.b == 0,
            (cv_add(cv_mul(cat_entry(CatalogGate::Hadamard, 0, 0), cv_conj(cat_entry(CatalogGate::Hadamard, 1, 0))), cv_mul(cat_entry(CatalogGate::Hadamard, 0, 1), cv_conj(cat_entry(CatalogGate::Hadamard, 1, 1))))).im.d == 16,
            (ident_entry(0, 1)).im.b == 0,
            (ident_entry(0, 1)).im.d == 1;
    assert(cv_eqv(cv_add(cv_mul(cat_entry(CatalogGate::Hadamard, 0, 0), cv_conj(cat_entry(CatalogGate::Hadamard, 1, 0))), cv_mul(cat_entry(CatalogGate::Hadamard, 0, 1), cv_conj(cat_entry(CatalogGate::Hadamard, 1, 1)))), ident_entry(0, 1)));
    assert(cv_wf(ident_entry(0, 1)));
    lemma_eqv_trans(cat_gram(CatalogGate::Hadamard, 0, 1, 2), cv_add(cv_mul(cat_entry(CatalogGate::Hadamard, 0, 0), cv_conj(cat_entry(CatalogGate::Hadamard, 1, 0))), cv_mul(cat_entry(CatalogGate::Hadamard, 0, 1), cv_conj(cat_entry(CatalogGate::Hadamard, 1, 1)))), ident_entry(0, 1));
}

proof fn h_gram_case_1_0()
    ensures
        cv_eqv(cat_gram(CatalogGate::Hadamard, 1, 0, 2), ident_entry(1, 0)),
{
    reveal_with_fuel(cat_gram, 3);
    lemma_zero_zeroish();
    assert(cat_gram(CatalogGate::Hadamard, 1, 0, 0) == cv_zero());
    assert(cv_zeroish(cat_gram(CatalogGate::Hadamard, 1, 0, 0)));
    assert(cat_gram(CatalogGate::Hadamard, 1, 0, 1) == cv_add(cat_gram(CatalogGate::Hadamard, 1, 0, 0), cv_mul(cat_entry(CatalogGate::Hadamard, 1, 0), cv_conj(cat_entry(CatalogGate::Hadamard, 0, 0)))));
    assert(cv_wf(cat_entry(CatalogGate::Hadamard, 1, 0)));
    assert(cv_wf(cat_entry(CatalogGate::Hadamard, 0, 0)));
    lemma_conj_wf(cat_entry(CatalogGate::Hadamard, 0, 0));
    lemma_mul_wf(cat_entry(CatalogGate::Hadamard, 1, 0), cv_conj(cat_entry(CatalogGate::Hadamard, 0, 0)));
    lemma_add_zeroish_left(cat_gram(CatalogGate::Hadamard, 1, 0, 0), cv_mul(cat_entry(CatalogGate::Hadamard, 1, 0), cv_conj(cat_entry(CatalogGate::Hadamard, 0, 0))));
    assert(cat_gram(CatalogGate::Hadamard, 1, 0, 2) == cv_add(cat_gram(CatalogGate::Hadamard, 1, 0, 1), cv_mul(cat_entry(CatalogGate::Hadamard, 1, 1), cv_conj(cat_entry(CatalogGate::Hadamard, 0, 1)))));
    assert(cv_wf(cat_entry(CatalogGate::Hadamard, 1, 1)));
    assert(cv_wf(cat_entry(CatalogGate::Hadamard, 0, 1)));
    lemma_conj_wf(cat_entry(CatalogGate::Hadamard, 0, 1));
    lemma_mul_wf(cat_entry(CatalogGate::Hadamard, 1, 1), cv_conj(cat_entry(CatalogGate::Hadamard, 0, 1)));
    lemma_add_eqv_left(cat_gram(CatalogGate::Hadamard, 1, 0, 1), cv_mul(cat_entry(CatalogGate::Hadamard, 1, 0), cv_conj(cat_entry(CatalogGate::Hadamard, 0, 0))), cv_mul(cat_entry(CatalogGate::Hadamard, 1, 1), cv_conj(cat_entry(CatalogGate::Hadamard, 0, 1))));
    lemma_eqv_trans(cat_gram(CatalogGate::Hadamard, 1, 0, 2), cv_add(cat_gram(CatalogGate::Hadamard, 1, 0, 1), cv_mul(cat_entry(CatalogGate::Hadamard, 1, 1), cv_conj(cat_entry(CatalogGate::Hadamard, 0, 1)))), cv_add(cv_mul(cat_entry(CatalogGate::Hadamard, 1, 0), cv_conj(cat_entry(CatalogGate::Hadamard, 0, 0))), cv_mul(cat_entry(CatalogGate::Hadamard, 1, 1), cv_conj(cat_entry(CatalogGate::Hadamard, 0, 1)))));
    assert((cv_add(cv_mul(cat_entry(CatalogGate::Hadamard, 1, 0), cv_conj(cat_entry(CatalogGate::Hadamard, 0, 0))), cv_mul(cat_entry(CatalogGate::Hadamard, 1, 1), cv_conj(cat_entry(CatalogGate::Hadamard, 0, 1))))).re.a == (((0) * (0) + 2 * ((1) * (1))) * ((1) * (1)) + (-((0) * (-(0)) + 2 * ((0) * (-(0))))) * ((2) * (2))) * (((2) * (2)) * ((1) * (1))) + (((0) * (0) + 2 * ((-1) * (1))) * ((1) * (1)) + (-((0) * (-(0)) + 2 * ((0) * (-(0))))) * ((2) * (2))) * (((2) * (2)) * ((1) * (1))));
    assert(((((0) * (0) + 2 * ((1) * (1))) * ((1) * (1)) + (-((0) * (-(0)) + 2 * ((0) * (-(0))))) * ((2) * (2))) * (((2) * (2)) * ((1) * (1))) + (((0) * (0) + 2 * ((-1) * (1))) * ((1) * (1)) + (-((0) * (-(0)) + 2 * ((0) * (-(0))))) * ((2) * (2))) * (((2) * (2)) * ((1) * (1)))) == 0) by (nonlinear_arith);
    assert((cv_add(cv_mul(cat_entry(CatalogGate::Hadamard, 1, 0), cv_conj(cat_entry(CatalogGate::Hadamard, 0, 0))), cv_mul(cat_entry(CatalogGate::Hadamard, 1, 1), cv_conj(cat_entry(CatalogGate::Hadamard, 0, 1))))).re.b == (((0) * (1) + (1) * (0)) * ((1) * (1)) + (-((0) * (-(0)) + (0) * (-(0)))) * ((2) * (2))) * (((2) * (2)) * ((1) * (1))) + (((0) * (1) + (-1) * (0)) * ((1) * (1)) + (-((0) * (-(0)) + (0) * (-(0)))) * ((2) * (2))) * (((2) * (2)) * ((1) * (1))));
    assert(((((0) * (1) + (1) * (0)) * ((1) * (1)) + (-((0) * (-(0)) + (0) * (-(0)))) * ((2) * (2))) * (((2) * (2)) * ((1) * (1))) + (((0) * (1) + (-1) * (0)) * ((1) * (1)) + (-((0) * (-(0)) + (0) * (-(0)))) * ((2) * (2))) * (((2) * (2)) * ((1) * (1)))) == 0) by (nonlinear_arith);
    assert((cv_add(cv_mul(cat_entry(CatalogGate::Hadamard, 1, 0), cv_conj(cat_entry(CatalogGate::Hadamard, 0, 0))), cv_mul(cat_entry(CatalogGate::Hadamard, 1, 1), cv_conj(cat_entry(CatalogGate::Hadamard, 0, 1))))).re.d == (((2) * (2)) * ((1) * (1))) * (((2) * (2)) * ((1) * (1))));
    assert(((((2) * (2)) * ((1) * (1))) * (((2) * (2)) * ((1) * (1)))) == 16) by (nonlinear_arith);
    assert((cv_add(cv_mul(cat_entry(CatalogGate::Hadamard, 1, 0), cv_conj(cat_entry(CatalogGate::Hadamard, 0, 0))), cv_mul(cat_entry(CatalogGate::Hadamard, 1, 1), cv_conj(cat_entry(CatalogGate::Hadamard, 0, 1))))).im.a == (((0) * (-(0)) + 2 * ((1) * (-(0)))) * ((1) * (2)) + ((0) * (0) + 2 * ((0) * (1))) * ((2) * (1))) * (((2) * (1)) * ((1) * (2))) + (((0) * (-(0)) + 2 * ((-1) * (-(0)))) * ((1) * (2)) + ((0) * (0) + 2 * ((0) * (1))) * ((2) * (1))) * (((2) * (1)) * ((1) * (2))));
    assert(((((0) * (-(0)) + 2 * ((1) * (-(0)))) * ((1) * (2)) + ((0) * (0) + 2 * ((0) * (1))) * ((2) * (1))) * (((2) * (1)) * ((1) * (2))) + (((0) * (-(0)) + 2 * ((-1) * (-(0)))) * ((1) * (2)) + ((0) * (0) + 2 * ((0) * (1))) * ((2) * (1))) * (((2) * (1)) * ((1) * (2)))) == 0) by (nonlinear_arith);
    assert((cv_add(cv_mul(cat_entry(CatalogGate::Hadamard, 1, 0), cv_conj(cat_entry(CatalogGate::Hadamard, 0, 0))), cv_mul(cat_entry(CatalogGate::Hadamard, 1, 1), cv_conj(cat_entry(CatalogGate::Hadamard, 0, 1))))).im.b == (((0) * (-(0)) + (1) * (-(0))) * ((1) * (2)) + ((0) * (1) + (0) * (0)) * ((2) * (1))) * (((2) * (1)) * ((1) * (2))) + (((0) * (-(0)) + (-1) * (-(0))) * ((1) * (2)) + ((0) * (1) + (0) * (0)) * ((2) * (1))) * (((2) * (1)) * ((1) * (2))));
    assert(((((0) * (-(0)) + (1) * (-(0))) * ((1) * (2)) + ((0) * (1) + (0) * (0)) * ((2) * (1))) * (((2) * (1)) * ((1) * (2))) + (((0) * (-(0)) + (-1) * (-(0))) * ((1) * (2)) + ((0) * (1) + (0) * (0)) * ((2) * (1))) * (((2) * (1)) * ((1) * (2)))) == 0) by (nonlinear_arith);
    assert((cv_add(cv_mul(cat_entry(CatalogGate::Hadamard, 1, 0), cv_conj(cat_entry(CatalogGate::Hadamard, 0, 0))), cv_mul(cat_entry(CatalogGate::Hadamard, 1, 1), cv_conj(cat_entry(CatalogGate::Hadamard, 0, 1))))).im.d == (((2) * (1)) * ((1) * (2))) * (((2) * (1)) * ((1) * (2))));
    assert(((((2) * (1)) * ((1) * (2))) * (((2) * (1)) * ((1) * (2)))) == 16) by (nonlinear_arith);
    assert((cv_add(cv_mul(cat_entry(CatalogGate::Hadamard, 1, 0), cv_conj(cat_entry(CatalogGate::Hadamard, 0, 0))), cv_mul(cat_entry(CatalogGate::Hadamard, 1, 1), cv_conj(cat_entry(CatalogGate::Hadamard, 0, 1))))).re.a * (ident_entry(1, 0)).re.d == (ident_entry(1, 0)).re.a * (cv_add(cv_mul(cat_entry(CatalogGate::Hadamard, 1, 0), cv_conj(cat_entry(CatalogGate::Hadamard, 0, 0))), cv_mul(cat_entry(CatalogGate::Hadamard, 1, 1), cv_conj(cat_entry(CatalogGate::Hadamard, 0, 1))))).re.d)
        by (nonlinear_arith)
        requires
            (cv_add(cv_mul(cat_entry(CatalogGate::Hadamard, 1, 0), cv_conj(cat_entry(CatalogGate::Hadamard, 0, 0))), cv_mul(cat_entry(CatalogGate::Hadamard, 1, 1), cv_conj(cat_entry(CatalogGate::Hadamard, 0, 1))))).re.a == 0,
            (cv_add(cv_mul(cat_entry(CatalogGate::Hadamard, 1, 0), cv_conj(cat_entry(CatalogGate::Hadamard, 0, 0))), cv_mul(cat_entry(CatalogGate::Hadamard, 1, 1), cv_conj(cat_entry(CatalogGate::Hadamard, 0, 1))))).re.d == 16,
            (ident_entry(1, 0)).re.a == 0,
            (ident_entry(1, 0)).re.d == 1;
    assert((cv_add(cv_mul(cat_entry(CatalogGate::Hadamard, 1, 0), cv_conj(cat_entry(CatalogGate::Hadamard, 0, 0))), cv_mul(cat_entry(CatalogGate::Hadamard, 1, 1), cv_conj(cat_entry(CatalogGate::Hadamard, 0, 1))))).re.b * (ident_entry(1, 0)).re.d == (ident_entry(1, 0)).re.b * (cv_add(cv_mul(cat_entry(CatalogGate::Hadamard, 1, 0), cv_conj(cat_entry(CatalogGate::Hadamard, 0, 0))), cv_mul(cat_entry(CatalogGate::Hadamard, 1, 1), cv_conj(cat_entry(CatalogGate::Hadamard, 0, 1))))).re.d)
        by (nonlinear_arith)
        requires
            (cv_add(cv_mul(cat_entry(CatalogGate::Hadamard, 1, 0), cv_conj(cat_entry(CatalogGate::Hadamard, 0, 0))), cv_mul(cat_entry(CatalogGate::Hadamard, 1, 1), cv_conj(cat_entry(CatalogGate::Hadamard, 0, 1))))).re.b == 0,
            (cv_add(cv_mul(cat_entry(CatalogGate::Hadamard, 1, 0), cv_conj(cat_entry(CatalogGate::Hadamard, 0, 0))), cv_mul(cat_entry(CatalogGate::Hadamard, 1, 1), cv_conj(cat_entry(CatalogGate::Hadamard, 0, 1))))).re.d == 16,
            (ident_entry(1, 0)).re.b == 0,
            (ident_entry(1, 0)).re.d == 1;
    assert((cv_add(cv_mul(cat_entry(CatalogGate::Hadamard, 1, 0), cv_conj(cat_entry(CatalogGate::Hadamard, 0, 0))), cv_mul(cat_entry(CatalogGate::Hadamard, 1, 1), cv_conj(cat_entry(CatalogGate::Hadamard, 0, 1))))).im.a * (ident_entry(1, 0)).im.d == (ident_entry(1, 0)).im.a * (cv_add(cv_mul(cat_entry(CatalogGate::Hadamard, 1, 0), cv_conj(cat_entry(CatalogGate::Hadamard, 0, 0))), cv_mul(cat_entry(CatalogGate::Hadamard, 1, 1), cv_conj(cat_entry(CatalogGate::Hadamard, 0, 1))))).im.d)
        by (nonlinear_arith)
        requires
            (cv_add(cv_mul(cat_entry(CatalogGate::Hadamard, 1, 0), cv_conj(cat_entry(CatalogGate::Hadamard, 0, 0))), cv_mul(cat_entry(CatalogGate::Hadamard, 1, 1), cv_conj(cat_entry(CatalogGate::Hadamard, 0, 1))))).im.a == 0,
            (cv_add(cv_mul(cat_entry(CatalogGate::Hadamard, 1, 0), cv_conj(cat_entry(CatalogGate::Hadamard, 0, 0))), cv_mul(cat_entry(CatalogGate::Hadamard, 1, 1), cv_conj(cat_entry(CatalogGate::Hadamard, 0, 1))))).im.d == 16,
            (ident_entry(1, 0)).im.a == 0,
            (ident_entry(1, 0)).im.d == 1;
    assert((cv_add(cv_mul(cat_entry(CatalogGate::Hadamard, 1, 0), cv_conj(cat_entry(CatalogGate::Hadamard, 0, 0))), cv_mul(cat_entry(CatalogGate::Hadamard, 1, 1), cv_conj(cat_entry(CatalogGate::Hadamard, 0, 1))))).im.b * (ident_entry(1, 0)).im.d == (ident_entry(1, 0)).im.b * (cv_add(cv_mul(cat_entry(CatalogGate::Hadamard, 1, 0), cv_conj(cat_entry(CatalogGate::Hadamard, 0, 0))), cv_mul(cat_entry(CatalogGate::Hadamard, 1, 1), cv_conj(cat_entry(CatalogGate::Hadamard, 0, 1))))).im.d)
        by (nonlinear_arith)
        requires
            (cv_add(cv_mul(cat_entry(CatalogGate::Hadamard, 1, 0), cv_conj(cat_entry(CatalogGate::Hadamard, 0, 0))), cv_mul(cat_entry(CatalogGate::Hadamard, 1, 1), cv_conj(cat_entry(CatalogGate::Hadamard, 0, 1))))).im.b == 0,
            (cv_add(cv_mul(cat_entry(CatalogGate::Hadamard, 1, 0), cv_conj(cat_entry(CatalogGate::Hadamard, 0, 0))), cv_mul(cat_entry(CatalogGate::Hadamard, 1, 1), cv_conj(cat_entry(CatalogGate::Hadamard, 0, 1))))).im.d == 16,
            (ident_entry(1, 0)).im.b == 0,
            (ident_entry(1, 0)).im.d == 1;
    assert(cv_eqv(cv_add(cv_mul(cat_entry(CatalogGate::Hadamard, 1, 0), cv_conj(cat_entry(CatalogGate::Hadamard, 0, 0))), cv_mul(cat_entry(CatalogGate::Hadamard, 1, 1), cv_conj(cat_entry(CatalogGate::Hadamard, 0, 1)))), ident_entry(1, 0)));
    assert(cv_wf(ident_entry(1, 0)));
    lemma_eqv_trans(cat_gram(CatalogGate::Hadamard, 1, 0, 2), cv_add(cv_mul(cat_entry(CatalogGate::Hadamard, 1, 0), cv_conj(cat_entry(CatalogGate::Hadamard, 0, 0))), cv_mul(cat_entry(CatalogGate::Hadamard, 1, 1), cv_conj(cat_entry(CatalogGate::Hadamard, 0, 1)))), ident_entry(1, 0));
}

proof fn h_gram_case_1_1()
    ensures
        cv_eqv(cat_gram(CatalogGate::Hadamard, 1, 1, 2), ident_entry(1, 1)),
{
    reveal_with_fuel(cat_gram, 3);
    lemma_zero_zeroish();
    assert(cat_gram(CatalogGate::Hadamard, 1, 1, 0) == cv_zero());
    assert(cv_zeroish(cat_gram(CatalogGate::Hadamard, 1, 1, 0)));
    assert(cat_gram(CatalogGate::Hadamard, 1, 1, 1) == cv_add(cat_gram(CatalogGate::Hadamard, 1, 1, 0), cv_mul(cat_entry(CatalogGate::Hadamard, 1, 0), cv_conj(cat_entry(CatalogGate::Hadamard, 1, 0)))));
    assert(cv_wf(cat_entry(CatalogGate::Hadamard, 1, 0)));
    assert(cv_wf(cat_entry(CatalogGate::Hadamard, 1, 0)));
    lemma_conj_wf(cat_entry(CatalogGate::Hadamard, 1, 0));
    lemma_mul_wf(cat_entry(CatalogGate::Hadamard, 1, 0), cv_conj(cat_entry(CatalogGate::Hadamard, 1, 0)));
    lemma_add_zeroish_left(cat_gram(CatalogGate::Hadamard, 1, 1, 0), cv_mul(cat_entry(CatalogGate::Hadamard, 1, 0), cv_conj(cat_entry(CatalogGate::Hadamard, 1, 0))));
    assert(cat_gram(CatalogGate::Hadamard, 1, 1, 2) == cv_add(cat_gram(CatalogGate::Hadamard, 1, 1, 1), cv_mul(cat_entry(CatalogGate::Hadamard, 1, 1), cv_conj(cat_entry(CatalogGate::Hadamard, 1, 1)))));
    assert(cv_wf(cat_entry(CatalogGate::Hadamard, 1, 1)));
    assert(cv_wf(cat_entry(CatalogGate::Hadamard, 1, 1)));
    lemma_conj_wf(cat_entry(CatalogGate::Hadamard, 1, 1));
    lemma_mul_wf(cat_entry(CatalogGate::Hadamard, 1, 1), cv_conj(cat_entry(CatalogGate::Hadamard, 1, 1)));
    lemma_add_eqv_left(cat_gram(CatalogGate::Hadamard, 1, 1, 1), cv_mul(cat_entry(CatalogGate::Hadamard, 1, 0), cv_conj(cat_entry(CatalogGate::Hadamard, 1, 0))), cv_mul(cat_entry(CatalogGate::Hadamard, 1, 1), cv_conj(cat_entry(CatalogGate::Hadamard, 1, 1))));
    lemma_eqv_trans(cat_gram(CatalogGate::Hadamard, 1, 1, 2), cv_add(cat_gram(CatalogGate::Hadamard, 1, 1, 1), cv_mul(cat_entry(CatalogGate::Hadamard, 1, 1), cv_conj(cat_entry(CatalogGate::Hadamard, 1, 1)))), cv_add(cv_mul(cat_entry(CatalogGate::Hadamard, 1, 0), cv_conj(cat_entry(CatalogGate::Hadamard, 1, 0))), cv_mul(cat_entry(CatalogGate::Hadamard, 1, 1), cv_conj(cat_entry(CatalogGate::Hadamard, 1, 1)))));
    assert((cv_add(cv_mul(cat_entry(CatalogGate::Hadamard, 1, 0), cv_conj(cat_entry(CatalogGate::Hadamard, 1, 0))), cv_mul(cat_entry(CatalogGate::Hadamard, 1, 1), cv_conj(cat_entry(CatalogGate::Hadamard, 1, 1))))).re.a == (((0) * (0) + 2 * ((1) * (1))) * ((1) * (1)) + (-((0) * (-(0)) + 2 * ((0) * (-(0))))) * ((2) * (2))) * (((2) * (2)) * ((1) * (1))) + (((0) * (0) + 2 * ((-1) * (-1))) * ((1) * (1)) + (-((0) * (-(0)) + 2 * ((0) * (-(0))))) * ((2) * (2))) * (((2) * (2)) * ((1) * (1))));
    assert(((((0) * (0) + 2 * ((1) * (1))) * ((1) * (1)) + (-((0) * (-(0)) + 2 * ((0) * (-(0))))) * ((2) * (2))) * (((2) * (2)) * ((1) * (1))) + (((0) * (0) + 2 * ((-1) * (-1))) * ((1) * (1)) + (-((0) * (-(0)) + 2 * ((0) * (-(0))))) * ((2) * (2))) * (((2) * (2)) * ((1) * (1)))) == 16) by (nonlinear_arith);
    assert((cv_add(cv_mul(cat_entry(CatalogGate::Hadamard, 1, 0), cv_conj(cat_entry(CatalogGate::Hadamard, 1, 0))), cv_mul(cat_entry(CatalogGate::Hadamard, 1, 1), cv_conj(cat_entry(CatalogGate::Hadamard, 1, 1))))).re.b == (((0) * (1) + (1) * (0)) * ((1) * (1)) + (-((0) * (-(0)) + (0) * (-(0)))) * ((2) * (2))) * (((2) * (2)) * ((1) * (1))) + (((0) * (-1) + (-1) * (0)) * ((1) * (1)) + (-((0) * (-(0)) + (0) * (-(0)))) * ((2) * (2))) * (((2) * (2)) * ((1) * (1))));
    assert(((((0) * (1) + (1) * (0)) * ((1) * (1)) + (-((0) * (-(0)) + (0) * (-(0)))) * ((2) * (2))) * (((2) * (2)) * ((1) * (1))) + (((0) * (-1) + (-1) * (0)) * ((1) * (1)) + (-((0) * (-(0)) + (0) * (-(0)))) * ((2) * (2))) * (((2) * (2)) * ((1) * (1)))) == 0) by (nonlinear_arith);
    assert((cv_add(cv_mul(cat_entry(CatalogGate::Hadamard, 1, 0), cv_conj(cat_entry(CatalogGate::Hadamard, 1, 0))), cv_mul(cat_entry(CatalogGate::Hadamard, 1, 1), cv_conj(cat_entry(CatalogGate::Hadamard, 1, 1))))).re.d == (((2) * (2)) * ((1) * (1))) * (((2) * (2)) * ((1) * (1))));
    assert(((((2) * (2)) * ((1) * (1))) * (((2) * (2)) * ((1) * (1)))) == 16) by (nonlinear_arith);
    assert((cv_add(cv_mul(cat_entry(CatalogGate::Hadamard, 1, 0), cv_conj(cat_entry(CatalogGate::Hadamard, 1, 0))), cv_mul(cat_entry(CatalogGate::Hadamard, 1, 1), cv_conj(cat_entry(CatalogGate::Hadamard, 1, 1))))).im.a == (((0) * (-(0)) + 2 * ((1) * (-(0)))) * ((1) * (2)) + ((0) * (0) + 2 * ((0) * (1))) * ((2) * (1))) * (((2) * (1)) * ((1) * (2))) + (((0) * (-(0)) + 2 * ((-1) * (-(0)))) * ((1) * (2)) + ((0) * (0) + 2 * ((0) * (-1))) * ((2) * (1))) * (((2) * (1)) * ((1) * (2))));
    assert(((((0) * (-(0)) + 2 * ((1) * (-(0)))) * ((1) * (2)) + ((0) * (0) + 2 * ((0) * (1))) * ((2) * (1))) * (((2) * (1)) * ((1) * (2))) + (((0) * (-(0)) + 2 * ((-1) * (-(0)))) * ((1) * (2)) + ((0) * (0) + 2 * ((0) * (-1))) * ((2) * (1))) * (((2) * (1)) * ((1) * (2)))) == 0) by (nonlinear_arith);
    assert((cv_add(cv_mul(cat_entry(CatalogGate::Hadamard, 1, 0), cv_conj(cat_entry(CatalogGate::Hadamard, 1, 0))), cv_mul(cat_entry(CatalogGate::Hadamard, 1, 1), cv_conj(cat_entry(CatalogGate::Hadamard, 1, 1))))).im.b == (((0) * (-(0)) + (1) * (-(0))) * ((1) * (2)) + ((0) * (1) + (0) * (0)) * ((2) * (1))) * (((2) * (1)) * ((1) * (2))) + (((0) * (-(0)) + (-1) * (-(0))) * ((1) * (2)) + ((0) * (-1) + (0) * (0)) * ((2) * (1))) * (((2) * (1)) * ((1) * (2))));
    assert(((((0) * (-(0)) + (1) * (-(0))) * ((1) * (2)) + ((0) * (1) + (0) * (0)) * ((2) * (1))) * (((2) * (1)) * ((1) * (2))) + (((0) * (-(0)) + (-1) * (-(0))) * ((1) * (2)) + ((0) * (-1) + (0) * (0)) * ((2) * (1))) * (((2) * (1)) * ((1) * (2)))) == 0) by (nonlinear_arith);
    assert((cv_add(cv_mul(cat_entry(CatalogGate::Hadamard, 1, 0), cv_conj(cat_entry(CatalogGate::Hadamard, 1, 0))), cv_mul(cat_entry(CatalogGate::Hadamard, 1, 1), cv_conj(cat_entry(CatalogGate::Hadamard, 1, 1))))).im.d == (((2) * (1)) * ((1) * (2))) * (((2) * (1)) * ((1) * (2))));
    assert(((((2) * (1)) * ((1) * (2))) * (((2) * (1)) * ((1) * (2)))) == 16) by (nonlinear_arith);
    assert((cv_add(cv_mul(cat_entry(CatalogGate::Hadamard, 1, 0), cv_conj(cat_entry(CatalogGate::Hadamard, 1, 0))), cv_mul(cat_entry(CatalogGate::Hadamard, 1, 1), cv_conj(cat_entry(CatalogGate::Hadamard, 1, 1))))).re.a * (ident_entry(1, 1)).re.d == (ident_entry(1, 1)).re.a * (cv_add(cv_mul(cat_entry(CatalogGate::Hadamard, 1, 0), cv_conj(cat_entry(CatalogGate::Hadamard, 1, 0))), cv_mul(cat_entry(CatalogGate::Hadamard, 1, 1), cv_conj(cat_entry(CatalogGate::Hadamard, 1, 1))))).re.d)
        by (nonlinear_arith)
        requires
            (cv_add(cv_mul(cat_entry(CatalogGate::Hadamard, 1, 0), cv_conj(cat_entry(CatalogGate::Hadamard, 1, 0))), cv_mul(cat_entry(CatalogGate::Hadamard, 1, 1), cv_conj(cat_entry(CatalogGate::Hadamard, 1, 1))))).re.a == 16,
            (cv_add(cv_mul(cat_entry(CatalogGate::Hadamard, 1, 0), cv_conj(cat_entry(CatalogGate::Hadamard, 1, 0))), cv_mul(cat_entry(CatalogGate::Hadamard, 1, 1), cv_conj(cat_entry(CatalogGate::Hadamard, 1, 1))))).re.d == 16,
            (ident_entry(1, 1)).re.a == 1,
            (ident_entry(1, 1)).re.d == 1;
    assert((cv_add(cv_mul(cat_entry(CatalogGate::Hadamard, 1, 0), cv_conj(cat_entry(CatalogGate::Hadamard, 1, 0))), cv_mul(cat_entry(CatalogGate::Hadamard, 1, 1), cv_conj(cat_entry(CatalogGate::Hadamard, 1, 1))))).re.b * (ident_entry(1, 1)).re.d == (ident_entry(1, 1)).re.b * (cv_add(cv_mul(cat_entry(CatalogGate::Hadamard, 1, 0), cv_conj(cat_entry(CatalogGate::Hadamard, 1, 0))), cv_mul(cat_entry(CatalogGate::Hadamard, 1, 1), cv_conj(cat_entry(CatalogGate::Hadamard, 1, 1))))).re.d)
        by (nonlinear_arith)
        requires
            (cv_add(cv_mul(cat_entry(CatalogGate::Hadamard, 1, 0), cv_conj(cat_entry(CatalogGate::Hadamard, 1, 0))), cv_mul(cat_entry(CatalogGate::Hadamard, 1, 1), cv_conj(cat_entry(CatalogGate::Hadamard, 1, 1))))).re.b == 0,
            (cv_add(cv_mul(cat_entry(CatalogGate::Hadamard, 1, 0), cv_conj(cat_entry(CatalogGate::Hadamard, 1, 0))), cv_mul(cat_entry(CatalogGate::Hadamard, 1, 1), cv_conj(cat_entry(CatalogGate::Hadamard, 1, 1))))).re.d == 16,
            (ident_entry(1, 1)).re.b == 0,
            (ident_entry(1, 1)).re.d == 1;
    assert((cv_add(cv_mul(cat_entry(CatalogGate::Hadamard, 1, 0), cv_conj(cat_entry(CatalogGate::Hadamard, 1, 0))), cv_mul(cat_entry(CatalogGate::Hadamard, 1, 1), cv_conj(cat_entry(CatalogGate::Hadamard, 1, 1))))).im.a * (ident_entry(1, 1)).im.d == (ident_entry(1, 1)).im.a * (cv_add(cv_mul(cat_entry(CatalogGate::Hadamard, 1, 0), cv_conj(cat_entry(CatalogGate::Hadamard, 1, 0))), cv_mul(cat_entry(CatalogGate::Hadamard, 1, 1), cv_conj(cat_entry(CatalogGate::Hadamard, 1, 1))))).im.d)
        by (nonlinear_arith)
        requires
            (cv_add(cv_mul(cat_entry(CatalogGate::Hadamard, 1, 0), cv_conj(cat_entry(CatalogGate::Hadamard, 1, 0))), cv_mul(cat_entry(CatalogGate::Hadamard, 1, 1), cv_conj(cat_entry(CatalogGate::Hadamard, 1, 1))))).im.a == 0,
            (cv_add(cv_mul(cat_entry(CatalogGate::Hadamard, 1, 0), cv_conj(cat_entry(CatalogGate::Hadamard, 1, 0))), cv_mul(cat_entry(CatalogGate::Hadamard, 1, 1), cv_conj(cat_entry(CatalogGate::Hadamard, 1, 1))))).im.d == 16,
            (ident_entry(1, 1)).im.a == 0,
            (ident_entry(1, 1)).im.d == 1;
    assert((cv_add(cv_mul(cat_entry(CatalogGate::Hadamard, 1, 0), cv_conj(cat_entry(CatalogGate::Hadamard, 1, 0))), cv_mul(cat_entry(CatalogGate::Hadamard, 1, 1), cv_conj(cat_entry(CatalogGate::Hadamard, 1, 1))))).im.b * (ident_entry(1, 1)).im.d == (ident_entry(1, 1)).im.b * (cv_add(cv_mul(cat_entry(CatalogGate::Hadamard, 1, 0), cv_conj(cat_entry(CatalogGate::Hadamard, 1, 0))), cv_mul(cat_entry(CatalogGate::Hadamard, 1, 1), cv_conj(cat_entry(CatalogGate::Hadamard, 1, 1))))).im.d)
        by (nonlinear_arith)
        requires
            (cv_add(cv_mul(cat_entry(CatalogGate::Hadamard, 1, 0), cv_conj(cat_entry(CatalogGate::Hadamard, 1, 0))), cv_mul(cat_entry(CatalogGate::Hadamard, 1, 1), cv_conj(cat_entry(CatalogGate::Hadamard, 1, 1))))).im.b == 0,
            (cv_add(cv_mul(cat_entry(CatalogGate::Hadamard, 1, 0), cv_conj(cat_entry(CatalogGate::Hadamard, 1, 0))), cv_mul(cat_entry(CatalogGate::Hadamard, 1, 1), cv_conj(cat_entry(CatalogGate::Hadamard, 1, 1))))).im.d == 16,
            (ident_entry(1, 1)).im.b == 0,
            (ident_entry(1, 1)).im.d == 1;
    assert(cv_eqv(cv_add(cv_mul(cat_entry(CatalogGate::Hadamard, 1, 0), cv_conj(cat_entry(CatalogGate::Hadamard, 1, 0))), cv_mul(cat_entry(CatalogGate::Hadamard, 1, 1), cv_conj(cat_entry(CatalogGate::Hadamard, 1, 1)))), ident_entry(1, 1)));
    assert(cv_wf(ident_entry(1, 1)));
    lemma_eqv_trans(cat_gram(CatalogGate::Hadamard, 1, 1, 2), cv_add(cv_mul(cat_entry(CatalogGate::Hadamard, 1, 0), cv_conj(cat_entry(CatalogGate::Hadamard, 1, 0))), cv_mul(cat_entry(CatalogGate::Hadamard, 1, 1), cv_conj(cat_entry(CatalogGate::Hadamard, 1, 1)))), ident_entry(1, 1));
}

proof fn h_mm_case_0_0()
    ensures
        cv_eqv(cat_mm(CatalogGate::Hadamard, CatalogGate::Hadamard, 0, 0, 2), ident_entry(0, 0)),
{
    reveal_with_fuel(cat_mm, 3);
    lemma_zero_zeroish();
    assert(cat_mm(CatalogGate::Hadamard, CatalogGate::Hadamard, 0, 0, 0) == cv_zero());
    assert(cv_zeroish(cat_mm(CatalogGate::Hadamard, CatalogGate::Hadamard, 0, 0, 0)));
    assert(cat_mm(CatalogGate::Hadamard, CatalogGate::Hadamard, 0, 0, 1) == cv_add(cat_mm(CatalogGate::Hadamard, CatalogGate::Hadamard, 0, 0, 0), cv_mul(cat_entry(CatalogGate::Hadamard, 0, 0), cat_entry(CatalogGate::Hadamard, 0, 0))));
    assert(cv_wf(cat_entry(CatalogGate::Hadamard, 0, 0)));
    assert(cv_wf(cat_entry(CatalogGate::Hadamard, 0, 0)));
    lemma_mul_wf(cat_entry(CatalogGate::Hadamard, 0, 0), cat_entry(CatalogGate::Hadamard, 0, 0));
    lemma_add_zeroish_left(cat_mm(CatalogGate::Hadamard, CatalogGate::Hadamard, 0, 0, 0), cv_mul(cat_entry(CatalogGate::Hadamard, 0, 0), cat_entry(CatalogGate::Hadamard, 0, 0)));
    assert(cat_mm(CatalogGate::Hadamard, CatalogGate::Hadamard, 0, 0, 2) == cv_add(cat_mm(CatalogGate::Hadamard, CatalogGate::Hadamard, 0, 0, 1), cv_mul(cat_entry(CatalogGate::Hadamard, 0, 1), cat_entry(CatalogGate::Hadamard, 1, 0))));
    assert(cv_wf(cat_entry(CatalogGate::Hadamard, 0, 1)));
    assert(cv_wf(cat_entry(CatalogGate::Hadamard, 1, 0)));
    lemma_mul_wf(cat_entry(CatalogGate::Hadamard, 0, 1), cat_entry(CatalogGate::Hadamard, 1, 0));
    lemma_add_eqv_left(cat_mm(CatalogGate::Hadamard, CatalogGate::Hadamard, 0, 0, 1), cv_mul(cat_entry(CatalogGate::Hadamard, 0, 0), cat_entry(CatalogGate::Hadamard, 0, 0)), cv_mul(cat_entry(CatalogGate::Hadamard, 0, 1), cat_entry(CatalogGate::Hadamard, 1, 0)));
    lemma_eqv_trans(cat_mm(CatalogGate::Hadamard, CatalogGate::Hadamard, 0, 0, 2), cv_add(cat_mm(CatalogGate::Hadamard, CatalogGate::Hadamard, 0, 0, 1), cv_mul(cat_entry(CatalogGate::Hadamard, 0, 1), cat_entry(CatalogGate::Hadamard, 1, 0))), cv_add(cv_mul(cat_entry(CatalogGate::Hadamard, 0, 0), cat_entry(CatalogGate::Hadamard, 0, 0)), cv_mul(cat_entry(CatalogGate::Hadamard, 0, 1), cat_entry(CatalogGate::Hadamard, 1, 0))));
    assert((cv_add(cv_mul(cat_entry(CatalogGate::Hadamard, 0, 0), cat_entry(CatalogGate::Hadamard, 0, 0)), cv_mul(cat_entry(CatalogGate::Hadamard, 0, 1), cat_entry(CatalogGate::Hadamard, 1, 0)))).re.a == (((0) * (0) + 2 * ((1) * (1))) * ((1) * (1)) + (-((0) * (0) + 2 * ((0) * (0)))) * ((2) * (2))) * (((2) * (2)) * ((1) * (1))) + (((0) * (0) + 2 * ((1) * (1))) * ((1) * (1)) + (-((0) * (0) + 2 * ((0) * (0)))) * ((2) * (2))) * (((2) * (2)) * ((1) * (1))));
    assert(((((0) * (0) + 2 * ((1) * (1))) * ((1) * (1)) + (-((0) * (0) + 2 * ((0) * (0)))) * ((2) * (2))) * (((2) * (2)) * ((1) * (1))) + (((0) * (0) + 2 * ((1) * (1))) * ((1) * (1)) + (-((0) * (0) + 2 * ((0) * (0)))) * ((2) * (2))) * (((2) * (2)) * ((1) * (1)))) == 16) by (nonlinear_arith);
    assert((cv_add(cv_mul(cat_entry(CatalogGate::Hadamard, 0, 0), cat_entry(CatalogGate::Hadamard, 0, 0)), cv_mul(cat_entry(CatalogGate::Hadamard, 0, 1), cat_entry(CatalogGate::Hadamard, 1, 0)))).re.b == (((0) * (1) + (1) * (0)) * ((1) * (1)) + (-((0) * (0) + (0) * (0))) * ((2) * (2))) * (((2) * (2)) * ((1) * (1))) + (((0) * (1) + (1) * (0)) * ((1) * (1)) + (-((0) * (0) + (0) * (0))) * ((2) * (2))) * (((2) * (2)) * ((1) * (1))));
    assert(((((0) * (1) + (1) * (0)) * ((1) * (1)) + (-((0) * (0) + (0) * (0))) * ((2) * (2))) * (((2) * (2)) * ((1) * (1))) + (((0) * (1) + (1) * (0)) * ((1) * (1)) + (-((0) * (0) + (0) * (0))) * ((2) * (2))) * (((2) * (2)) * ((1) * (1)))) == 0) by (nonlinear_arith);
    assert((cv_add(cv_mul(cat_entry(CatalogGate::Hadamard, 0, 0), cat_entry(CatalogGate::Hadamard, 0, 0)), cv_mul(cat_entry(CatalogGate::Hadamard, 0, 1), cat_entry(CatalogGate::Hadamard, 1, 0)))).re.d == (((2) * (2)) * ((1) * (1))) * (((2) * (2)) * ((1) * (1))));
    assert(((((2) * (2)) * ((1) * (1))) * (((2) * (2)) * ((1) * (1)))) == 16) by (nonlinear_arith);
    assert((cv_add(cv_mul(cat_entry(CatalogGate::Hadamard, 0, 0), cat_entry(CatalogGate::Hadamard, 0, 0)), cv_mul(cat_entry(CatalogGate::Hadamard, 0, 1), cat_entry(CatalogGate::Hadamard, 1, 0)))).im.a == (((0) * (0) + 2 * ((1) * (0))) * ((1) * (2)) + ((0) * (0) + 2 * ((0) * (1))) * ((2) * (1))) * (((2) * (1)) * ((1) * (2))) + (((0) * (0) + 2 * ((1) * (0))) * ((1) * (2)) + ((0) * (0) + 2 * ((0) * (1))) * ((2) * (1))) * (((2) * (1)) * ((1) * (2))));
    assert(((((0) * (0) + 2 * ((1) * (0))) * ((1) * (2)) + ((0) * (0) + 2 * ((0) * (1))) * ((2) * (1))) * (((2) * (1)) * ((1) * (2))) + (((0) * (0) + 2 * ((1) * (0))) * ((1) * (2)) + ((0) * (0) + 2 * ((0) * (1))) * ((2) * (1))) * (((2) * (1)) * ((1) * (2)))) == 0) by (nonlinear_arith);
    assert((cv_add(cv_mul(cat_entry(CatalogGate::Hadamard, 0, 0), cat_entry(CatalogGate::Hadamard, 0, 0)), cv_mul(cat_entry(CatalogGate::Hadamard, 0, 1), cat_entry(CatalogGate::Hadamard, 1, 0)))).im.b == (((0) * (0) + (1) * (0)) * ((1) * (2)) + ((0) * (1) + (0) * (0)) * ((2) * (1))) * (((2) * (1)) * ((1) * (2))) + (((0) * (0) + (1) * (0)) * ((1) * (2)) + ((0) * (1) + (0) * (0)) * ((2) * (1))) * (((2) * (1)) * ((1) * (2))));
    assert(((((0) * (0) + (1) * (0)) * ((1) * (2)) + ((0) * (1) + (0) * (0)) * ((2) * (1))) * (((2) * (1)) * ((1) * (2))) + (((0) * (0) + (1) * (0)) * ((1) * (2)) + ((0) * (1) + (0) * (0)) * ((2) * (1))) * (((2) * (1)) * ((1) * (2)))) == 0) by (nonlinear_arith);
    assert((cv_add(cv_mul(cat_entry(CatalogGate::Hadamard, 0, 0), cat_entry(CatalogGate::Hadamard, 0, 0)), cv_mul(cat_entry(CatalogGate::Hadamard, 0, 1), cat_entry(CatalogGate::Hadamard, 1, 0)))).im.d == (((2) * (1)) * ((1) * (2))) * (((2) * (1)) * ((1) * (2))));
    assert(((((2) * (1)) * ((1) * (2))) * (((2) * (1)) * ((1) * (2)))) == 16) by (nonlinear_arith);
    assert((cv_add(cv_mul(cat_entry(CatalogGate::Hadamard, 0, 0), cat_entry(CatalogGate::Hadamard, 0, 0)), cv_mul(cat_entry(CatalogGate::Hadamard, 0, 1), cat_entry(CatalogGate::Hadamard, 1, 0)))).re.a * (ident_entry(0, 0)).re.d == (ident_entry(0, 0)).re.a * (cv_add(cv_mul(cat_entry(CatalogGate::Hadamard, 0, 0), cat_entry(CatalogGate::Hadamard, 0, 0)), cv_mul(cat_entry(CatalogGate::Hadamard, 0, 1), cat_entry(CatalogGate::Hadamard, 1, 0)))).re.d)
        by (nonlinear_arith)
        requires
            (cv_add(cv_mul(cat_entry(CatalogGate::Hadamard, 0, 0), cat_entry(CatalogGate::Hadamard, 0, 0)), cv_mul(cat_entry(CatalogGate::Hadamard, 0, 1), cat_entry(CatalogGate::Hadamard, 1, 0)))).re.a == 16,
            (cv_add(cv_mul(cat_entry(CatalogGate::Hadamard, 0, 0), cat_entry(CatalogGate::Hadamard, 0, 0)), cv_mul(cat_entry(CatalogGate::Hadamard, 0, 1), cat_entry(CatalogGate::Hadamard, 1, 0)))).re.d == 16,
            (ident_entry(0, 0)).re.a == 1,
            (ident_entry(0, 0)).re.d == 1;
    assert((cv_add(cv_mul(cat_entry(CatalogGate::Hadamard, 0, 0), cat_entry(CatalogGate::Hadamard, 0, 0)), cv_mul(cat_entry(CatalogGate::Hadamard, 0, 1), cat_entry(CatalogGate::Hadamard, 1, 0)))).re.b * (ident_entry(0, 0)).re.d == (ident_entry(0, 0)).re.b * (cv_add(cv_mul(cat_entry(CatalogGate::Hadamard, 0, 0), cat_entry(CatalogGate::Hadamard, 0, 0)), cv_mul(cat_entry(CatalogGate::Hadamard, 0, 1), cat_entry(CatalogGate::Hadamard, 1, 0)))).re.d)
        by (nonlinear_arith)
        requires
            (cv_add(cv_mul(cat_entry(CatalogGate::Hadamard, 0, 0), cat_entry(CatalogGate::Hadamard, 0, 0)), cv_mul(cat_entry(CatalogGate::Hadamard, 0, 1), cat_entry(CatalogGate::Hadamard, 1, 0)))).re.b == 0,
            (cv_add(cv_mul(cat_entry(CatalogGate::Hadamard, 0, 0), cat_entry(CatalogGate::Hadamard, 0, 0)), cv_mul(cat_entry(CatalogGate::Hadamard, 0, 1), cat_entry(CatalogGate::Hadamard, 1, 0)))).re.d == 16,
            (ident_entry(0, 0)).re.b == 0,
            (ident_entry(0, 0)).re.d == 1;
    assert((cv_add(cv_mul(cat_entry(CatalogGate::Hadamard, 0, 0), cat_entry(CatalogGate::Hadamard, 0, 0)), cv_mul(cat_entry(CatalogGate::Hadamard, 0, 1), cat_entry(CatalogGate::Hadamard, 1, 0)))).im.a * (ident_entry(0, 0)).im.d == (ident_entry(0, 0)).im.a * (cv_add(cv_mul(cat_entry(CatalogGate::Hadamard, 0, 0), cat_entry(CatalogGate::Hadamard, 0, 0)), cv_mul(cat_entry(CatalogGate::Hadamard, 0, 1), cat_entry(CatalogGate::Hadamard, 1, 0)))).im.d)
        by (nonlinear_arith)
        requires
            (cv_add(cv_mul(cat_entry(CatalogGate::Hadamard, 0, 0), cat_entry(CatalogGate::Hadamard, 0, 0)), cv_mul(cat_entry(CatalogGate::Hadamard, 0, 1), cat_entry(CatalogGate::Hadamard, 1, 0)))).im.a == 0,
            (cv_add(cv_mul(cat_entry(CatalogGate::Hadamard, 0, 0), cat_entry(CatalogGate::Hadamard, 0, 0)), cv_mul(cat_entry(CatalogGate::Hadamard, 0, 1), cat_entry(CatalogGate::Hadamard, 1, 0)))).im.d == 16,
            (ident_entry(0, 0)).im.a == 0,
            (ident_entry(0, 0)).im.d == 1;
    assert((cv_add(cv_mul(cat_entry(CatalogGate::Hadamard, 0, 0), cat_entry(CatalogGate::Hadamard, 0, 0)), cv_mul(cat_entry(CatalogGate::Hadamard, 0, 1), cat_entry(CatalogGate::Hadamard, 1, 0)))).im.b * (ident_entry(0, 0)).im.d == (ident_entry(0, 0)).im.b * (cv_add(cv_mul(cat_entry(CatalogGate::Hadamard, 0, 0), cat_entry(CatalogGate::Hadamard, 0, 0)), cv_mul(cat_entry(CatalogGate::Hadamard, 0, 1), cat_entry(CatalogGate::Hadamard, 1, 0)))).im.d)
        by (nonlinear_arith)
        requires
            (cv_add(cv_mul(cat_entry(CatalogGate::Hadamard, 0, 0), cat_entry(CatalogGate::Hadamard, 0, 0)), cv_mul(cat_entry(CatalogGate::Hadamard, 0, 1), cat_entry(CatalogGate::Hadamard, 1, 0)))).im.b == 0,
            (cv_add(cv_mul(cat_entry(CatalogGate::Hadamard, 0, 0), cat_entry(CatalogGate::Hadamard, 0, 0)), cv_mul(cat_entry(CatalogGate::Hadamard, 0, 1), cat_entry(CatalogGate::Hadamard, 1, 0)))).im.d == 16,
            (ident_entry(0, 0)).im.b == 0,
            (ident_entry(0, 0)).im.d == 1;
    assert(cv_eqv(cv_add(cv_mul(cat_entry(CatalogGate::Hadamard, 0, 0), cat_entry(CatalogGate::Hadamard, 0, 0)), cv_mul(cat_entry(CatalogGate::Hadamard, 0, 1), cat_entry(CatalogGate::Hadamard, 1, 0))), ident_entry(0, 0)));
    assert(cv_wf(ident_entry(0, 0)));
    lemma_eqv_trans(cat_mm(CatalogGate::Hadamard, CatalogGate::Hadamard, 0, 0, 2), cv_add(cv_mul(cat_entry(CatalogGate::Hadamard, 0, 0), cat_entry(CatalogGate::Hadamard, 0, 0)), cv_mul(cat_entry(CatalogGate::Hadamard, 0, 1), cat_entry(CatalogGate::Hadamard, 1, 0))), ident_entry(0, 0));
}

proof fn h_mm_case_0_1()
    ensures
        cv_eqv(cat_mm(CatalogGate::Hadamard, CatalogGate::Hadamard, 0, 1, 2), ident_entry(0, 1)),
{
    reveal_with_fuel(cat_mm, 3);
    lemma_zero_zeroish();
    assert(cat_mm(CatalogGate::Hadamard, CatalogGate::Hadamard, 0, 1, 0) == cv_zero());
    assert(cv_zeroish(cat_mm(CatalogGate::Hadamard, CatalogGate::Hadamard, 0, 1, 0)));
    assert(cat_mm(CatalogGate::Hadamard, CatalogGate::Hadamard, 0, 1, 1) == cv_add(cat_mm(CatalogGate::Hadamard, CatalogGate::Hadamard, 0, 1, 0), cv_mul(cat_entry(CatalogGate::Hadamard, 0, 0), cat_entry(CatalogGate::Hadamard, 0, 1))));
    assert(cv_wf(cat_entry(CatalogGate::Hadamard, 0, 0)));
    assert(cv_wf(cat_entry(CatalogGate::Hadamard, 0, 1)));
    lemma_mul_wf(cat_entry(CatalogGate::Hadamard, 0, 0), cat_entry(CatalogGate::Hadamard, 0, 1));
    lemma_add_zeroish_left(cat_mm(CatalogGate::Hadamard, CatalogGate::Hadamard, 0, 1, 0), cv_mul(cat_entry(CatalogGate::Hadamard, 0, 0), cat_entry(CatalogGate::Hadamard, 0, 1)));
    assert(cat_mm(CatalogGate::Hadamard, CatalogGate::Hadamard, 0, 1, 2) == cv_add(cat_mm(CatalogGate::Hadamard, CatalogGate::Hadamard, 0, 1, 1), cv_mul(cat_entry(CatalogGate::Hadamard, 0, 1), cat_entry(CatalogGate::Hadamard, 1, 1))));
    assert(cv_wf(cat_entry(CatalogGate::Hadamard, 0, 1)));
    assert(cv_wf(cat_entry(CatalogGate::Hadamard, 1, 1)));
    lemma_mul_wf(cat_entry(CatalogGate::Hadamard, 0, 1), cat_entry(CatalogGate::Hadamard, 1, 1));
    lemma_add_eqv_left(cat_mm(CatalogGate::Hadamard, CatalogGate::Hadamard, 0, 1, 1), cv_mul(cat_entry(CatalogGate::Hadamard, 0, 0), cat_entry(CatalogGate::Hadamard, 0, 1)), cv_mul(cat_entry(CatalogGate::Hadamard, 0, 1), cat_entry(CatalogGate::Hadamard, 1, 1)));
    lemma_eqv_trans(cat_mm(CatalogGate::Hadamard, CatalogGate::Hadamard, 0, 1, 2), cv_add(cat_mm(CatalogGate::Hadamard, CatalogGate::Hadamard, 0, 1, 1), cv_mul(cat_entry(CatalogGate::Hadamard, 0, 1), cat_entry(CatalogGate::Hadamard, 1, 1))), cv_add(cv_mul(cat_entry(CatalogGate::Hadamard, 0, 0), cat_entry(CatalogGate::Hadamard, 0, 1)), cv_mul(cat_entry(CatalogGate::Hadamard, 0, 1), cat_entry(CatalogGate::Hadamard, 1, 1))));
    assert((cv_add(cv_mul(cat_entry(CatalogGate::Hadamard, 0, 0), cat_entry(CatalogGate::Hadamard, 0, 1)), cv_mul(cat_entry(CatalogGate::Hadamard, 0, 1), cat_entry(CatalogGate::Hadamard, 1, 1)))).re.a == (((0) * (0) + 2 * ((1) * (1))) * ((1) * (1)) + (-((0) * (0) + 2 * ((0) * (0)))) * ((2) * (2))) * (((2) * (2)) * ((1) * (1))) + (((0) * (0) + 2 * ((1) * (-1))) * ((1) * (1)) + (-((0) * (0) + 2 * ((0) * (0)))) * ((2) * (2))) * (((2) * (2)) * ((1) * (1))));
    assert(((((0) * (0) + 2 * ((1) * (1))) * ((1) * (1)) + (-((0) * (0) + 2 * ((0) * (0)))) * ((2) * (2))) * (((2) * (2)) * ((1) * (1))) + (((0) * (0) + 2 * ((1) * (-1))) * ((1) * (1)) + (-((0) * (0) + 2 * ((0) * (0)))) * ((2) * (2))) * (((2) * (2)) * ((1) * (1)))) == 0) by (nonlinear_arith);
    assert((cv_add(cv_mul(cat_entry(CatalogGate::Hadamard, 0, 0), cat_entry(CatalogGate::Hadamard, 0, 1)), cv_mul(cat_entry(CatalogGate::Hadamard, 0, 1), cat_entry(CatalogGate::Hadamard, 1, 1)))).re.b == (((0) * (1) + (1) * (0)) * ((1) * (1)) + (-((0) * (0) + (0) * (0))) * ((2) * (2))) * (((2) * (2)) * ((1) * (1))) + (((0) * (-1) + (1) * (0)) * ((1) * (1)) + (-((0) * (0) + (0) * (0))) * ((2) * (2))) * (((2) * (2)) * ((1) * (1))));
    assert(((((0) * (1) + (1) * (0)) * ((1) * (1)) + (-((0) * (0) + (0) * (0))) * ((2) * (2))) * (((2) * (2)) * ((1) * (1))) + (((0) * (-1) + (1) * (0)) * ((1) * (1)) + (-((0) * (0) + (0) * (0))) * ((2) * (2))) * (((2) * (2)) * ((1) * (1)))) == 0) by (nonlinear_arith);
    assert((cv_add(cv_mul(cat_entry(CatalogGate::Hadamard, 0, 0), cat_entry(CatalogGate::Hadamard, 0, 1)), cv_mul(cat_entry(CatalogGate::Hadamard, 0, 1), cat_entry(CatalogGate::Hadamard, 1, 1)))).re.d == (((2) * (2)) * ((1) * (1))) * (((2) * (2)) * ((1) * (1))));
    assert(((((2) * (2)) * ((1) * (1))) * (((2) * (2)) * ((1) * (1)))) == 16) by (nonlinear_arith);
    assert((cv_add(cv_mul(cat_entry(CatalogGate::Hadamard, 0, 0), cat_entry(CatalogGate::Hadamard, 0, 1)), cv_mul(cat_entry(CatalogGate::Hadamard, 0, 1), cat_entry(CatalogGate::Hadamard, 1, 1)))).im.a == (((0) * (0) + 2 * ((1) * (0))) * ((1) * (2)) + ((0) * (0) + 2 * ((0) * (1))) * ((2) * (1))) * (((2) * (1)) * ((1) * (2))) + (((0) * (0) + 2 * ((1) * (0))) * ((1) * (2)) + ((0) * (0) + 2 * ((0) * (-1))) * ((2) * (1))) * (((2) * (1)) * ((1) * (2))));
    assert(((((0) * (0) + 2 * ((1) * (0))) * ((1) * (2)) + ((0) * (0) + 2 * ((0) * (1))) * ((2) * (1))) * (((2) * (1)) * ((1) * (2))) + (((0) * (0) + 2 * ((1) * (0))) * ((1) * (2)) + ((0) * (0) + 2 * ((0) * (-1))) * ((2) * (1))) * (((2) * (1)) * ((1) * (2)))) == 0) by (nonlinear_arith);
    assert((cv_add(cv_mul(cat_entry(CatalogGate::Hadamard, 0, 0), cat_entry(CatalogGate::Hadamard, 0, 1)), cv_mul(cat_entry(CatalogGate::Hadamard, 0, 1), cat_entry(CatalogGate::Hadamard, 1, 1)))).im.b == (((0) * (0) + (1) * (0)) * ((1) * (2)) + ((0) * (1) + (0) * (0)) * ((2) * (1))) * (((2) * (1)) * ((1) * (2))) + (((0) * (0) + (1) * (0)) * ((1) * (2)) + ((0) * (-1) + (0) * (0)) * ((2) * (1))) * (((2) * (1)) * ((1) * (2))));
    assert(((((0) * (0) + (1) * (0)) * ((1) * (2)) + ((0) * (1) + (0) * (0)) * ((2) * (1))) * (((2) * (1)) * ((1) * (2))) + (((0) * (0) + (1) * (0)) * ((1) * (2)) + ((0) * (-1) + (0) * (0)) * ((2) * (1))) * (((2) * (1)) * ((1) * (2)))) == 0) by (nonlinear_arith);
    assert((cv_add(cv_mul(cat_entry(CatalogGate::Hadamard, 0, 0), cat_entry(CatalogGate::Hadamard, 0, 1)), cv_mul(cat_entry(CatalogGate::Hadamard, 0, 1), cat_entry(CatalogGate::Hadamard, 1, 1)))).im.d == (((2) * (1)) * ((1) * (2))) * (((2) * (1)) * ((1) * (2))));
    assert(((((2) * (1)) * ((1) * (2))) * (((2) * (1)) * ((1) * (2)))) == 16) by (nonlinear_arith);
    assert((cv_add(cv_mul(cat_entry(CatalogGate::Hadamard, 0, 0), cat_entry(CatalogGate::Hadamard, 0, 1)), cv_mul(cat_entry(CatalogGate::Hadamard, 0, 1), cat_entry(CatalogGate::Hadamard, 1, 1)))).re.a * (ident_entry(0, 1)).re.d == (ident_entry(0, 1)).re.a * (cv_add(cv_mul(cat_entry(CatalogGate::Hadamard, 0, 0), cat_entry(CatalogGate::Hadamard, 0, 1)), cv_mul(cat_entry(CatalogGate::Hadamard, 0, 1), cat_entry(CatalogGate::Hadamard, 1, 1)))).re.d)
        by (nonlinear_arith)
        requires
            (cv_add(cv_mul(cat_entry(CatalogGate::Hadamard, 0, 0), cat_entry(CatalogGate::Hadamard, 0, 1)), cv_mul(cat_entry(CatalogGate::Hadamard, 0, 1), cat_entry(CatalogGate::Hadamard, 1, 1)))).re.a == 0,
            (cv_add(cv_mul(cat_entry(CatalogGate::Hadamard, 0, 0), cat_entry(CatalogGate::Hadamard, 0, 1)), cv_mul(cat_entry(CatalogGate::Hadamard, 0, 1), cat_entry(CatalogGate::Hadamard, 1, 1)))).re.d == 16,
            (ident_entry(0, 1)).re.a == 0,
            (ident_entry(0, 1)).re.d == 1;
    assert((cv_add(cv_mul(cat_entry(CatalogGate::Hadamard, 0, 0), cat_entry(CatalogGate::Hadamard, 0, 1)), cv_mul(cat_entry(CatalogGate::Hadamard, 0, 1), cat_entry(CatalogGate::Hadamard, 1, 1)))).re.b * (ident_entry(0, 1)).re.d == (ident_entry(0, 1)).re.b * (cv_add(cv_mul(cat_entry(CatalogGate::Hadamard, 0, 0), cat_entry(CatalogGate::Hadamard, 0, 1)), cv_mul(cat_entry(CatalogGate::Hadamard, 0, 1), cat_entry(CatalogGate::Hadamard, 1, 1)))).re.d)
        by (nonlinear_arith)
        requires
            (cv_add(cv_mul(cat_entry(CatalogGate::Hadamard, 0, 0), cat_entry(CatalogGate::Hadamard, 0, 1)), cv_mul(cat_entry(CatalogGate::Hadamard, 0, 1), cat_entry(CatalogGate::Hadamard, 1, 1)))).re.b == 0,
            (cv_add(cv_mul(cat_entry(CatalogGate::Hadamard, 0, 0), cat_entry(CatalogGate::Hadamard, 0, 1)), cv_mul(cat_entry(CatalogGate::Hadamard, 0, 1), cat_entry(CatalogGate::Hadamard, 1, 1)))).re.d == 16,
            (ident_entry(0, 1)).re.b == 0,
            (ident_entry(0, 1)).re.d == 1;
    assert((cv_add(cv_mul(cat_entry(CatalogGate::Hadamard, 0, 0), cat_entry(CatalogGate::Hadamard, 0, 1)), cv_mul(cat_entry(CatalogGate::Hadamard, 0, 1), cat_entry(CatalogGate::Hadamard, 1, 1)))).im.a * (ident_entry(0, 1)).im.d == (ident_entry(0, 1)).im.a * (cv_add(cv_mul(cat_entry(CatalogGate::Hadamard, 0, 0), cat_entry(CatalogGate::Hadamard, 0, 1)), cv_mul(cat_entry(CatalogGate::Hadamard, 0, 1), cat_entry(CatalogGate::Hadamard, 1, 1)))).im.d)
        by (nonlinear_arith)
        requires
            (cv_add(cv_mul(cat_entry(CatalogGate::Hadamard, 0, 0), cat_entry(CatalogGate::Hadamard, 0, 1)), cv_mul(cat_entry(CatalogGate::Hadamard, 0, 1), cat_entry(CatalogGate::Hadamard, 1, 1)))).im.a == 0,
            (cv_add(cv_mul(cat_entry(CatalogGate::Hadamard, 0, 0), cat_entry(CatalogGate::Hadamard, 0, 1)), cv_mul(cat_entry(CatalogGate::Hadamard, 0, 1), cat_entry(CatalogGate::Hadamard, 1, 1)))).im.d == 16,
            (ident_entry(0, 1)).im.a == 0,
            (ident_entry(0, 1)).im.d == 1;
    assert((cv_add(cv_mul(cat_entry(CatalogGate::Hadamard, 0, 0), cat_entry(CatalogGate::Hadamard, 0, 1)), cv_mul(cat_entry(CatalogGate::Hadamard, 0, 1), cat_entry(CatalogGate::Hadamard, 1, 1)))).im.b * (ident_entry(0, 1)).im.d == (ident_entry(0, 1)).im.b * (cv_add(cv_mul(cat_entry(CatalogGate::Hadamard, 0, 0), cat_entry(CatalogGate::Hadamard, 0, 1)), cv_mul(cat_entry(CatalogGate::Hadamard, 0, 1), cat_entry(CatalogGate::Hadamard, 1, 1)))).im.d)
        by (nonlinear_arith)
        requires
            (cv_add(cv_mul(cat_entry(CatalogGate::Hadamard, 0, 0), cat_entry(CatalogGate::Hadamard, 0, 1)), cv_mul(cat_entry(CatalogGate::Hadamard, 0, 1), cat_entry(CatalogGate::Hadamard, 1, 1)))).im.b == 0,
            (cv_add(cv_mul(cat_entry(CatalogGate::Hadamard, 0, 0), cat_entry(CatalogGate::Hadamard, 0, 1)), cv_mul(cat_entry(CatalogGate::Hadamard, 0, 1), cat_entry(CatalogGate::Hadamard, 1, 1)))).im.d == 16,
            (ident_entry(0, 1)).im.b == 0,
            (ident_entry(0, 1)).im.d == 1;
    assert(cv_eqv(cv_add(cv_mul(cat_entry(CatalogGate::Hadamard, 0, 0), cat_entry(CatalogGate::Hadamard, 0, 1)), cv_mul(cat_entry(CatalogGate::Hadamard, 0, 1), cat_entry(CatalogGate::Hadamard, 1, 1))), ident_entry(0, 1)));
    assert(cv_wf(ident_entry(0, 1)));
    lemma_eqv_trans(cat_mm(CatalogGate::Hadamard, CatalogGate::Hadamard, 0, 1, 2), cv_add(cv_mul(cat_entry(CatalogGate::Hadamard, 0, 0), cat_entry(CatalogGate::Hadamard, 0, 1)), cv_mul(cat_entry(CatalogGate::Hadamard, 0, 1), cat_entry(CatalogGate::Hadamard, 1, 1))), ident_entry(0, 1));
}

proof fn h_mm_case_1_0()
    ensures
        cv_eqv(cat_mm(CatalogGate::Hadamard, CatalogGate::Hadamard, 1, 0, 2), ident_entry(1, 0)),
{
    reveal_with_fuel(cat_mm, 3);
    lemma_zero_zeroish();
    assert(cat_mm(CatalogGate::Hadamard, CatalogGate::Hadamard, 1, 0, 0) == cv_zero());
    assert(cv_zeroish(cat_mm(CatalogGate::Hadamard, CatalogGate::Hadamard, 1, 0, 0)));
    assert(cat_mm(CatalogGate::Hadamard, CatalogGate::Hadamard, 1, 0, 1) == cv_add(cat_mm(CatalogGate::Hadamard, CatalogGate::Hadamard, 1, 0, 0), cv_mul(cat_entry(CatalogGate::Hadamard, 1, 0), cat_entry(CatalogGate::Hadamard, 0, 0))));
    assert(cv_wf(cat_entry(CatalogGate::Hadamard, 1, 0)));
    assert(cv_wf(cat_entry(CatalogGate::Hadamard, 0, 0)));
    lemma_mul_wf(cat_entry(CatalogGate::Hadamard, 1, 0), cat_entry(CatalogGate::Hadamard, 0, 0));
    lemma_add_zeroish_left(cat_mm(CatalogGate::Hadamard, CatalogGate::Hadamard, 1, 0, 0), cv_mul(cat_entry(CatalogGate::Hadamard, 1, 0), cat_entry(CatalogGate::Hadamard, 0, 0)));
    assert(cat_mm(CatalogGate::Hadamard, CatalogGate::Hadamard, 1, 0, 2) == cv_add(cat_mm(CatalogGate::Hadamard, CatalogGate::Hadamard, 1, 0, 1), cv_mul(cat_entry(CatalogGate::Hadamard, 1, 1), cat_entry(CatalogGate::Hadamard, 1, 0))));
    assert(cv_wf(cat_entry(CatalogGate::Hadamard, 1, 1)));
    assert(cv_wf(cat_entry(CatalogGate::Hadamard, 1, 0)));
    lemma_mul_wf(cat_entry(CatalogGate::Hadamard, 1, 1), cat_entry(CatalogGate::Hadamard, 1, 0));
    lemma_add_eqv_left(cat_mm(CatalogGate::Hadamard, CatalogGate::Hadamard, 1, 0, 1), cv_mul(cat_entry(CatalogGate::Hadamard, 1, 0), cat_entry(CatalogGate::Hadamard, 0, 0)), cv_mul(cat_entry(CatalogGate::Hadamard, 1, 1), cat_entry(CatalogGate::Hadamard, 1, 0)));
    lemma_eqv_trans(cat_mm(CatalogGate::Hadamard, CatalogGate::Hadamard, 1, 0, 2), cv_add(cat_mm(CatalogGate::Hadamard, CatalogGate::Hadamard, 1, 0, 1), cv_mul(cat_entry(CatalogGate::Hadamard, 1, 1), cat_entry(CatalogGate::Hadamard, 1, 0))), cv_add(cv_mul(cat_entry(CatalogGate::Hadamard, 1, 0), cat_entry(CatalogGate::Hadamard, 0, 0)), cv_mul(cat_entry(CatalogGate::Hadamard, 1, 1), cat_entry(CatalogGate::Hadamard, 1, 0))));
    assert((cv_add(cv_mul(cat_entry(CatalogGate::Hadamard, 1, 0), cat_entry(CatalogGate::Hadamard, 0, 0)), cv_mul(cat_entry(CatalogGate::Hadamard, 1, 1), cat_entry(CatalogGate::Hadamard, 1, 0)))).re.a == (((0) * (0) + 2 * ((1) * (1))) * ((1) * (1)) + (-((0) * (0) + 2 * ((0) * (0)))) * ((2) * (2))) * (((2) * (2)) * ((1) * (1))) + (((0) * (0) + 2 * ((-1) * (1))) * ((1) * (1)) + (-((0) * (0) + 2 * ((0) * (0)))) * ((2) * (2))) * (((2) * (2)) * ((1) * (1))));
    assert(((((0) * (0) + 2 * ((1) * (1))) * ((1) * (1)) + (-((0) * (0) + 2 * ((0) * (0)))) * ((2) * (2))) * (((2) * (2)) * ((1) * (1))) + (((0) * (0) + 2 * ((-1) * (1))) * ((1) * (1)) + (-((0) * (0) + 2 * ((0) * (0)))) * ((2) * (2))) * (((2) * (2)) * ((1) * (1)))) == 0) by (nonlinear_arith);
    assert((cv_add(cv_mul(cat_entry(CatalogGate::Hadamard, 1, 0), cat_entry(CatalogGate::Hadamard, 0, 0)), cv_mul(cat_entry(CatalogGate::Hadamard, 1, 1), cat_entry(CatalogGate::Hadamard, 1, 0)))).re.b == (((0) * (1) + (1) * (0)) * ((1) * (1)) + (-((0) * (0) + (0) * (0))) * ((2) * (2))) * (((2) * (2)) * ((1) * (1))) + (((0) * (1) + (-1) * (0)) * ((1) * (1)) + (-((0) * (0) + (0) * (0))) * ((2) * (2))) * (((2) * (2)) * ((1) * (1))));
    assert(((((0) * (1) + (1) * (0)) * ((1) * (1)) + (-((0) * (0) + (0) * (0))) * ((2) * (2))) * (((2) * (2)) * ((1) * (1))) + (((0) * (1) + (-1) * (0)) * ((1) * (1)) + (-((0) * (0) + (0) * (0))) * ((2) * (2))) * (((2) * (2)) * ((1) * (1)))) == 0) by (nonlinear_arith);
    assert((cv_add(cv_mul(cat_entry(CatalogGate::Hadamard, 1, 0), cat_entry(CatalogGate::Hadamard, 0, 0)), cv_mul(cat_entry(CatalogGate::Hadamard, 1, 1), cat_entry(CatalogGate::Hadamard, 1, 0)))).re.d == (((2) * (2)) * ((1) * (1))) * (((2) * (2)) * ((1) * (1))));
    assert(((((2) * (2)) * ((1) * (1))) * (((2) * (2)) * ((1) * (1)))) == 16) by (nonlinear_arith);
    assert((cv_add(cv_mul(cat_entry(CatalogGate::Hadamard, 1, 0), cat_entry(CatalogGate::Hadamard, 0, 0)), cv_mul(cat_entry(CatalogGate::Hadamard, 1, 1), cat_entry(CatalogGate::Hadamard, 1, 0)))).im.a == (((0) * (0) + 2 * ((1) * (0))) * ((1) * (2)) + ((0) * (0) + 2 * ((0) * (1))) * ((2) * (1))) * (((2) * (1)) * ((1) * (2))) + (((0) * (0) + 2 * ((-1) * (0))) * ((1) * (2)) + ((0) * (0) + 2 * ((0) * (1))) * ((2) * (1))) * (((2) * (1)) * ((1) * (2))));
    assert(((((0) * (0) + 2 * ((1) * (0))) * ((1) * (2)) + ((0) * (0) + 2 * ((0) * (1))) * ((2) * (1))) * (((2) * (1)) * ((1) * (2))) + (((0) * (0) + 2 * ((-1) * (0))) * ((1) * (2)) + ((0) * (0) + 2 * ((0) * (1))) * ((2) * (1))) * (((2) * (1)) * ((1) * (2)))) == 0) by (nonlinear_arith);
    assert((cv_add(cv_mul(cat_entry(CatalogGate::Hadamard, 1, 0), cat_entry(CatalogGate::Hadamard, 0, 0)), cv_mul(cat_entry(CatalogGate::Hadamard, 1, 1), cat_entry(CatalogGate::Hadamard, 1, 0)))).im.b == (((0) * (0) + (1) * (0)) * ((1) * (2)) + ((0) * (1) + (0) * (0)) * ((2) * (1))) * (((2) * (1)) * ((1) * (2))) + (((0) * (0) + (-1) * (0)) * ((1) * (2)) + ((0) * (1) + (0) * (0)) * ((2) * (1))) * (((2) * (1)) * ((1) * (2))));
    assert(((((0) * (0) + (1) * (0)) * ((1) * (2)) + ((0) * (1) + (0) * (0)) * ((2) * (1))) * (((2) * (1)) * ((1) * (2))) + (((0) * (0) + (-1) * (0)) * ((1) * (2)) + ((0) * (1) + (0) * (0)) * ((2) * (1))) * (((2) * (1)) * ((1) * (2)))) == 0) by (nonlinear_arith);
    assert((cv_add(cv_mul(cat_entry(CatalogGate::Hadamard, 1, 0), cat_entry(CatalogGate::Hadamard, 0, 0)), cv_mul(cat_entry(CatalogGate::Hadamard, 1, 1), cat_entry(CatalogGate::Hadamard, 1, 0)))).im.d == (((2) * (1)) * ((1) * (2))) * (((2) * (1)) * ((1) * (2))));
    assert(((((2) * (1)) * ((1) * (2))) * (((2) * (1)) * ((1) * (2)))) == 16) by (nonlinear_arith);
    assert((cv_add(cv_mul(cat_entry(CatalogGate::Hadamard, 1, 0), cat_entry(CatalogGate::Hadamard, 0, 0)), cv_mul(cat_entry(CatalogGate::Hadamard, 1, 1), cat_entry(CatalogGate::Hadamard, 1, 0)))).re.a * (ident_entry(1, 0)).re.d == (ident_entry(1, 0)).re.a * (cv_add(cv_mul(cat_entry(CatalogGate::Hadamard, 1, 0), cat_entry(CatalogGate::Hadamard, 0, 0)), cv_mul(cat_entry(CatalogGate::Hadamard, 1, 1), cat_entry(CatalogGate::Hadamard, 1, 0)))).re.d)
        by (nonlinear_arith)
        requires
            (cv_add(cv_mul(cat_entry(CatalogGate::Hadamard, 1, 0), cat_entry(CatalogGate::Hadamard, 0, 0)), cv_mul(cat_entry(CatalogGate::Hadamard, 1, 1), cat_entry(CatalogGate::Hadamard, 1, 0)))).re.a == 0,
            (cv_add(cv_mul(cat_entry(CatalogGate::Hadamard, 1, 0), cat_entry(CatalogGate::Hadamard, 0, 0)), cv_mul(cat_entry(CatalogGate::Hadamard, 1, 1), cat_entry(CatalogGate::Hadamard, 1, 0)))).re.d == 16,
            (ident_entry(1, 0)).re.a == 0,
            (ident_entry(1, 0)).re.d == 1;
    assert((cv_add(cv_mul(cat_entry(CatalogGate::Hadamard, 1, 0), cat_entry(CatalogGate::Hadamard, 0, 0)), cv_mul(cat_entry(CatalogGate::Hadamard, 1, 1), cat_entry(CatalogGate::Hadamard, 1, 0)))).re.b * (ident_entry(1, 0)).re.d == (ident_entry(1, 0)).re.b * (cv_add(cv_mul(cat_entry(CatalogGate::Hadamard, 1, 0), cat_entry(CatalogGate::Hadamard, 0, 0)), cv_mul(cat_entry(CatalogGate::Hadamard, 1, 1), cat_entry(CatalogGate::Hadamard, 1, 0)))).re.d)
        by (nonlinear_arith)
        requires
            (cv_add(cv_mul(cat_entry(CatalogGate::Hadamard, 1, 0), cat_entry(CatalogGate::Hadamard, 0, 0)), cv_mul(cat_entry(CatalogGate::Hadamard, 1, 1), cat_entry(CatalogGate::Hadamard, 1, 0)))).re.b == 0,
            (cv_add(cv_mul(cat_entry(CatalogGate::Hadamard, 1, 0), cat_entry(CatalogGate::Hadamard, 0, 0)), cv_mul(cat_entry(CatalogGate::Hadamard, 1, 1), cat_entry(CatalogGate::Hadamard, 1, 0)))).re.d == 16,
            (ident_entry(1, 0)).re.b == 0,
            (ident_entry(1, 0)).re.d == 1;
    assert((cv_add(cv_mul(cat_entry(CatalogGate::Hadamard, 1, 0), cat_entry(CatalogGate::Hadamard, 0, 0)), cv_mul(cat_entry(CatalogGate::Hadamard, 1, 1), cat_entry(CatalogGate::Hadamard, 1, 0)))).im.a * (ident_entry(1, 0)).im.d == (ident_entry(1, 0)).im.a * (cv_add(cv_mul(cat_entry(CatalogGate::Hadamard, 1, 0), cat_entry(CatalogGate::Hadamard, 0, 0)), cv_mul(cat_entry(CatalogGate::Hadamard, 1, 1), cat_entry(CatalogGate::Hadamard, 1, 0)))).im.d)
        by (nonlinear_arith)
        requires
            (cv_add(cv_mul(cat_entry(CatalogGate::Hadamard, 1, 0), cat_entry(CatalogGate::Hadamard, 0, 0)), cv_mul(cat_entry(CatalogGate::Hadamard, 1, 1), cat_entry(CatalogGate::Hadamard, 1, 0)))).im.a == 0,
            (cv_add(cv_mul(cat_entry(CatalogGate::Hadamard, 1, 0), cat_entry(CatalogGate::Hadamard, 0, 0)), cv_mul(cat_entry(CatalogGate::Hadamard, 1, 1), cat_entry(CatalogGate::Hadamard, 1, 0)))).im.d == 16,
            (ident_entry(1, 0)).im.a == 0,
            (ident_entry(1, 0)).im.d == 1;
    assert((cv_add(cv_mul(cat_entry(CatalogGate::Hadamard, 1, 0), cat_entry(CatalogGate::Hadamard, 0, 0)), cv_mul(cat_entry(CatalogGate::Hadamard, 1, 1), cat_entry(CatalogGate::Hadamard, 1, 0)))).im.b * (ident_entry(1, 0)).im.d == (ident_entry(1, 0)).im.b * (cv_add(cv_mul(cat_entry(CatalogGate::Hadamard, 1, 0), cat_entry(CatalogGate::Hadamard, 0, 0)), cv_mul(cat_entry(CatalogGate::Hadamard, 1, 1), cat_entry(CatalogGate::Hadamard, 1, 0)))).im.d)
        by (nonlinear_arith)
        requires
            (cv_add(cv_mul(cat_entry(CatalogGate::Hadamard, 1, 0), cat_entry(CatalogGate::Hadamard, 0, 0)), cv_mul(cat_entry(CatalogGate::Hadamard, 1, 1), cat_entry(CatalogGate::Hadamard, 1, 0)))).im.b == 0,
            (cv_add(cv_mul(cat_entry(CatalogGate::Hadamard, 1, 0), cat_entry(CatalogGate::Hadamard, 0, 0)), cv_mul(cat_entry(CatalogGate::Hadamard, 1, 1), cat_entry(CatalogGate::Hadamard, 1, 0)))).im.d == 16,
            (ident_entry(1, 0)).im.b == 0,
            (ident_entry(1, 0)).im.d == 1;
    assert(cv_eqv(cv_add(cv_mul(cat_entry(CatalogGate::Hadamard, 1, 0), cat_entry(CatalogGate::Hadamard, 0, 0)), cv_mul(cat_entry(CatalogGate::Hadamard, 1, 1), cat_entry(CatalogGate::Hadamard, 1, 0))), ident_entry(1, 0)));
    assert(cv_wf(ident_entry(1, 0)));
    lemma_eqv_trans(cat_mm(CatalogGate::Hadamard, CatalogGate::Hadamard, 1, 0, 2), cv_add(cv_mul(cat_entry(CatalogGate::Hadamard, 1, 0), cat_entry(CatalogGate::Hadamard, 0, 0)), cv_mul(cat_entry(CatalogGate::Hadamard, 1, 1), cat_entry(CatalogGate::Hadamard, 1, 0))), ident_entry(1, 0));
}

proof fn h_mm_case_1_1()
    ensures
        cv_eqv(cat_mm(CatalogGate::Hadamard, CatalogGate::Hadamard, 1, 1, 2), ident_entry(1, 1)),
{
    reveal_with_fuel(cat_mm, 3);
    lemma_zero_zeroish();
    assert(cat_mm(CatalogGate::Hadamard, CatalogGate::Hadamard, 1, 1, 0) == cv_zero());
    assert(cv_zeroish(cat_mm(CatalogGate::Hadamard, CatalogGate::Hadamard, 1, 1, 0)));
    assert(cat_mm(CatalogGate::Hadamard, CatalogGate::Hadamard, 1, 1, 1) == cv_add(cat_mm(CatalogGate::Hadamard, CatalogGate::Hadamard, 1, 1, 0), cv_mul(cat_entry(CatalogGate::Hadamard, 1, 0), cat_entry(CatalogGate::Hadamard, 0, 1))));
    assert(cv_wf(cat_entry(CatalogGate::Hadamard, 1, 0)));
    assert(cv_wf(cat_entry(CatalogGate::Hadamard, 0, 1)));
    lemma_mul_wf(cat_entry(CatalogGate::Hadamard, 1, 0), cat_entry(CatalogGate::Hadamard, 0, 1));
    lemma_add_zeroish_left(cat_mm(CatalogGate::Hadamard, CatalogGate::Hadamard, 1, 1, 0), cv_mul(cat_entry(CatalogGate::Hadamard, 1, 0), cat_entry(CatalogGate::Hadamard, 0, 1)));
    assert(cat_mm(CatalogGate::Hadamard, CatalogGate::Hadamard, 1, 1, 2) == cv_add(cat_mm(CatalogGate::Hadamard, CatalogGate::Hadamard, 1, 1, 1), cv_mul(cat_entry(CatalogGate::Hadamard, 1, 1), cat_entry(CatalogGate::Hadamard, 1, 1))));
    assert(cv_wf(cat_entry(CatalogGate::Hadamard, 1, 1)));
    assert(cv_wf(cat_entry(CatalogGate::Hadamard, 1, 1)));
    lemma_mul_wf(cat_entry(CatalogGate::Hadamard, 1, 1), cat_entry(CatalogGate::Hadamard, 1, 1));
    lemma_add_eqv_left(cat_mm(CatalogGate::Hadamard, CatalogGate::Hadamard, 1, 1, 1), cv_mul(cat_entry(CatalogGate::Hadamard, 1, 0), cat_entry(CatalogGate::Hadamard, 0, 1)), cv_mul(cat_entry(CatalogGate::Hadamard, 1, 1), cat_entry(CatalogGate::Hadamard, 1, 1)));
    lemma_eqv_trans(cat_mm(CatalogGate::Hadamard, CatalogGate::Hadamard, 1, 1, 2), cv_add(cat_mm(CatalogGate::Hadamard, CatalogGate::Hadamard, 1, 1, 1), cv_mul(cat_entry(CatalogGate::Hadamard, 1, 1), cat_entry(CatalogGate::Hadamard, 1, 1))), cv_add(cv_mul(cat_entry(CatalogGate::Hadamard, 1, 0), cat_entry(CatalogGate::Hadamard, 0, 1)), cv_mul(cat_entry(CatalogGate::Hadamard, 1, 1), cat_entry(CatalogGate::Hadamard, 1, 1))));
    assert((cv_add(cv_mul(cat_entry(CatalogGate::Hadamard, 1, 0), cat_entry(CatalogGate::Hadamard, 0, 1)), cv_mul(cat_entry(CatalogGate::Hadamard, 1, 1), cat_entry(CatalogGate::Hadamard, 1, 1)))).re.a == (((0) * (0) + 2 * ((1) * (1))) * ((1) * (1)) + (-((0) * (0) + 2 * ((0) * (0)))) * ((2) * (2))) * (((2) * (2)) * ((1) * (1))) + (((0) * (0) + 2 * ((-1) * (-1))) * ((1) * (1)) + (-((0) * (0) + 2 * ((0) * (0)))) * ((2) * (2))) * (((2) * (2)) * ((1) * (1))));
    assert(((((0) * (0) + 2 * ((1) * (1))) * ((1) * (1)) + (-((0) * (0) + 2 * ((0) * (0)))) * ((2) * (2))) * (((2) * (2)) * ((1) * (1))) + (((0) * (0) + 2 * ((-1) * (-1))) * ((1) * (1)) + (-((0) * (0) + 2 * ((0) * (0)))) * ((2) * (2))) * (((2) * (2)) * ((1) * (1)))) == 16) by (nonlinear_arith);
    assert((cv_add(cv_mul(cat_entry(CatalogGate::Hadamard, 1, 0), cat_entry(CatalogGate::Hadamard, 0, 1)), cv_mul(cat_entry(CatalogGate::Hadamard, 1, 1), cat_entry(CatalogGate::Hadamard, 1, 1)))).re.b == (((0) * (1) + (1) * (0)) * ((1) * (1)) + (-((0) * (0) + (0) * (0))) * ((2) * (2))) * (((2) * (2)) * ((1) * (1))) + (((0) * (-1) + (-1) * (0)) * ((1) * (1)) + (-((0) * (0) + (0) * (0))) * ((2) * (2))) * (((2) * (2)) * ((1) * (1))));
    assert(((((0) * (1) + (1) * (0)) * ((1) * (1)) + (-((0) * (0) + (0) * (0))) * ((2) * (2))) * (((2) * (2)) * ((1) * (1))) + (((0) * (-1) + (-1) * (0)) * ((1) * (1)) + (-((0) * (0) + (0) * (0))) * ((2) * (2))) * (((2) * (2)) * ((1) * (1)))) == 0) by (nonlinear_arith);
    assert((cv_add(cv_mul(cat_entry(CatalogGate::Hadamard, 1, 0), cat_entry(CatalogGate::Hadamard, 0, 1)), cv_mul(cat_entry(CatalogGate::Hadamard, 1, 1), cat_entry(CatalogGate::Hadamard, 1, 1)))).re.d == (((2) * (2)) * ((1) * (1))) * (((2) * (2)) * ((1) * (1))));
    assert(((((2) * (2)) * ((1) * (1))) * (((2) * (2)) * ((1) * (1)))) == 16) by (nonlinear_arith);
    assert((cv_add(cv_mul(cat_entry(CatalogGate::Hadamard, 1, 0), cat_entry(CatalogGate::Hadamard, 0, 1)), cv_mul(cat_entry(CatalogGate::Hadamard, 1, 1), cat_entry(CatalogGate::Hadamard, 1, 1)))).im.a == (((0) * (0) + 2 * ((1) * (0))) * ((1) * (2)) + ((0) * (0) + 2 * ((0) * (1))) * ((2) * (1))) * (((2) * (1)) * ((1) * (2))) + (((0) * (0) + 2 * ((-1) * (0))) * ((1) * (2)) + ((0) * (0) + 2 * ((0) * (-1))) * ((2) * (1))) * (((2) * (1)) * ((1) * (2))));
    assert(((((0) * (0) + 2 * ((1) * (0))) * ((1) * (2)) + ((0) * (0) + 2 * ((0) * (1))) * ((2) * (1))) * (((2) * (1)) * ((1) * (2))) + (((0) * (0) + 2 * ((-1) * (0))) * ((1) * (2)) + ((0) * (0) + 2 * ((0) * (-1))) * ((2) * (1))) * (((2) * (1)) * ((1) * (2)))) == 0) by (nonlinear_arith);
    assert((cv_add(cv_mul(cat_entry(CatalogGate::Hadamard, 1, 0), cat_entry(CatalogGate::Hadamard, 0, 1)), cv_mul(cat_entry(CatalogGate::Hadamard, 1, 1), cat_entry(CatalogGate::Hadamard, 1, 1)))).im.b == (((0) * (0) + (1) * (0)) * ((1) * (2)) + ((0) * (1) + (0) * (0)) * ((2) * (1))) * (((2) * (1)) * ((1) * (2))) + (((0) * (0) + (-1) * (0)) * ((1) * (2)) + ((0) * (-1) + (0) * (0)) * ((2) * (1))) * (((2) * (1)) * ((1) * (2))));
    assert(((((0) * (0) + (1) * (0)) * ((1) * (2)) + ((0) * (1) + (0) * (0)) * ((2) * (1))) * (((2) * (1)) * ((1) * (2))) + (((0) * (0) + (-1) * (0)) * ((1) * (2)) + ((0) * (-1) + (0) * (0)) * ((2) * (1))) * (((2) * (1)) * ((1) * (2)))) == 0) by (nonlinear_arith);
    assert((cv_add(cv_mul(cat_entry(CatalogGate::Hadamard, 1, 0), cat_entry(CatalogGate::Hadamard, 0, 1)), cv_mul(cat_entry(CatalogGate::Hadamard, 1, 1), cat_entry(CatalogGate::Hadamard, 1, 1)))).im.d == (((2) * (1)) * ((1) * (2))) * (((2) * (1)) * ((1) * (2))));
    assert(((((2) * (1)) * ((1) * (2))) * (((2) * (1)) * ((1) * (2)))) == 16) by (nonlinear_arith);
    assert((cv_add(cv_mul(cat_entry(CatalogGate::Hadamard, 1, 0), cat_entry(CatalogGate::Hadamard, 0, 1)), cv_mul(cat_entry(CatalogGate::Hadamard, 1, 1), cat_entry(CatalogGate::Hadamard, 1, 1)))).re.a * (ident_entry(1, 1)).re.d == (ident_entry(1, 1)).re.a * (cv_add(cv_mul(cat_entry(CatalogGate::Hadamard, 1, 0), cat_entry(CatalogGate::Hadamard, 0, 1)), cv_mul(cat_entry(CatalogGate::Hadamard, 1, 1), cat_entry(CatalogGate::Hadamard, 1, 1)))).re.d)
        by (nonlinear_arith)
        requires
            (cv_add(cv_mul(cat_entry(CatalogGate::Hadamard, 1, 0), cat_entry(CatalogGate::Hadamard, 0, 1)), cv_mul(cat_entry(CatalogGate::Hadamard, 1, 1), cat_entry(CatalogGate::Hadamard, 1, 1)))).re.a == 16,
            (cv_add(cv_mul(cat_entry(CatalogGate::Hadamard, 1, 0), cat_entry(CatalogGate::Hadamard, 0, 1)), cv_mul(cat_entry(CatalogGate::Hadamard, 1, 1), cat_entry(CatalogGate::Hadamard, 1, 1)))).re.d == 16,
            (ident_entry(1, 1)).re.a == 1,
            (ident_entry(1, 1)).re.d == 1;
    assert((cv_add(cv_mul(cat_entry(CatalogGate::Hadamard, 1, 0), cat_entry(CatalogGate::Hadamard, 0, 1)), cv_mul(cat_entry(CatalogGate::Hadamard, 1, 1), cat_entry(CatalogGate::Hadamard, 1, 1)))).re.b * (ident_entry(1, 1)).re.d == (ident_entry(1, 1)).re.b * (cv_add(cv_mul(cat_entry(CatalogGate::Hadamard, 1, 0), cat_entry(CatalogGate::Hadamard, 0, 1)), cv_mul(cat_entry(CatalogGate::Hadamard, 1, 1), cat_entry(CatalogGate::Hadamard, 1, 1)))).re.d)
        by (nonlinear_arith)
        requires
            (cv_add(cv_mul(cat_entry(CatalogGate::Hadamard, 1, 0), cat_entry(CatalogGate::Hadamard, 0, 1)), cv_mul(cat_entry(CatalogGate::Hadamard, 1, 1), cat_entry(CatalogGate::Hadamard, 1, 1)))).re.b == 0,
            (cv_add(cv_mul(cat_entry(CatalogGate::Hadamard, 1, 0), cat_entry(CatalogGate::Hadamard, 0, 1)), cv_mul(cat_entry(CatalogGate::Hadamard, 1, 1), cat_entry(CatalogGate::Hadamard, 1, 1)))).re.d == 16,
            (ident_entry(1, 1)).re.b == 0,
            (ident_entry(1, 1)).re.d == 1;
    assert((cv_add(cv_mul(cat_entry(CatalogGate::Hadamard, 1, 0), cat_entry(CatalogGate::Hadamard, 0, 1)), cv_mul(cat_entry(CatalogGate::Hadamard, 1, 1), cat_entry(CatalogGate::Hadamard, 1, 1)))).im.a * (ident_entry(1, 1)).im.d == (ident_entry(1, 1)).im.a * (cv_add(cv_mul(cat_entry(CatalogGate::Hadamard, 1, 0), cat_entry(CatalogGate::Hadamard, 0, 1)), cv_mul(cat_entry(CatalogGate::Hadamard, 1, 1), cat_entry(CatalogGate::Hadamard, 1, 1)))).im.d)
        by (nonlinear_arith)
        requires
            (cv_add(cv_mul(cat_entry(CatalogGate::Hadamard, 1, 0), cat_entry(CatalogGate::Hadamard, 0, 1)), cv_mul(cat_entry(CatalogGate::Hadamard, 1, 1), cat_entry(CatalogGate::Hadamard, 1, 1)))).im.a == 0,
            (cv_add(cv_mul(cat_entry(CatalogGate::Hadamard, 1, 0), cat_entry(CatalogGate::Hadamard, 0, 1)), cv_mul(cat_entry(CatalogGate::Hadamard, 1, 1), cat_entry(CatalogGate::Hadamard, 1, 1)))).im.d == 16,
            (ident_entry(1, 1)).im.a == 0,
            (ident_entry(1, 1)).im.d == 1;
    assert((cv_add(cv_mul(cat_entry(CatalogGate::Hadamard, 1, 0), cat_entry(CatalogGate::Hadamard, 0, 1)), cv_mul(cat_entry(CatalogGate::Hadamard, 1, 1), cat_entry(CatalogGate::Hadamard, 1, 1)))).im.b * (ident_entry(1, 1)).im.d == (ident_entry(1, 1)).im.b * (cv_add(cv_mul(cat_entry(CatalogGate::Hadamard, 1, 0), cat_entry(CatalogGate::Hadamard, 0, 1)), cv_mul(cat_entry(CatalogGate::Hadamard, 1, 1), cat_entry(CatalogGate::Hadamard, 1, 1)))).im.d)
        by (nonlinear_arith)
        requires
            (cv_add(cv_mul(cat_entry(CatalogGate::Hadamard, 1, 0), cat_entry(CatalogGate::Hadamard, 0, 1)), cv_mul(cat_entry(CatalogGate::Hadamard, 1, 1), cat_entry(CatalogGate::Hadamard, 1, 1)))).im.b == 0,
            (cv_add(cv_mul(cat_entry(CatalogGate::Hadamard, 1, 0), cat_entry(CatalogGate::Hadamard, 0, 1)), cv_mul(cat_entry(CatalogGate::Hadamard, 1, 1), cat_entry(CatalogGate::Hadamard, 1, 1)))).im.d == 16,
            (ident_entry(1, 1)).im.b == 0,
            (ident_entry(1, 1)).im.d == 1;
    assert(cv_eqv(cv_add(cv_mul(cat_entry(CatalogGate::Hadamard, 1, 0), cat_entry(CatalogGate::Hadamard, 0, 1)), cv_mul(cat_entry(CatalogGate::Hadamard, 1, 1), cat_entry(CatalogGate::Hadamard, 1, 1))), ident_entry(1, 1)));
    assert(cv_wf(ident_entry(1, 1)));
    lemma_eqv_trans(cat_mm(CatalogGate::Hadamard, CatalogGate::Hadamard, 1, 1, 2), cv_add(cv_mul(cat_entry(CatalogGate::Hadamard, 1, 0), cat_entry(CatalogGate::Hadamard, 0, 1)), cv_mul(cat_entry(CatalogGate::Hadamard, 1, 1), cat_entry(CatalogGate::Hadamard, 1, 1))), ident_entry(1, 1));
}

proof fn gram_vals_h(i: int, j: int)
    requires
        0 <= i < 2,
        0 <= j < 2,
    ensures
        cv_eqv(cat_gram(CatalogGate::Hadamard, i, j, 2), ident_entry(i, j)),
{
    if i == 0 {
        if j == 0 {
            h_gram_case_0_0();
        } else {
            h_gram_case_0_1();
        }
    } else {
        if j == 0 {
            h_gram_case_1_0();
        } else {
            h_gram_case_1_1();
        }
    }
}

proof fn mm_vals_h(i: int, j: int)
    requires
        0 <= i < 2,
        0 <= j < 2,
    ensures
        cv_eqv(cat_mm(CatalogGate::Hadamard, CatalogGate::Hadamard, i, j, 2), ident_entry(i, j)),
{
    if i == 0 {
        if j == 0 {
            h_mm_case_0_0();
        } else {
            h_mm_case_0_1();
        }
    } else {
        if j == 0 {
            h_mm_case_1_0();
        } else {
            h_mm_case_1_1();
        }
    }
}

/// The identity matrix is unitary.
pub proof fn lemma_id_unitary()
    ensures
        unitary(identity_v(2), 2),
{
    lemma_zero_zeroish();
    lemma_one_unit();
    let p: spec_fn(int) -> int = |r: int| r;
    let u: spec_fn(int) -> CplxV = |r: int| cv_one();
    assert(perm_shape(CatalogGate::Identity1, p, u)) by {
        assert forall|r: int, c: int|
            0 <= r < 2 && 0 <= c < 2 implies #[trigger] cat_entry(CatalogGate::Identity1, r, c) == (if c == p(
            r,
        ) {
            u(r)
        } else {
            cv_zero()
        }) by {}
    }
    assert(perm_ok(CatalogGate::Identity1, p, u)) by {
        assert forall|r: int| 0 <= r < 2 implies 0 <= #[trigger] p(r) < 2 by {}
        assert forall|r: int, r2: int|
            #![trigger p(r), p(r2)]
            0 <= r < 2 && 0 <= r2 < 2 && p(r) == p(r2) implies r == r2 by {}
        assert forall|r: int| 0 <= r < 2 implies cv_wf(#[trigger] u(r)) by {
            assert(u(r) == cv_one());
        }
        assert forall|r: int|
            0 <= r < 2 implies cv_eqv(#[trigger] cv_mul(u(r), cv_conj(u(r))), cv_one()) by {
            assert(u(r) == cv_one());
        }
    }
    assert(mat_wf(identity_v(2), 2));
    assert forall|i: int, j: int| 0 <= i < 2 && 0 <= j < 2 implies cv_eqv(
        #[trigger] gram_sum(identity_v(2), i, j, 2),
        ident_entry(i, j),
    ) by {
        lemma_perm_gram(CatalogGate::Identity1, p, u, i, j, 2);
        lemma_gram_bridge(identity_v(2), CatalogGate::Identity1, i, j, 2);
        if i != j {
            lemma_zeroish_eqv_zero(cat_gram(CatalogGate::Identity1, i, j, 2));
        }
    }
}


/// The Pauli-X matrix is unitary.
pub proof fn lemma_x_unitary()
    ensures
        unitary(x_v(), 2),
{
    lemma_zero_zeroish();
    lemma_one_unit();
    let p: spec_fn(int) -> int = |r: int| 1 - r;
    let u: spec_fn(int) -> CplxV = |r: int| cv_one();
    assert(perm_shape(CatalogGate::PauliX, p, u)) by {
        assert forall|r: int, c: int|
            0 <= r < 2 && 0 <= c < 2 implies #[trigger] cat_entry(CatalogGate::PauliX, r, c) == (if c == p(
            r,
        ) {
            u(r)
        } else {
            cv_zero()
        }) by {}
    }
    assert(perm_ok(CatalogGate::PauliX, p, u)) by {
        assert forall|r: int| 0 <= r < 2 implies 0 <= #[trigger] p(r) < 2 by {}
        assert forall|r: int, r2: int|
            #![trigger p(r), p(r2)]
            0 <= r < 2 && 0 <= r2 < 2 && p(r) == p(r2) implies r == r2 by {}
        assert forall|r: int| 0 <= r < 2 implies cv_wf(#[trigger] u(r)) by {
            assert(u(r) == cv_one());
        }
        assert forall|r: int|
            0 <= r < 2 implies cv_eqv(#[trigger] cv_mul(u(r), cv_conj(u(r))), cv_one()) by {
            assert(u(r) == cv_one());
        }
    }
    assert(mat_wf(x_v(), 2));
    assert forall|i: int, j: int| 0 <= i < 2 && 0 <= j < 2 implies cv_eqv(
        #[trigger] gram_sum(x_v(), i, j, 2),
        ident_entry(i, j),
    ) by {
        lemma_perm_gram(CatalogGate::PauliX, p, u, i, j, 2);
        lemma_gram_bridge(x_v(), CatalogGate::PauliX, i, j, 2);
        if i != j {
            lemma_zeroish_eqv_zero(cat_gram(CatalogGate::PauliX, i, j, 2));
        }
    }
}


/// The Pauli-Y matrix is unitary.
pub proof fn lemma_y_unitary()
    ensures
        unitary(y_v(), 2),
{
    lemma_zero_zeroish();
    lemma_one_unit();
    let p: spec_fn(int) -> int = |r: int| 1 - r;
    let u: spec_fn(int) -> CplxV = |r: int| if r == 0 {
        CplxV { re: sv_whole(0), im: sv_whole(-1) }
    } else {
        CplxV { re: sv_whole(0), im: sv_whole(1) }
    };
    let umi = CplxV { re: sv_whole(0), im: sv_whole(-1) };
    let upi = CplxV { re: sv_whole(0), im: sv_whole(1) };
    assert((umi.re.a * umi.re.a) * (umi.im.d * umi.im.d) + (umi.im.a * umi.im.a) * (umi.re.d
        * umi.re.d) == (umi.re.d * umi.re.d) * (umi.im.d * umi.im.d)) by (nonlinear_arith)
        requires
            umi.re.a == 0,
            umi.im.a == -1,
            umi.re.d == 1,
            umi.im.d == 1;
    lemma_unit_norm(umi);
    assert((upi.re.a * upi.re.a) * (upi.im.d * upi.im.d) + (upi.im.a * upi.im.a) * (upi.re.d
        * upi.re.d) == (upi.re.d * upi.re.d) * (upi.im.d * upi.im.d)) by (nonlinear_arith)
        requires
            upi.re.a == 0,
            upi.im.a == 1,
            upi.re.d == 1,
            upi.im.d == 1;
    lemma_unit_norm(upi);
    assert(perm_shape(CatalogGate::PauliY, p, u)) by {
        assert forall|r: int, c: int|
            0 <= r < 2 && 0 <= c < 2 implies #[trigger] cat_entry(CatalogGate::PauliY, r, c) == (if c == p(
            r,
        ) {
            u(r)
        } else {
            cv_zero()
        }) by {}
    }
    assert(perm_ok(CatalogGate::PauliY, p, u)) by {
        assert forall|r: int| 0 <= r < 2 implies 0 <= #[trigger] p(r) < 2 by {}
        assert forall|r: int, r2: int|
            #![trigger p(r), p(r2)]
            0 <= r < 2 && 0 <= r2 < 2 && p(r) == p(r2) implies r == r2 by {}
        assert forall|r: int| 0 <= r < 2 implies cv_wf(#[trigger] u(r)) by {
            if r == 0 {
                assert(u(r) == umi);
            } else {
                assert(u(r) == upi);
            }
        }
        assert forall|r: int|
            0 <= r < 2 implies cv_eqv(#[trigger] cv_mul(u(r), cv_conj(u(r))), cv_one()) by {
            if r == 0 {
                assert(u(r) == umi);
            } else {
                assert(u(r) == upi);
            }
        }
    }
    assert(mat_wf(y_v(), 2));
    assert forall|i: int, j: int| 0 <= i < 2 && 0 <= j < 2 implies cv_eqv(
        #[trigger] gram_sum(y_v(), i, j, 2),
        ident_entry(i, j),
    ) by {
        lemma_perm_gram(CatalogGate::PauliY, p, u, i, j, 2);
        lemma_gram_bridge(y_v(), CatalogGate::PauliY, i, j, 2);
        if i != j {
            lemma_zeroish_eqv_zero(cat_gram(CatalogGate::PauliY, i, j, 2));
        }
    }
}


/// The Pauli-Z matrix is unitary.
pub proof fn lemma_z_unitary()
    ensures
        unitary(z_v(), 2),
{
    lemma_zero_zeroish();
    lemma_one_unit();
    let p: spec_fn(int) -> int = |r: int| r;
    let u: spec_fn(int) -> CplxV = |r: int| if r == 0 {
        cv_one()
    } else {
        CplxV { re: sv_whole(-1), im: sv_whole(0) }
    };
    let um1 = CplxV { re: sv_whole(-1), im: sv_whole(0) };
    assert((um1.re.a * um1.re.a) * (um1.im.d * um1.im.d) + (um1.im.a * um1.im.a) * (um1.re.d
        * um1.re.d) == (um1.re.d * um1.re.d) * (um1.im.d * um1.im.d)) by (nonlinear_arith)
        requires
            um1.re.a == -1,
            um1.im.a == 0,
            um1.re.d == 1,
            um1.im.d == 1;
    lemma_unit_norm(um1);
    assert(perm_shape(CatalogGate::PauliZ, p, u)) by {
        assert forall|r: int, c: int|
            0 <= r < 2 && 0 <= c < 2 implies #[trigger] cat_entry(CatalogGate::PauliZ, r, c) == (if c == p(
            r,
        ) {
            u(r)
        } else {
            cv_zero()
        }) by {}
    }
    assert(perm_ok(CatalogGate::PauliZ, p, u)) by {
        assert forall|r: int| 0 <= r < 2 implies 0 <= #[trigger] p(r) < 2 by {}
        assert forall|r: int, r2: int|
            #![trigger p(r), p(r2)]
            0 <= r < 2 && 0 <= r2 < 2 && p(r) == p(r2) implies r == r2 by {}
        assert forall|r: int| 0 <= r < 2 implies cv_wf(#[trigger] u(r)) by {
            if r == 0 {
                assert(u(r) == cv_one());
            } else {
                assert(u(r) == um1);
            }
        }
        assert forall|r: int|
            0 <= r < 2 implies cv_eqv(#[trigger] cv_mul(u(r), cv_conj(u(r))), cv_one()) by {
            if r == 0 {
                assert(u(r) == cv_one());
            } else {
                assert(u(r) == um1);
            }
        }
    }
    assert(mat_wf(z_v(), 2));
    assert forall|i: int, j: int| 0 <= i < 2 && 0 <= j < 2 implies cv_eqv(
        #[trigger] gram_sum(z_v(), i, j, 2),
        ident_entry(i, j),
    ) by {
        lemma_perm_gram(CatalogGate::PauliZ, p, u, i, j, 2);
        lemma_gram_bridge(z_v(), CatalogGate::PauliZ, i, j, 2);
        if i != j {
            lemma_zeroish_eqv_zero(cat_gram(CatalogGate::PauliZ, i, j, 2));
        }
    }
}


/// The phase-shift matrix is unitary whenever its parameter has unit
/// modulus, `z * conj(z) == 1` — which holds of every `cos(phi) + i*sin(phi)`.
pub proof fn lemma_phase_unitary(z: CplxV)
    requires
        cv_wf(z),
        cv_eqv(cv_mul(z, cv_conj(z)), cv_one()),
    ensures
        unitary(phase_v(z), 2),
{
    lemma_zero_zeroish();
    lemma_one_unit();
    let p: spec_fn(int) -> int = |r: int| r;
    let u: spec_fn(int) -> CplxV = |r: int| if r == 0 {
        cv_one()
    } else {
        z
    };
    assert(perm_shape(CatalogGate::PhaseShift(z), p, u)) by {
        assert forall|r: int, c: int|
            0 <= r < 2 && 0 <= c < 2 implies #[trigger] cat_entry(CatalogGate::PhaseShift(z), r, c) == (if c == p(
            r,
        ) {
            u(r)
        } else {
            cv_zero()
        }) by {}
    }
    assert(perm_ok(CatalogGate::PhaseShift(z), p, u)) by {
        assert forall|r: int| 0 <= r < 2 implies 0 <= #[trigger] p(r) < 2 by {}
        assert forall|r: int, r2: int|
            #![trigger p(r), p(r2)]
            0 <= r < 2 && 0 <= r2 < 2 && p(r) == p(r2) implies r == r2 by {}
        assert forall|r: int| 0 <= r < 2 implies cv_wf(#[trigger] u(r)) by {
            if r == 0 {
                assert(u(r) == cv_one());
            } else {
                assert(u(r) == z);
            }
        }
        assert forall|r: int|
            0 <= r < 2 implies cv_eqv(#[trigger] cv_mul(u(r), cv_conj(u(r))), cv_one()) by {
            if r == 0 {
                assert(u(r) == cv_one());
            } else {
                assert(u(r) == z);
            }
        }
    }
    assert(mat_wf(phase_v(z), 2));
    assert forall|i: int, j: int| 0 <= i < 2 && 0 <= j < 2 implies cv_eqv(
        #[trigger] gram_sum(phase_v(z), i, j, 2),
        ident_entry(i, j),
    ) by {
        lemma_perm_gram(CatalogGate::PhaseShift(z), p, u, i, j, 2);
        lemma_gram_bridge(phase_v(z), CatalogGate::PhaseShift(z), i, j, 2);
        if i != j {
            lemma_zeroish_eqv_zero(cat_gram(CatalogGate::PhaseShift(z), i, j, 2));
        }
    }
}


/// The Hadamard matrix is unitary.
pub proof fn lemma_h_unitary()
    ensures
        unitary(h_v(), 2),
{
    assert(mat_wf(h_v(), 2));
    assert forall|i: int, j: int| 0 <= i < 2 && 0 <= j < 2 implies cv_eqv(
        #[trigger] gram_sum(h_v(), i, j, 2),
        ident_entry(i, j),
    ) by {
        gram_vals_h(i, j);
        lemma_gram_bridge(h_v(), CatalogGate::Hadamard, i, j, 2);
    }
}

/// The Hadamard matrix is its own inverse: `H * H == I` exactly.
pub proof fn lemma_h_squared_identity()
    ensures
        mat_mul_is(h_v(), h_v(), identity_v(2), 2),
{
    assert forall|i: int, j: int| 0 <= i < 2 && 0 <= j < 2 implies cv_eqv(
        #[trigger] mm_sum(h_v(), h_v(), i, j, 2),
        identity_v(2)[i][j],
    ) by {
        mm_vals_h(i, j);
        lemma_mm_bridge(h_v(), h_v(), CatalogGate::Hadamard, CatalogGate::Hadamard, i, j, 2);
        assert(identity_v(2)[i][j] == ident_entry(i, j));
    }
}

/// A phase shift by angle zero (`z == 1`) is exactly the identity matrix.
pub proof fn lemma_phase_one_is_identity()
    ensures
        phase_v(cv_one()) == identity_v(2),
{
    assert(phase_v(cv_one()) =~~= identity_v(2));
}

/// A phase shift with `z == -1` (the exact value of `cos(pi) + i*sin(pi)`)
/// is exactly the Pauli-Z matrix.
pub proof fn lemma_phase_minus_one_is_pauli_z()
    ensures
        phase_v(CplxV { re: sv_whole(-1), im: sv_whole(0) }) == z_v(),
{
    assert(phase_v(CplxV { re: sv_whole(-1), im: sv_whole(0) }) =~~= z_v());
}

} // verus!
