//! The two-qubit gate catalog: 4x4 matrices indexed by the joint state of
//! (qubit1, qubit2) read as a 2-bit value with qubit1 as the high bit.
use vstd::prelude::*;

use crate::Qubit;
use crate::catalog::{
    CatalogGate, cat_entry, cat_gram, cat_mm, lemma_gram_bridge, lemma_mm_bridge, lemma_perm_gram,
    lemma_perm_mm, perm_ok, perm_shape,
};
use crate::complex::{
    Complex, CplxV, Scalar, ScalarV, cv_add, cv_conj, cv_eqv, cv_mul, cv_one, cv_wf, cv_zero,
    cv_zeroish, lemma_add_eqv_left, lemma_add_zeroish_left, lemma_add_zeroish_right,
    lemma_add_zeroish_zeroish, lemma_conj_wf, lemma_eqv_trans, lemma_mul_wf,
    lemma_mul_zeroish_left, lemma_mul_zeroish_right, lemma_one_unit, lemma_zero_zeroish,
    lemma_zeroish_eqv_zero,
};
use crate::matrix::{
    gram_sum, ident_entry, identity_v, mat_mul_is, mat_view, mat_wf, mm_sum, unitary,
};

verus! {

/// A quantum gate on two qubits, as its 4x4 matrix.
pub struct DoubleGate {
    pub matrix: Vec<Vec<Complex>>,
}

/// The capability an external state representation offers: apply a 4x4
/// unitary to the joint subspace of the two named qubits, `qubit1` giving the
/// high-order index bit and `qubit2` the low-order bit. The contract
/// prescribes only the matrix shape and that ordering convention.
pub trait DoubleGateApplicator {
    fn apply_double(&mut self, matrix: &Vec<Vec<Complex>>, qubit1: &Qubit, qubit2: &Qubit)
        requires
            mat_wf(mat_view(*matrix), 4),
    ;
}

/// The basis permutation of CNOT: states 2 (10) and 3 (11) trade places;
/// 0 and 1 stay.
pub open spec fn cnot_p(i: int) -> int {
    if i == 2 {
        3
    } else if i == 3 {
        2
    } else {
        i
    }
}

/// Entry `(i, j)` of CNOT: row `i` of the identity with rows 2 and 3 exchanged.
pub open spec fn cnot_entry(i: int, j: int) -> CplxV {
    ident_entry(cnot_p(i), j)
}

pub open spec fn cnot_v() -> Seq<Seq<CplxV>> {
    Seq::new(4, |i: int| Seq::new(4, |j: int| cnot_entry(i, j)))
}

/// The basis permutation of SWAP: states 1 (01) and 2 (10) trade places.
pub open spec fn swap_p(i: int) -> int {
    if i == 1 {
        2
    } else if i == 2 {
        1
    } else {
        i
    }
}

/// Entry `(i, j)` of SWAP: row `i` of the identity with rows 1 and 2 exchanged.
pub open spec fn swap_entry(i: int, j: int) -> CplxV {
    ident_entry(swap_p(i), j)
}

pub open spec fn swap_v() -> Seq<Seq<CplxV>> {
    Seq::new(4, |i: int| Seq::new(4, |j: int| swap_entry(i, j)))
}

/// Entry `(i, j)` of SQSWAP: the identity on states 0 and 3; on the 1/2
/// subspace `(1 + i)/2` on the diagonal and `(1 - i)/2` off it, the matrix
/// square root of SWAP there.
pub open spec fn sqswap_entry(i: int, j: int) -> CplxV {
    if (i == 0 && j == 0) || (i == 3 && j == 3) {
        CplxV { re: ScalarV { a: 1, b: 0, d: 1 }, im: ScalarV { a: 0, b: 0, d: 1 } }
    } else if (i == 1 && j == 1) || (i == 2 && j == 2) {
        CplxV { re: ScalarV { a: 1, b: 0, d: 2 }, im: ScalarV { a: 1, b: 0, d: 2 } }
    } else if (i == 1 && j == 2) || (i == 2 && j == 1) {
        CplxV { re: ScalarV { a: 1, b: 0, d: 2 }, im: ScalarV { a: -1, b: 0, d: 2 } }
    } else {
        CplxV { re: ScalarV { a: 0, b: 0, d: 1 }, im: ScalarV { a: 0, b: 0, d: 1 } }
    }
}

pub open spec fn sqswap_v() -> Seq<Seq<CplxV>> {
    Seq::new(4, |i: int| Seq::new(4, |j: int| sqswap_entry(i, j)))
}

impl DoubleGate {
    /// The CNOT gate: the identity on basis states 00 and 01, and the states
    /// 10 and 11 exchanged (control `qubit1`, target `qubit2`).
    pub fn cnot() -> (g: DoubleGate)
        ensures
            mat_view(g.matrix) == cnot_v(),
    {
        let zr = Scalar::new(0, 0, 1);
        let z0 = Complex::new(zr, zr);
        let o = Complex::new(Scalar::new(1, 0, 1), zr);
        let m = vec![
            vec![o, z0, z0, z0],
            vec![z0, o, z0, z0],
            vec![z0, z0, z0, o],
            vec![z0, z0, o, z0],
        ];
        proof {
            assert(mat_view(m) =~~= cnot_v());
        }
        DoubleGate { matrix: m }
    }

    /// The SWAP gate: the permutation exchanging basis states 01 and 10, the
    /// identity elsewhere.
    pub fn swap() -> (g: DoubleGate)
        ensures
            mat_view(g.matrix) == swap_v(),
    {
        let zr = Scalar::new(0, 0, 1);
        let z0 = Complex::new(zr, zr);
        let o = Complex::new(Scalar::new(1, 0, 1), zr);
        let m = vec![
            vec![o, z0, z0, z0],
            vec![z0, z0, o, z0],
            vec![z0, o, z0, z0],
            vec![z0, z0, z0, o],
        ];
        proof {
            assert(mat_view(m) =~~= swap_v());
        }
        DoubleGate { matrix: m }
    }

    /// The SQSWAP gate: the identity on 00 and 11, and on the 01/10 subspace
    /// `(1 + i)/2` on the diagonal and `(1 - i)/2` off it.
    pub fn sqswap() -> (g: DoubleGate)
        ensures
            mat_view(g.matrix) == sqswap_v(),
    {
        let zr = Scalar::new(0, 0, 1);
        let half = Scalar::new(1, 0, 2);
        let nhalf = Scalar::new(-1, 0, 2);
        let z0 = Complex::new(zr, zr);
        let o = Complex::new(Scalar::new(1, 0, 1), zr);
        let p = Complex::new(half, half);
        let q = Complex::new(half, nhalf);
        let m = vec![
            vec![o, z0, z0, z0],
            vec![z0, p, q, z0],
            vec![z0, q, p, z0],
            vec![z0, z0, z0, o],
        ];
        proof {
            assert(mat_view(m) =~~= sqswap_v());
        }
        DoubleGate { matrix: m }
    }
}

proof fn sqswap_gram_case_0_0()
    ensures
        cv_eqv(cat_gram(CatalogGate::Sqswap, 0, 0, 4), ident_entry(0, 0)),
{
    reveal_with_fuel(cat_gram, 5);
    lemma_zero_zeroish();
    assert(cat_gram(CatalogGate::Sqswap, 0, 0, 0) == cv_zero());
    assert(cv_zeroish(cat_gram(CatalogGate::Sqswap, 0, 0, 0)));
    assert(cat_gram(CatalogGate::Sqswap, 0, 0, 1) == cv_add(cat_gram(CatalogGate::Sqswap, 0, 0, 0), cv_mul(cat_entry(CatalogGate::Sqswap, 0, 0), cv_conj(cat_entry(CatalogGate::Sqswap, 0, 0)))));
    assert(cv_wf(cat_entry(CatalogGate::Sqswap, 0, 0)));
    assert(cv_wf(cat_entry(CatalogGate::Sqswap, 0, 0)));
    lemma_conj_wf(cat_entry(CatalogGate::Sqswap, 0, 0));
    lemma_mul_wf(cat_entry(CatalogGate::Sqswap, 0, 0), cv_conj(cat_entry(CatalogGate::Sqswap, 0, 0)));
    lemma_add_zeroish_left(cat_gram(CatalogGate::Sqswap, 0, 0, 0), cv_mul(cat_entry(CatalogGate::Sqswap, 0, 0), cv_conj(cat_entry(CatalogGate::Sqswap, 0, 0))));
    assert(cat_gram(CatalogGate::Sqswap, 0, 0, 2) == cv_add(cat_gram(CatalogGate::Sqswap, 0, 0, 1), cv_mul(cat_entry(CatalogGate::Sqswap, 0, 1), cv_conj(cat_entry(CatalogGate::Sqswap, 0, 1)))));
    assert(cat_entry(CatalogGate::Sqswap, 0, 1) == cv_zero());
    assert(cv_zeroish(cat_entry(CatalogGate::Sqswap, 0, 1)));
    assert(cv_wf(cat_entry(CatalogGate::Sqswap, 0, 1)));
    lemma_conj_wf(cat_entry(CatalogGate::Sqswap, 0, 1));
    lemma_mul_zeroish_left(cat_entry(CatalogGate::Sqswap, 0, 1), cv_conj(cat_entry(CatalogGate::Sqswap, 0, 1)));
    assert(cv_zeroish(cv_mul(cat_entry(CatalogGate::Sqswap, 0, 1), cv_conj(cat_entry(CatalogGate::Sqswap, 0, 1)))));
    lemma_add_zeroish_right(cat_gram(CatalogGate::Sqswap, 0, 0, 1), cv_mul(cat_entry(CatalogGate::Sqswap, 0, 1), cv_conj(cat_entry(CatalogGate::Sqswap, 0, 1))));
    lemma_eqv_trans(cat_gram(CatalogGate::Sqswap, 0, 0, 2), cat_gram(CatalogGate::Sqswap, 0, 0, 1), cv_mul(cat_entry(CatalogGate::Sqswap, 0, 0), cv_conj(cat_entry(CatalogGate::Sqswap, 0, 0))));
    assert(cat_gram(CatalogGate::Sqswap, 0, 0, 3) == cv_add(cat_gram(CatalogGate::Sqswap, 0, 0, 2), cv_mul(cat_entry(CatalogGate::Sqswap, 0, 2), cv_conj(cat_entry(CatalogGate::Sqswap, 0, 2)))));
    assert(cat_entry(CatalogGate::Sqswap, 0, 2) == cv_zero());
    assert(cv_zeroish(cat_entry(CatalogGate::Sqswap, 0, 2)));
    assert(cv_wf(cat_entry(CatalogGate::Sqswap, 0, 2)));
    lemma_conj_wf(cat_entry(CatalogGate::Sqswap, 0, 2));
    lemma_mul_zeroish_left(cat_entry(CatalogGate::Sqswap, 0, 2), cv_conj(cat_entry(CatalogGate::Sqswap, 0, 2)));
    assert(cv_zeroish(cv_mul(cat_entry(CatalogGate::Sqswap, 0, 2), cv_conj(cat_entry(CatalogGate::Sqswap, 0, 2)))));
    lemma_add_zeroish_right(cat_gram(CatalogGate::Sqswap, 0, 0, 2), cv_mul(cat_entry(CatalogGate::Sqswap, 0, 2), cv_conj(cat_entry(CatalogGate::Sqswap, 0, 2))));
    lemma_eqv_trans(cat_gram(CatalogGate::Sqswap, 0, 0, 3), cat_gram(CatalogGate::Sqswap, 0, 0, 2), cv_mul(cat_entry(CatalogGate::Sqswap, 0, 0), cv_conj(cat_entry(CatalogGate::Sqswap, 0, 0))));
    assert(cat_gram(CatalogGate::Sqswap, 0, 0, 4) == cv_add(cat_gram(CatalogGate::Sqswap, 0, 0, 3), cv_mul(cat_entry(CatalogGate::Sqswap, 0, 3), cv_conj(cat_entry(CatalogGate::Sqswap, 0, 3)))));
    assert(cat_entry(CatalogGate::Sqswap, 0, 3) == cv_zero());
    assert(cv_zeroish(cat_entry(CatalogGate::Sqswap, 0, 3)));
    assert(cv_wf(cat_entry(CatalogGate::Sqswap, 0, 3)));
    lemma_conj_wf(cat_entry(CatalogGate::Sqswap, 0, 3));
    lemma_mul_zeroish_left(cat_entry(CatalogGate::Sqswap, 0, 3), cv_conj(cat_entry(CatalogGate::Sqswap, 0, 3)));
    assert(cv_zeroish(cv_mul(cat_entry(CatalogGate::Sqswap, 0, 3), cv_conj(cat_entry(CatalogGate::Sqswap, 0, 3)))));
    lemma_add_zeroish_right(cat_gram(CatalogGate::Sqswap, 0, 0, 3), cv_mul(cat_entry(CatalogGate::Sqswap, 0, 3), cv_conj(cat_entry(CatalogGate::Sqswap, 0, 3))));
    lemma_eqv_trans(cat_gram(CatalogGate::Sqswap, 0, 0, 4), cat_gram(CatalogGate::Sqswap, 0, 0, 3), cv_mul(cat_entry(CatalogGate::Sqswap, 0, 0), cv_conj(cat_entry(CatalogGate::Sqswap, 0, 0))));
    assert((cv_mul(cat_entry(CatalogGate::Sqswap, 0, 0), cv_conj(cat_entry(CatalogGate::Sqswap, 0, 0)))).re.a == ((1) * (1) + 2 * ((0) * (0))) * ((1) * (1)) + (-((0) * (-(0)) + 2 * ((0) * (-(0))))) * ((1) * (1)));
    assert((((1) * (1) + 2 * ((0) * (0))) * ((1) * (1)) + (-((0) * (-(0)) + 2 * ((0) * (-(0))))) * ((1) * (1))) == 1) by (nonlinear_arith);
    assert((cv_mul(cat_entry(CatalogGate::Sqswap, 0, 0), cv_conj(cat_entry(CatalogGate::Sqswap, 0, 0)))).re.b == ((1) * (0) + (0) * (1)) * ((1) * (1)) + (-((0) * (-(0)) + (0) * (-(0)))) * ((1) * (1)));
    assert((((1) * (0) + (0) * (1)) * ((1) * (1)) + (-((0) * (-(0)) + (0) * (-(0)))) * ((1) * (1))) == 0) by (nonlinear_arith);
    assert((cv_mul(cat_entry(CatalogGate::Sqswap, 0, 0), cv_conj(cat_entry(CatalogGate::Sqswap, 0, 0)))).re.d == ((1) * (1)) * ((1) * (1)));
    assert((((1) * (1)) * ((1) * (1))) == 1) by (nonlinear_arith);
    assert((cv_mul(cat_entry(CatalogGate::Sqswap, 0, 0), cv_conj(cat_entry(CatalogGate::Sqswap, 0, 0)))).im.a == ((1) * (-(0)) + 2 * ((0) * (-(0)))) * ((1) * (1)) + ((0) * (1) + 2 * ((0) * (0))) * ((1) * (1)));
    assert((((1) * (-(0)) + 2 * ((0) * (-(0)))) * ((1) * (1)) + ((0) * (1) + 2 * ((0) * (0))) * ((1) * (1))) == 0) by (nonlinear_arith);
    assert((cv_mul(cat_entry(CatalogGate::Sqswap, 0, 0), cv_conj(cat_entry(CatalogGate::Sqswap, 0, 0)))).im.b == ((1) * (-(0)) + (0) * (-(0))) * ((1) * (1)) + ((0) * (0) + (0) * (1)) * ((1) * (1)));
    assert((((1) * (-(0)) + (0) * (-(0))) * ((1) * (1)) + ((0) * (0) + (0) * (1)) * ((1) * (1))) == 0) by (nonlinear_arith);
    assert((cv_mul(cat_entry(CatalogGate::Sqswap, 0, 0), cv_conj(cat_entry(CatalogGate::Sqswap, 0, 0)))).im.d == ((1) * (1)) * ((1) * (1)));
    assert((((1) * (1)) * ((1) * (1))) == 1) by (nonlinear_arith);
    assert((cv_mul(cat_entry(CatalogGate::Sqswap, 0, 0), cv_conj(cat_entry(CatalogGate::Sqswap, 0, 0)))).re.a * (ident_entry(0, 0)).re.d == (ident_entry(0, 0)).re.a * (cv_mul(cat_entry(CatalogGate::Sqswap, 0, 0), cv_conj(cat_entry(CatalogGate::Sqswap, 0, 0)))).re.d)
        by (nonlinear_arith)
        requires
            (cv_mul(cat_entry(CatalogGate::Sqswap, 0, 0), cv_conj(cat_entry(CatalogGate::Sqswap, 0, 0)))).re.a == 1,
            (cv_mul(cat_entry(CatalogGate::Sqswap, 0, 0), cv_conj(cat_entry(CatalogGate::Sqswap, 0, 0)))).re.d == 1,
            (ident_entry(0, 0)).re.a == 1,
            (ident_entry(0, 0)).re.d == 1;
    assert((cv_mul(cat_entry(CatalogGate::Sqswap, 0, 0), cv_conj(cat_entry(CatalogGate::Sqswap, 0, 0)))).re.b * (ident_entry(0, 0)).re.d == (ident_entry(0, 0)).re.b * (cv_mul(cat_entry(CatalogGate::Sqswap, 0, 0), cv_conj(cat_entry(CatalogGate::Sqswap, 0, 0)))).re.d)
        by (nonlinear_arith)
        requires
            (cv_mul(cat_entry(CatalogGate::Sqswap, 0, 0), cv_conj(cat_entry(CatalogGate::Sqswap, 0, 0)))).re.b == 0,
            (cv_mul(cat_entry(CatalogGate::Sqswap, 0, 0), cv_conj(cat_entry(CatalogGate::Sqswap, 0, 0)))).re.d == 1,
            (ident_entry(0, 0)).re.b == 0,
            (ident_entry(0, 0)).re.d == 1;
    assert((cv_mul(cat_entry(CatalogGate::Sqswap, 0, 0), cv_conj(cat_entry(CatalogGate::Sqswap, 0, 0)))).im.a * (ident_entry(0, 0)).im.d == (ident_entry(0, 0)).im.a * (cv_mul(cat_entry(CatalogGate::Sqswap, 0, 0), cv_conj(cat_entry(CatalogGate::Sqswap, 0, 0)))).im.d)
        by (nonlinear_arith)
        requires
            (cv_mul(cat_entry(CatalogGate::Sqswap, 0, 0), cv_conj(cat_entry(CatalogGate::Sqswap, 0, 0)))).im.a == 0,
            (cv_mul(cat_entry(CatalogGate::Sqswap, 0, 0), cv_conj(cat_entry(CatalogGate::Sqswap, 0, 0)))).im.d == 1,
            (ident_entry(0, 0)).im.a == 0,
            (ident_entry(0, 0)).im.d == 1;
    assert((cv_mul(cat_entry(CatalogGate::Sqswap, 0, 0), cv_conj(cat_entry(CatalogGate::Sqswap, 0, 0)))).im.b * (ident_entry(0, 0)).im.d == (ident_entry(0, 0)).im.b * (cv_mul(cat_entry(CatalogGate::Sqswap, 0, 0), cv_conj(cat_entry(CatalogGate::Sqswap, 0, 0)))).im.d)
        by (nonlinear_arith)
        requires
            (cv_mul(cat_entry(CatalogGate::Sqswap, 0, 0), cv_conj(cat_entry(CatalogGate::Sqswap, 0, 0)))).im.b == 0,
            (cv_mul(cat_entry(CatalogGate::Sqswap, 0, 0), cv_conj(cat_entry(CatalogGate::Sqswap, 0, 0)))).im.d == 1,
            (ident_entry(0, 0)).im.b == 0,
            (ident_entry(0, 0)).im.d == 1;
    assert(cv_eqv(cv_mul(cat_entry(CatalogGate::Sqswap, 0, 0), cv_conj(cat_entry(CatalogGate::Sqswap, 0, 0))), ident_entry(0, 0)));
    assert(cv_wf(ident_entry(0, 0)));
    lemma_eqv_trans(cat_gram(CatalogGate::Sqswap, 0, 0, 4), cv_mul(cat_entry(CatalogGate::Sqswap, 0, 0), cv_conj(cat_entry(CatalogGate::Sqswap, 0, 0))), ident_entry(0, 0));
}

proof fn sqswap_gram_case_0_1()
    ensures
        cv_eqv(cat_gram(CatalogGate::Sqswap, 0, 1, 4), ident_entry(0, 1)),
{
    reveal_with_fuel(cat_gram, 5);
    lemma_zero_zeroish();
    assert(cat_gram(CatalogGate::Sqswap, 0, 1, 0) == cv_zero());
    assert(cv_zeroish(cat_gram(CatalogGate::Sqswap, 0, 1, 0)));
    assert(cat_gram(CatalogGate::Sqswap, 0, 1, 1) == cv_add(cat_gram(CatalogGate::Sqswap, 0, 1, 0), cv_mul(cat_entry(CatalogGate::Sqswap, 0, 0), cv_conj(cat_entry(CatalogGate::Sqswap, 1, 0)))));
    assert(cat_entry(CatalogGate::Sqswap, 1, 0) == cv_zero());
    assert(cv_conj(cat_entry(CatalogGate::Sqswap, 1, 0)) == cv_zero());
    assert(cv_zeroish(cv_conj(cat_entry(CatalogGate::Sqswap, 1, 0))));
    assert(cv_wf(cat_entry(CatalogGate::Sqswap, 0, 0)));
    lemma_mul_zeroish_right(cat_entry(CatalogGate::Sqswap, 0, 0), cv_conj(cat_entry(CatalogGate::Sqswap, 1, 0)));
    assert(cv_zeroish(cv_mul(cat_entry(CatalogGate::Sqswap, 0, 0), cv_conj(cat_entry(CatalogGate::Sqswap, 1, 0)))));
    lemma_add_zeroish_zeroish(cat_gram(CatalogGate::Sqswap, 0, 1, 0), cv_mul(cat_entry(CatalogGate::Sqswap, 0, 0), cv_conj(cat_entry(CatalogGate::Sqswap, 1, 0))));
    assert(cv_zeroish(cat_gram(CatalogGate::Sqswap, 0, 1, 1)));
    assert(cat_gram(CatalogGate::Sqswap, 0, 1, 2) == cv_add(cat_gram(CatalogGate::Sqswap, 0, 1, 1), cv_mul(cat_entry(CatalogGate::Sqswap, 0, 1), cv_conj(cat_entry(CatalogGate::Sqswap, 1, 1)))));
    assert(cat_entry(CatalogGate::Sqswap, 0, 1) == cv_zero());
    assert(cv_zeroish(cat_entry(CatalogGate::Sqswap, 0, 1)));
    assert(cv_wf(cat_entry(CatalogGate::Sqswap, 1, 1)));
    lemma_conj_wf(cat_entry(CatalogGate::Sqswap, 1, 1));
    lemma_mul_zeroish_left(cat_entry(CatalogGate::Sqswap, 0, 1), cv_conj(cat_entry(CatalogGate::Sqswap, 1, 1)));
    assert(cv_zeroish(cv_mul(cat_entry(CatalogGate::Sqswap, 0, 1), cv_conj(cat_entry(CatalogGate::Sqswap, 1, 1)))));
    lemma_add_zeroish_zeroish(cat_gram(CatalogGate::Sqswap, 0, 1, 1), cv_mul(cat_entry(CatalogGate::Sqswap, 0, 1), cv_conj(cat_entry(CatalogGate::Sqswap, 1, 1))));
    assert(cv_zeroish(cat_gram(CatalogGate::Sqswap, 0, 1, 2)));
    assert(cat_gram(CatalogGate::Sqswap, 0, 1, 3) == cv_add(cat_gram(CatalogGate::Sqswap, 0, 1, 2), cv_mul(cat_entry(CatalogGate::Sqswap, 0, 2), cv_conj(cat_entry(CatalogGate::Sqswap, 1, 2)))));
    assert(cat_entry(CatalogGate::Sqswap, 0, 2) == cv_zero());
    assert(cv_zeroish(cat_entry(CatalogGate::Sqswap, 0, 2)));
    assert(cv_wf(cat_entry(CatalogGate::Sqswap, 1, 2)));
    lemma_conj_wf(cat_entry(CatalogGate::Sqswap, 1, 2));
    lemma_mul_zeroish_left(cat_entry(CatalogGate::Sqswap, 0, 2), cv_conj(cat_entry(CatalogGate::Sqswap, 1, 2)));
    assert(cv_zeroish(cv_mul(cat_entry(CatalogGate::Sqswap, 0, 2), cv_conj(cat_entry(CatalogGate::Sqswap, 1, 2)))));
    lemma_add_zeroish_zeroish(cat_gram(CatalogGate::Sqswap, 0, 1, 2), cv_mul(cat_entry(CatalogGate::Sqswap, 0, 2), cv_conj(cat_entry(CatalogGate::Sqswap, 1, 2))));
    assert(cv_zeroish(cat_gram(CatalogGate::Sqswap, 0, 1, 3)));
    assert(cat_gram(CatalogGate::Sqswap, 0, 1, 4) == cv_add(cat_gram(CatalogGate::Sqswap, 0, 1, 3), cv_mul(cat_entry(CatalogGate::Sqswap, 0, 3), cv_conj(cat_entry(CatalogGate::Sqswap, 1, 3)))));
    assert(cat_entry(CatalogGate::Sqswap, 0, 3) == cv_zero());
    assert(cv_zeroish(cat_entry(CatalogGate::Sqswap, 0, 3)));
    assert(cv_wf(cat_entry(CatalogGate::Sqswap, 1, 3)));
    lemma_conj_wf(cat_entry(CatalogGate::Sqswap, 1, 3));
    lemma_mul_zeroish_left(cat_entry(CatalogGate::Sqswap, 0, 3), cv_conj(cat_entry(CatalogGate::Sqswap, 1, 3)));
    assert(cv_zeroish(cv_mul(cat_entry(CatalogGate::Sqswap, 0, 3), cv_conj(cat_entry(CatalogGate::Sqswap, 1, 3)))));
    lemma_add_zeroish_zeroish(cat_gram(CatalogGate::Sqswap, 0, 1, 3), cv_mul(cat_entry(CatalogGate::Sqswap, 0, 3), cv_conj(cat_entry(CatalogGate::Sqswap, 1, 3))));
    assert(cv_zeroish(cat_gram(CatalogGate::Sqswap, 0, 1, 4)));
    lemma_zeroish_eqv_zero(cat_gram(CatalogGate::Sqswap, 0, 1, 4));
    assert(cv_eqv(cat_gram(CatalogGate::Sqswap, 0, 1, 4), ident_entry(0, 1)));
}

proof fn sqswap_gram_case_0_2()
    ensures
        cv_eqv(cat_gram(CatalogGate::Sqswap, 0, 2, 4), ident_entry(0, 2)),
{
    reveal_with_fuel(cat_gram, 5);
    lemma_zero_zeroish();
    assert(cat_gram(CatalogGate::Sqswap, 0, 2, 0) == cv_zero());
    assert(cv_zeroish(cat_gram(CatalogGate::Sqswap, 0, 2, 0)));
    assert(cat_gram(CatalogGate::Sqswap, 0, 2, 1) == cv_add(cat_gram(CatalogGate::Sqswap, 0, 2, 0), cv_mul(cat_entry(CatalogGate::Sqswap, 0, 0), cv_conj(cat_entry(CatalogGate::Sqswap, 2, 0)))));
    assert(cat_entry(CatalogGate::Sqswap, 2, 0) == cv_zero());
    assert(cv_conj(cat_entry(CatalogGate::Sqswap, 2, 0)) == cv_zero());
    assert(cv_zeroish(cv_conj(cat_entry(CatalogGate::Sqswap, 2, 0))));
    assert(cv_wf(cat_entry(CatalogGate::Sqswap, 0, 0)));
    lemma_mul_zeroish_right(cat_entry(CatalogGate::Sqswap, 0, 0), cv_conj(cat_entry(CatalogGate::Sqswap, 2, 0)));
    assert(cv_zeroish(cv_mul(cat_entry(CatalogGate::Sqswap, 0, 0), cv_conj(cat_entry(CatalogGate::Sqswap, 2, 0)))));
    lemma_add_zeroish_zeroish(cat_gram(CatalogGate::Sqswap, 0, 2, 0), cv_mul(cat_entry(CatalogGate::Sqswap, 0, 0), cv_conj(cat_entry(CatalogGate::Sqswap, 2, 0))));
    assert(cv_zeroish(cat_gram(CatalogGate::Sqswap, 0, 2, 1)));
    assert(cat_gram(CatalogGate::Sqswap, 0, 2, 2) == cv_add(cat_gram(CatalogGate::Sqswap, 0, 2, 1), cv_mul(cat_entry(CatalogGate::Sqswap, 0, 1), cv_conj(cat_entry(CatalogGate::Sqswap, 2, 1)))));
    assert(cat_entry(CatalogGate::Sqswap, 0, 1) == cv_zero());
    assert(cv_zeroish(cat_entry(CatalogGate::Sqswap, 0, 1)));
    assert(cv_wf(cat_entry(CatalogGate::Sqswap, 2, 1)));
    lemma_conj_wf(cat_entry(CatalogGate::Sqswap, 2, 1));
    lemma_mul_zeroish_left(cat_entry(CatalogGate::Sqswap, 0, 1), cv_conj(cat_entry(CatalogGate::Sqswap, 2, 1)));
    assert(cv_zeroish(cv_mul(cat_entry(CatalogGate::Sqswap, 0, 1), cv_conj(cat_entry(CatalogGate::Sqswap, 2, 1)))));
    lemma_add_zeroish_zeroish(cat_gram(CatalogGate::Sqswap, 0, 2, 1), cv_mul(cat_entry(CatalogGate::Sqswap, 0, 1), cv_conj(cat_entry(CatalogGate::Sqswap, 2, 1))));
    assert(cv_zeroish(cat_gram(CatalogGate::Sqswap, 0, 2, 2)));
    assert(cat_gram(CatalogGate::Sqswap, 0, 2, 3) == cv_add(cat_gram(CatalogGate::Sqswap, 0, 2, 2), cv_mul(cat_entry(CatalogGate::Sqswap, 0, 2), cv_conj(cat_entry(CatalogGate::Sqswap, 2, 2)))));
    assert(cat_entry(CatalogGate::Sqswap, 0, 2) == cv_zero());
    assert(cv_zeroish(cat_entry(CatalogGate::Sqswap, 0, 2)));
    assert(cv_wf(cat_entry(CatalogGate::Sqswap, 2, 2)));
    lemma_conj_wf(cat_entry(CatalogGate::Sqswap, 2, 2));
    lemma_mul_zeroish_left(cat_entry(CatalogGate::Sqswap, 0, 2), cv_conj(cat_entry(CatalogGate::Sqswap, 2, 2)));
    assert(cv_zeroish(cv_mul(cat_entry(CatalogGate::Sqswap, 0, 2), cv_conj(cat_entry(CatalogGate::Sqswap, 2, 2)))));
    lemma_add_zeroish_zeroish(cat_gram(CatalogGate::Sqswap, 0, 2, 2), cv_mul(cat_entry(CatalogGate::Sqswap, 0, 2), cv_conj(cat_entry(CatalogGate::Sqswap, 2, 2))));
    assert(cv_zeroish(cat_gram(CatalogGate::Sqswap, 0, 2, 3)));
    assert(cat_gram(CatalogGate::Sqswap, 0, 2, 4) == cv_add(cat_gram(CatalogGate::Sqswap, 0, 2, 3), cv_mul(cat_entry(CatalogGate::Sqswap, 0, 3), cv_conj(cat_entry(CatalogGate::Sqswap, 2, 3)))));
    assert(cat_entry(CatalogGate::Sqswap, 0, 3) == cv_zero());
    assert(cv_zeroish(cat_entry(CatalogGate::Sqswap, 0, 3)));
    assert(cv_wf(cat_entry(CatalogGate::Sqswap, 2, 3)));
    lemma_conj_wf(cat_entry(CatalogGate::Sqswap, 2, 3));
    lemma_mul_zeroish_left(cat_entry(CatalogGate::Sqswap, 0, 3), cv_conj(cat_entry(CatalogGate::Sqswap, 2, 3)));
    assert(cv_zeroish(cv_mul(cat_entry(CatalogGate::Sqswap, 0, 3), cv_conj(cat_entry(CatalogGate::Sqswap, 2, 3)))));
    lemma_add_zeroish_zeroish(cat_gram(CatalogGate::Sqswap, 0, 2, 3), cv_mul(cat_entry(CatalogGate::Sqswap, 0, 3), cv_conj(cat_entry(CatalogGate::Sqswap, 2, 3))));
    assert(cv_zeroish(cat_gram(CatalogGate::Sqswap, 0, 2, 4)));
    lemma_zeroish_eqv_zero(cat_gram(CatalogGate::Sqswap, 0, 2, 4));
    assert(cv_eqv(cat_gram(CatalogGate::Sqswap, 0, 2, 4), ident_entry(0, 2)));
}

proof fn sqswap_gram_case_0_3()
    ensures
        cv_eqv(cat_gram(CatalogGate::Sqswap, 0, 3, 4), ident_entry(0, 3)),
{
    reveal_with_fuel(cat_gram, 5);
    lemma_zero_zeroish();
    assert(cat_gram(CatalogGate::Sqswap, 0, 3, 0) == cv_zero());
    assert(cv_zeroish(cat_gram(CatalogGate::Sqswap, 0, 3, 0)));
    assert(cat_gram(CatalogGate::Sqswap, 0, 3, 1) == cv_add(cat_gram(CatalogGate::Sqswap, 0, 3, 0), cv_mul(cat_entry(CatalogGate::Sqswap, 0, 0), cv_conj(cat_entry(CatalogGate::Sqswap, 3, 0)))));
    assert(cat_entry(CatalogGate::Sqswap, 3, 0) == cv_zero());
    assert(cv_conj(cat_entry(CatalogGate::Sqswap, 3, 0)) == cv_zero());
    assert(cv_zeroish(cv_conj(cat_entry(CatalogGate::Sqswap, 3, 0))));
    assert(cv_wf(cat_entry(CatalogGate::Sqswap, 0, 0)));
    lemma_mul_zeroish_right(cat_entry(CatalogGate::Sqswap, 0, 0), cv_conj(cat_entry(CatalogGate::Sqswap, 3, 0)));
    assert(cv_zeroish(cv_mul(cat_entry(CatalogGate::Sqswap, 0, 0), cv_conj(cat_entry(CatalogGate::Sqswap, 3, 0)))));
    lemma_add_zeroish_zeroish(cat_gram(CatalogGate::Sqswap, 0, 3, 0), cv_mul(cat_entry(CatalogGate::Sqswap, 0, 0), cv_conj(cat_entry(CatalogGate::Sqswap, 3, 0))));
    assert(cv_zeroish(cat_gram(CatalogGate::Sqswap, 0, 3, 1)));
    assert(cat_gram(CatalogGate::Sqswap, 0, 3, 2) == cv_add(cat_gram(CatalogGate::Sqswap, 0, 3, 1), cv_mul(cat_entry(CatalogGate::Sqswap, 0, 1), cv_conj(cat_entry(CatalogGate::Sqswap, 3, 1)))));
    assert(cat_entry(CatalogGate::Sqswap, 0, 1) == cv_zero());
    assert(cv_zeroish(cat_entry(CatalogGate::Sqswap, 0, 1)));
    assert(cv_wf(cat_entry(CatalogGate::Sqswap, 3, 1)));
    lemma_conj_wf(cat_entry(CatalogGate::Sqswap, 3, 1));
    lemma_mul_zeroish_left(cat_entry(CatalogGate::Sqswap, 0, 1), cv_conj(cat_entry(CatalogGate::Sqswap, 3, 1)));
    assert(cv_zeroish(cv_mul(cat_entry(CatalogGate::Sqswap, 0, 1), cv_conj(cat_entry(CatalogGate::Sqswap, 3, 1)))));
    lemma_add_zeroish_zeroish(cat_gram(CatalogGate::Sqswap, 0, 3, 1), cv_mul(cat_entry(CatalogGate::Sqswap, 0, 1), cv_conj(cat_entry(CatalogGate::Sqswap, 3, 1))));
    assert(cv_zeroish(cat_gram(CatalogGate::Sqswap, 0, 3, 2)));
    assert(cat_gram(CatalogGate::Sqswap, 0, 3, 3) == cv_add(cat_gram(CatalogGate::Sqswap, 0, 3, 2), cv_mul(cat_entry(CatalogGate::Sqswap, 0, 2), cv_conj(cat_entry(CatalogGate::Sqswap, 3, 2)))));
    assert(cat_entry(CatalogGate::Sqswap, 0, 2) == cv_zero());
    assert(cv_zeroish(cat_entry(CatalogGate::Sqswap, 0, 2)));
    assert(cv_wf(cat_entry(CatalogGate::Sqswap, 3, 2)));
    lemma_conj_wf(cat_entry(CatalogGate::Sqswap, 3, 2));
    lemma_mul_zeroish_left(cat_entry(CatalogGate::Sqswap, 0, 2), cv_conj(cat_entry(CatalogGate::Sqswap, 3, 2)));
    assert(cv_zeroish(cv_mul(cat_entry(CatalogGate::Sqswap, 0, 2), cv_conj(cat_entry(CatalogGate::Sqswap, 3, 2)))));
    lemma_add_zeroish_zeroish(cat_gram(CatalogGate::Sqswap, 0, 3, 2), cv_mul(cat_entry(CatalogGate::Sqswap, 0, 2), cv_conj(cat_entry(CatalogGate::Sqswap, 3, 2))));
    assert(cv_zeroish(cat_gram(CatalogGate::Sqswap, 0, 3, 3)));
    assert(cat_gram(CatalogGate::Sqswap, 0, 3, 4) == cv_add(cat_gram(CatalogGate::Sqswap, 0, 3, 3), cv_mul(cat_entry(CatalogGate::Sqswap, 0, 3), cv_conj(cat_entry(CatalogGate::Sqswap, 3, 3)))));
    assert(cat_entry(CatalogGate::Sqswap, 0, 3) == cv_zero());
    assert(cv_zeroish(cat_entry(CatalogGate::Sqswap, 0, 3)));
    assert(cv_wf(cat_entry(CatalogGate::Sqswap, 3, 3)));
    lemma_conj_wf(cat_entry(CatalogGate::Sqswap, 3, 3));
    lemma_mul_zeroish_left(cat_entry(CatalogGate::Sqswap, 0, 3), cv_conj(cat_entry(CatalogGate::Sqswap, 3, 3)));
    assert(cv_zeroish(cv_mul(cat_entry(CatalogGate::Sqswap, 0, 3), cv_conj(cat_entry(CatalogGate::Sqswap, 3, 3)))));
    lemma_add_zeroish_zeroish(cat_gram(CatalogGate::Sqswap, 0, 3, 3), cv_mul(cat_entry(CatalogGate::Sqswap, 0, 3), cv_conj(cat_entry(CatalogGate::Sqswap, 3, 3))));
    assert(cv_zeroish(cat_gram(CatalogGate::Sqswap, 0, 3, 4)));
    lemma_zeroish_eqv_zero(cat_gram(CatalogGate::Sqswap, 0, 3, 4));
    assert(cv_eqv(cat_gram(CatalogGate::Sqswap, 0, 3, 4), ident_entry(0, 3)));
}

proof fn sqswap_gram_case_1_0()
    ensures
        cv_eqv(cat_gram(CatalogGate::Sqswap, 1, 0, 4), ident_entry(1, 0)),
{
    reveal_with_fuel(cat_gram, 5);
    lemma_zero_zeroish();
    assert(cat_gram(CatalogGate::Sqswap, 1, 0, 0) == cv_zero());
    assert(cv_zeroish(cat_gram(CatalogGate::Sqswap, 1, 0, 0)));
    assert(cat_gram(CatalogGate::Sqswap, 1, 0, 1) == cv_add(cat_gram(CatalogGate::Sqswap, 1, 0, 0), cv_mul(cat_entry(CatalogGate::Sqswap, 1, 0), cv_conj(cat_entry(CatalogGate::Sqswap, 0, 0)))));
    assert(cat_entry(CatalogGate::Sqswap, 1, 0) == cv_zero());
    assert(cv_zeroish(cat_entry(CatalogGate::Sqswap, 1, 0)));
    assert(cv_wf(cat_entry(CatalogGate::Sqswap, 0, 0)));
    lemma_conj_wf(cat_entry(CatalogGate::Sqswap, 0, 0));
    lemma_mul_zeroish_left(cat_entry(CatalogGate::Sqswap, 1, 0), cv_conj(cat_entry(CatalogGate::Sqswap, 0, 0)));
    assert(cv_zeroish(cv_mul(cat_entry(CatalogGate::Sqswap, 1, 0), cv_conj(cat_entry(CatalogGate::Sqswap, 0, 0)))));
    lemma_add_zeroish_zeroish(cat_gram(CatalogGate::Sqswap, 1, 0, 0), cv_mul(cat_entry(CatalogGate::Sqswap, 1, 0), cv_conj(cat_entry(CatalogGate::Sqswap, 0, 0))));
    assert(cv_zeroish(cat_gram(CatalogGate::Sqswap, 1, 0, 1)));
    assert(cat_gram(CatalogGate::Sqswap, 1, 0, 2) == cv_add(cat_gram(CatalogGate::Sqswap, 1, 0, 1), cv_mul(cat_entry(CatalogGate::Sqswap, 1, 1), cv_conj(cat_entry(CatalogGate::Sqswap, 0, 1)))));
    assert(cat_entry(CatalogGate::Sqswap, 0, 1) == cv_zero());
    assert(cv_conj(cat_entry(CatalogGate::Sqswap, 0, 1)) == cv_zero());
    assert(cv_zeroish(cv_conj(cat_entry(CatalogGate::Sqswap, 0, 1))));
    assert(cv_wf(cat_entry(CatalogGate::Sqswap, 1, 1)));
    lemma_mul_zeroish_right(cat_entry(CatalogGate::Sqswap, 1, 1), cv_conj(cat_entry(CatalogGate::Sqswap, 0, 1)));
    assert(cv_zeroish(cv_mul(cat_entry(CatalogGate::Sqswap, 1, 1), cv_conj(cat_entry(CatalogGate::Sqswap, 0, 1)))));
    lemma_add_zeroish_zeroish(cat_gram(CatalogGate::Sqswap, 1, 0, 1), cv_mul(cat_entry(CatalogGate::Sqswap, 1, 1), cv_conj(cat_entry(CatalogGate::Sqswap, 0, 1))));
    assert(cv_zeroish(cat_gram(CatalogGate::Sqswap, 1, 0, 2)));
    assert(cat_gram(CatalogGate::Sqswap, 1, 0, 3) == cv_add(cat_gram(CatalogGate::Sqswap, 1, 0, 2), cv_mul(cat_entry(CatalogGate::Sqswap, 1, 2), cv_conj(cat_entry(CatalogGate::Sqswap, 0, 2)))));
    assert(cat_entry(CatalogGate::Sqswap, 0, 2) == cv_zero());
    assert(cv_conj(cat_entry(CatalogGate::Sqswap, 0, 2)) == cv_zero());
    assert(cv_zeroish(cv_conj(cat_entry(CatalogGate::Sqswap, 0, 2))));
    assert(cv_wf(cat_entry(CatalogGate::Sqswap, 1, 2)));
    lemma_mul_zeroish_right(cat_entry(CatalogGate::Sqswap, 1, 2), cv_conj(cat_entry(CatalogGate::Sqswap, 0, 2)));
    assert(cv_zeroish(cv_mul(cat_entry(CatalogGate::Sqswap, 1, 2), cv_conj(cat_entry(CatalogGate::Sqswap, 0, 2)))));
    lemma_add_zeroish_zeroish(cat_gram(CatalogGate::Sqswap, 1, 0, 2), cv_mul(cat_entry(CatalogGate::Sqswap, 1, 2), cv_conj(cat_entry(CatalogGate::Sqswap, 0, 2))));
    assert(cv_zeroish(cat_gram(CatalogGate::Sqswap, 1, 0, 3)));
    assert(cat_gram(CatalogGate::Sqswap, 1, 0, 4) == cv_add(cat_gram(CatalogGate::Sqswap, 1, 0, 3), cv_mul(cat_entry(CatalogGate::Sqswap, 1, 3), cv_conj(cat_entry(CatalogGate::Sqswap, 0, 3)))));
    assert(cat_entry(CatalogGate::Sqswap, 1, 3) == cv_zero());
    assert(cv_zeroish(cat_entry(CatalogGate::Sqswap, 1, 3)));
    assert(cv_wf(cat_entry(CatalogGate::Sqswap, 0, 3)));
    lemma_conj_wf(cat_entry(CatalogGate::Sqswap, 0, 3));
    lemma_mul_zeroish_left(cat_entry(CatalogGate::Sqswap, 1, 3), cv_conj(cat_entry(CatalogGate::Sqswap, 0, 3)));
    assert(cv_zeroish(cv_mul(cat_entry(CatalogGate::Sqswap, 1, 3), cv_conj(cat_entry(CatalogGate::Sqswap, 0, 3)))));
    lemma_add_zeroish_zeroish(cat_gram(CatalogGate::Sqswap, 1, 0, 3), cv_mul(cat_entry(CatalogGate::Sqswap, 1, 3), cv_conj(cat_entry(CatalogGate::Sqswap, 0, 3))));
    assert(cv_zeroish(cat_gram(CatalogGate::Sqswap, 1, 0, 4)));
    lemma_zeroish_eqv_zero(cat_gram(CatalogGate::Sqswap, 1, 0, 4));
    assert(cv_eqv(cat_gram(CatalogGate::Sqswap, 1, 0, 4), ident_entry(1, 0)));
}

proof fn sqswap_gram_case_1_1()
    ensures
        cv_eqv(cat_gram(CatalogGate::Sqswap, 1, 1, 4), ident_entry(1, 1)),
{
    reveal_with_fuel(cat_gram, 5);
    lemma_zero_zeroish();
    assert(cat_gram(CatalogGate::Sqswap, 1, 1, 0) == cv_zero());
    assert(cv_zeroish(cat_gram(CatalogGate::Sqswap, 1, 1, 0)));
    assert(cat_gram(CatalogGate::Sqswap, 1, 1, 1) == cv_add(cat_gram(CatalogGate::Sqswap, 1, 1, 0), cv_mul(cat_entry(CatalogGate::Sqswap, 1, 0), cv_conj(cat_entry(CatalogGate::Sqswap, 1, 0)))));
    assert(cat_entry(CatalogGate::Sqswap, 1, 0) == cv_zero());
    assert(cv_zeroish(cat_entry(CatalogGate::Sqswap, 1, 0)));
    assert(cv_wf(cat_entry(CatalogGate::Sqswap, 1, 0)));
    lemma_conj_wf(cat_entry(CatalogGate::Sqswap, 1, 0));
    lemma_mul_zeroish_left(cat_entry(CatalogGate::Sqswap, 1, 0), cv_conj(cat_entry(CatalogGate::Sqswap, 1, 0)));
    assert(cv_zeroish(cv_mul(cat_entry(CatalogGate::Sqswap, 1, 0), cv_conj(cat_entry(CatalogGate::Sqswap, 1, 0)))));
    lemma_add_zeroish_zeroish(cat_gram(CatalogGate::Sqswap, 1, 1, 0), cv_mul(cat_entry(CatalogGate::Sqswap, 1, 0), cv_conj(cat_entry(CatalogGate::Sqswap, 1, 0))));
    assert(cv_zeroish(cat_gram(CatalogGate::Sqswap, 1, 1, 1)));
    assert(cat_gram(CatalogGate::Sqswap, 1, 1, 2) == cv_add(cat_gram(CatalogGate::Sqswap, 1, 1, 1), cv_mul(cat_entry(CatalogGate::Sqswap, 1, 1), cv_conj(cat_entry(CatalogGate::Sqswap, 1, 1)))));
    assert(cv_wf(cat_entry(CatalogGate::Sqswap, 1, 1)));
    assert(cv_wf(cat_entry(CatalogGate::Sqswap, 1, 1)));
    lemma_conj_wf(cat_entry(CatalogGate::Sqswap, 1, 1));
    lemma_mul_wf(cat_entry(CatalogGate::Sqswap, 1, 1), cv_conj(cat_entry(CatalogGate::Sqswap, 1, 1)));
    lemma_add_zeroish_left(cat_gram(CatalogGate::Sqswap, 1, 1, 1), cv_mul(cat_entry(CatalogGate::Sqswap, 1, 1), cv_conj(cat_entry(CatalogGate::Sqswap, 1, 1))));
    assert(cat_gram(CatalogGate::Sqswap, 1, 1, 3) == cv_add(cat_gram(CatalogGate::Sqswap, 1, 1, 2), cv_mul(cat_entry(CatalogGate::Sqswap, 1, 2), cv_conj(cat_entry(CatalogGate::Sqswap, 1, 2)))));
    assert(cv_wf(cat_entry(CatalogGate::Sqswap, 1, 2)));
    assert(cv_wf(cat_entry(CatalogGate::Sqswap, 1, 2)));
    lemma_conj_wf(cat_entry(CatalogGate::Sqswap, 1, 2));
    lemma_mul_wf(cat_entry(CatalogGate::Sqswap, 1, 2), cv_conj(cat_entry(CatalogGate::Sqswap, 1, 2)));
    lemma_add_eqv_left(cat_gram(CatalogGate::Sqswap, 1, 1, 2), cv_mul(cat_entry(CatalogGate::Sqswap, 1, 1), cv_conj(cat_entry(CatalogGate::Sqswap, 1, 1))), cv_mul(cat_entry(CatalogGate::Sqswap, 1, 2), cv_conj(cat_entry(CatalogGate::Sqswap, 1, 2))));
    lemma_eqv_trans(cat_gram(CatalogGate::Sqswap, 1, 1, 3), cv_add(cat_gram(CatalogGate::Sqswap, 1, 1, 2), cv_mul(cat_entry(CatalogGate::Sqswap, 1, 2), cv_conj(cat_entry(CatalogGate::Sqswap, 1, 2)))), cv_add(cv_mul(cat_entry(CatalogGate::Sqswap, 1, 1), cv_conj(cat_entry(CatalogGate::Sqswap, 1, 1))), cv_mul(cat_entry(CatalogGate::Sqswap, 1, 2), cv_conj(cat_entry(CatalogGate::Sqswap, 1, 2)))));
    assert(cat_gram(CatalogGate::Sqswap, 1, 1, 4) == cv_add(cat_gram(CatalogGate::Sqswap, 1, 1, 3), cv_mul(cat_entry(CatalogGate::Sqswap, 1, 3), cv_conj(cat_entry(CatalogGate::Sqswap, 1, 3)))));
    assert(cat_entry(CatalogGate::Sqswap, 1, 3) == cv_zero());
    assert(cv_zeroish(cat_entry(CatalogGate::Sqswap, 1, 3)));
    assert(cv_wf(cat_entry(CatalogGate::Sqswap, 1, 3)));
    lemma_conj_wf(cat_entry(CatalogGate::Sqswap, 1, 3));
    lemma_mul_zeroish_left(cat_entry(CatalogGate::Sqswap, 1, 3), cv_conj(cat_entry(CatalogGate::Sqswap, 1, 3)));
    assert(cv_zeroish(cv_mul(cat_entry(CatalogGate::Sqswap, 1, 3), cv_conj(cat_entry(CatalogGate::Sqswap, 1, 3)))));
    lemma_add_zeroish_right(cat_gram(CatalogGate::Sqswap, 1, 1, 3), cv_mul(cat_entry(CatalogGate::Sqswap, 1, 3), cv_conj(cat_entry(CatalogGate::Sqswap, 1, 3))));
    lemma_eqv_trans(cat_gram(CatalogGate::Sqswap, 1, 1, 4), cat_gram(CatalogGate::Sqswap, 1, 1, 3), cv_add(cv_mul(cat_entry(CatalogGate::Sqswap, 1, 1), cv_conj(cat_entry(CatalogGate::Sqswap, 1, 1))), cv_mul(cat_entry(CatalogGate::Sqswap, 1, 2), cv_conj(cat_entry(CatalogGate::Sqswap, 1, 2)))));
    assert((cv_add(cv_mul(cat_entry(CatalogGate::Sqswap, 1, 1), cv_conj(cat_entry(CatalogGate::Sqswap, 1, 1))), cv_mul(cat_entry(CatalogGate::Sqswap, 1, 2), cv_conj(cat_entry(CatalogGate::Sqswap, 1, 2))))).re.a == (((1) * (1) + 2 * ((0) * (0))) * ((2) * (2)) + (-((1) * (-(1)) + 2 * ((0) * (-(0))))) * ((2) * (2))) * (((2) * (2)) * ((2) * (2))) + (((1) * (1) + 2 * ((0) * (0))) * ((2) * (2)) + (-((-1) * (-(-1)) + 2 * ((0) * (-(0))))) * ((2) * (2))) * (((2) * (2)) * ((2) * (2))));
    assert(((((1) * (1) + 2 * ((0) * (0))) * ((2) * (2)) + (-((1) * (-(1)) + 2 * ((0) * (-(0))))) * ((2) * (2))) * (((2) * (2)) * ((2) * (2))) + (((1) * (1) + 2 * ((0) * (0))) * ((2) * (2)) + (-((-1) * (-(-1)) + 2 * ((0) * (-(0))))) * ((2) * (2))) * (((2) * (2)) * ((2) * (2)))) == 256) by (nonlinear_arith);
    assert((cv_add(cv_mul(cat_entry(CatalogGate::Sqswap, 1, 1), cv_conj(cat_entry(CatalogGate::Sqswap, 1, 1))), cv_mul(cat_entry(CatalogGate::Sqswap, 1, 2), cv_conj(cat_entry(CatalogGate::Sqswap, 1, 2))))).re.b == (((1) * (0) + (0) * (1)) * ((2) * (2)) + (-((1) * (-(0)) + (0) * (-(1)))) * ((2) * (2))) * (((2) * (2)) * ((2) * (2))) + (((1) * (0) + (0) * (1)) * ((2) * (2)) + (-((-1) * (-(0)) + (0) * (-(-1)))) * ((2) * (2))) * (((2) * (2)) * ((2) * (2))));
    assert(((((1) * (0) + (0) * (1)) * ((2) * (2)) + (-((1) * (-(0)) + (0) * (-(1)))) * ((2) * (2))) * (((2) * (2)) * ((2) * (2))) + (((1) * (0) + (0) * (1)) * ((2) * (2)) + (-((-1) * (-(0)) + (0) * (-(-1)))) * ((2) * (2))) * (((2) * (2)) * ((2) * (2)))) == 0) by (nonlinear_arith);
    assert((cv_add(cv_mul(cat_entry(CatalogGate::Sqswap, 1, 1), cv_conj(cat_entry(CatalogGate::Sqswap, 1, 1))), cv_mul(cat_entry(CatalogGate::Sqswap, 1, 2), cv_conj(cat_entry(CatalogGate::Sqswap, 1, 2))))).re.d == (((2) * (2)) * ((2) * (2))) * (((2) * (2)) * ((2) * (2))));
    assert(((((2) * (2)) * ((2) * (2))) * (((2) * (2)) * ((2) * (2)))) == 256) by (nonlinear_arith);
    assert((cv_add(cv_mul(cat_entry(CatalogGate::Sqswap, 1, 1), cv_conj(cat_entry(CatalogGate::Sqswap, 1, 1))), cv_mul(cat_entry(CatalogGate::Sqswap, 1, 2), cv_conj(cat_entry(CatalogGate::Sqswap, 1, 2))))).im.a == (((1) * (-(1)) + 2 * ((0) * (-(0)))) * ((2) * (2)) + ((1) * (1) + 2 * ((0) * (0))) * ((2) * (2))) * (((2) * (2)) * ((2) * (2))) + (((1) * (-(-1)) + 2 * ((0) * (-(0)))) * ((2) * (2)) + ((-1) * (1) + 2 * ((0) * (0))) * ((2) * (2))) * (((2) * (2)) * ((2) * (2))));
    assert(((((1) * (-(1)) + 2 * ((0) * (-(0)))) * ((2) * (2)) + ((1) * (1) + 2 * ((0) * (0))) * ((2) * (2))) * (((2) * (2)) * ((2) * (2))) + (((1) * (-(-1)) + 2 * ((0) * (-(0)))) * ((2) * (2)) + ((-1) * (1) + 2 * ((0) * (0))) * ((2) * (2))) * (((2) * (2)) * ((2) * (2)))) == 0) by (nonlinear_arith);
    assert((cv_add(cv_mul(cat_entry(CatalogGate::Sqswap, 1, 1), cv_conj(cat_entry(CatalogGate::Sqswap, 1, 1))), cv_mul(cat_entry(CatalogGate::Sqswap, 1, 2), cv_conj(cat_entry(CatalogGate::Sqswap, 1, 2))))).im.b == (((1) * (-(0)) + (0) * (-(1))) * ((2) * (2)) + ((1) * (0) + (0) * (1)) * ((2) * (2))) * (((2) * (2)) * ((2) * (2))) + (((1) * (-(0)) + (0) * (-(-1))) * ((2) * (2)) + ((-1) * (0) + (0) * (1)) * ((2) * (2))) * (((2) * (2)) * ((2) * (2))));
    assert(((((1) * (-(0)) + (0) * (-(1))) * ((2) * (2)) + ((1) * (0) + (0) * (1)) * ((2) * (2))) * (((2) * (2)) * ((2) * (2))) + (((1) * (-(0)) + (0) * (-(-1))) * ((2) * (2)) + ((-1) * (0) + (0) * (1)) * ((2) * (2))) * (((2) * (2)) * ((2) * (2)))) == 0) by (nonlinear_arith);
    assert((cv_add(cv_mul(cat_entry(CatalogGate::Sqswap, 1, 1), cv_conj(cat_entry(CatalogGate::Sqswap, 1, 1))), cv_mul(cat_entry(CatalogGate::Sqswap, 1, 2), cv_conj(cat_entry(CatalogGate::Sqswap, 1, 2))))).im.d == (((2) * (2)) * ((2) * (2))) * (((2) * (2)) * ((2) * (2))));
    assert(((((2) * (2)) * ((2) * (2))) * (((2) * (2)) * ((2) * (2)))) == 256) by (nonlinear_arith);
    assert((cv_add(cv_mul(cat_entry(CatalogGate::Sqswap, 1, 1), cv_conj(cat_entry(CatalogGate::Sqswap, 1, 1))), cv_mul(cat_entry(CatalogGate::Sqswap, 1, 2), cv_conj(cat_entry(CatalogGate::Sqswap, 1, 2))))).re.a * (ident_entry(1, 1)).re.d == (ident_entry(1, 1)).re.a * (cv_add(cv_mul(cat_entry(CatalogGate::Sqswap, 1, 1), cv_conj(cat_entry(CatalogGate::Sqswap, 1, 1))), cv_mul(cat_entry(CatalogGate::Sqswap, 1, 2), cv_conj(cat_entry(CatalogGate::Sqswap, 1, 2))))).re.d)
        by (nonlinear_arith)
        requires
            (cv_add(cv_mul(cat_entry(CatalogGate::Sqswap, 1, 1), cv_conj(cat_entry(CatalogGate::Sqswap, 1, 1))), cv_mul(cat_entry(CatalogGate::Sqswap, 1, 2), cv_conj(cat_entry(CatalogGate::Sqswap, 1, 2))))).re.a == 256,
            (cv_add(cv_mul(cat_entry(CatalogGate::Sqswap, 1, 1), cv_conj(cat_entry(CatalogGate::Sqswap, 1, 1))), cv_mul(cat_entry(CatalogGate::Sqswap, 1, 2), cv_conj(cat_entry(CatalogGate::Sqswap, 1, 2))))).re.d == 256,
            (ident_entry(1, 1)).re.a == 1,
            (ident_entry(1, 1)).re.d == 1;
    assert((cv_add(cv_mul(cat_entry(CatalogGate::Sqswap, 1, 1), cv_conj(cat_entry(CatalogGate::Sqswap, 1, 1))), cv_mul(cat_entry(CatalogGate::Sqswap, 1, 2), cv_conj(cat_entry(CatalogGate::Sqswap, 1, 2))))).re.b * (ident_entry(1, 1)).re.d == (ident_entry(1, 1)).re.b * (cv_add(cv_mul(cat_entry(CatalogGate::Sqswap, 1, 1), cv_conj(cat_entry(CatalogGate::Sqswap, 1, 1))), cv_mul(cat_entry(CatalogGate::Sqswap, 1, 2), cv_conj(cat_entry(CatalogGate::Sqswap, 1, 2))))).re.d)
        by (nonlinear_arith)
        requires
            (cv_add(cv_mul(cat_entry(CatalogGate::Sqswap, 1, 1), cv_conj(cat_entry(CatalogGate::Sqswap, 1, 1))), cv_mul(cat_entry(CatalogGate::Sqswap, 1, 2), cv_conj(cat_entry(CatalogGate::Sqswap, 1, 2))))).re.b == 0,
            (cv_add(cv_mul(cat_entry(CatalogGate::Sqswap, 1, 1), cv_conj(cat_entry(CatalogGate::Sqswap, 1, 1))), cv_mul(cat_entry(CatalogGate::Sqswap, 1, 2), cv_conj(cat_entry(CatalogGate::Sqswap, 1, 2))))).re.d == 256,
            (ident_entry(1, 1)).re.b == 0,
            (ident_entry(1, 1)).re.d == 1;
    assert((cv_add(cv_mul(cat_entry(CatalogGate::Sqswap, 1, 1), cv_conj(cat_entry(CatalogGate::Sqswap, 1, 1))), cv_mul(cat_entry(CatalogGate::Sqswap, 1, 2), cv_conj(cat_entry(CatalogGate::Sqswap, 1, 2))))).im.a * (ident_entry(1, 1)).im.d == (ident_entry(1, 1)).im.a * (cv_add(cv_mul(cat_entry(CatalogGate::Sqswap, 1, 1), cv_conj(cat_entry(CatalogGate::Sqswap, 1, 1))), cv_mul(cat_entry(CatalogGate::Sqswap, 1, 2), cv_conj(cat_entry(CatalogGate::Sqswap, 1, 2))))).im.d)
        by (nonlinear_arith)
        requires
            (cv_add(cv_mul(cat_entry(CatalogGate::Sqswap, 1, 1), cv_conj(cat_entry(CatalogGate::Sqswap, 1, 1))), cv_mul(cat_entry(CatalogGate::Sqswap, 1, 2), cv_conj(cat_entry(CatalogGate::Sqswap, 1, 2))))).im.a == 0,
            (cv_add(cv_mul(cat_entry(CatalogGate::Sqswap, 1, 1), cv_conj(cat_entry(CatalogGate::Sqswap, 1, 1))), cv_mul(cat_entry(CatalogGate::Sqswap, 1, 2), cv_conj(cat_entry(CatalogGate::Sqswap, 1, 2))))).im.d == 256,
            (ident_entry(1, 1)).im.a == 0,
            (ident_entry(1, 1)).im.d == 1;
    assert((cv_add(cv_mul(cat_entry(CatalogGate::Sqswap, 1, 1), cv_conj(cat_entry(CatalogGate::Sqswap, 1, 1))), cv_mul(cat_entry(CatalogGate::Sqswap, 1, 2), cv_conj(cat_entry(CatalogGate::Sqswap, 1, 2))))).im.b * (ident_entry(1, 1)).im.d == (ident_entry(1, 1)).im.b * (cv_add(cv_mul(cat_entry(CatalogGate::Sqswap, 1, 1), cv_conj(cat_entry(CatalogGate::Sqswap, 1, 1))), cv_mul(cat_entry(CatalogGate::Sqswap, 1, 2), cv_conj(cat_entry(CatalogGate::Sqswap, 1, 2))))).im.d)
        by (nonlinear_arith)
        requires
            (cv_add(cv_mul(cat_entry(CatalogGate::Sqswap, 1, 1), cv_conj(cat_entry(CatalogGate::Sqswap, 1, 1))), cv_mul(cat_entry(CatalogGate::Sqswap, 1, 2), cv_conj(cat_entry(CatalogGate::Sqswap, 1, 2))))).im.b == 0,
            (cv_add(cv_mul(cat_entry(CatalogGate::Sqswap, 1, 1), cv_conj(cat_entry(CatalogGate::Sqswap, 1, 1))), cv_mul(cat_entry(CatalogGate::Sqswap, 1, 2), cv_conj(cat_entry(CatalogGate::Sqswap, 1, 2))))).im.d == 256,
            (ident_entry(1, 1)).im.b == 0,
            (ident_entry(1, 1)).im.d == 1;
    assert(cv_eqv(cv_add(cv_mul(cat_entry(CatalogGate::Sqswap, 1, 1), cv_conj(cat_entry(CatalogGate::Sqswap, 1, 1))), cv_mul(cat_entry(CatalogGate::Sqswap, 1, 2), cv_conj(cat_entry(CatalogGate::Sqswap, 1, 2)))), ident_entry(1, 1)));
    assert(cv_wf(ident_entry(1, 1)));
    lemma_eqv_trans(cat_gram(CatalogGate::Sqswap, 1, 1, 4), cv_add(cv_mul(cat_entry(CatalogGate::Sqswap, 1, 1), cv_conj(cat_entry(CatalogGate::Sqswap, 1, 1))), cv_mul(cat_entry(CatalogGate::Sqswap, 1, 2), cv_conj(cat_entry(CatalogGate::Sqswap, 1, 2)))), ident_entry(1, 1));
}

proof fn sqswap_gram_case_1_2()
    ensures
        cv_eqv(cat_gram(CatalogGate::Sqswap, 1, 2, 4), ident_entry(1, 2)),
{
    reveal_with_fuel(cat_gram, 5);
    lemma_zero_zeroish();
    assert(cat_gram(CatalogGate::Sqswap, 1, 2, 0) == cv_zero());
    assert(cv_zeroish(cat_gram(CatalogGate::Sqswap, 1, 2, 0)));
    assert(cat_gram(CatalogGate::Sqswap, 1, 2, 1) == cv_add(cat_gram(CatalogGate::Sqswap, 1, 2, 0), cv_mul(cat_entry(CatalogGate::Sqswap, 1, 0), cv_conj(cat_entry(CatalogGate::Sqswap, 2, 0)))));
    assert(cat_entry(CatalogGate::Sqswap, 1, 0) == cv_zero());
    assert(cv_zeroish(cat_entry(CatalogGate::Sqswap, 1, 0)));
    assert(cv_wf(cat_entry(CatalogGate::Sqswap, 2, 0)));
    lemma_conj_wf(cat_entry(CatalogGate::Sqswap, 2, 0));
    lemma_mul_zeroish_left(cat_entry(CatalogGate::Sqswap, 1, 0), cv_conj(cat_entry(CatalogGate::Sqswap, 2, 0)));
    assert(cv_zeroish(cv_mul(cat_entry(CatalogGate::Sqswap, 1, 0), cv_conj(cat_entry(CatalogGate::Sqswap, 2, 0)))));
    lemma_add_zeroish_zeroish(cat_gram(CatalogGate::Sqswap, 1, 2, 0), cv_mul(cat_entry(CatalogGate::Sqswap, 1, 0), cv_conj(cat_entry(CatalogGate::Sqswap, 2, 0))));
    assert(cv_zeroish(cat_gram(CatalogGate::Sqswap, 1, 2, 1)));
    assert(cat_gram(CatalogGate::Sqswap, 1, 2, 2) == cv_add(cat_gram(CatalogGate::Sqswap, 1, 2, 1), cv_mul(cat_entry(CatalogGate::Sqswap, 1, 1), cv_conj(cat_entry(CatalogGate::Sqswap, 2, 1)))));
    assert(cv_wf(cat_entry(CatalogGate::Sqswap, 1, 1)));
    assert(cv_wf(cat_entry(CatalogGate::Sqswap, 2, 1)));
    lemma_conj_wf(cat_entry(CatalogGate::Sqswap, 2, 1));
    lemma_mul_wf(cat_entry(CatalogGate::Sqswap, 1, 1), cv_conj(cat_entry(CatalogGate::Sqswap, 2, 1)));
    lemma_add_zeroish_left(cat_gram(CatalogGate::Sqswap, 1, 2, 1), cv_mul(cat_entry(CatalogGate::Sqswap, 1, 1), cv_conj(cat_entry(CatalogGate::Sqswap, 2, 1))));
    assert(cat_gram(CatalogGate::Sqswap, 1, 2, 3) == cv_add(cat_gram(CatalogGate::Sqswap, 1, 2, 2), cv_mul(cat_entry(CatalogGate::Sqswap, 1, 2), cv_conj(cat_entry(CatalogGate::Sqswap, 2, 2)))));
    assert(cv_wf(cat_entry(CatalogGate::Sqswap, 1, 2)));
    assert(cv_wf(cat_entry(CatalogGate::Sqswap, 2, 2)));
    lemma_conj_wf(cat_entry(CatalogGate::Sqswap, 2, 2));
    lemma_mul_wf(cat_entry(CatalogGate::Sqswap, 1, 2), cv_conj(cat_entry(CatalogGate::Sqswap, 2, 2)));
    lemma_add_eqv_left(cat_gram(CatalogGate::Sqswap, 1, 2, 2), cv_mul(cat_entry(CatalogGate::Sqswap, 1, 1), cv_conj(cat_entry(CatalogGate::Sqswap, 2, 1))), cv_mul(cat_entry(CatalogGate::Sqswap, 1, 2), cv_conj(cat_entry(CatalogGate::Sqswap, 2, 2))));
    lemma_eqv_trans(cat_gram(CatalogGate::Sqswap, 1, 2, 3), cv_add(cat_gram(CatalogGate::Sqswap, 1, 2, 2), cv_mul(cat_entry(CatalogGate::Sqswap, 1, 2), cv_conj(cat_entry(CatalogGate::Sqswap, 2, 2)))), cv_add(cv_mul(cat_entry(CatalogGate::Sqswap, 1, 1), cv_conj(cat_entry(CatalogGate::Sqswap, 2, 1))), cv_mul(cat_entry(CatalogGate::Sqswap, 1, 2), cv_conj(cat_entry(CatalogGate::Sqswap, 2, 2)))));
    assert(cat_gram(CatalogGate::Sqswap, 1, 2, 4) == cv_add(cat_gram(CatalogGate::Sqswap, 1, 2, 3), cv_mul(cat_entry(CatalogGate::Sqswap, 1, 3), cv_conj(cat_entry(CatalogGate::Sqswap, 2, 3)))));
    assert(cat_entry(CatalogGate::Sqswap, 1, 3) == cv_zero());
    assert(cv_zeroish(cat_entry(CatalogGate::Sqswap, 1, 3)));
    assert(cv_wf(cat_entry(CatalogGate::Sqswap, 2, 3)));
    lemma_conj_wf(cat_entry(CatalogGate::Sqswap, 2, 3));
    lemma_mul_zeroish_left(cat_entry(CatalogGate::Sqswap, 1, 3), cv_conj(cat_entry(CatalogGate::Sqswap, 2, 3)));
    assert(cv_zeroish(cv_mul(cat_entry(CatalogGate::Sqswap, 1, 3), cv_conj(cat_entry(CatalogGate::Sqswap, 2, 3)))));
    lemma_add_zeroish_right(cat_gram(CatalogGate::Sqswap, 1, 2, 3), cv_mul(cat_entry(CatalogGate::Sqswap, 1, 3), cv_conj(cat_entry(CatalogGate::Sqswap, 2, 3))));
    lemma_eqv_trans(cat_gram(CatalogGate::Sqswap, 1, 2, 4), cat_gram(CatalogGate::Sqswap, 1, 2, 3), cv_add(cv_mul(cat_entry(CatalogGate::Sqswap, 1, 1), cv_conj(cat_entry(CatalogGate::Sqswap, 2, 1))), cv_mul(cat_entry(CatalogGate::Sqswap, 1, 2), cv_conj(cat_entry(CatalogGate::Sqswap, 2, 2)))));
    assert((cv_add(cv_mul(cat_entry(CatalogGate::Sqswap, 1, 1), cv_conj(cat_entry(CatalogGate::Sqswap, 2, 1))), cv_mul(cat_entry(CatalogGate::Sqswap, 1, 2), cv_conj(cat_entry(CatalogGate::Sqswap, 2, 2))))).re.a == (((1) * (1) + 2 * ((0) * (0))) * ((2) * (2)) + (-((1) * (-(-1)) + 2 * ((0) * (-(0))))) * ((2) * (2))) * (((2) * (2)) * ((2) * (2))) + (((1) * (1) + 2 * ((0) * (0))) * ((2) * (2)) + (-((-1) * (-(1)) + 2 * ((0) * (-(0))))) * ((2) * (2))) * (((2) * (2)) * ((2) * (2))));
    assert(((((1) * (1) + 2 * ((0) * (0))) * ((2) * (2)) + (-((1) * (-(-1)) + 2 * ((0) * (-(0))))) * ((2) * (2))) * (((2) * (2)) * ((2) * (2))) + (((1) * (1) + 2 * ((0) * (0))) * ((2) * (2)) + (-((-1) * (-(1)) + 2 * ((0) * (-(0))))) * ((2) * (2))) * (((2) * (2)) * ((2) * (2)))) == 0) by (nonlinear_arith);
    assert((cv_add(cv_mul(cat_entry(CatalogGate::Sqswap, 1, 1), cv_conj(cat_entry(CatalogGate::Sqswap, 2, 1))), cv_mul(cat_entry(CatalogGate::Sqswap, 1, 2), cv_conj(cat_entry(CatalogGate::Sqswap, 2, 2))))).re.b == (((1) * (0) + (0) * (1)) * ((2) * (2)) + (-((1) * (-(0)) + (0) * (-(-1)))) * ((2) * (2))) * (((2) * (2)) * ((2) * (2))) + (((1) * (0) + (0) * (1)) * ((2) * (2)) + (-((-1) * (-(0)) + (0) * (-(1)))) * ((2) * (2))) * (((2) * (2)) * ((2) * (2))));
    assert(((((1) * (0) + (0) * (1)) * ((2) * (2)) + (-((1) * (-(0)) + (0) * (-(-1)))) * ((2) * (2))) * (((2) * (2)) * ((2) * (2))) + (((1) * (0) + (0) * (1)) * ((2) * (2)) + (-((-1) * (-(0)) + (0) * (-(1)))) * ((2) * (2))) * (((2) * (2)) * ((2) * (2)))) == 0) by (nonlinear_arith);
    assert((cv_add(cv_mul(cat_entry(CatalogGate::Sqswap, 1, 1), cv_conj(cat_entry(CatalogGate::Sqswap, 2, 1))), cv_mul(cat_entry(CatalogGate::Sqswap, 1, 2), cv_conj(cat_entry(CatalogGate::Sqswap, 2, 2))))).re.d == (((2) * (2)) * ((2) * (2))) * (((2) * (2)) * ((2) * (2))));
    assert(((((2) * (2)) * ((2) * (2))) * (((2) * (2)) * ((2) * (2)))) == 256) by (nonlinear_arith);
    assert((cv_add(cv_mul(cat_entry(CatalogGate::Sqswap, 1, 1), cv_conj(cat_entry(CatalogGate::Sqswap, 2, 1))), cv_mul(cat_entry(CatalogGate::Sqswap, 1, 2), cv_conj(cat_entry(CatalogGate::Sqswap, 2, 2))))).im.a == (((1) * (-(-1)) + 2 * ((0) * (-(0)))) * ((2) * (2)) + ((1) * (1) + 2 * ((0) * (0))) * ((2) * (2))) * (((2) * (2)) * ((2) * (2))) + (((1) * (-(1)) + 2 * ((0) * (-(0)))) * ((2) * (2)) + ((-1) * (1) + 2 * ((0) * (0))) * ((2) * (2))) * (((2) * (2)) * ((2) * (2))));
    assert(((((1) * (-(-1)) + 2 * ((0) * (-(0)))) * ((2) * (2)) + ((1) * (1) + 2 * ((0) * (0))) * ((2) * (2))) * (((2) * (2)) * ((2) * (2))) + (((1) * (-(1)) + 2 * ((0) * (-(0)))) * ((2) * (2)) + ((-1) * (1) + 2 * ((0) * (0))) * ((2) * (2))) * (((2) * (2)) * ((2) * (2)))) == 0) by (nonlinear_arith);
    assert((cv_add(cv_mul(cat_entry(CatalogGate::Sqswap, 1, 1), cv_conj(cat_entry(CatalogGate::Sqswap, 2, 1))), cv_mul(cat_entry(CatalogGate::Sqswap, 1, 2), cv_conj(cat_entry(CatalogGate::Sqswap, 2, 2))))).im.b == (((1) * (-(0)) + (0) * (-(-1))) * ((2) * (2)) + ((1) * (0) + (0) * (1)) * ((2) * (2))) * (((2) * (2)) * ((2) * (2))) + (((1) * (-(0)) + (0) * (-(1))) * ((2) * (2)) + ((-1) * (0) + (0) * (1)) * ((2) * (2))) * (((2) * (2)) * ((2) * (2))));
    assert(((((1) * (-(0)) + (0) * (-(-1))) * ((2) * (2)) + ((1) * (0) + (0) * (1)) * ((2) * (2))) * (((2) * (2)) * ((2) * (2))) + (((1) * (-(0)) + (0) * (-(1))) * ((2) * (2)) + ((-1) * (0) + (0) * (1)) * ((2) * (2))) * (((2) * (2)) * ((2) * (2)))) == 0) by (nonlinear_arith);
    assert((cv_add(cv_mul(cat_entry(CatalogGate::Sqswap, 1, 1), cv_conj(cat_entry(CatalogGate::Sqswap, 2, 1))), cv_mul(cat_entry(CatalogGate::Sqswap, 1, 2), cv_conj(cat_entry(CatalogGate::Sqswap, 2, 2))))).im.d == (((2) * (2)) * ((2) * (2))) * (((2) * (2)) * ((2) * (2))));
    assert(((((2) * (2)) * ((2) * (2))) * (((2) * (2)) * ((2) * (2)))) == 256) by (nonlinear_arith);
    assert((cv_add(cv_mul(cat_entry(CatalogGate::Sqswap, 1, 1), cv_conj(cat_entry(CatalogGate::Sqswap, 2, 1))), cv_mul(cat_entry(CatalogGate::Sqswap, 1, 2), cv_conj(cat_entry(CatalogGate::Sqswap, 2, 2))))).re.a * (ident_entry(1, 2)).re.d == (ident_entry(1, 2)).re.a * (cv_add(cv_mul(cat_entry(CatalogGate::Sqswap, 1, 1), cv_conj(cat_entry(CatalogGate::Sqswap, 2, 1))), cv_mul(cat_entry(CatalogGate::Sqswap, 1, 2), cv_conj(cat_entry(CatalogGate::Sqswap, 2, 2))))).re.d)
        by (nonlinear_arith)
        requires
            (cv_add(cv_mul(cat_entry(CatalogGate::Sqswap, 1, 1), cv_conj(cat_entry(CatalogGate::Sqswap, 2, 1))), cv_mul(cat_entry(CatalogGate::Sqswap, 1, 2), cv_conj(cat_entry(CatalogGate::Sqswap, 2, 2))))).re.a == 0,
            (cv_add(cv_mul(cat_entry(CatalogGate::Sqswap, 1, 1), cv_conj(cat_entry(CatalogGate::Sqswap, 2, 1))), cv_mul(cat_entry(CatalogGate::Sqswap, 1, 2), cv_conj(cat_entry(CatalogGate::Sqswap, 2, 2))))).re.d == 256,
            (ident_entry(1, 2)).re.a == 0,
            (ident_entry(1, 2)).re.d == 1;
    assert((cv_add(cv_mul(cat_entry(CatalogGate::Sqswap, 1, 1), cv_conj(cat_entry(CatalogGate::Sqswap, 2, 1))), cv_mul(cat_entry(CatalogGate::Sqswap, 1, 2), cv_conj(cat_entry(CatalogGate::Sqswap, 2, 2))))).re.b * (ident_entry(1, 2)).re.d == (ident_entry(1, 2)).re.b * (cv_add(cv_mul(cat_entry(CatalogGate::Sqswap, 1, 1), cv_conj(cat_entry(CatalogGate::Sqswap, 2, 1))), cv_mul(cat_entry(CatalogGate::Sqswap, 1, 2), cv_conj(cat_entry(CatalogGate::Sqswap, 2, 2))))).re.d)
        by (nonlinear_arith)
        requires
            (cv_add(cv_mul(cat_entry(CatalogGate::Sqswap, 1, 1), cv_conj(cat_entry(CatalogGate::Sqswap, 2, 1))), cv_mul(cat_entry(CatalogGate::Sqswap, 1, 2), cv_conj(cat_entry(CatalogGate::Sqswap, 2, 2))))).re.b == 0,
            (cv_add(cv_mul(cat_entry(CatalogGate::Sqswap, 1, 1), cv_conj(cat_entry(CatalogGate::Sqswap, 2, 1))), cv_mul(cat_entry(CatalogGate::Sqswap, 1, 2), cv_conj(cat_entry(CatalogGate::Sqswap, 2, 2))))).re.d == 256,
            (ident_entry(1, 2)).re.b == 0,
            (ident_entry(1, 2)).re.d == 1;
    assert((cv_add(cv_mul(cat_entry(CatalogGate::Sqswap, 1, 1), cv_conj(cat_entry(CatalogGate::Sqswap, 2, 1))), cv_mul(cat_entry(CatalogGate::Sqswap, 1, 2), cv_conj(cat_entry(CatalogGate::Sqswap, 2, 2))))).im.a * (ident_entry(1, 2)).im.d == (ident_entry(1, 2)).im.a * (cv_add(cv_mul(cat_entry(CatalogGate::Sqswap, 1, 1), cv_conj(cat_entry(CatalogGate::Sqswap, 2, 1))), cv_mul(cat_entry(CatalogGate::Sqswap, 1, 2), cv_conj(cat_entry(CatalogGate::Sqswap, 2, 2))))).im.d)
        by (nonlinear_arith)
        requires
            (cv_add(cv_mul(cat_entry(CatalogGate::Sqswap, 1, 1), cv_conj(cat_entry(CatalogGate::Sqswap, 2, 1))), cv_mul(cat_entry(CatalogGate::Sqswap, 1, 2), cv_conj(cat_entry(CatalogGate::Sqswap, 2, 2))))).im.a == 0,
            (cv_add(cv_mul(cat_entry(CatalogGate::Sqswap, 1, 1), cv_conj(cat_entry(CatalogGate::Sqswap, 2, 1))), cv_mul(cat_entry(CatalogGate::Sqswap, 1, 2), cv_conj(cat_entry(CatalogGate::Sqswap, 2, 2))))).im.d == 256,
            (ident_entry(1, 2)).im.a == 0,
            (ident_entry(1, 2)).im.d == 1;
    assert((cv_add(cv_mul(cat_entry(CatalogGate::Sqswap, 1, 1), cv_conj(cat_entry(CatalogGate::Sqswap, 2, 1))), cv_mul(cat_entry(CatalogGate::Sqswap, 1, 2), cv_conj(cat_entry(CatalogGate::Sqswap, 2, 2))))).im.b * (ident_entry(1, 2)).im.d == (ident_entry(1, 2)).im.b * (cv_add(cv_mul(cat_entry(CatalogGate::Sqswap, 1, 1), cv_conj(cat_entry(CatalogGate::Sqswap, 2, 1))), cv_mul(cat_entry(CatalogGate::Sqswap, 1, 2), cv_conj(cat_entry(CatalogGate::Sqswap, 2, 2))))).im.d)
        by (nonlinear_arith)
        requires
            (cv_add(cv_mul(cat_entry(CatalogGate::Sqswap, 1, 1), cv_conj(cat_entry(CatalogGate::Sqswap, 2, 1))), cv_mul(cat_entry(CatalogGate::Sqswap, 1, 2), cv_conj(cat_entry(CatalogGate::Sqswap, 2, 2))))).im.b == 0,
            (cv_add(cv_mul(cat_entry(CatalogGate::Sqswap, 1, 1), cv_conj(cat_entry(CatalogGate::Sqswap, 2, 1))), cv_mul(cat_entry(CatalogGate::Sqswap, 1, 2), cv_conj(cat_entry(CatalogGate::Sqswap, 2, 2))))).im.d == 256,
            (ident_entry(1, 2)).im.b == 0,
            (ident_entry(1, 2)).im.d == 1;
    assert(cv_eqv(cv_add(cv_mul(cat_entry(CatalogGate::Sqswap, 1, 1), cv_conj(cat_entry(CatalogGate::Sqswap, 2, 1))), cv_mul(cat_entry(CatalogGate::Sqswap, 1, 2), cv_conj(cat_entry(CatalogGate::Sqswap, 2, 2)))), ident_entry(1, 2)));
    assert(cv_wf(ident_entry(1, 2)));
    lemma_eqv_trans(cat_gram(CatalogGate::Sqswap, 1, 2, 4), cv_add(cv_mul(cat_entry(CatalogGate::Sqswap, 1, 1), cv_conj(cat_entry(CatalogGate::Sqswap, 2, 1))), cv_mul(cat_entry(CatalogGate::Sqswap, 1, 2), cv_conj(cat_entry(CatalogGate::Sqswap, 2, 2)))), ident_entry(1, 2));
}

proof fn sqswap_gram_case_1_3()
    ensures
        cv_eqv(cat_gram(CatalogGate::Sqswap, 1, 3, 4), ident_entry(1, 3)),
{
    reveal_with_fuel(cat_gram, 5);
    lemma_zero_zeroish();
    assert(cat_gram(CatalogGate::Sqswap, 1, 3, 0) == cv_zero());
    assert(cv_zeroish(cat_gram(CatalogGate::Sqswap, 1, 3, 0)));
    assert(cat_gram(CatalogGate::Sqswap, 1, 3, 1) == cv_add(cat_gram(CatalogGate::Sqswap, 1, 3, 0), cv_mul(cat_entry(CatalogGate::Sqswap, 1, 0), cv_conj(cat_entry(CatalogGate::Sqswap, 3, 0)))));
    assert(cat_entry(CatalogGate::Sqswap, 1, 0) == cv_zero());
    assert(cv_zeroish(cat_entry(CatalogGate::Sqswap, 1, 0)));
    assert(cv_wf(cat_entry(CatalogGate::Sqswap, 3, 0)));
    lemma_conj_wf(cat_entry(CatalogGate::Sqswap, 3, 0));
    lemma_mul_zeroish_left(cat_entry(CatalogGate::Sqswap, 1, 0), cv_conj(cat_entry(CatalogGate::Sqswap, 3, 0)));
    assert(cv_zeroish(cv_mul(cat_entry(CatalogGate::Sqswap, 1, 0), cv_conj(cat_entry(CatalogGate::Sqswap, 3, 0)))));
    lemma_add_zeroish_zeroish(cat_gram(CatalogGate::Sqswap, 1, 3, 0), cv_mul(cat_entry(CatalogGate::Sqswap, 1, 0), cv_conj(cat_entry(CatalogGate::Sqswap, 3, 0))));
    assert(cv_zeroish(cat_gram(CatalogGate::Sqswap, 1, 3, 1)));
    assert(cat_gram(CatalogGate::Sqswap, 1, 3, 2) == cv_add(cat_gram(CatalogGate::Sqswap, 1, 3, 1), cv_mul(cat_entry(CatalogGate::Sqswap, 1, 1), cv_conj(cat_entry(CatalogGate::Sqswap, 3, 1)))));
    assert(cat_entry(CatalogGate::Sqswap, 3, 1) == cv_zero());
    assert(cv_conj(cat_entry(CatalogGate::Sqswap, 3, 1)) == cv_zero());
    assert(cv_zeroish(cv_conj(cat_entry(CatalogGate::Sqswap, 3, 1))));
    assert(cv_wf(cat_entry(CatalogGate::Sqswap, 1, 1)));
    lemma_mul_zeroish_right(cat_entry(CatalogGate::Sqswap, 1, 1), cv_conj(cat_entry(CatalogGate::Sqswap, 3, 1)));
    assert(cv_zeroish(cv_mul(cat_entry(CatalogGate::Sqswap, 1, 1), cv_conj(cat_entry(CatalogGate::Sqswap, 3, 1)))));
    lemma_add_zeroish_zeroish(cat_gram(CatalogGate::Sqswap, 1, 3, 1), cv_mul(cat_entry(CatalogGate::Sqswap, 1, 1), cv_conj(cat_entry(CatalogGate::Sqswap, 3, 1))));
    assert(cv_zeroish(cat_gram(CatalogGate::Sqswap, 1, 3, 2)));
    assert(cat_gram(CatalogGate::Sqswap, 1, 3, 3) == cv_add(cat_gram(CatalogGate::Sqswap, 1, 3, 2), cv_mul(cat_entry(CatalogGate::Sqswap, 1, 2), cv_conj(cat_entry(CatalogGate::Sqswap, 3, 2)))));
    assert(cat_entry(CatalogGate::Sqswap, 3, 2) == cv_zero());
    assert(cv_conj(cat_entry(CatalogGate::Sqswap, 3, 2)) == cv_zero());
    assert(cv_zeroish(cv_conj(cat_entry(CatalogGate::Sqswap, 3, 2))));
    assert(cv_wf(cat_entry(CatalogGate::Sqswap, 1, 2)));
    lemma_mul_zeroish_right(cat_entry(CatalogGate::Sqswap, 1, 2), cv_conj(cat_entry(CatalogGate::Sqswap, 3, 2)));
    assert(cv_zeroish(cv_mul(cat_entry(CatalogGate::Sqswap, 1, 2), cv_conj(cat_entry(CatalogGate::Sqswap, 3, 2)))));
    lemma_add_zeroish_zeroish(cat_gram(CatalogGate::Sqswap, 1, 3, 2), cv_mul(cat_entry(CatalogGate::Sqswap, 1, 2), cv_conj(cat_entry(CatalogGate::Sqswap, 3, 2))));
    assert(cv_zeroish(cat_gram(CatalogGate::Sqswap, 1, 3, 3)));
    assert(cat_gram(CatalogGate::Sqswap, 1, 3, 4) == cv_add(cat_gram(CatalogGate::Sqswap, 1, 3, 3), cv_mul(cat_entry(CatalogGate::Sqswap, 1, 3), cv_conj(cat_entry(CatalogGate::Sqswap, 3, 3)))));
    assert(cat_entry(CatalogGate::Sqswap, 1, 3) == cv_zero());
    assert(cv_zeroish(cat_entry(CatalogGate::Sqswap, 1, 3)));
    assert(cv_wf(cat_entry(CatalogGate::Sqswap, 3, 3)));
    lemma_conj_wf(cat_entry(CatalogGate::Sqswap, 3, 3));
    lemma_mul_zeroish_left(cat_entry(CatalogGate::Sqswap, 1, 3), cv_conj(cat_entry(CatalogGate::Sqswap, 3, 3)));
    assert(cv_zeroish(cv_mul(cat_entry(CatalogGate::Sqswap, 1, 3), cv_conj(cat_entry(CatalogGate::Sqswap, 3, 3)))));
    lemma_add_zeroish_zeroish(cat_gram(CatalogGate::Sqswap, 1, 3, 3), cv_mul(cat_entry(CatalogGate::Sqswap, 1, 3), cv_conj(cat_entry(CatalogGate::Sqswap, 3, 3))));
    assert(cv_zeroish(cat_gram(CatalogGate::Sqswap, 1, 3, 4)));
    lemma_zeroish_eqv_zero(cat_gram(CatalogGate::Sqswap, 1, 3, 4));
    assert(cv_eqv(cat_gram(CatalogGate::Sqswap, 1, 3, 4), ident_entry(1, 3)));
}

proof fn sqswap_gram_case_2_0()
    ensures
        cv_eqv(cat_gram(CatalogGate::Sqswap, 2, 0, 4), ident_entry(2, 0)),
{
    reveal_with_fuel(cat_gram, 5);
    lemma_zero_zeroish();
    assert(cat_gram(CatalogGate::Sqswap, 2, 0, 0) == cv_zero());
    assert(cv_zeroish(cat_gram(CatalogGate::Sqswap, 2, 0, 0)));
    assert(cat_gram(CatalogGate::Sqswap, 2, 0, 1) == cv_add(cat_gram(CatalogGate::Sqswap, 2, 0, 0), cv_mul(cat_entry(CatalogGate::Sqswap, 2, 0), cv_conj(cat_entry(CatalogGate::Sqswap, 0, 0)))));
    assert(cat_entry(CatalogGate::Sqswap, 2, 0) == cv_zero());
    assert(cv_zeroish(cat_entry(CatalogGate::Sqswap, 2, 0)));
    assert(cv_wf(cat_entry(CatalogGate::Sqswap, 0, 0)));
    lemma_conj_wf(cat_entry(CatalogGate::Sqswap, 0, 0));
    lemma_mul_zeroish_left(cat_entry(CatalogGate::Sqswap, 2, 0), cv_conj(cat_entry(CatalogGate::Sqswap, 0, 0)));
    assert(cv_zeroish(cv_mul(cat_entry(CatalogGate::Sqswap, 2, 0), cv_conj(cat_entry(CatalogGate::Sqswap, 0, 0)))));
    lemma_add_zeroish_zeroish(cat_gram(CatalogGate::Sqswap, 2, 0, 0), cv_mul(cat_entry(CatalogGate::Sqswap, 2, 0), cv_conj(cat_entry(CatalogGate::Sqswap, 0, 0))));
    assert(cv_zeroish(cat_gram(CatalogGate::Sqswap, 2, 0, 1)));
    assert(cat_gram(CatalogGate::Sqswap, 2, 0, 2) == cv_add(cat_gram(CatalogGate::Sqswap, 2, 0, 1), cv_mul(cat_entry(CatalogGate::Sqswap, 2, 1), cv_conj(cat_entry(CatalogGate::Sqswap, 0, 1)))));
    assert(cat_entry(CatalogGate::Sqswap, 0, 1) == cv_zero());
    assert(cv_conj(cat_entry(CatalogGate::Sqswap, 0, 1)) == cv_zero());
    assert(cv_zeroish(cv_conj(cat_entry(CatalogGate::Sqswap, 0, 1))));
    assert(cv_wf(cat_entry(CatalogGate::Sqswap, 2, 1)));
    lemma_mul_zeroish_right(cat_entry(CatalogGate::Sqswap, 2, 1), cv_conj(cat_entry(CatalogGate::Sqswap, 0, 1)));
    assert(cv_zeroish(cv_mul(cat_entry(CatalogGate::Sqswap, 2, 1), cv_conj(cat_entry(CatalogGate::Sqswap, 0, 1)))));
    lemma_add_zeroish_zeroish(cat_gram(CatalogGate::Sqswap, 2, 0, 1), cv_mul(cat_entry(CatalogGate::Sqswap, 2, 1), cv_conj(cat_entry(CatalogGate::Sqswap, 0, 1))));
    assert(cv_zeroish(cat_gram(CatalogGate::Sqswap, 2, 0, 2)));
    assert(cat_gram(CatalogGate::Sqswap, 2, 0, 3) == cv_add(cat_gram(CatalogGate::Sqswap, 2, 0, 2), cv_mul(cat_entry(CatalogGate::Sqswap, 2, 2), cv_conj(cat_entry(CatalogGate::Sqswap, 0, 2)))));
    assert(cat_entry(CatalogGate::Sqswap, 0, 2) == cv_zero());
    assert(cv_conj(cat_entry(CatalogGate::Sqswap, 0, 2)) == cv_zero());
    assert(cv_zeroish(cv_conj(cat_entry(CatalogGate::Sqswap, 0, 2))));
    assert(cv_wf(cat_entry(CatalogGate::Sqswap, 2, 2)));
    lemma_mul_zeroish_right(cat_entry(CatalogGate::Sqswap, 2, 2), cv_conj(cat_entry(CatalogGate::Sqswap, 0, 2)));
    assert(cv_zeroish(cv_mul(cat_entry(CatalogGate::Sqswap, 2, 2), cv_conj(cat_entry(CatalogGate::Sqswap, 0, 2)))));
    lemma_add_zeroish_zeroish(cat_gram(CatalogGate::Sqswap, 2, 0, 2), cv_mul(cat_entry(CatalogGate::Sqswap, 2, 2), cv_conj(cat_entry(CatalogGate::Sqswap, 0, 2))));
    assert(cv_zeroish(cat_gram(CatalogGate::Sqswap, 2, 0, 3)));
    assert(cat_gram(CatalogGate::Sqswap, 2, 0, 4) == cv_add(cat_gram(CatalogGate::Sqswap, 2, 0, 3), cv_mul(cat_entry(CatalogGate::Sqswap, 2, 3), cv_conj(cat_entry(CatalogGate::Sqswap, 0, 3)))));
    assert(cat_entry(CatalogGate::Sqswap, 2, 3) == cv_zero());
    assert(cv_zeroish(cat_entry(CatalogGate::Sqswap, 2, 3)));
    assert(cv_wf(cat_entry(CatalogGate::Sqswap, 0, 3)));
    lemma_conj_wf(cat_entry(CatalogGate::Sqswap, 0, 3));
    lemma_mul_zeroish_left(cat_entry(CatalogGate::Sqswap, 2, 3), cv_conj(cat_entry(CatalogGate::Sqswap, 0, 3)));
    assert(cv_zeroish(cv_mul(cat_entry(CatalogGate::Sqswap, 2, 3), cv_conj(cat_entry(CatalogGate::Sqswap, 0, 3)))));
    lemma_add_zeroish_zeroish(cat_gram(CatalogGate::Sqswap, 2, 0, 3), cv_mul(cat_entry(CatalogGate::Sqswap, 2, 3), cv_conj(cat_entry(CatalogGate::Sqswap, 0, 3))));
    assert(cv_zeroish(cat_gram(CatalogGate::Sqswap, 2, 0, 4)));
    lemma_zeroish_eqv_zero(cat_gram(CatalogGate::Sqswap, 2, 0, 4));
    assert(cv_eqv(cat_gram(CatalogGate::Sqswap, 2, 0, 4), ident_entry(2, 0)));
}

proof fn sqswap_gram_case_2_1()
    ensures
        cv_eqv(cat_gram(CatalogGate::Sqswap, 2, 1, 4), ident_entry(2, 1)),
{
    reveal_with_fuel(cat_gram, 5);
    lemma_zero_zeroish();
    assert(cat_gram(CatalogGate::Sqswap, 2, 1, 0) == cv_zero());
    assert(cv_zeroish(cat_gram(CatalogGate::Sqswap, 2, 1, 0)));
    assert(cat_gram(CatalogGate::Sqswap, 2, 1, 1) == cv_add(cat_gram(CatalogGate::Sqswap, 2, 1, 0), cv_mul(cat_entry(CatalogGate::Sqswap, 2, 0), cv_conj(cat_entry(CatalogGate::Sqswap, 1, 0)))));
    assert(cat_entry(CatalogGate::Sqswap, 2, 0) == cv_zero());
    assert(cv_zeroish(cat_entry(CatalogGate::Sqswap, 2, 0)));
    assert(cv_wf(cat_entry(CatalogGate::Sqswap, 1, 0)));
    lemma_conj_wf(cat_entry(CatalogGate::Sqswap, 1, 0));
    lemma_mul_zeroish_left(cat_entry(CatalogGate::Sqswap, 2, 0), cv_conj(cat_entry(CatalogGate::Sqswap, 1, 0)));
    assert(cv_zeroish(cv_mul(cat_entry(CatalogGate::Sqswap, 2, 0), cv_conj(cat_entry(CatalogGate::Sqswap, 1, 0)))));
    lemma_add_zeroish_zeroish(cat_gram(CatalogGate::Sqswap, 2, 1, 0), cv_mul(cat_entry(CatalogGate::Sqswap, 2, 0), cv_conj(cat_entry(CatalogGate::Sqswap, 1, 0))));
    assert(cv_zeroish(cat_gram(CatalogGate::Sqswap, 2, 1, 1)));
    assert(cat_gram(CatalogGate::Sqswap, 2, 1, 2) == cv_add(cat_gram(CatalogGate::Sqswap, 2, 1, 1), cv_mul(cat_entry(CatalogGate::Sqswap, 2, 1), cv_conj(cat_entry(CatalogGate::Sqswap, 1, 1)))));
    assert(cv_wf(cat_entry(CatalogGate::Sqswap, 2, 1)));
    assert(cv_wf(cat_entry(CatalogGate::Sqswap, 1, 1)));
    lemma_conj_wf(cat_entry(CatalogGate::Sqswap, 1, 1));
    lemma_mul_wf(cat_entry(CatalogGate::Sqswap, 2, 1), cv_conj(cat_entry(CatalogGate::Sqswap, 1, 1)));
    lemma_add_zeroish_left(cat_gram(CatalogGate::Sqswap, 2, 1, 1), cv_mul(cat_entry(CatalogGate::Sqswap, 2, 1), cv_conj(cat_entry(CatalogGate::Sqswap, 1, 1))));
    assert(cat_gram(CatalogGate::Sqswap, 2, 1, 3) == cv_add(cat_gram(CatalogGate::Sqswap, 2, 1, 2), cv_mul(cat_entry(CatalogGate::Sqswap, 2, 2), cv_conj(cat_entry(CatalogGate::Sqswap, 1, 2)))));
    assert(cv_wf(cat_entry(CatalogGate::Sqswap, 2, 2)));
    assert(cv_wf(cat_entry(CatalogGate::Sqswap, 1, 2)));
    lemma_conj_wf(cat_entry(CatalogGate::Sqswap, 1, 2));
    lemma_mul_wf(cat_entry(CatalogGate::Sqswap, 2, 2), cv_conj(cat_entry(CatalogGate::Sqswap, 1, 2)));
    lemma_add_eqv_left(cat_gram(CatalogGate::Sqswap, 2, 1, 2), cv_mul(cat_entry(CatalogGate::Sqswap, 2, 1), cv_conj(cat_entry(CatalogGate::Sqswap, 1, 1))), cv_mul(cat_entry(CatalogGate::Sqswap, 2, 2), cv_conj(cat_entry(CatalogGate::Sqswap, 1, 2))));
    lemma_eqv_trans(cat_gram(CatalogGate::Sqswap, 2, 1, 3), cv_add(cat_gram(CatalogGate::Sqswap, 2, 1, 2), cv_mul(cat_entry(CatalogGate::Sqswap, 2, 2), cv_conj(cat_entry(CatalogGate::Sqswap, 1, 2)))), cv_add(cv_mul(cat_entry(CatalogGate::Sqswap, 2, 1), cv_conj(cat_entry(CatalogGate::Sqswap, 1, 1))), cv_mul(cat_entry(CatalogGate::Sqswap, 2, 2), cv_conj(cat_entry(CatalogGate::Sqswap, 1, 2)))));
    assert(cat_gram(CatalogGate::Sqswap, 2, 1, 4) == cv_add(cat_gram(CatalogGate::Sqswap, 2, 1, 3), cv_mul(cat_entry(CatalogGate::Sqswap, 2, 3), cv_conj(cat_entry(CatalogGate::Sqswap, 1, 3)))));
    assert(cat_entry(CatalogGate::Sqswap, 2, 3) == cv_zero());
    assert(cv_zeroish(cat_entry(CatalogGate::Sqswap, 2, 3)));
    assert(cv_wf(cat_entry(CatalogGate::Sqswap, 1, 3)));
    lemma_conj_wf(cat_entry(CatalogGate::Sqswap, 1, 3));
    lemma_mul_zeroish_left(cat_entry(CatalogGate::Sqswap, 2, 3), cv_conj(cat_entry(CatalogGate::Sqswap, 1, 3)));
    assert(cv_zeroish(cv_mul(cat_entry(CatalogGate::Sqswap, 2, 3), cv_conj(cat_entry(CatalogGate::Sqswap, 1, 3)))));
    lemma_add_zeroish_right(cat_gram(CatalogGate::Sqswap, 2, 1, 3), cv_mul(cat_entry(CatalogGate::Sqswap, 2, 3), cv_conj(cat_entry(CatalogGate::Sqswap, 1, 3))));
    lemma_eqv_trans(cat_gram(CatalogGate::Sqswap, 2, 1, 4), cat_gram(CatalogGate::Sqswap, 2, 1, 3), cv_add(cv_mul(cat_entry(CatalogGate::Sqswap, 2, 1), cv_conj(cat_entry(CatalogGate::Sqswap, 1, 1))), cv_mul(cat_entry(CatalogGate::Sqswap, 2, 2), cv_conj(cat_entry(CatalogGate::Sqswap, 1, 2)))));
    assert((cv_add(cv_mul(cat_entry(CatalogGate::Sqswap, 2, 1), cv_conj(cat_entry(CatalogGate::Sqswap, 1, 1))), cv_mul(cat_entry(CatalogGate::Sqswap, 2, 2), cv_conj(cat_entry(CatalogGate::Sqswap, 1, 2))))).re.a == (((1) * (1) + 2 * ((0) * (0))) * ((2) * (2)) + (-((-1) * (-(1)) + 2 * ((0) * (-(0))))) * ((2) * (2))) * (((2) * (2)) * ((2) * (2))) + (((1) * (1) + 2 * ((0) * (0))) * ((2) * (2)) + (-((1) * (-(-1)) + 2 * ((0) * (-(0))))) * ((2) * (2))) * (((2) * (2)) * ((2) * (2))));
    assert(((((1) * (1) + 2 * ((0) * (0))) * ((2) * (2)) + (-((-1) * (-(1)) + 2 * ((0) * (-(0))))) * ((2) * (2))) * (((2) * (2)) * ((2) * (2))) + (((1) * (1) + 2 * ((0) * (0))) * ((2) * (2)) + (-((1) * (-(-1)) + 2 * ((0) * (-(0))))) * ((2) * (2))) * (((2) * (2)) * ((2) * (2)))) == 0) by (nonlinear_arith);
    assert((cv_add(cv_mul(cat_entry(CatalogGate::Sqswap, 2, 1), cv_conj(cat_entry(CatalogGate::Sqswap, 1, 1))), cv_mul(cat_entry(CatalogGate::Sqswap, 2, 2), cv_conj(cat_entry(CatalogGate::Sqswap, 1, 2))))).re.b == (((1) * (0) + (0) * (1)) * ((2) * (2)) + (-((-1) * (-(0)) + (0) * (-(1)))) * ((2) * (2))) * (((2) * (2)) * ((2) * (2))) + (((1) * (0) + (0) * (1)) * ((2) * (2)) + (-((1) * (-(0)) + (0) * (-(-1)))) * ((2) * (2))) * (((2) * (2)) * ((2) * (2))));
    assert(((((1) * (0) + (0) * (1)) * ((2) * (2)) + (-((-1) * (-(0)) + (0) * (-(1)))) * ((2) * (2))) * (((2) * (2)) * ((2) * (2))) + (((1) * (0) + (0) * (1)) * ((2) * (2)) + (-((1) * (-(0)) + (0) * (-(-1)))) * ((2) * (2))) * (((2) * (2)) * ((2) * (2)))) == 0) by (nonlinear_arith);
    assert((cv_add(cv_mul(cat_entry(CatalogGate::Sqswap, 2, 1), cv_conj(cat_entry(CatalogGate::Sqswap, 1, 1))), cv_mul(cat_entry(CatalogGate::Sqswap, 2, 2), cv_conj(cat_entry(CatalogGate::Sqswap, 1, 2))))).re.d == (((2) * (2)) * ((2) * (2))) * (((2) * (2)) * ((2) * (2))));
    assert(((((2) * (2)) * ((2) * (2))) * (((2) * (2)) * ((2) * (2)))) == 256) by (nonlinear_arith);
    assert((cv_add(cv_mul(cat_entry(CatalogGate::Sqswap, 2, 1), cv_conj(cat_entry(CatalogGate::Sqswap, 1, 1))), cv_mul(cat_entry(CatalogGate::Sqswap, 2, 2), cv_conj(cat_entry(CatalogGate::Sqswap, 1, 2))))).im.a == (((1) * (-(1)) + 2 * ((0) * (-(0)))) * ((2) * (2)) + ((-1) * (1) + 2 * ((0) * (0))) * ((2) * (2))) * (((2) * (2)) * ((2) * (2))) + (((1) * (-(-1)) + 2 * ((0) * (-(0)))) * ((2) * (2)) + ((1) * (1) + 2 * ((0) * (0))) * ((2) * (2))) * (((2) * (2)) * ((2) * (2))));
    assert(((((1) * (-(1)) + 2 * ((0) * (-(0)))) * ((2) * (2)) + ((-1) * (1) + 2 * ((0) * (0))) * ((2) * (2))) * (((2) * (2)) * ((2) * (2))) + (((1) * (-(-1)) + 2 * ((0) * (-(0)))) * ((2) * (2)) + ((1) * (1) + 2 * ((0) * (0))) * ((2) * (2))) * (((2) * (2)) * ((2) * (2)))) == 0) by (nonlinear_arith);
    assert((cv_add(cv_mul(cat_entry(CatalogGate::Sqswap, 2, 1), cv_conj(cat_entry(CatalogGate::Sqswap, 1, 1))), cv_mul(cat_entry(CatalogGate::Sqswap, 2, 2), cv_conj(cat_entry(CatalogGate::Sqswap, 1, 2))))).im.b == (((1) * (-(0)) + (0) * (-(1))) * ((2) * (2)) + ((-1) * (0) + (0) * (1)) * ((2) * (2))) * (((2) * (2)) * ((2) * (2))) + (((1) * (-(0)) + (0) * (-(-1))) * ((2) * (2)) + ((1) * (0) + (0) * (1)) * ((2) * (2))) * (((2) * (2)) * ((2) * (2))));
    assert(((((1) * (-(0)) + (0) * (-(1))) * ((2) * (2)) + ((-1) * (0) + (0) * (1)) * ((2) * (2))) * (((2) * (2)) * ((2) * (2))) + (((1) * (-(0)) + (0) * (-(-1))) * ((2) * (2)) + ((1) * (0) + (0) * (1)) * ((2) * (2))) * (((2) * (2)) * ((2) * (2)))) == 0) by (nonlinear_arith);
    assert((cv_add(cv_mul(cat_entry(CatalogGate::Sqswap, 2, 1), cv_conj(cat_entry(CatalogGate::Sqswap, 1, 1))), cv_mul(cat_entry(CatalogGate::Sqswap, 2, 2), cv_conj(cat_entry(CatalogGate::Sqswap, 1, 2))))).im.d == (((2) * (2)) * ((2) * (2))) * (((2) * (2)) * ((2) * (2))));
    assert(((((2) * (2)) * ((2) * (2))) * (((2) * (2)) * ((2) * (2)))) == 256) by (nonlinear_arith);
    assert((cv_add(cv_mul(cat_entry(CatalogGate::Sqswap, 2, 1), cv_conj(cat_entry(CatalogGate::Sqswap, 1, 1))), cv_mul(cat_entry(CatalogGate::Sqswap, 2, 2), cv_conj(cat_entry(CatalogGate::Sqswap, 1, 2))))).re.a * (ident_entry(2, 1)).re.d == (ident_entry(2, 1)).re.a * (cv_add(cv_mul(cat_entry(CatalogGate::Sqswap, 2, 1), cv_conj(cat_entry(CatalogGate::Sqswap, 1, 1))), cv_mul(cat_entry(CatalogGate::Sqswap, 2, 2), cv_conj(cat_entry(CatalogGate::Sqswap, 1, 2))))).re.d)
        by (nonlinear_arith)
        requires
            (cv_add(cv_mul(cat_entry(CatalogGate::Sqswap, 2, 1), cv_conj(cat_entry(CatalogGate::Sqswap, 1, 1))), cv_mul(cat_entry(CatalogGate::Sqswap, 2, 2), cv_conj(cat_entry(CatalogGate::Sqswap, 1, 2))))).re.a == 0,
            (cv_add(cv_mul(cat_entry(CatalogGate::Sqswap, 2, 1), cv_conj(cat_entry(CatalogGate::Sqswap, 1, 1))), cv_mul(cat_entry(CatalogGate::Sqswap, 2, 2), cv_conj(cat_entry(CatalogGate::Sqswap, 1, 2))))).re.d == 256,
            (ident_entry(2, 1)).re.a == 0,
            (ident_entry(2, 1)).re.d == 1;
    assert((cv_add(cv_mul(cat_entry(CatalogGate::Sqswap, 2, 1), cv_conj(cat_entry(CatalogGate::Sqswap, 1, 1))), cv_mul(cat_entry(CatalogGate::Sqswap, 2, 2), cv_conj(cat_entry(CatalogGate::Sqswap, 1, 2))))).re.b * (ident_entry(2, 1)).re.d == (ident_entry(2, 1)).re.b * (cv_add(cv_mul(cat_entry(CatalogGate::Sqswap, 2, 1), cv_conj(cat_entry(CatalogGate::Sqswap, 1, 1))), cv_mul(cat_entry(CatalogGate::Sqswap, 2, 2), cv_conj(cat_entry(CatalogGate::Sqswap, 1, 2))))).re.d)
        by (nonlinear_arith)
        requires
            (cv_add(cv_mul(cat_entry(CatalogGate::Sqswap, 2, 1), cv_conj(cat_entry(CatalogGate::Sqswap, 1, 1))), cv_mul(cat_entry(CatalogGate::Sqswap, 2, 2), cv_conj(cat_entry(CatalogGate::Sqswap, 1, 2))))).re.b == 0,
            (cv_add(cv_mul(cat_entry(CatalogGate::Sqswap, 2, 1), cv_conj(cat_entry(CatalogGate::Sqswap, 1, 1))), cv_mul(cat_entry(CatalogGate::Sqswap, 2, 2), cv_conj(cat_entry(CatalogGate::Sqswap, 1, 2))))).re.d == 256,
            (ident_entry(2, 1)).re.b == 0,
            (ident_entry(2, 1)).re.d == 1;
    assert((cv_add(cv_mul(cat_entry(CatalogGate::Sqswap, 2, 1), cv_conj(cat_entry(CatalogGate::Sqswap, 1, 1))), cv_mul(cat_entry(CatalogGate::Sqswap, 2, 2), cv_conj(cat_entry(CatalogGate::Sqswap, 1, 2))))).im.a * (ident_entry(2, 1)).im.d == (ident_entry(2, 1)).im.a * (cv_add(cv_mul(cat_entry(CatalogGate::Sqswap, 2, 1), cv_conj(cat_entry(CatalogGate::Sqswap, 1, 1))), cv_mul(cat_entry(CatalogGate::Sqswap, 2, 2), cv_conj(cat_entry(CatalogGate::Sqswap, 1, 2))))).im.d)
        by (nonlinear_arith)
        requires
            (cv_add(cv_mul(cat_entry(CatalogGate::Sqswap, 2, 1), cv_conj(cat_entry(CatalogGate::Sqswap, 1, 1))), cv_mul(cat_entry(CatalogGate::Sqswap, 2, 2), cv_conj(cat_entry(CatalogGate::Sqswap, 1, 2))))).im.a == 0,
            (cv_add(cv_mul(cat_entry(CatalogGate::Sqswap, 2, 1), cv_conj(cat_entry(CatalogGate::Sqswap, 1, 1))), cv_mul(cat_entry(CatalogGate::Sqswap, 2, 2), cv_conj(cat_entry(CatalogGate::Sqswap, 1, 2))))).im.d == 256,
            (ident_entry(2, 1)).im.a == 0,
            (ident_entry(2, 1)).im.d == 1;
    assert((cv_add(cv_mul(cat_entry(CatalogGate::Sqswap, 2, 1), cv_conj(cat_entry(CatalogGate::Sqswap, 1, 1))), cv_mul(cat_entry(CatalogGate::Sqswap, 2, 2), cv_conj(cat_entry(CatalogGate::Sqswap, 1, 2))))).im.b * (ident_entry(2, 1)).im.d == (ident_entry(2, 1)).im.b * (cv_add(cv_mul(cat_entry(CatalogGate::Sqswap, 2, 1), cv_conj(cat_entry(CatalogGate::Sqswap, 1, 1))), cv_mul(cat_entry(CatalogGate::Sqswap, 2, 2), cv_conj(cat_entry(CatalogGate::Sqswap, 1, 2))))).im.d)
        by (nonlinear_arith)
        requires
            (cv_add(cv_mul(cat_entry(CatalogGate::Sqswap, 2, 1), cv_conj(cat_entry(CatalogGate::Sqswap, 1, 1))), cv_mul(cat_entry(CatalogGate::Sqswap, 2, 2), cv_conj(cat_entry(CatalogGate::Sqswap, 1, 2))))).im.b == 0,
            (cv_add(cv_mul(cat_entry(CatalogGate::Sqswap, 2, 1), cv_conj(cat_entry(CatalogGate::Sqswap, 1, 1))), cv_mul(cat_entry(CatalogGate::Sqswap, 2, 2), cv_conj(cat_entry(CatalogGate::Sqswap, 1, 2))))).im.d == 256,
            (ident_entry(2, 1)).im.b == 0,
            (ident_entry(2, 1)).im.d == 1;
    assert(cv_eqv(cv_add(cv_mul(cat_entry(CatalogGate::Sqswap, 2, 1), cv_conj(cat_entry(CatalogGate::Sqswap, 1, 1))), cv_mul(cat_entry(CatalogGate::Sqswap, 2, 2), cv_conj(cat_entry(CatalogGate::Sqswap, 1, 2)))), ident_entry(2, 1)));
    assert(cv_wf(ident_entry(2, 1)));
    lemma_eqv_trans(cat_gram(CatalogGate::Sqswap, 2, 1, 4), cv_add(cv_mul(cat_entry(CatalogGate::Sqswap, 2, 1), cv_conj(cat_entry(CatalogGate::Sqswap, 1, 1))), cv_mul(cat_entry(CatalogGate::Sqswap, 2, 2), cv_conj(cat_entry(CatalogGate::Sqswap, 1, 2)))), ident_entry(2, 1));
}

proof fn sqswap_gram_case_2_2()
    ensures
        cv_eqv(cat_gram(CatalogGate::Sqswap, 2, 2, 4), ident_entry(2, 2)),
{
    reveal_with_fuel(cat_gram, 5);
    lemma_zero_zeroish();
    assert(cat_gram(CatalogGate::Sqswap, 2, 2, 0) == cv_zero());
    assert(cv_zeroish(cat_gram(CatalogGate::Sqswap, 2, 2, 0)));
    assert(cat_gram(CatalogGate::Sqswap, 2, 2, 1) == cv_add(cat_gram(CatalogGate::Sqswap, 2, 2, 0), cv_mul(cat_entry(CatalogGate::Sqswap, 2, 0), cv_conj(cat_entry(CatalogGate::Sqswap, 2, 0)))));
    assert(cat_entry(CatalogGate::Sqswap, 2, 0) == cv_zero());
    assert(cv_zeroish(cat_entry(CatalogGate::Sqswap, 2, 0)));
    assert(cv_wf(cat_entry(CatalogGate::Sqswap, 2, 0)));
    lemma_conj_wf(cat_entry(CatalogGate::Sqswap, 2, 0));
    lemma_mul_zeroish_left(cat_entry(CatalogGate::Sqswap, 2, 0), cv_conj(cat_entry(CatalogGate::Sqswap, 2, 0)));
    assert(cv_zeroish(cv_mul(cat_entry(CatalogGate::Sqswap, 2, 0), cv_conj(cat_entry(CatalogGate::Sqswap, 2, 0)))));
    lemma_add_zeroish_zeroish(cat_gram(CatalogGate::Sqswap, 2, 2, 0), cv_mul(cat_entry(CatalogGate::Sqswap, 2, 0), cv_conj(cat_entry(CatalogGate::Sqswap, 2, 0))));
    assert(cv_zeroish(cat_gram(CatalogGate::Sqswap, 2, 2, 1)));
    assert(cat_gram(CatalogGate::Sqswap, 2, 2, 2) == cv_add(cat_gram(CatalogGate::Sqswap, 2, 2, 1), cv_mul(cat_entry(CatalogGate::Sqswap, 2, 1), cv_conj(cat_entry(CatalogGate::Sqswap, 2, 1)))));
    assert(cv_wf(cat_entry(CatalogGate::Sqswap, 2, 1)));
    assert(cv_wf(cat_entry(CatalogGate::Sqswap, 2, 1)));
    lemma_conj_wf(cat_entry(CatalogGate::Sqswap, 2, 1));
    lemma_mul_wf(cat_entry(CatalogGate::Sqswap, 2, 1), cv_conj(cat_entry(CatalogGate::Sqswap, 2, 1)));
    lemma_add_zeroish_left(cat_gram(CatalogGate::Sqswap, 2, 2, 1), cv_mul(cat_entry(CatalogGate::Sqswap, 2, 1), cv_conj(cat_entry(CatalogGate::Sqswap, 2, 1))));
    assert(cat_gram(CatalogGate::Sqswap, 2, 2, 3) == cv_add(cat_gram(CatalogGate::Sqswap, 2, 2, 2), cv_mul(cat_entry(CatalogGate::Sqswap, 2, 2), cv_conj(cat_entry(CatalogGate::Sqswap, 2, 2)))));
    assert(cv_wf(cat_entry(CatalogGate::Sqswap, 2, 2)));
    assert(cv_wf(cat_entry(CatalogGate::Sqswap, 2, 2)));
    lemma_conj_wf(cat_entry(CatalogGate::Sqswap, 2, 2));
    lemma_mul_wf(cat_entry(CatalogGate::Sqswap, 2, 2), cv_conj(cat_entry(CatalogGate::Sqswap, 2, 2)));
    lemma_add_eqv_left(cat_gram(CatalogGate::Sqswap, 2, 2, 2), cv_mul(cat_entry(CatalogGate::Sqswap, 2, 1), cv_conj(cat_entry(CatalogGate::Sqswap, 2, 1))), cv_mul(cat_entry(CatalogGate::Sqswap, 2, 2), cv_conj(cat_entry(CatalogGate::Sqswap, 2, 2))));
    lemma_eqv_trans(cat_gram(CatalogGate::Sqswap, 2, 2, 3), cv_add(cat_gram(CatalogGate::Sqswap, 2, 2, 2), cv_mul(cat_entry(CatalogGate::Sqswap, 2, 2), cv_conj(cat_entry(CatalogGate::Sqswap, 2, 2)))), cv_add(cv_mul(cat_entry(CatalogGate::Sqswap, 2, 1), cv_conj(cat_entry(CatalogGate::Sqswap, 2, 1))), cv_mul(cat_entry(CatalogGate::Sqswap, 2, 2), cv_conj(cat_entry(CatalogGate::Sqswap, 2, 2)))));
    assert(cat_gram(CatalogGate::Sqswap, 2, 2, 4) == cv_add(cat_gram(CatalogGate::Sqswap, 2, 2, 3), cv_mul(cat_entry(CatalogGate::Sqswap, 2, 3), cv_conj(cat_entry(CatalogGate::Sqswap, 2, 3)))));
    assert(cat_entry(CatalogGate::Sqswap, 2, 3) == cv_zero());
    assert(cv_zeroish(cat_entry(CatalogGate::Sqswap, 2, 3)));
    assert(cv_wf(cat_entry(CatalogGate::Sqswap, 2, 3)));
    lemma_conj_wf(cat_entry(CatalogGate::Sqswap, 2, 3));
    lemma_mul_zeroish_left(cat_entry(CatalogGate::Sqswap, 2, 3), cv_conj(cat_entry(CatalogGate::Sqswap, 2, 3)));
    assert(cv_zeroish(cv_mul(cat_entry(CatalogGate::Sqswap, 2, 3), cv_conj(cat_entry(CatalogGate::Sqswap, 2, 3)))));
    lemma_add_zeroish_right(cat_gram(CatalogGate::Sqswap, 2, 2, 3), cv_mul(cat_entry(CatalogGate::Sqswap, 2, 3), cv_conj(cat_entry(CatalogGate::Sqswap, 2, 3))));
    lemma_eqv_trans(cat_gram(CatalogGate::Sqswap, 2, 2, 4), cat_gram(CatalogGate::Sqswap, 2, 2, 3), cv_add(cv_mul(cat_entry(CatalogGate::Sqswap, 2, 1), cv_conj(cat_entry(CatalogGate::Sqswap, 2, 1))), cv_mul(cat_entry(CatalogGate::Sqswap, 2, 2), cv_conj(cat_entry(CatalogGate::Sqswap, 2, 2)))));
    assert((cv_add(cv_mul(cat_entry(CatalogGate::Sqswap, 2, 1), cv_conj(cat_entry(CatalogGate::Sqswap, 2, 1))), cv_mul(cat_entry(CatalogGate::Sqswap, 2, 2), cv_conj(cat_entry(CatalogGate::Sqswap, 2, 2))))).re.a == (((1) * (1) + 2 * ((0) * (0))) * ((2) * (2)) + (-((-1) * (-(-1)) + 2 * ((0) * (-(0))))) * ((2) * (2))) * (((2) * (2)) * ((2) * (2))) + (((1) * (1) + 2 * ((0) * (0))) * ((2) * (2)) + (-((1) * (-(1)) + 2 * ((0) * (-(0))))) * ((2) * (2))) * (((2) * (2)) * ((2) * (2))));
    assert(((((1) * (1) + 2 * ((0) * (0))) * ((2) * (2)) + (-((-1) * (-(-1)) + 2 * ((0) * (-(0))))) * ((2) * (2))) * (((2) * (2)) * ((2) * (2))) + (((1) * (1) + 2 * ((0) * (0))) * ((2) * (2)) + (-((1) * (-(1)) + 2 * ((0) * (-(0))))) * ((2) * (2))) * (((2) * (2)) * ((2) * (2)))) == 256) by (nonlinear_arith);
    assert((cv_add(cv_mul(cat_entry(CatalogGate::Sqswap, 2, 1), cv_conj(cat_entry(CatalogGate::Sqswap, 2, 1))), cv_mul(cat_entry(CatalogGate::Sqswap, 2, 2), cv_conj(cat_entry(CatalogGate::Sqswap, 2, 2))))).re.b == (((1) * (0) + (0) * (1)) * ((2) * (2)) + (-((-1) * (-(0)) + (0) * (-(-1)))) * ((2) * (2))) * (((2) * (2)) * ((2) * (2))) + (((1) * (0) + (0) * (1)) * ((2) * (2)) + (-((1) * (-(0)) + (0) * (-(1)))) * ((2) * (2))) * (((2) * (2)) * ((2) * (2))));
    assert(((((1) * (0) + (0) * (1)) * ((2) * (2)) + (-((-1) * (-(0)) + (0) * (-(-1)))) * ((2) * (2))) * (((2) * (2)) * ((2) * (2))) + (((1) * (0) + (0) * (1)) * ((2) * (2)) + (-((1) * (-(0)) + (0) * (-(1)))) * ((2) * (2))) * (((2) * (2)) * ((2) * (2)))) == 0) by (nonlinear_arith);
    assert((cv_add(cv_mul(cat_entry(CatalogGate::Sqswap, 2, 1), cv_conj(cat_entry(CatalogGate::Sqswap, 2, 1))), cv_mul(cat_entry(CatalogGate::Sqswap, 2, 2), cv_conj(cat_entry(CatalogGate::Sqswap, 2, 2))))).re.d == (((2) * (2)) * ((2) * (2))) * (((2) * (2)) * ((2) * (2))));
    assert(((((2) * (2)) * ((2) * (2))) * (((2) * (2)) * ((2) * (2)))) == 256) by (nonlinear_arith);
    assert((cv_add(cv_mul(cat_entry(CatalogGate::Sqswap, 2, 1), cv_conj(cat_entry(CatalogGate::Sqswap, 2, 1))), cv_mul(cat_entry(CatalogGate::Sqswap, 2, 2), cv_conj(cat_entry(CatalogGate::Sqswap, 2, 2))))).im.a == (((1) * (-(-1)) + 2 * ((0) * (-(0)))) * ((2) * (2)) + ((-1) * (1) + 2 * ((0) * (0))) * ((2) * (2))) * (((2) * (2)) * ((2) * (2))) + (((1) * (-(1)) + 2 * ((0) * (-(0)))) * ((2) * (2)) + ((1) * (1) + 2 * ((0) * (0))) * ((2) * (2))) * (((2) * (2)) * ((2) * (2))));
    assert(((((1) * (-(-1)) + 2 * ((0) * (-(0)))) * ((2) * (2)) + ((-1) * (1) + 2 * ((0) * (0))) * ((2) * (2))) * (((2) * (2)) * ((2) * (2))) + (((1) * (-(1)) + 2 * ((0) * (-(0)))) * ((2) * (2)) + ((1) * (1) + 2 * ((0) * (0))) * ((2) * (2))) * (((2) * (2)) * ((2) * (2)))) == 0) by (nonlinear_arith);
    assert((cv_add(cv_mul(cat_entry(CatalogGate::Sqswap, 2, 1), cv_conj(cat_entry(CatalogGate::Sqswap, 2, 1))), cv_mul(cat_entry(CatalogGate::Sqswap, 2, 2), cv_conj(cat_entry(CatalogGate::Sqswap, 2, 2))))).im.b == (((1) * (-(0)) + (0) * (-(-1))) * ((2) * (2)) + ((-1) * (0) + (0) * (1)) * ((2) * (2))) * (((2) * (2)) * ((2) * (2))) + (((1) * (-(0)) + (0) * (-(1))) * ((2) * (2)) + ((1) * (0) + (0) * (1)) * ((2) * (2))) * (((2) * (2)) * ((2) * (2))));
    assert(((((1) * (-(0)) + (0) * (-(-1))) * ((2) * (2)) + ((-1) * (0) + (0) * (1)) * ((2) * (2))) * (((2) * (2)) * ((2) * (2))) + (((1) * (-(0)) + (0) * (-(1))) * ((2) * (2)) + ((1) * (0) + (0) * (1)) * ((2) * (2))) * (((2) * (2)) * ((2) * (2)))) == 0) by (nonlinear_arith);
    assert((cv_add(cv_mul(cat_entry(CatalogGate::Sqswap, 2, 1), cv_conj(cat_entry(CatalogGate::Sqswap, 2, 1))), cv_mul(cat_entry(CatalogGate::Sqswap, 2, 2), cv_conj(cat_entry(CatalogGate::Sqswap, 2, 2))))).im.d == (((2) * (2)) * ((2) * (2))) * (((2) * (2)) * ((2) * (2))));
    assert(((((2) * (2)) * ((2) * (2))) * (((2) * (2)) * ((2) * (2)))) == 256) by (nonlinear_arith);
    assert((cv_add(cv_mul(cat_entry(CatalogGate::Sqswap, 2, 1), cv_conj(cat_entry(CatalogGate::Sqswap, 2, 1))), cv_mul(cat_entry(CatalogGate::Sqswap, 2, 2), cv_conj(cat_entry(CatalogGate::Sqswap, 2, 2))))).re.a * (ident_entry(2, 2)).re.d == (ident_entry(2, 2)).re.a * (cv_add(cv_mul(cat_entry(CatalogGate::Sqswap, 2, 1), cv_conj(cat_entry(CatalogGate::Sqswap, 2, 1))), cv_mul(cat_entry(CatalogGate::Sqswap, 2, 2), cv_conj(cat_entry(CatalogGate::Sqswap, 2, 2))))).re.d)
        by (nonlinear_arith)
        requires
            (cv_add(cv_mul(cat_entry(CatalogGate::Sqswap, 2, 1), cv_conj(cat_entry(CatalogGate::Sqswap, 2, 1))), cv_mul(cat_entry(CatalogGate::Sqswap, 2, 2), cv_conj(cat_entry(CatalogGate::Sqswap, 2, 2))))).re.a == 256,
            (cv_add(cv_mul(cat_entry(CatalogGate::Sqswap, 2, 1), cv_conj(cat_entry(CatalogGate::Sqswap, 2, 1))), cv_mul(cat_entry(CatalogGate::Sqswap, 2, 2), cv_conj(cat_entry(CatalogGate::Sqswap, 2, 2))))).re.d == 256,
            (ident_entry(2, 2)).re.a == 1,
            (ident_entry(2, 2)).re.d == 1;
    assert((cv_add(cv_mul(cat_entry(CatalogGate::Sqswap, 2, 1), cv_conj(cat_entry(CatalogGate::Sqswap, 2, 1))), cv_mul(cat_entry(CatalogGate::Sqswap, 2, 2), cv_conj(cat_entry(CatalogGate::Sqswap, 2, 2))))).re.b * (ident_entry(2, 2)).re.d == (ident_entry(2, 2)).re.b * (cv_add(cv_mul(cat_entry(CatalogGate::Sqswap, 2, 1), cv_conj(cat_entry(CatalogGate::Sqswap, 2, 1))), cv_mul(cat_entry(CatalogGate::Sqswap, 2, 2), cv_conj(cat_entry(CatalogGate::Sqswap, 2, 2))))).re.d)
        by (nonlinear_arith)
        requires
            (cv_add(cv_mul(cat_entry(CatalogGate::Sqswap, 2, 1), cv_conj(cat_entry(CatalogGate::Sqswap, 2, 1))), cv_mul(cat_entry(CatalogGate::Sqswap, 2, 2), cv_conj(cat_entry(CatalogGate::Sqswap, 2, 2))))).re.b == 0,
            (cv_add(cv_mul(cat_entry(CatalogGate::Sqswap, 2, 1), cv_conj(cat_entry(CatalogGate::Sqswap, 2, 1))), cv_mul(cat_entry(CatalogGate::Sqswap, 2, 2), cv_conj(cat_entry(CatalogGate::Sqswap, 2, 2))))).re.d == 256,
            (ident_entry(2, 2)).re.b == 0,
            (ident_entry(2, 2)).re.d == 1;
    assert((cv_add(cv_mul(cat_entry(CatalogGate::Sqswap, 2, 1), cv_conj(cat_entry(CatalogGate::Sqswap, 2, 1))), cv_mul(cat_entry(CatalogGate::Sqswap, 2, 2), cv_conj(cat_entry(CatalogGate::Sqswap, 2, 2))))).im.a * (ident_entry(2, 2)).im.d == (ident_entry(2, 2)).im.a * (cv_add(cv_mul(cat_entry(CatalogGate::Sqswap, 2, 1), cv_conj(cat_entry(CatalogGate::Sqswap, 2, 1))), cv_mul(cat_entry(CatalogGate::Sqswap, 2, 2), cv_conj(cat_entry(CatalogGate::Sqswap, 2, 2))))).im.d)
        by (nonlinear_arith)
        requires
            (cv_add(cv_mul(cat_entry(CatalogGate::Sqswap, 2, 1), cv_conj(cat_entry(CatalogGate::Sqswap, 2, 1))), cv_mul(cat_entry(CatalogGate::Sqswap, 2, 2), cv_conj(cat_entry(CatalogGate::Sqswap, 2, 2))))).im.a == 0,
            (cv_add(cv_mul(cat_entry(CatalogGate::Sqswap, 2, 1), cv_conj(cat_entry(CatalogGate::Sqswap, 2, 1))), cv_mul(cat_entry(CatalogGate::Sqswap, 2, 2), cv_conj(cat_entry(CatalogGate::Sqswap, 2, 2))))).im.d == 256,
            (ident_entry(2, 2)).im.a == 0,
            (ident_entry(2, 2)).im.d == 1;
    assert((cv_add(cv_mul(cat_entry(CatalogGate::Sqswap, 2, 1), cv_conj(cat_entry(CatalogGate::Sqswap, 2, 1))), cv_mul(cat_entry(CatalogGate::Sqswap, 2, 2), cv_conj(cat_entry(CatalogGate::Sqswap, 2, 2))))).im.b * (ident_entry(2, 2)).im.d == (ident_entry(2, 2)).im.b * (cv_add(cv_mul(cat_entry(CatalogGate::Sqswap, 2, 1), cv_conj(cat_entry(CatalogGate::Sqswap, 2, 1))), cv_mul(cat_entry(CatalogGate::Sqswap, 2, 2), cv_conj(cat_entry(CatalogGate::Sqswap, 2, 2))))).im.d)
        by (nonlinear_arith)
        requires
            (cv_add(cv_mul(cat_entry(CatalogGate::Sqswap, 2, 1), cv_conj(cat_entry(CatalogGate::Sqswap, 2, 1))), cv_mul(cat_entry(CatalogGate::Sqswap, 2, 2), cv_conj(cat_entry(CatalogGate::Sqswap, 2, 2))))).im.b == 0,
            (cv_add(cv_mul(cat_entry(CatalogGate::Sqswap, 2, 1), cv_conj(cat_entry(CatalogGate::Sqswap, 2, 1))), cv_mul(cat_entry(CatalogGate::Sqswap, 2, 2), cv_conj(cat_entry(CatalogGate::Sqswap, 2, 2))))).im.d == 256,
            (ident_entry(2, 2)).im.b == 0,
            (ident_entry(2, 2)).im.d == 1;
    assert(cv_eqv(cv_add(cv_mul(cat_entry(CatalogGate::Sqswap, 2, 1), cv_conj(cat_entry(CatalogGate::Sqswap, 2, 1))), cv_mul(cat_entry(CatalogGate::Sqswap, 2, 2), cv_conj(cat_entry(CatalogGate::Sqswap, 2, 2)))), ident_entry(2, 2)));
    assert(cv_wf(ident_entry(2, 2)));
    lemma_eqv_trans(cat_gram(CatalogGate::Sqswap, 2, 2, 4), cv_add(cv_mul(cat_entry(CatalogGate::Sqswap, 2, 1), cv_conj(cat_entry(CatalogGate::Sqswap, 2, 1))), cv_mul(cat_entry(CatalogGate::Sqswap, 2, 2), cv_conj(cat_entry(CatalogGate::Sqswap, 2, 2)))), ident_entry(2, 2));
}

proof fn sqswap_gram_case_2_3()
    ensures
        cv_eqv(cat_gram(CatalogGate::Sqswap, 2, 3, 4), ident_entry(2, 3)),
{
    reveal_with_fuel(cat_gram, 5);
    lemma_zero_zeroish();
    assert(cat_gram(CatalogGate::Sqswap, 2, 3, 0) == cv_zero());
    assert(cv_zeroish(cat_gram(CatalogGate::Sqswap, 2, 3, 0)));
    assert(cat_gram(CatalogGate::Sqswap, 2, 3, 1) == cv_add(cat_gram(CatalogGate::Sqswap, 2, 3, 0), cv_mul(cat_entry(CatalogGate::Sqswap, 2, 0), cv_conj(cat_entry(CatalogGate::Sqswap, 3, 0)))));
    assert(cat_entry(CatalogGate::Sqswap, 2, 0) == cv_zero());
    assert(cv_zeroish(cat_entry(CatalogGate::Sqswap, 2, 0)));
    assert(cv_wf(cat_entry(CatalogGate::Sqswap, 3, 0)));
    lemma_conj_wf(cat_entry(CatalogGate::Sqswap, 3, 0));
    lemma_mul_zeroish_left(cat_entry(CatalogGate::Sqswap, 2, 0), cv_conj(cat_entry(CatalogGate::Sqswap, 3, 0)));
    assert(cv_zeroish(cv_mul(cat_entry(CatalogGate::Sqswap, 2, 0), cv_conj(cat_entry(CatalogGate::Sqswap, 3, 0)))));
    lemma_add_zeroish_zeroish(cat_gram(CatalogGate::Sqswap, 2, 3, 0), cv_mul(cat_entry(CatalogGate::Sqswap, 2, 0), cv_conj(cat_entry(CatalogGate::Sqswap, 3, 0))));
    assert(cv_zeroish(cat_gram(CatalogGate::Sqswap, 2, 3, 1)));
    assert(cat_gram(CatalogGate::Sqswap, 2, 3, 2) == cv_add(cat_gram(CatalogGate::Sqswap, 2, 3, 1), cv_mul(cat_entry(CatalogGate::Sqswap, 2, 1), cv_conj(cat_entry(CatalogGate::Sqswap, 3, 1)))));
    assert(cat_entry(CatalogGate::Sqswap, 3, 1) == cv_zero());
    assert(cv_conj(cat_entry(CatalogGate::Sqswap, 3, 1)) == cv_zero());
    assert(cv_zeroish(cv_conj(cat_entry(CatalogGate::Sqswap, 3, 1))));
    assert(cv_wf(cat_entry(CatalogGate::Sqswap, 2, 1)));
    lemma_mul_zeroish_right(cat_entry(CatalogGate::Sqswap, 2, 1), cv_conj(cat_entry(CatalogGate::Sqswap, 3, 1)));
    assert(cv_zeroish(cv_mul(cat_entry(CatalogGate::Sqswap, 2, 1), cv_conj(cat_entry(CatalogGate::Sqswap, 3, 1)))));
    lemma_add_zeroish_zeroish(cat_gram(CatalogGate::Sqswap, 2, 3, 1), cv_mul(cat_entry(CatalogGate::Sqswap, 2, 1), cv_conj(cat_entry(CatalogGate::Sqswap, 3, 1))));
    assert(cv_zeroish(cat_gram(CatalogGate::Sqswap, 2, 3, 2)));
    assert(cat_gram(CatalogGate::Sqswap, 2, 3, 3) == cv_add(cat_gram(CatalogGate::Sqswap, 2, 3, 2), cv_mul(cat_entry(CatalogGate::Sqswap, 2, 2), cv_conj(cat_entry(CatalogGate::Sqswap, 3, 2)))));
    assert(cat_entry(CatalogGate::Sqswap, 3, 2) == cv_zero());
    assert(cv_conj(cat_entry(CatalogGate::Sqswap, 3, 2)) == cv_zero());
    assert(cv_zeroish(cv_conj(cat_entry(CatalogGate::Sqswap, 3, 2))));
    assert(cv_wf(cat_entry(CatalogGate::Sqswap, 2, 2)));
    lemma_mul_zeroish_right(cat_entry(CatalogGate::Sqswap, 2, 2), cv_conj(cat_entry(CatalogGate::Sqswap, 3, 2)));
    assert(cv_zeroish(cv_mul(cat_entry(CatalogGate::Sqswap, 2, 2), cv_conj(cat_entry(CatalogGate::Sqswap, 3, 2)))));
    lemma_add_zeroish_zeroish(cat_gram(CatalogGate::Sqswap, 2, 3, 2), cv_mul(cat_entry(CatalogGate::Sqswap, 2, 2), cv_conj(cat_entry(CatalogGate::Sqswap, 3, 2))));
    assert(cv_zeroish(cat_gram(CatalogGate::Sqswap, 2, 3, 3)));
    assert(cat_gram(CatalogGate::Sqswap, 2, 3, 4) == cv_add(cat_gram(CatalogGate::Sqswap, 2, 3, 3), cv_mul(cat_entry(CatalogGate::Sqswap, 2, 3), cv_conj(cat_entry(CatalogGate::Sqswap, 3, 3)))));
    assert(cat_entry(CatalogGate::Sqswap, 2, 3) == cv_zero());
    assert(cv_zeroish(cat_entry(CatalogGate::Sqswap, 2, 3)));
    assert(cv_wf(cat_entry(CatalogGate::Sqswap, 3, 3)));
    lemma_conj_wf(cat_entry(CatalogGate::Sqswap, 3, 3));
    lemma_mul_zeroish_left(cat_entry(CatalogGate::Sqswap, 2, 3), cv_conj(cat_entry(CatalogGate::Sqswap, 3, 3)));
    assert(cv_zeroish(cv_mul(cat_entry(CatalogGate::Sqswap, 2, 3), cv_conj(cat_entry(CatalogGate::Sqswap, 3, 3)))));
    lemma_add_zeroish_zeroish(cat_gram(CatalogGate::Sqswap, 2, 3, 3), cv_mul(cat_entry(CatalogGate::Sqswap, 2, 3), cv_conj(cat_entry(CatalogGate::Sqswap, 3, 3))));
    assert(cv_zeroish(cat_gram(CatalogGate::Sqswap, 2, 3, 4)));
    lemma_zeroish_eqv_zero(cat_gram(CatalogGate::Sqswap, 2, 3, 4));
    assert(cv_eqv(cat_gram(CatalogGate::Sqswap, 2, 3, 4), ident_entry(2, 3)));
}

proof fn sqswap_gram_case_3_0()
    ensures
        cv_eqv(cat_gram(CatalogGate::Sqswap, 3, 0, 4), ident_entry(3, 0)),
{
    reveal_with_fuel(cat_gram, 5);
    lemma_zero_zeroish();
    assert(cat_gram(CatalogGate::Sqswap, 3, 0, 0) == cv_zero());
    assert(cv_zeroish(cat_gram(CatalogGate::Sqswap, 3, 0, 0)));
    assert(cat_gram(CatalogGate::Sqswap, 3, 0, 1) == cv_add(cat_gram(CatalogGate::Sqswap, 3, 0, 0), cv_mul(cat_entry(CatalogGate::Sqswap, 3, 0), cv_conj(cat_entry(CatalogGate::Sqswap, 0, 0)))));
    assert(cat_entry(CatalogGate::Sqswap, 3, 0) == cv_zero());
    assert(cv_zeroish(cat_entry(CatalogGate::Sqswap, 3, 0)));
    assert(cv_wf(cat_entry(CatalogGate::Sqswap, 0, 0)));
    lemma_conj_wf(cat_entry(CatalogGate::Sqswap, 0, 0));
    lemma_mul_zeroish_left(cat_entry(CatalogGate::Sqswap, 3, 0), cv_conj(cat_entry(CatalogGate::Sqswap, 0, 0)));
    assert(cv_zeroish(cv_mul(cat_entry(CatalogGate::Sqswap, 3, 0), cv_conj(cat_entry(CatalogGate::Sqswap, 0, 0)))));
    lemma_add_zeroish_zeroish(cat_gram(CatalogGate::Sqswap, 3, 0, 0), cv_mul(cat_entry(CatalogGate::Sqswap, 3, 0), cv_conj(cat_entry(CatalogGate::Sqswap, 0, 0))));
    assert(cv_zeroish(cat_gram(CatalogGate::Sqswap, 3, 0, 1)));
    assert(cat_gram(CatalogGate::Sqswap, 3, 0, 2) == cv_add(cat_gram(CatalogGate::Sqswap, 3, 0, 1), cv_mul(cat_entry(CatalogGate::Sqswap, 3, 1), cv_conj(cat_entry(CatalogGate::Sqswap, 0, 1)))));
    assert(cat_entry(CatalogGate::Sqswap, 3, 1) == cv_zero());
    assert(cv_zeroish(cat_entry(CatalogGate::Sqswap, 3, 1)));
    assert(cv_wf(cat_entry(CatalogGate::Sqswap, 0, 1)));
    lemma_conj_wf(cat_entry(CatalogGate::Sqswap, 0, 1));
    lemma_mul_zeroish_left(cat_entry(CatalogGate::Sqswap, 3, 1), cv_conj(cat_entry(CatalogGate::Sqswap, 0, 1)));
    assert(cv_zeroish(cv_mul(cat_entry(CatalogGate::Sqswap, 3, 1), cv_conj(cat_entry(CatalogGate::Sqswap, 0, 1)))));
    lemma_add_zeroish_zeroish(cat_gram(CatalogGate::Sqswap, 3, 0, 1), cv_mul(cat_entry(CatalogGate::Sqswap, 3, 1), cv_conj(cat_entry(CatalogGate::Sqswap, 0, 1))));
    assert(cv_zeroish(cat_gram(CatalogGate::Sqswap, 3, 0, 2)));
    assert(cat_gram(CatalogGate::Sqswap, 3, 0, 3) == cv_add(cat_gram(CatalogGate::Sqswap, 3, 0, 2), cv_mul(cat_entry(CatalogGate::Sqswap, 3, 2), cv_conj(cat_entry(CatalogGate::Sqswap, 0, 2)))));
    assert(cat_entry(CatalogGate::Sqswap, 3, 2) == cv_zero());
    assert(cv_zeroish(cat_entry(CatalogGate::Sqswap, 3, 2)));
    assert(cv_wf(cat_entry(CatalogGate::Sqswap, 0, 2)));
    lemma_conj_wf(cat_entry(CatalogGate::Sqswap, 0, 2));
    lemma_mul_zeroish_left(cat_entry(CatalogGate::Sqswap, 3, 2), cv_conj(cat_entry(CatalogGate::Sqswap, 0, 2)));
    assert(cv_zeroish(cv_mul(cat_entry(CatalogGate::Sqswap, 3, 2), cv_conj(cat_entry(CatalogGate::Sqswap, 0, 2)))));
    lemma_add_zeroish_zeroish(cat_gram(CatalogGate::Sqswap, 3, 0, 2), cv_mul(cat_entry(CatalogGate::Sqswap, 3, 2), cv_conj(cat_entry(CatalogGate::Sqswap, 0, 2))));
    assert(cv_zeroish(cat_gram(CatalogGate::Sqswap, 3, 0, 3)));
    assert(cat_gram(CatalogGate::Sqswap, 3, 0, 4) == cv_add(cat_gram(CatalogGate::Sqswap, 3, 0, 3), cv_mul(cat_entry(CatalogGate::Sqswap, 3, 3), cv_conj(cat_entry(CatalogGate::Sqswap, 0, 3)))));
    assert(cat_entry(CatalogGate::Sqswap, 0, 3) == cv_zero());
    assert(cv_conj(cat_entry(CatalogGate::Sqswap, 0, 3)) == cv_zero());
    assert(cv_zeroish(cv_conj(cat_entry(CatalogGate::Sqswap, 0, 3))));
    assert(cv_wf(cat_entry(CatalogGate::Sqswap, 3, 3)));
    lemma_mul_zeroish_right(cat_entry(CatalogGate::Sqswap, 3, 3), cv_conj(cat_entry(CatalogGate::Sqswap, 0, 3)));
    assert(cv_zeroish(cv_mul(cat_entry(CatalogGate::Sqswap, 3, 3), cv_conj(cat_entry(CatalogGate::Sqswap, 0, 3)))));
    lemma_add_zeroish_zeroish(cat_gram(CatalogGate::Sqswap, 3, 0, 3), cv_mul(cat_entry(CatalogGate::Sqswap, 3, 3), cv_conj(cat_entry(CatalogGate::Sqswap, 0, 3))));
    assert(cv_zeroish(cat_gram(CatalogGate::Sqswap, 3, 0, 4)));
    lemma_zeroish_eqv_zero(cat_gram(CatalogGate::Sqswap, 3, 0, 4));
    assert(cv_eqv(cat_gram(CatalogGate::Sqswap, 3, 0, 4), ident_entry(3, 0)));
}

proof fn sqswap_gram_case_3_1()
    ensures
        cv_eqv(cat_gram(CatalogGate::Sqswap, 3, 1, 4), ident_entry(3, 1)),
{
    reveal_with_fuel(cat_gram, 5);
    lemma_zero_zeroish();
    assert(cat_gram(CatalogGate::Sqswap, 3, 1, 0) == cv_zero());
    assert(cv_zeroish(cat_gram(CatalogGate::Sqswap, 3, 1, 0)));
    assert(cat_gram(CatalogGate::Sqswap, 3, 1, 1) == cv_add(cat_gram(CatalogGate::Sqswap, 3, 1, 0), cv_mul(cat_entry(CatalogGate::Sqswap, 3, 0), cv_conj(cat_entry(CatalogGate::Sqswap, 1, 0)))));
    assert(cat_entry(CatalogGate::Sqswap, 3, 0) == cv_zero());
    assert(cv_zeroish(cat_entry(CatalogGate::Sqswap, 3, 0)));
    assert(cv_wf(cat_entry(CatalogGate::Sqswap, 1, 0)));
    lemma_conj_wf(cat_entry(CatalogGate::Sqswap, 1, 0));
    lemma_mul_zeroish_left(cat_entry(CatalogGate::Sqswap, 3, 0), cv_conj(cat_entry(CatalogGate::Sqswap, 1, 0)));
    assert(cv_zeroish(cv_mul(cat_entry(CatalogGate::Sqswap, 3, 0), cv_conj(cat_entry(CatalogGate::Sqswap, 1, 0)))));
    lemma_add_zeroish_zeroish(cat_gram(CatalogGate::Sqswap, 3, 1, 0), cv_mul(cat_entry(CatalogGate::Sqswap, 3, 0), cv_conj(cat_entry(CatalogGate::Sqswap, 1, 0))));
    assert(cv_zeroish(cat_gram(CatalogGate::Sqswap, 3, 1, 1)));
    assert(cat_gram(CatalogGate::Sqswap, 3, 1, 2) == cv_add(cat_gram(CatalogGate::Sqswap, 3, 1, 1), cv_mul(cat_entry(CatalogGate::Sqswap, 3, 1), cv_conj(cat_entry(CatalogGate::Sqswap, 1, 1)))));
    assert(cat_entry(CatalogGate::Sqswap, 3, 1) == cv_zero());
    assert(cv_zeroish(cat_entry(CatalogGate::Sqswap, 3, 1)));
    assert(cv_wf(cat_entry(CatalogGate::Sqswap, 1, 1)));
    lemma_conj_wf(cat_entry(CatalogGate::Sqswap, 1, 1));
    lemma_mul_zeroish_left(cat_entry(CatalogGate::Sqswap, 3, 1), cv_conj(cat_entry(CatalogGate::Sqswap, 1, 1)));
    assert(cv_zeroish(cv_mul(cat_entry(CatalogGate::Sqswap, 3, 1), cv_conj(cat_entry(CatalogGate::Sqswap, 1, 1)))));
    lemma_add_zeroish_zeroish(cat_gram(CatalogGate::Sqswap, 3, 1, 1), cv_mul(cat_entry(CatalogGate::Sqswap, 3, 1), cv_conj(cat_entry(CatalogGate::Sqswap, 1, 1))));
    assert(cv_zeroish(cat_gram(CatalogGate::Sqswap, 3, 1, 2)));
    assert(cat_gram(CatalogGate::Sqswap, 3, 1, 3) == cv_add(cat_gram(CatalogGate::Sqswap, 3, 1, 2), cv_mul(cat_entry(CatalogGate::Sqswap, 3, 2), cv_conj(cat_entry(CatalogGate::Sqswap, 1, 2)))));
    assert(cat_entry(CatalogGate::Sqswap, 3, 2) == cv_zero());
    assert(cv_zeroish(cat_entry(CatalogGate::Sqswap, 3, 2)));
    assert(cv_wf(cat_entry(CatalogGate::Sqswap, 1, 2)));
    lemma_conj_wf(cat_entry(CatalogGate::Sqswap, 1, 2));
    lemma_mul_zeroish_left(cat_entry(CatalogGate::Sqswap, 3, 2), cv_conj(cat_entry(CatalogGate::Sqswap, 1, 2)));
    assert(cv_zeroish(cv_mul(cat_entry(CatalogGate::Sqswap, 3, 2), cv_conj(cat_entry(CatalogGate::Sqswap, 1, 2)))));
    lemma_add_zeroish_zeroish(cat_gram(CatalogGate::Sqswap, 3, 1, 2), cv_mul(cat_entry(CatalogGate::Sqswap, 3, 2), cv_conj(cat_entry(CatalogGate::Sqswap, 1, 2))));
    assert(cv_zeroish(cat_gram(CatalogGate::Sqswap, 3, 1, 3)));
    assert(cat_gram(CatalogGate::Sqswap, 3, 1, 4) == cv_add(cat_gram(CatalogGate::Sqswap, 3, 1, 3), cv_mul(cat_entry(CatalogGate::Sqswap, 3, 3), cv_conj(cat_entry(CatalogGate::Sqswap, 1, 3)))));
    assert(cat_entry(CatalogGate::Sqswap, 1, 3) == cv_zero());
    assert(cv_conj(cat_entry(CatalogGate::Sqswap, 1, 3)) == cv_zero());
    assert(cv_zeroish(cv_conj(cat_entry(CatalogGate::Sqswap, 1, 3))));
    assert(cv_wf(cat_entry(CatalogGate::Sqswap, 3, 3)));
    lemma_mul_zeroish_right(cat_entry(CatalogGate::Sqswap, 3, 3), cv_conj(cat_entry(CatalogGate::Sqswap, 1, 3)));
    assert(cv_zeroish(cv_mul(cat_entry(CatalogGate::Sqswap, 3, 3), cv_conj(cat_entry(CatalogGate::Sqswap, 1, 3)))));
    lemma_add_zeroish_zeroish(cat_gram(CatalogGate::Sqswap, 3, 1, 3), cv_mul(cat_entry(CatalogGate::Sqswap, 3, 3), cv_conj(cat_entry(CatalogGate::Sqswap, 1, 3))));
    assert(cv_zeroish(cat_gram(CatalogGate::Sqswap, 3, 1, 4)));
    lemma_zeroish_eqv_zero(cat_gram(CatalogGate::Sqswap, 3, 1, 4));
    assert(cv_eqv(cat_gram(CatalogGate::Sqswap, 3, 1, 4), ident_entry(3, 1)));
}

proof fn sqswap_gram_case_3_2()
    ensures
        cv_eqv(cat_gram(CatalogGate::Sqswap, 3, 2, 4), ident_entry(3, 2)),
{
    reveal_with_fuel(cat_gram, 5);
    lemma_zero_zeroish();
    assert(cat_gram(CatalogGate::Sqswap, 3, 2, 0) == cv_zero());
    assert(cv_zeroish(cat_gram(CatalogGate::Sqswap, 3, 2, 0)));
    assert(cat_gram(CatalogGate::Sqswap, 3, 2, 1) == cv_add(cat_gram(CatalogGate::Sqswap, 3, 2, 0), cv_mul(cat_entry(CatalogGate::Sqswap, 3, 0), cv_conj(cat_entry(CatalogGate::Sqswap, 2, 0)))));
    assert(cat_entry(CatalogGate::Sqswap, 3, 0) == cv_zero());
    assert(cv_zeroish(cat_entry(CatalogGate::Sqswap, 3, 0)));
    assert(cv_wf(cat_entry(CatalogGate::Sqswap, 2, 0)));
    lemma_conj_wf(cat_entry(CatalogGate::Sqswap, 2, 0));
    lemma_mul_zeroish_left(cat_entry(CatalogGate::Sqswap, 3, 0), cv_conj(cat_entry(CatalogGate::Sqswap, 2, 0)));
    assert(cv_zeroish(cv_mul(cat_entry(CatalogGate::Sqswap, 3, 0), cv_conj(cat_entry(CatalogGate::Sqswap, 2, 0)))));
    lemma_add_zeroish_zeroish(cat_gram(CatalogGate::Sqswap, 3, 2, 0), cv_mul(cat_entry(CatalogGate::Sqswap, 3, 0), cv_conj(cat_entry(CatalogGate::Sqswap, 2, 0))));
    assert(cv_zeroish(cat_gram(CatalogGate::Sqswap, 3, 2, 1)));
    assert(cat_gram(CatalogGate::Sqswap, 3, 2, 2) == cv_add(cat_gram(CatalogGate::Sqswap, 3, 2, 1), cv_mul(cat_entry(CatalogGate::Sqswap, 3, 1), cv_conj(cat_entry(CatalogGate::Sqswap, 2, 1)))));
    assert(cat_entry(CatalogGate::Sqswap, 3, 1) == cv_zero());
    assert(cv_zeroish(cat_entry(CatalogGate::Sqswap, 3, 1)));
    assert(cv_wf(cat_entry(CatalogGate::Sqswap, 2, 1)));
    lemma_conj_wf(cat_entry(CatalogGate::Sqswap, 2, 1));
    lemma_mul_zeroish_left(cat_entry(CatalogGate::Sqswap, 3, 1), cv_conj(cat_entry(CatalogGate::Sqswap, 2, 1)));
    assert(cv_zeroish(cv_mul(cat_entry(CatalogGate::Sqswap, 3, 1), cv_conj(cat_entry(CatalogGate::Sqswap, 2, 1)))));
    lemma_add_zeroish_zeroish(cat_gram(CatalogGate::Sqswap, 3, 2, 1), cv_mul(cat_entry(CatalogGate::Sqswap, 3, 1), cv_conj(cat_entry(CatalogGate::Sqswap, 2, 1))));
    assert(cv_zeroish(cat_gram(CatalogGate::Sqswap, 3, 2, 2)));
    assert(cat_gram(CatalogGate::Sqswap, 3, 2, 3) == cv_add(cat_gram(CatalogGate::Sqswap, 3, 2, 2), cv_mul(cat_entry(CatalogGate::Sqswap, 3, 2), cv_conj(cat_entry(CatalogGate::Sqswap, 2, 2)))));
    assert(cat_entry(CatalogGate::Sqswap, 3, 2) == cv_zero());
    assert(cv_zeroish(cat_entry(CatalogGate::Sqswap, 3, 2)));
    assert(cv_wf(cat_entry(CatalogGate::Sqswap, 2, 2)));
    lemma_conj_wf(cat_entry(CatalogGate::Sqswap, 2, 2));
    lemma_mul_zeroish_left(cat_entry(CatalogGate::Sqswap, 3, 2), cv_conj(cat_entry(CatalogGate::Sqswap, 2, 2)));
    assert(cv_zeroish(cv_mul(cat_entry(CatalogGate::Sqswap, 3, 2), cv_conj(cat_entry(CatalogGate::Sqswap, 2, 2)))));
    lemma_add_zeroish_zeroish(cat_gram(CatalogGate::Sqswap, 3, 2, 2), cv_mul(cat_entry(CatalogGate::Sqswap, 3, 2), cv_conj(cat_entry(CatalogGate::Sqswap, 2, 2))));
    assert(cv_zeroish(cat_gram(CatalogGate::Sqswap, 3, 2, 3)));
    assert(cat_gram(CatalogGate::Sqswap, 3, 2, 4) == cv_add(cat_gram(CatalogGate::Sqswap, 3, 2, 3), cv_mul(cat_entry(CatalogGate::Sqswap, 3, 3), cv_conj(cat_entry(CatalogGate::Sqswap, 2, 3)))));
    assert(cat_entry(CatalogGate::Sqswap, 2, 3) == cv_zero());
    assert(cv_conj(cat_entry(CatalogGate::Sqswap, 2, 3)) == cv_zero());
    assert(cv_zeroish(cv_conj(cat_entry(CatalogGate::Sqswap, 2, 3))));
    assert(cv_wf(cat_entry(CatalogGate::Sqswap, 3, 3)));
    lemma_mul_zeroish_right(cat_entry(CatalogGate::Sqswap, 3, 3), cv_conj(cat_entry(CatalogGate::Sqswap, 2, 3)));
    assert(cv_zeroish(cv_mul(cat_entry(CatalogGate::Sqswap, 3, 3), cv_conj(cat_entry(CatalogGate::Sqswap, 2, 3)))));
    lemma_add_zeroish_zeroish(cat_gram(CatalogGate::Sqswap, 3, 2, 3), cv_mul(cat_entry(CatalogGate::Sqswap, 3, 3), cv_conj(cat_entry(CatalogGate::Sqswap, 2, 3))));
    assert(cv_zeroish(cat_gram(CatalogGate::Sqswap, 3, 2, 4)));
    lemma_zeroish_eqv_zero(cat_gram(CatalogGate::Sqswap, 3, 2, 4));
    assert(cv_eqv(cat_gram(CatalogGate::Sqswap, 3, 2, 4), ident_entry(3, 2)));
}

proof fn sqswap_gram_case_3_3()
    ensures
        cv_eqv(cat_gram(CatalogGate::Sqswap, 3, 3, 4), ident_entry(3, 3)),
{
    reveal_with_fuel(cat_gram, 5);
    lemma_zero_zeroish();
    assert(cat_gram(CatalogGate::Sqswap, 3, 3, 0) == cv_zero());
    assert(cv_zeroish(cat_gram(CatalogGate::Sqswap, 3, 3, 0)));
    assert(cat_gram(CatalogGate::Sqswap, 3, 3, 1) == cv_add(cat_gram(CatalogGate::Sqswap, 3, 3, 0), cv_mul(cat_entry(CatalogGate::Sqswap, 3, 0), cv_conj(cat_entry(CatalogGate::Sqswap, 3, 0)))));
    assert(cat_entry(CatalogGate::Sqswap, 3, 0) == cv_zero());
    assert(cv_zeroish(cat_entry(CatalogGate::Sqswap, 3, 0)));
    assert(cv_wf(cat_entry(CatalogGate::Sqswap, 3, 0)));
    lemma_conj_wf(cat_entry(CatalogGate::Sqswap, 3, 0));
    lemma_mul_zeroish_left(cat_entry(CatalogGate::Sqswap, 3, 0), cv_conj(cat_entry(CatalogGate::Sqswap, 3, 0)));
    assert(cv_zeroish(cv_mul(cat_entry(CatalogGate::Sqswap, 3, 0), cv_conj(cat_entry(CatalogGate::Sqswap, 3, 0)))));
    lemma_add_zeroish_zeroish(cat_gram(CatalogGate::Sqswap, 3, 3, 0), cv_mul(cat_entry(CatalogGate::Sqswap, 3, 0), cv_conj(cat_entry(CatalogGate::Sqswap, 3, 0))));
    assert(cv_zeroish(cat_gram(CatalogGate::Sqswap, 3, 3, 1)));
    assert(cat_gram(CatalogGate::Sqswap, 3, 3, 2) == cv_add(cat_gram(CatalogGate::Sqswap, 3, 3, 1), cv_mul(cat_entry(CatalogGate::Sqswap, 3, 1), cv_conj(cat_entry(CatalogGate::Sqswap, 3, 1)))));
    assert(cat_entry(CatalogGate::Sqswap, 3, 1) == cv_zero());
    assert(cv_zeroish(cat_entry(CatalogGate::Sqswap, 3, 1)));
    assert(cv_wf(cat_entry(CatalogGate::Sqswap, 3, 1)));
    lemma_conj_wf(cat_entry(CatalogGate::Sqswap, 3, 1));
    lemma_mul_zeroish_left(cat_entry(CatalogGate::Sqswap, 3, 1), cv_conj(cat_entry(CatalogGate::Sqswap, 3, 1)));
    assert(cv_zeroish(cv_mul(cat_entry(CatalogGate::Sqswap, 3, 1), cv_conj(cat_entry(CatalogGate::Sqswap, 3, 1)))));
    lemma_add_zeroish_zeroish(cat_gram(CatalogGate::Sqswap, 3, 3, 1), cv_mul(cat_entry(CatalogGate::Sqswap, 3, 1), cv_conj(cat_entry(CatalogGate::Sqswap, 3, 1))));
    assert(cv_zeroish(cat_gram(CatalogGate::Sqswap, 3, 3, 2)));
    assert(cat_gram(CatalogGate::Sqswap, 3, 3, 3) == cv_add(cat_gram(CatalogGate::Sqswap, 3, 3, 2), cv_mul(cat_entry(CatalogGate::Sqswap, 3, 2), cv_conj(cat_entry(CatalogGate::Sqswap, 3, 2)))));
    assert(cat_entry(CatalogGate::Sqswap, 3, 2) == cv_zero());
    assert(cv_zeroish(cat_entry(CatalogGate::Sqswap, 3, 2)));
    assert(cv_wf(cat_entry(CatalogGate::Sqswap, 3, 2)));
    lemma_conj_wf(cat_entry(CatalogGate::Sqswap, 3, 2));
    lemma_mul_zeroish_left(cat_entry(CatalogGate::Sqswap, 3, 2), cv_conj(cat_entry(CatalogGate::Sqswap, 3, 2)));
    assert(cv_zeroish(cv_mul(cat_entry(CatalogGate::Sqswap, 3, 2), cv_conj(cat_entry(CatalogGate::Sqswap, 3, 2)))));
    lemma_add_zeroish_zeroish(cat_gram(CatalogGate::Sqswap, 3, 3, 2), cv_mul(cat_entry(CatalogGate::Sqswap, 3, 2), cv_conj(cat_entry(CatalogGate::Sqswap, 3, 2))));
    assert(cv_zeroish(cat_gram(CatalogGate::Sqswap, 3, 3, 3)));
    assert(cat_gram(CatalogGate::Sqswap, 3, 3, 4) == cv_add(cat_gram(CatalogGate::Sqswap, 3, 3, 3), cv_mul(cat_entry(CatalogGate::Sqswap, 3, 3), cv_conj(cat_entry(CatalogGate::Sqswap, 3, 3)))));
    assert(cv_wf(cat_entry(CatalogGate::Sqswap, 3, 3)));
    assert(cv_wf(cat_entry(CatalogGate::Sqswap, 3, 3)));
    lemma_conj_wf(cat_entry(CatalogGate::Sqswap, 3, 3));
    lemma_mul_wf(cat_entry(CatalogGate::Sqswap, 3, 3), cv_conj(cat_entry(CatalogGate::Sqswap, 3, 3)));
    lemma_add_zeroish_left(cat_gram(CatalogGate::Sqswap, 3, 3, 3), cv_mul(cat_entry(CatalogGate::Sqswap, 3, 3), cv_conj(cat_entry(CatalogGate::Sqswap, 3, 3))));
    assert((cv_mul(cat_entry(CatalogGate::Sqswap, 3, 3), cv_conj(cat_entry(CatalogGate::Sqswap, 3, 3)))).re.a == ((1) * (1) + 2 * ((0) * (0))) * ((1) * (1)) + (-((0) * (-(0)) + 2 * ((0) * (-(0))))) * ((1) * (1)));
    assert((((1) * (1) + 2 * ((0) * (0))) * ((1) * (1)) + (-((0) * (-(0)) + 2 * ((0) * (-(0))))) * ((1) * (1))) == 1) by (nonlinear_arith);
    assert((cv_mul(cat_entry(CatalogGate::Sqswap, 3, 3), cv_conj(cat_entry(CatalogGate::Sqswap, 3, 3)))).re.b == ((1) * (0) + (0) * (1)) * ((1) * (1)) + (-((0) * (-(0)) + (0) * (-(0)))) * ((1) * (1)));
    assert((((1) * (0) + (0) * (1)) * ((1) * (1)) + (-((0) * (-(0)) + (0) * (-(0)))) * ((1) * (1))) == 0) by (nonlinear_arith);
    assert((cv_mul(cat_entry(CatalogGate::Sqswap, 3, 3), cv_conj(cat_entry(CatalogGate::Sqswap, 3, 3)))).re.d == ((1) * (1)) * ((1) * (1)));
    assert((((1) * (1)) * ((1) * (1))) == 1) by (nonlinear_arith);
    assert((cv_mul(cat_entry(CatalogGate::Sqswap, 3, 3), cv_conj(cat_entry(CatalogGate::Sqswap, 3, 3)))).im.a == ((1) * (-(0)) + 2 * ((0) * (-(0)))) * ((1) * (1)) + ((0) * (1) + 2 * ((0) * (0))) * ((1) * (1)));
    assert((((1) * (-(0)) + 2 * ((0) * (-(0)))) * ((1) * (1)) + ((0) * (1) + 2 * ((0) * (0))) * ((1) * (1))) == 0) by (nonlinear_arith);
    assert((cv_mul(cat_entry(CatalogGate::Sqswap, 3, 3), cv_conj(cat_entry(CatalogGate::Sqswap, 3, 3)))).im.b == ((1) * (-(0)) + (0) * (-(0))) * ((1) * (1)) + ((0) * (0) + (0) * (1)) * ((1) * (1)));
    assert((((1) * (-(0)) + (0) * (-(0))) * ((1) * (1)) + ((0) * (0) + (0) * (1)) * ((1) * (1))) == 0) by (nonlinear_arith);
    assert((cv_mul(cat_entry(CatalogGate::Sqswap, 3, 3), cv_conj(cat_entry(CatalogGate::Sqswap, 3, 3)))).im.d == ((1) * (1)) * ((1) * (1)));
    assert((((1) * (1)) * ((1) * (1))) == 1) by (nonlinear_arith);
    assert((cv_mul(cat_entry(CatalogGate::Sqswap, 3, 3), cv_conj(cat_entry(CatalogGate::Sqswap, 3, 3)))).re.a * (ident_entry(3, 3)).re.d == (ident_entry(3, 3)).re.a * (cv_mul(cat_entry(CatalogGate::Sqswap, 3, 3), cv_conj(cat_entry(CatalogGate::Sqswap, 3, 3)))).re.d)
        by (nonlinear_arith)
        requires
            (cv_mul(cat_entry(CatalogGate::Sqswap, 3, 3), cv_conj(cat_entry(CatalogGate::Sqswap, 3, 3)))).re.a == 1,
            (cv_mul(cat_entry(CatalogGate::Sqswap, 3, 3), cv_conj(cat_entry(CatalogGate::Sqswap, 3, 3)))).re.d == 1,
            (ident_entry(3, 3)).re.a == 1,
            (ident_entry(3, 3)).re.d == 1;
    assert((cv_mul(cat_entry(CatalogGate::Sqswap, 3, 3), cv_conj(cat_entry(CatalogGate::Sqswap, 3, 3)))).re.b * (ident_entry(3, 3)).re.d == (ident_entry(3, 3)).re.b * (cv_mul(cat_entry(CatalogGate::Sqswap, 3, 3), cv_conj(cat_entry(CatalogGate::Sqswap, 3, 3)))).re.d)
        by (nonlinear_arith)
        requires
            (cv_mul(cat_entry(CatalogGate::Sqswap, 3, 3), cv_conj(cat_entry(CatalogGate::Sqswap, 3, 3)))).re.b == 0,
            (cv_mul(cat_entry(CatalogGate::Sqswap, 3, 3), cv_conj(cat_entry(CatalogGate::Sqswap, 3, 3)))).re.d == 1,
            (ident_entry(3, 3)).re.b == 0,
            (ident_entry(3, 3)).re.d == 1;
    assert((cv_mul(cat_entry(CatalogGate::Sqswap, 3, 3), cv_conj(cat_entry(CatalogGate::Sqswap, 3, 3)))).im.a * (ident_entry(3, 3)).im.d == (ident_entry(3, 3)).im.a * (cv_mul(cat_entry(CatalogGate::Sqswap, 3, 3), cv_conj(cat_entry(CatalogGate::Sqswap, 3, 3)))).im.d)
        by (nonlinear_arith)
        requires
            (cv_mul(cat_entry(CatalogGate::Sqswap, 3, 3), cv_conj(cat_entry(CatalogGate::Sqswap, 3, 3)))).im.a == 0,
            (cv_mul(cat_entry(CatalogGate::Sqswap, 3, 3), cv_conj(cat_entry(CatalogGate::Sqswap, 3, 3)))).im.d == 1,
            (ident_entry(3, 3)).im.a == 0,
            (ident_entry(3, 3)).im.d == 1;
    assert((cv_mul(cat_entry(CatalogGate::Sqswap, 3, 3), cv_conj(cat_entry(CatalogGate::Sqswap, 3, 3)))).im.b * (ident_entry(3, 3)).im.d == (ident_entry(3, 3)).im.b * (cv_mul(cat_entry(CatalogGate::Sqswap, 3, 3), cv_conj(cat_entry(CatalogGate::Sqswap, 3, 3)))).im.d)
        by (nonlinear_arith)
        requires
            (cv_mul(cat_entry(CatalogGate::Sqswap, 3, 3), cv_conj(cat_entry(CatalogGate::Sqswap, 3, 3)))).im.b == 0,
            (cv_mul(cat_entry(CatalogGate::Sqswap, 3, 3), cv_conj(cat_entry(CatalogGate::Sqswap, 3, 3)))).im.d == 1,
            (ident_entry(3, 3)).im.b == 0,
            (ident_entry(3, 3)).im.d == 1;
    assert(cv_eqv(cv_mul(cat_entry(CatalogGate::Sqswap, 3, 3), cv_conj(cat_entry(CatalogGate::Sqswap, 3, 3))), ident_entry(3, 3)));
    assert(cv_wf(ident_entry(3, 3)));
    lemma_eqv_trans(cat_gram(CatalogGate::Sqswap, 3, 3, 4), cv_mul(cat_entry(CatalogGate::Sqswap, 3, 3), cv_conj(cat_entry(CatalogGate::Sqswap, 3, 3))), ident_entry(3, 3));
}

proof fn sqswap_mm_case_0_0()
    ensures
        cv_eqv(cat_mm(CatalogGate::Sqswap, CatalogGate::Sqswap, 0, 0, 4), swap_entry(0, 0)),
{
    reveal_with_fuel(cat_mm, 5);
    lemma_zero_zeroish();
    assert(cat_mm(CatalogGate::Sqswap, CatalogGate::Sqswap, 0, 0, 0) == cv_zero());
    assert(cv_zeroish(cat_mm(CatalogGate::Sqswap, CatalogGate::Sqswap, 0, 0, 0)));
    assert(cat_mm(CatalogGate::Sqswap, CatalogGate::Sqswap, 0, 0, 1) == cv_add(cat_mm(CatalogGate::Sqswap, CatalogGate::Sqswap, 0, 0, 0), cv_mul(cat_entry(CatalogGate::Sqswap, 0, 0), cat_entry(CatalogGate::Sqswap, 0, 0))));
    assert(cv_wf(cat_entry(CatalogGate::Sqswap, 0, 0)));
    assert(cv_wf(cat_entry(CatalogGate::Sqswap, 0, 0)));
    lemma_mul_wf(cat_entry(CatalogGate::Sqswap, 0, 0), cat_entry(CatalogGate::Sqswap, 0, 0));
    lemma_add_zeroish_left(cat_mm(CatalogGate::Sqswap, CatalogGate::Sqswap, 0, 0, 0), cv_mul(cat_entry(CatalogGate::Sqswap, 0, 0), cat_entry(CatalogGate::Sqswap, 0, 0)));
    assert(cat_mm(CatalogGate::Sqswap, CatalogGate::Sqswap, 0, 0, 2) == cv_add(cat_mm(CatalogGate::Sqswap, CatalogGate::Sqswap, 0, 0, 1), cv_mul(cat_entry(CatalogGate::Sqswap, 0, 1), cat_entry(CatalogGate::Sqswap, 1, 0))));
    assert(cat_entry(CatalogGate::Sqswap, 0, 1) == cv_zero());
    assert(cv_zeroish(cat_entry(CatalogGate::Sqswap, 0, 1)));
    assert(cv_wf(cat_entry(CatalogGate::Sqswap, 1, 0)));
    lemma_mul_zeroish_left(cat_entry(CatalogGate::Sqswap, 0, 1), cat_entry(CatalogGate::Sqswap, 1, 0));
    assert(cv_zeroish(cv_mul(cat_entry(CatalogGate::Sqswap, 0, 1), cat_entry(CatalogGate::Sqswap, 1, 0))));
    lemma_add_zeroish_right(cat_mm(CatalogGate::Sqswap, CatalogGate::Sqswap, 0, 0, 1), cv_mul(cat_entry(CatalogGate::Sqswap, 0, 1), cat_entry(CatalogGate::Sqswap, 1, 0)));
    lemma_eqv_trans(cat_mm(CatalogGate::Sqswap, CatalogGate::Sqswap, 0, 0, 2), cat_mm(CatalogGate::Sqswap, CatalogGate::Sqswap, 0, 0, 1), cv_mul(cat_entry(CatalogGate::Sqswap, 0, 0), cat_entry(CatalogGate::Sqswap, 0, 0)));
    assert(cat_mm(CatalogGate::Sqswap, CatalogGate::Sqswap, 0, 0, 3) == cv_add(cat_mm(CatalogGate::Sqswap, CatalogGate::Sqswap, 0, 0, 2), cv_mul(cat_entry(CatalogGate::Sqswap, 0, 2), cat_entry(CatalogGate::Sqswap, 2, 0))));
    assert(cat_entry(CatalogGate::Sqswap, 0, 2) == cv_zero());
    assert(cv_zeroish(cat_entry(CatalogGate::Sqswap, 0, 2)));
    assert(cv_wf(cat_entry(CatalogGate::Sqswap, 2, 0)));
    lemma_mul_zeroish_left(cat_entry(CatalogGate::Sqswap, 0, 2), cat_entry(CatalogGate::Sqswap, 2, 0));
    assert(cv_zeroish(cv_mul(cat_entry(CatalogGate::Sqswap, 0, 2), cat_entry(CatalogGate::Sqswap, 2, 0))));
    lemma_add_zeroish_right(cat_mm(CatalogGate::Sqswap, CatalogGate::Sqswap, 0, 0, 2), cv_mul(cat_entry(CatalogGate::Sqswap, 0, 2), cat_entry(CatalogGate::Sqswap, 2, 0)));
    lemma_eqv_trans(cat_mm(CatalogGate::Sqswap, CatalogGate::Sqswap, 0, 0, 3), cat_mm(CatalogGate::Sqswap, CatalogGate::Sqswap, 0, 0, 2), cv_mul(cat_entry(CatalogGate::Sqswap, 0, 0), cat_entry(CatalogGate::Sqswap, 0, 0)));
    assert(cat_mm(CatalogGate::Sqswap, CatalogGate::Sqswap, 0, 0, 4) == cv_add(cat_mm(CatalogGate::Sqswap, CatalogGate::Sqswap, 0, 0, 3), cv_mul(cat_entry(CatalogGate::Sqswap, 0, 3), cat_entry(CatalogGate::Sqswap, 3, 0))));
    assert(cat_entry(CatalogGate::Sqswap, 0, 3) == cv_zero());
    assert(cv_zeroish(cat_entry(CatalogGate::Sqswap, 0, 3)));
    assert(cv_wf(cat_entry(CatalogGate::Sqswap, 3, 0)));
    lemma_mul_zeroish_left(cat_entry(CatalogGate::Sqswap, 0, 3), cat_entry(CatalogGate::Sqswap, 3, 0));
    assert(cv_zeroish(cv_mul(cat_entry(CatalogGate::Sqswap, 0, 3), cat_entry(CatalogGate::Sqswap, 3, 0))));
    lemma_add_zeroish_right(cat_mm(CatalogGate::Sqswap, CatalogGate::Sqswap, 0, 0, 3), cv_mul(cat_entry(CatalogGate::Sqswap, 0, 3), cat_entry(CatalogGate::Sqswap, 3, 0)));
    lemma_eqv_trans(cat_mm(CatalogGate::Sqswap, CatalogGate::Sqswap, 0, 0, 4), cat_mm(CatalogGate::Sqswap, CatalogGate::Sqswap, 0, 0, 3), cv_mul(cat_entry(CatalogGate::Sqswap, 0, 0), cat_entry(CatalogGate::Sqswap, 0, 0)));
    assert((cv_mul(cat_entry(CatalogGate::Sqswap, 0, 0), cat_entry(CatalogGate::Sqswap, 0, 0))).re.a == ((1) * (1) + 2 * ((0) * (0))) * ((1) * (1)) + (-((0) * (0) + 2 * ((0) * (0)))) * ((1) * (1)));
    assert((((1) * (1) + 2 * ((0) * (0))) * ((1) * (1)) + (-((0) * (0) + 2 * ((0) * (0)))) * ((1) * (1))) == 1) by (nonlinear_arith);
    assert((cv_mul(cat_entry(CatalogGate::Sqswap, 0, 0), cat_entry(CatalogGate::Sqswap, 0, 0))).re.b == ((1) * (0) + (0) * (1)) * ((1) * (1)) + (-((0) * (0) + (0) * (0))) * ((1) * (1)));
    assert((((1) * (0) + (0) * (1)) * ((1) * (1)) + (-((0) * (0) + (0) * (0))) * ((1) * (1))) == 0) by (nonlinear_arith);
    assert((cv_mul(cat_entry(CatalogGate::Sqswap, 0, 0), cat_entry(CatalogGate::Sqswap, 0, 0))).re.d == ((1) * (1)) * ((1) * (1)));
    assert((((1) * (1)) * ((1) * (1))) == 1) by (nonlinear_arith);
    assert((cv_mul(cat_entry(CatalogGate::Sqswap, 0, 0), cat_entry(CatalogGate::Sqswap, 0, 0))).im.a == ((1) * (0) + 2 * ((0) * (0))) * ((1) * (1)) + ((0) * (1) + 2 * ((0) * (0))) * ((1) * (1)));
    assert((((1) * (0) + 2 * ((0) * (0))) * ((1) * (1)) + ((0) * (1) + 2 * ((0) * (0))) * ((1) * (1))) == 0) by (nonlinear_arith);
    assert((cv_mul(cat_entry(CatalogGate::Sqswap, 0, 0), cat_entry(CatalogGate::Sqswap, 0, 0))).im.b == ((1) * (0) + (0) * (0)) * ((1) * (1)) + ((0) * (0) + (0) * (1)) * ((1) * (1)));
    assert((((1) * (0) + (0) * (0)) * ((1) * (1)) + ((0) * (0) + (0) * (1)) * ((1) * (1))) == 0) by (nonlinear_arith);
    assert((cv_mul(cat_entry(CatalogGate::Sqswap, 0, 0), cat_entry(CatalogGate::Sqswap, 0, 0))).im.d == ((1) * (1)) * ((1) * (1)));
    assert((((1) * (1)) * ((1) * (1))) == 1) by (nonlinear_arith);
    assert((cv_mul(cat_entry(CatalogGate::Sqswap, 0, 0), cat_entry(CatalogGate::Sqswap, 0, 0))).re.a * (swap_entry(0, 0)).re.d == (swap_entry(0, 0)).re.a * (cv_mul(cat_entry(CatalogGate::Sqswap, 0, 0), cat_entry(CatalogGate::Sqswap, 0, 0))).re.d)
        by (nonlinear_arith)
        requires
            (cv_mul(cat_entry(CatalogGate::Sqswap, 0, 0), cat_entry(CatalogGate::Sqswap, 0, 0))).re.a == 1,
            (cv_mul(cat_entry(CatalogGate::Sqswap, 0, 0), cat_entry(CatalogGate::Sqswap, 0, 0))).re.d == 1,
            (swap_entry(0, 0)).re.a == 1,
            (swap_entry(0, 0)).re.d == 1;
    assert((cv_mul(cat_entry(CatalogGate::Sqswap, 0, 0), cat_entry(CatalogGate::Sqswap, 0, 0))).re.b * (swap_entry(0, 0)).re.d == (swap_entry(0, 0)).re.b * (cv_mul(cat_entry(CatalogGate::Sqswap, 0, 0), cat_entry(CatalogGate::Sqswap, 0, 0))).re.d)
        by (nonlinear_arith)
        requires
            (cv_mul(cat_entry(CatalogGate::Sqswap, 0, 0), cat_entry(CatalogGate::Sqswap, 0, 0))).re.b == 0,
            (cv_mul(cat_entry(CatalogGate::Sqswap, 0, 0), cat_entry(CatalogGate::Sqswap, 0, 0))).re.d == 1,
            (swap_entry(0, 0)).re.b == 0,
            (swap_entry(0, 0)).re.d == 1;
    assert((cv_mul(cat_entry(CatalogGate::Sqswap, 0, 0), cat_entry(CatalogGate::Sqswap, 0, 0))).im.a * (swap_entry(0, 0)).im.d == (swap_entry(0, 0)).im.a * (cv_mul(cat_entry(CatalogGate::Sqswap, 0, 0), cat_entry(CatalogGate::Sqswap, 0, 0))).im.d)
        by (nonlinear_arith)
        requires
            (cv_mul(cat_entry(CatalogGate::Sqswap, 0, 0), cat_entry(CatalogGate::Sqswap, 0, 0))).im.a == 0,
            (cv_mul(cat_entry(CatalogGate::Sqswap, 0, 0), cat_entry(CatalogGate::Sqswap, 0, 0))).im.d == 1,
            (swap_entry(0, 0)).im.a == 0,
            (swap_entry(0, 0)).im.d == 1;
    assert((cv_mul(cat_entry(CatalogGate::Sqswap, 0, 0), cat_entry(CatalogGate::Sqswap, 0, 0))).im.b * (swap_entry(0, 0)).im.d == (swap_entry(0, 0)).im.b * (cv_mul(cat_entry(CatalogGate::Sqswap, 0, 0), cat_entry(CatalogGate::Sqswap, 0, 0))).im.d)
        by (nonlinear_arith)
        requires
            (cv_mul(cat_entry(CatalogGate::Sqswap, 0, 0), cat_entry(CatalogGate::Sqswap, 0, 0))).im.b == 0,
            (cv_mul(cat_entry(CatalogGate::Sqswap, 0, 0), cat_entry(CatalogGate::Sqswap, 0, 0))).im.d == 1,
            (swap_entry(0, 0)).im.b == 0,
            (swap_entry(0, 0)).im.d == 1;
    assert(cv_eqv(cv_mul(cat_entry(CatalogGate::Sqswap, 0, 0), cat_entry(CatalogGate::Sqswap, 0, 0)), swap_entry(0, 0)));
    assert(cv_wf(swap_entry(0, 0)));
    lemma_eqv_trans(cat_mm(CatalogGate::Sqswap, CatalogGate::Sqswap, 0, 0, 4), cv_mul(cat_entry(CatalogGate::Sqswap, 0, 0), cat_entry(CatalogGate::Sqswap, 0, 0)), swap_entry(0, 0));
}

proof fn sqswap_mm_case_0_1()
    ensures
        cv_eqv(cat_mm(CatalogGate::Sqswap, CatalogGate::Sqswap, 0, 1, 4), swap_entry(0, 1)),
{
    reveal_with_fuel(cat_mm, 5);
    lemma_zero_zeroish();
    assert(cat_mm(CatalogGate::Sqswap, CatalogGate::Sqswap, 0, 1, 0) == cv_zero());
    assert(cv_zeroish(cat_mm(CatalogGate::Sqswap, CatalogGate::Sqswap, 0, 1, 0)));
    assert(cat_mm(CatalogGate::Sqswap, CatalogGate::Sqswap, 0, 1, 1) == cv_add(cat_mm(CatalogGate::Sqswap, CatalogGate::Sqswap, 0, 1, 0), cv_mul(cat_entry(CatalogGate::Sqswap, 0, 0), cat_entry(CatalogGate::Sqswap, 0, 1))));
    assert(cat_entry(CatalogGate::Sqswap, 0, 1) == cv_zero());
    assert(cv_zeroish(cat_entry(CatalogGate::Sqswap, 0, 1)));
    assert(cv_wf(cat_entry(CatalogGate::Sqswap, 0, 0)));
    lemma_mul_zeroish_right(cat_entry(CatalogGate::Sqswap, 0, 0), cat_entry(CatalogGate::Sqswap, 0, 1));
    assert(cv_zeroish(cv_mul(cat_entry(CatalogGate::Sqswap, 0, 0), cat_entry(CatalogGate::Sqswap, 0, 1))));
    lemma_add_zeroish_zeroish(cat_mm(CatalogGate::Sqswap, CatalogGate::Sqswap, 0, 1, 0), cv_mul(cat_entry(CatalogGate::Sqswap, 0, 0), cat_entry(CatalogGate::Sqswap, 0, 1)));
    assert(cv_zeroish(cat_mm(CatalogGate::Sqswap, CatalogGate::Sqswap, 0, 1, 1)));
    assert(cat_mm(CatalogGate::Sqswap, CatalogGate::Sqswap, 0, 1, 2) == cv_add(cat_mm(CatalogGate::Sqswap, CatalogGate::Sqswap, 0, 1, 1), cv_mul(cat_entry(CatalogGate::Sqswap, 0, 1), cat_entry(CatalogGate::Sqswap, 1, 1))));
    assert(cat_entry(CatalogGate::Sqswap, 0, 1) == cv_zero());
    assert(cv_zeroish(cat_entry(CatalogGate::Sqswap, 0, 1)));
    assert(cv_wf(cat_entry(CatalogGate::Sqswap, 1, 1)));
    lemma_mul_zeroish_left(cat_entry(CatalogGate::Sqswap, 0, 1), cat_entry(CatalogGate::Sqswap, 1, 1));
    assert(cv_zeroish(cv_mul(cat_entry(CatalogGate::Sqswap, 0, 1), cat_entry(CatalogGate::Sqswap, 1, 1))));
    lemma_add_zeroish_zeroish(cat_mm(CatalogGate::Sqswap, CatalogGate::Sqswap, 0, 1, 1), cv_mul(cat_entry(CatalogGate::Sqswap, 0, 1), cat_entry(CatalogGate::Sqswap, 1, 1)));
    assert(cv_zeroish(cat_mm(CatalogGate::Sqswap, CatalogGate::Sqswap, 0, 1, 2)));
    assert(cat_mm(CatalogGate::Sqswap, CatalogGate::Sqswap, 0, 1, 3) == cv_add(cat_mm(CatalogGate::Sqswap, CatalogGate::Sqswap, 0, 1, 2), cv_mul(cat_entry(CatalogGate::Sqswap, 0, 2), cat_entry(CatalogGate::Sqswap, 2, 1))));
    assert(cat_entry(CatalogGate::Sqswap, 0, 2) == cv_zero());
    assert(cv_zeroish(cat_entry(CatalogGate::Sqswap, 0, 2)));
    assert(cv_wf(cat_entry(CatalogGate::Sqswap, 2, 1)));
    lemma_mul_zeroish_left(cat_entry(CatalogGate::Sqswap, 0, 2), cat_entry(CatalogGate::Sqswap, 2, 1));
    assert(cv_zeroish(cv_mul(cat_entry(CatalogGate::Sqswap, 0, 2), cat_entry(CatalogGate::Sqswap, 2, 1))));
    lemma_add_zeroish_zeroish(cat_mm(CatalogGate::Sqswap, CatalogGate::Sqswap, 0, 1, 2), cv_mul(cat_entry(CatalogGate::Sqswap, 0, 2), cat_entry(CatalogGate::Sqswap, 2, 1)));
    assert(cv_zeroish(cat_mm(CatalogGate::Sqswap, CatalogGate::Sqswap, 0, 1, 3)));
    assert(cat_mm(CatalogGate::Sqswap, CatalogGate::Sqswap, 0, 1, 4) == cv_add(cat_mm(CatalogGate::Sqswap, CatalogGate::Sqswap, 0, 1, 3), cv_mul(cat_entry(CatalogGate::Sqswap, 0, 3), cat_entry(CatalogGate::Sqswap, 3, 1))));
    assert(cat_entry(CatalogGate::Sqswap, 0, 3) == cv_zero());
    assert(cv_zeroish(cat_entry(CatalogGate::Sqswap, 0, 3)));
    assert(cv_wf(cat_entry(CatalogGate::Sqswap, 3, 1)));
    lemma_mul_zeroish_left(cat_entry(CatalogGate::Sqswap, 0, 3), cat_entry(CatalogGate::Sqswap, 3, 1));
    assert(cv_zeroish(cv_mul(cat_entry(CatalogGate::Sqswap, 0, 3), cat_entry(CatalogGate::Sqswap, 3, 1))));
    lemma_add_zeroish_zeroish(cat_mm(CatalogGate::Sqswap, CatalogGate::Sqswap, 0, 1, 3), cv_mul(cat_entry(CatalogGate::Sqswap, 0, 3), cat_entry(CatalogGate::Sqswap, 3, 1)));
    assert(cv_zeroish(cat_mm(CatalogGate::Sqswap, CatalogGate::Sqswap, 0, 1, 4)));
    lemma_zeroish_eqv_zero(cat_mm(CatalogGate::Sqswap, CatalogGate::Sqswap, 0, 1, 4));
    assert(cv_eqv(cat_mm(CatalogGate::Sqswap, CatalogGate::Sqswap, 0, 1, 4), swap_entry(0, 1)));
}

proof fn sqswap_mm_case_0_2()
    ensures
        cv_eqv(cat_mm(CatalogGate::Sqswap, CatalogGate::Sqswap, 0, 2, 4), swap_entry(0, 2)),
{
    reveal_with_fuel(cat_mm, 5);
    lemma_zero_zeroish();
    assert(cat_mm(CatalogGate::Sqswap, CatalogGate::Sqswap, 0, 2, 0) == cv_zero());
    assert(cv_zeroish(cat_mm(CatalogGate::Sqswap, CatalogGate::Sqswap, 0, 2, 0)));
    assert(cat_mm(CatalogGate::Sqswap, CatalogGate::Sqswap, 0, 2, 1) == cv_add(cat_mm(CatalogGate::Sqswap, CatalogGate::Sqswap, 0, 2, 0), cv_mul(cat_entry(CatalogGate::Sqswap, 0, 0), cat_entry(CatalogGate::Sqswap, 0, 2))));
    assert(cat_entry(CatalogGate::Sqswap, 0, 2) == cv_zero());
    assert(cv_zeroish(cat_entry(CatalogGate::Sqswap, 0, 2)));
    assert(cv_wf(cat_entry(CatalogGate::Sqswap, 0, 0)));
    lemma_mul_zeroish_right(cat_entry(CatalogGate::Sqswap, 0, 0), cat_entry(CatalogGate::Sqswap, 0, 2));
    assert(cv_zeroish(cv_mul(cat_entry(CatalogGate::Sqswap, 0, 0), cat_entry(CatalogGate::Sqswap, 0, 2))));
    lemma_add_zeroish_zeroish(cat_mm(CatalogGate::Sqswap, CatalogGate::Sqswap, 0, 2, 0), cv_mul(cat_entry(CatalogGate::Sqswap, 0, 0), cat_entry(CatalogGate::Sqswap, 0, 2)));
    assert(cv_zeroish(cat_mm(CatalogGate::Sqswap, CatalogGate::Sqswap, 0, 2, 1)));
    assert(cat_mm(CatalogGate::Sqswap, CatalogGate::Sqswap, 0, 2, 2) == cv_add(cat_mm(CatalogGate::Sqswap, CatalogGate::Sqswap, 0, 2, 1), cv_mul(cat_entry(CatalogGate::Sqswap, 0, 1), cat_entry(CatalogGate::Sqswap, 1, 2))));
    assert(cat_entry(CatalogGate::Sqswap, 0, 1) == cv_zero());
    assert(cv_zeroish(cat_entry(CatalogGate::Sqswap, 0, 1)));
    assert(cv_wf(cat_entry(CatalogGate::Sqswap, 1, 2)));
    lemma_mul_zeroish_left(cat_entry(CatalogGate::Sqswap, 0, 1), cat_entry(CatalogGate::Sqswap, 1, 2));
    assert(cv_zeroish(cv_mul(cat_entry(CatalogGate::Sqswap, 0, 1), cat_entry(CatalogGate::Sqswap, 1, 2))));
    lemma_add_zeroish_zeroish(cat_mm(CatalogGate::Sqswap, CatalogGate::Sqswap, 0, 2, 1), cv_mul(cat_entry(CatalogGate::Sqswap, 0, 1), cat_entry(CatalogGate::Sqswap, 1, 2)));
    assert(cv_zeroish(cat_mm(CatalogGate::Sqswap, CatalogGate::Sqswap, 0, 2, 2)));
    assert(cat_mm(CatalogGate::Sqswap, CatalogGate::Sqswap, 0, 2, 3) == cv_add(cat_mm(CatalogGate::Sqswap, CatalogGate::Sqswap, 0, 2, 2), cv_mul(cat_entry(CatalogGate::Sqswap, 0, 2), cat_entry(CatalogGate::Sqswap, 2, 2))));
    assert(cat_entry(CatalogGate::Sqswap, 0, 2) == cv_zero());
    assert(cv_zeroish(cat_entry(CatalogGate::Sqswap, 0, 2)));
    assert(cv_wf(cat_entry(CatalogGate::Sqswap, 2, 2)));
    lemma_mul_zeroish_left(cat_entry(CatalogGate::Sqswap, 0, 2), cat_entry(CatalogGate::Sqswap, 2, 2));
    assert(cv_zeroish(cv_mul(cat_entry(CatalogGate::Sqswap, 0, 2), cat_entry(CatalogGate::Sqswap, 2, 2))));
    lemma_add_zeroish_zeroish(cat_mm(CatalogGate::Sqswap, CatalogGate::Sqswap, 0, 2, 2), cv_mul(cat_entry(CatalogGate::Sqswap, 0, 2), cat_entry(CatalogGate::Sqswap, 2, 2)));
    assert(cv_zeroish(cat_mm(CatalogGate::Sqswap, CatalogGate::Sqswap, 0, 2, 3)));
    assert(cat_mm(CatalogGate::Sqswap, CatalogGate::Sqswap, 0, 2, 4) == cv_add(cat_mm(CatalogGate::Sqswap, CatalogGate::Sqswap, 0, 2, 3), cv_mul(cat_entry(CatalogGate::Sqswap, 0, 3), cat_entry(CatalogGate::Sqswap, 3, 2))));
    assert(cat_entry(CatalogGate::Sqswap, 0, 3) == cv_zero());
    assert(cv_zeroish(cat_entry(CatalogGate::Sqswap, 0, 3)));
    assert(cv_wf(cat_entry(CatalogGate::Sqswap, 3, 2)));
    lemma_mul_zeroish_left(cat_entry(CatalogGate::Sqswap, 0, 3), cat_entry(CatalogGate::Sqswap, 3, 2));
    assert(cv_zeroish(cv_mul(cat_entry(CatalogGate::Sqswap, 0, 3), cat_entry(CatalogGate::Sqswap, 3, 2))));
    lemma_add_zeroish_zeroish(cat_mm(CatalogGate::Sqswap, CatalogGate::Sqswap, 0, 2, 3), cv_mul(cat_entry(CatalogGate::Sqswap, 0, 3), cat_entry(CatalogGate::Sqswap, 3, 2)));
    assert(cv_zeroish(cat_mm(CatalogGate::Sqswap, CatalogGate::Sqswap, 0, 2, 4)));
    lemma_zeroish_eqv_zero(cat_mm(CatalogGate::Sqswap, CatalogGate::Sqswap, 0, 2, 4));
    assert(cv_eqv(cat_mm(CatalogGate::Sqswap, CatalogGate::Sqswap, 0, 2, 4), swap_entry(0, 2)));
}

proof fn sqswap_mm_case_0_3()
    ensures
        cv_eqv(cat_mm(CatalogGate::Sqswap, CatalogGate::Sqswap, 0, 3, 4), swap_entry(0, 3)),
{
    reveal_with_fuel(cat_mm, 5);
    lemma_zero_zeroish();
    assert(cat_mm(CatalogGate::Sqswap, CatalogGate::Sqswap, 0, 3, 0) == cv_zero());
    assert(cv_zeroish(cat_mm(CatalogGate::Sqswap, CatalogGate::Sqswap, 0, 3, 0)));
    assert(cat_mm(CatalogGate::Sqswap, CatalogGate::Sqswap, 0, 3, 1) == cv_add(cat_mm(CatalogGate::Sqswap, CatalogGate::Sqswap, 0, 3, 0), cv_mul(cat_entry(CatalogGate::Sqswap, 0, 0), cat_entry(CatalogGate::Sqswap, 0, 3))));
    assert(cat_entry(CatalogGate::Sqswap, 0, 3) == cv_zero());
    assert(cv_zeroish(cat_entry(CatalogGate::Sqswap, 0, 3)));
    assert(cv_wf(cat_entry(CatalogGate::Sqswap, 0, 0)));
    lemma_mul_zeroish_right(cat_entry(CatalogGate::Sqswap, 0, 0), cat_entry(CatalogGate::Sqswap, 0, 3));
    assert(cv_zeroish(cv_mul(cat_entry(CatalogGate::Sqswap, 0, 0), cat_entry(CatalogGate::Sqswap, 0, 3))));
    lemma_add_zeroish_zeroish(cat_mm(CatalogGate::Sqswap, CatalogGate::Sqswap, 0, 3, 0), cv_mul(cat_entry(CatalogGate::Sqswap, 0, 0), cat_entry(CatalogGate::Sqswap, 0, 3)));
    assert(cv_zeroish(cat_mm(CatalogGate::Sqswap, CatalogGate::Sqswap, 0, 3, 1)));
    assert(cat_mm(CatalogGate::Sqswap, CatalogGate::Sqswap, 0, 3, 2) == cv_add(cat_mm(CatalogGate::Sqswap, CatalogGate::Sqswap, 0, 3, 1), cv_mul(cat_entry(CatalogGate::Sqswap, 0, 1), cat_entry(CatalogGate::Sqswap, 1, 3))));
    assert(cat_entry(CatalogGate::Sqswap, 0, 1) == cv_zero());
    assert(cv_zeroish(cat_entry(CatalogGate::Sqswap, 0, 1)));
    assert(cv_wf(cat_entry(CatalogGate::Sqswap, 1, 3)));
    lemma_mul_zeroish_left(cat_entry(CatalogGate::Sqswap, 0, 1), cat_entry(CatalogGate::Sqswap, 1, 3));
    assert(cv_zeroish(cv_mul(cat_entry(CatalogGate::Sqswap, 0, 1), cat_entry(CatalogGate::Sqswap, 1, 3))));
    lemma_add_zeroish_zeroish(cat_mm(CatalogGate::Sqswap, CatalogGate::Sqswap, 0, 3, 1), cv_mul(cat_entry(CatalogGate::Sqswap, 0, 1), cat_entry(CatalogGate::Sqswap, 1, 3)));
    assert(cv_zeroish(cat_mm(CatalogGate::Sqswap, CatalogGate::Sqswap, 0, 3, 2)));
    assert(cat_mm(CatalogGate::Sqswap, CatalogGate::Sqswap, 0, 3, 3) == cv_add(cat_mm(CatalogGate::Sqswap, CatalogGate::Sqswap, 0, 3, 2), cv_mul(cat_entry(CatalogGate::Sqswap, 0, 2), cat_entry(CatalogGate::Sqswap, 2, 3))));
    assert(cat_entry(CatalogGate::Sqswap, 0, 2) == cv_zero());
    assert(cv_zeroish(cat_entry(CatalogGate::Sqswap, 0, 2)));
    assert(cv_wf(cat_entry(CatalogGate::Sqswap, 2, 3)));
    lemma_mul_zeroish_left(cat_entry(CatalogGate::Sqswap, 0, 2), cat_entry(CatalogGate::Sqswap, 2, 3));
    assert(cv_zeroish(cv_mul(cat_entry(CatalogGate::Sqswap, 0, 2), cat_entry(CatalogGate::Sqswap, 2, 3))));
    lemma_add_zeroish_zeroish(cat_mm(CatalogGate::Sqswap, CatalogGate::Sqswap, 0, 3, 2), cv_mul(cat_entry(CatalogGate::Sqswap, 0, 2), cat_entry(CatalogGate::Sqswap, 2, 3)));
    assert(cv_zeroish(cat_mm(CatalogGate::Sqswap, CatalogGate::Sqswap, 0, 3, 3)));
    assert(cat_mm(CatalogGate::Sqswap, CatalogGate::Sqswap, 0, 3, 4) == cv_add(cat_mm(CatalogGate::Sqswap, CatalogGate::Sqswap, 0, 3, 3), cv_mul(cat_entry(CatalogGate::Sqswap, 0, 3), cat_entry(CatalogGate::Sqswap, 3, 3))));
    assert(cat_entry(CatalogGate::Sqswap, 0, 3) == cv_zero());
    assert(cv_zeroish(cat_entry(CatalogGate::Sqswap, 0, 3)));
    assert(cv_wf(cat_entry(CatalogGate::Sqswap, 3, 3)));
    lemma_mul_zeroish_left(cat_entry(CatalogGate::Sqswap, 0, 3), cat_entry(CatalogGate::Sqswap, 3, 3));
    assert(cv_zeroish(cv_mul(cat_entry(CatalogGate::Sqswap, 0, 3), cat_entry(CatalogGate::Sqswap, 3, 3))));
    lemma_add_zeroish_zeroish(cat_mm(CatalogGate::Sqswap, CatalogGate::Sqswap, 0, 3, 3), cv_mul(cat_entry(CatalogGate::Sqswap, 0, 3), cat_entry(CatalogGate::Sqswap, 3, 3)));
    assert(cv_zeroish(cat_mm(CatalogGate::Sqswap, CatalogGate::Sqswap, 0, 3, 4)));
    lemma_zeroish_eqv_zero(cat_mm(CatalogGate::Sqswap, CatalogGate::Sqswap, 0, 3, 4));
    assert(cv_eqv(cat_mm(CatalogGate::Sqswap, CatalogGate::Sqswap, 0, 3, 4), swap_entry(0, 3)));
}

proof fn sqswap_mm_case_1_0()
    ensures
        cv_eqv(cat_mm(CatalogGate::Sqswap, CatalogGate::Sqswap, 1, 0, 4), swap_entry(1, 0)),
{
    reveal_with_fuel(cat_mm, 5);
    lemma_zero_zeroish();
    assert(cat_mm(CatalogGate::Sqswap, CatalogGate::Sqswap, 1, 0, 0) == cv_zero());
    assert(cv_zeroish(cat_mm(CatalogGate::Sqswap, CatalogGate::Sqswap, 1, 0, 0)));
    assert(cat_mm(CatalogGate::Sqswap, CatalogGate::Sqswap, 1, 0, 1) == cv_add(cat_mm(CatalogGate::Sqswap, CatalogGate::Sqswap, 1, 0, 0), cv_mul(cat_entry(CatalogGate::Sqswap, 1, 0), cat_entry(CatalogGate::Sqswap, 0, 0))));
    assert(cat_entry(CatalogGate::Sqswap, 1, 0) == cv_zero());
    assert(cv_zeroish(cat_entry(CatalogGate::Sqswap, 1, 0)));
    assert(cv_wf(cat_entry(CatalogGate::Sqswap, 0, 0)));
    lemma_mul_zeroish_left(cat_entry(CatalogGate::Sqswap, 1, 0), cat_entry(CatalogGate::Sqswap, 0, 0));
    assert(cv_zeroish(cv_mul(cat_entry(CatalogGate::Sqswap, 1, 0), cat_entry(CatalogGate::Sqswap, 0, 0))));
    lemma_add_zeroish_zeroish(cat_mm(CatalogGate::Sqswap, CatalogGate::Sqswap, 1, 0, 0), cv_mul(cat_entry(CatalogGate::Sqswap, 1, 0), cat_entry(CatalogGate::Sqswap, 0, 0)));
    assert(cv_zeroish(cat_mm(CatalogGate::Sqswap, CatalogGate::Sqswap, 1, 0, 1)));
    assert(cat_mm(CatalogGate::Sqswap, CatalogGate::Sqswap, 1, 0, 2) == cv_add(cat_mm(CatalogGate::Sqswap, CatalogGate::Sqswap, 1, 0, 1), cv_mul(cat_entry(CatalogGate::Sqswap, 1, 1), cat_entry(CatalogGate::Sqswap, 1, 0))));
    assert(cat_entry(CatalogGate::Sqswap, 1, 0) == cv_zero());
    assert(cv_zeroish(cat_entry(CatalogGate::Sqswap, 1, 0)));
    assert(cv_wf(cat_entry(CatalogGate::Sqswap, 1, 1)));
    lemma_mul_zeroish_right(cat_entry(CatalogGate::Sqswap, 1, 1), cat_entry(CatalogGate::Sqswap, 1, 0));
    assert(cv_zeroish(cv_mul(cat_entry(CatalogGate::Sqswap, 1, 1), cat_entry(CatalogGate::Sqswap, 1, 0))));
    lemma_add_zeroish_zeroish(cat_mm(CatalogGate::Sqswap, CatalogGate::Sqswap, 1, 0, 1), cv_mul(cat_entry(CatalogGate::Sqswap, 1, 1), cat_entry(CatalogGate::Sqswap, 1, 0)));
    assert(cv_zeroish(cat_mm(CatalogGate::Sqswap, CatalogGate::Sqswap, 1, 0, 2)));
    assert(cat_mm(CatalogGate::Sqswap, CatalogGate::Sqswap, 1, 0, 3) == cv_add(cat_mm(CatalogGate::Sqswap, CatalogGate::Sqswap, 1, 0, 2), cv_mul(cat_entry(CatalogGate::Sqswap, 1, 2), cat_entry(CatalogGate::Sqswap, 2, 0))));
    assert(cat_entry(CatalogGate::Sqswap, 2, 0) == cv_zero());
    assert(cv_zeroish(cat_entry(CatalogGate::Sqswap, 2, 0)));
    assert(cv_wf(cat_entry(CatalogGate::Sqswap, 1, 2)));
    lemma_mul_zeroish_right(cat_entry(CatalogGate::Sqswap, 1, 2), cat_entry(CatalogGate::Sqswap, 2, 0));
    assert(cv_zeroish(cv_mul(cat_entry(CatalogGate::Sqswap, 1, 2), cat_entry(CatalogGate::Sqswap, 2, 0))));
    lemma_add_zeroish_zeroish(cat_mm(CatalogGate::Sqswap, CatalogGate::Sqswap, 1, 0, 2), cv_mul(cat_entry(CatalogGate::Sqswap, 1, 2), cat_entry(CatalogGate::Sqswap, 2, 0)));
    assert(cv_zeroish(cat_mm(CatalogGate::Sqswap, CatalogGate::Sqswap, 1, 0, 3)));
    assert(cat_mm(CatalogGate::Sqswap, CatalogGate::Sqswap, 1, 0, 4) == cv_add(cat_mm(CatalogGate::Sqswap, CatalogGate::Sqswap, 1, 0, 3), cv_mul(cat_entry(CatalogGate::Sqswap, 1, 3), cat_entry(CatalogGate::Sqswap, 3, 0))));
    assert(cat_entry(CatalogGate::Sqswap, 1, 3) == cv_zero());
    assert(cv_zeroish(cat_entry(CatalogGate::Sqswap, 1, 3)));
    assert(cv_wf(cat_entry(CatalogGate::Sqswap, 3, 0)));
    lemma_mul_zeroish_left(cat_entry(CatalogGate::Sqswap, 1, 3), cat_entry(CatalogGate::Sqswap, 3, 0));
    assert(cv_zeroish(cv_mul(cat_entry(CatalogGate::Sqswap, 1, 3), cat_entry(CatalogGate::Sqswap, 3, 0))));
    lemma_add_zeroish_zeroish(cat_mm(CatalogGate::Sqswap, CatalogGate::Sqswap, 1, 0, 3), cv_mul(cat_entry(CatalogGate::Sqswap, 1, 3), cat_entry(CatalogGate::Sqswap, 3, 0)));
    assert(cv_zeroish(cat_mm(CatalogGate::Sqswap, CatalogGate::Sqswap, 1, 0, 4)));
    lemma_zeroish_eqv_zero(cat_mm(CatalogGate::Sqswap, CatalogGate::Sqswap, 1, 0, 4));
    assert(cv_eqv(cat_mm(CatalogGate::Sqswap, CatalogGate::Sqswap, 1, 0, 4), swap_entry(1, 0)));
}

proof fn sqswap_mm_case_1_1()
    ensures
        cv_eqv(cat_mm(CatalogGate::Sqswap, CatalogGate::Sqswap, 1, 1, 4), swap_entry(1, 1)),
{
    reveal_with_fuel(cat_mm, 5);
    lemma_zero_zeroish();
    assert(cat_mm(CatalogGate::Sqswap, CatalogGate::Sqswap, 1, 1, 0) == cv_zero());
    assert(cv_zeroish(cat_mm(CatalogGate::Sqswap, CatalogGate::Sqswap, 1, 1, 0)));
    assert(cat_mm(CatalogGate::Sqswap, CatalogGate::Sqswap, 1, 1, 1) == cv_add(cat_mm(CatalogGate::Sqswap, CatalogGate::Sqswap, 1, 1, 0), cv_mul(cat_entry(CatalogGate::Sqswap, 1, 0), cat_entry(CatalogGate::Sqswap, 0, 1))));
    assert(cat_entry(CatalogGate::Sqswap, 1, 0) == cv_zero());
    assert(cv_zeroish(cat_entry(CatalogGate::Sqswap, 1, 0)));
    assert(cv_wf(cat_entry(CatalogGate::Sqswap, 0, 1)));
    lemma_mul_zeroish_left(cat_entry(CatalogGate::Sqswap, 1, 0), cat_entry(CatalogGate::Sqswap, 0, 1));
    assert(cv_zeroish(cv_mul(cat_entry(CatalogGate::Sqswap, 1, 0), cat_entry(CatalogGate::Sqswap, 0, 1))));
    lemma_add_zeroish_zeroish(cat_mm(CatalogGate::Sqswap, CatalogGate::Sqswap, 1, 1, 0), cv_mul(cat_entry(CatalogGate::Sqswap, 1, 0), cat_entry(CatalogGate::Sqswap, 0, 1)));
    assert(cv_zeroish(cat_mm(CatalogGate::Sqswap, CatalogGate::Sqswap, 1, 1, 1)));
    assert(cat_mm(CatalogGate::Sqswap, CatalogGate::Sqswap, 1, 1, 2) == cv_add(cat_mm(CatalogGate::Sqswap, CatalogGate::Sqswap, 1, 1, 1), cv_mul(cat_entry(CatalogGate::Sqswap, 1, 1), cat_entry(CatalogGate::Sqswap, 1, 1))));
    assert(cv_wf(cat_entry(CatalogGate::Sqswap, 1, 1)));
    assert(cv_wf(cat_entry(CatalogGate::Sqswap, 1, 1)));
    lemma_mul_wf(cat_entry(CatalogGate::Sqswap, 1, 1), cat_entry(CatalogGate::Sqswap, 1, 1));
    lemma_add_zeroish_left(cat_mm(CatalogGate::Sqswap, CatalogGate::Sqswap, 1, 1, 1), cv_mul(cat_entry(CatalogGate::Sqswap, 1, 1), cat_entry(CatalogGate::Sqswap, 1, 1)));
    assert(cat_mm(CatalogGate::Sqswap, CatalogGate::Sqswap, 1, 1, 3) == cv_add(cat_mm(CatalogGate::Sqswap, CatalogGate::Sqswap, 1, 1, 2), cv_mul(cat_entry(CatalogGate::Sqswap, 1, 2), cat_entry(CatalogGate::Sqswap, 2, 1))));
    assert(cv_wf(cat_entry(CatalogGate::Sqswap, 1, 2)));
    assert(cv_wf(cat_entry(CatalogGate::Sqswap, 2, 1)));
    lemma_mul_wf(cat_entry(CatalogGate::Sqswap, 1, 2), cat_entry(CatalogGate::Sqswap, 2, 1));
    lemma_add_eqv_left(cat_mm(CatalogGate::Sqswap, CatalogGate::Sqswap, 1, 1, 2), cv_mul(cat_entry(CatalogGate::Sqswap, 1, 1), cat_entry(CatalogGate::Sqswap, 1, 1)), cv_mul(cat_entry(CatalogGate::Sqswap, 1, 2), cat_entry(CatalogGate::Sqswap, 2, 1)));
    lemma_eqv_trans(cat_mm(CatalogGate::Sqswap, CatalogGate::Sqswap, 1, 1, 3), cv_add(cat_mm(CatalogGate::Sqswap, CatalogGate::Sqswap, 1, 1, 2), cv_mul(cat_entry(CatalogGate::Sqswap, 1, 2), cat_entry(CatalogGate::Sqswap, 2, 1))), cv_add(cv_mul(cat_entry(CatalogGate::Sqswap, 1, 1), cat_entry(CatalogGate::Sqswap, 1, 1)), cv_mul(cat_entry(CatalogGate::Sqswap, 1, 2), cat_entry(CatalogGate::Sqswap, 2, 1))));
    assert(cat_mm(CatalogGate::Sqswap, CatalogGate::Sqswap, 1, 1, 4) == cv_add(cat_mm(CatalogGate::Sqswap, CatalogGate::Sqswap, 1, 1, 3), cv_mul(cat_entry(CatalogGate::Sqswap, 1, 3), cat_entry(CatalogGate::Sqswap, 3, 1))));
    assert(cat_entry(CatalogGate::Sqswap, 1, 3) == cv_zero());
    assert(cv_zeroish(cat_entry(CatalogGate::Sqswap, 1, 3)));
    assert(cv_wf(cat_entry(CatalogGate::Sqswap, 3, 1)));
    lemma_mul_zeroish_left(cat_entry(CatalogGate::Sqswap, 1, 3), cat_entry(CatalogGate::Sqswap, 3, 1));
    assert(cv_zeroish(cv_mul(cat_entry(CatalogGate::Sqswap, 1, 3), cat_entry(CatalogGate::Sqswap, 3, 1))));
    lemma_add_zeroish_right(cat_mm(CatalogGate::Sqswap, CatalogGate::Sqswap, 1, 1, 3), cv_mul(cat_entry(CatalogGate::Sqswap, 1, 3), cat_entry(CatalogGate::Sqswap, 3, 1)));
    lemma_eqv_trans(cat_mm(CatalogGate::Sqswap, CatalogGate::Sqswap, 1, 1, 4), cat_mm(CatalogGate::Sqswap, CatalogGate::Sqswap, 1, 1, 3), cv_add(cv_mul(cat_entry(CatalogGate::Sqswap, 1, 1), cat_entry(CatalogGate::Sqswap, 1, 1)), cv_mul(cat_entry(CatalogGate::Sqswap, 1, 2), cat_entry(CatalogGate::Sqswap, 2, 1))));
    assert((cv_add(cv_mul(cat_entry(CatalogGate::Sqswap, 1, 1), cat_entry(CatalogGate::Sqswap, 1, 1)), cv_mul(cat_entry(CatalogGate::Sqswap, 1, 2), cat_entry(CatalogGate::Sqswap, 2, 1)))).re.a == (((1) * (1) + 2 * ((0) * (0))) * ((2) * (2)) + (-((1) * (1) + 2 * ((0) * (0)))) * ((2) * (2))) * (((2) * (2)) * ((2) * (2))) + (((1) * (1) + 2 * ((0) * (0))) * ((2) * (2)) + (-((-1) * (-1) + 2 * ((0) * (0)))) * ((2) * (2))) * (((2) * (2)) * ((2) * (2))));
    assert(((((1) * (1) + 2 * ((0) * (0))) * ((2) * (2)) + (-((1) * (1) + 2 * ((0) * (0)))) * ((2) * (2))) * (((2) * (2)) * ((2) * (2))) + (((1) * (1) + 2 * ((0) * (0))) * ((2) * (2)) + (-((-1) * (-1) + 2 * ((0) * (0)))) * ((2) * (2))) * (((2) * (2)) * ((2) * (2)))) == 0) by (nonlinear_arith);
    assert((cv_add(cv_mul(cat_entry(CatalogGate::Sqswap, 1, 1), cat_entry(CatalogGate::Sqswap, 1, 1)), cv_mul(cat_entry(CatalogGate::Sqswap, 1, 2), cat_entry(CatalogGate::Sqswap, 2, 1)))).re.b == (((1) * (0) + (0) * (1)) * ((2) * (2)) + (-((1) * (0) + (0) * (1))) * ((2) * (2))) * (((2) * (2)) * ((2) * (2))) + (((1) * (0) + (0) * (1)) * ((2) * (2)) + (-((-1) * (0) + (0) * (-1))) * ((2) * (2))) * (((2) * (2)) * ((2) * (2))));
    assert(((((1) * (0) + (0) * (1)) * ((2) * (2)) + (-((1) * (0) + (0) * (1))) * ((2) * (2))) * (((2) * (2)) * ((2) * (2))) + (((1) * (0) + (0) * (1)) * ((2) * (2)) + (-((-1) * (0) + (0) * (-1))) * ((2) * (2))) * (((2) * (2)) * ((2) * (2)))) == 0) by (nonlinear_arith);
    assert((cv_add(cv_mul(cat_entry(CatalogGate::Sqswap, 1, 1), cat_entry(CatalogGate::Sqswap, 1, 1)), cv_mul(cat_entry(CatalogGate::Sqswap, 1, 2), cat_entry(CatalogGate::Sqswap, 2, 1)))).re.d == (((2) * (2)) * ((2) * (2))) * (((2) * (2)) * ((2) * (2))));
    assert(((((2) * (2)) * ((2) * (2))) * (((2) * (2)) * ((2) * (2)))) == 256) by (nonlinear_arith);
    assert((cv_add(cv_mul(cat_entry(CatalogGate::Sqswap, 1, 1), cat_entry(CatalogGate::Sqswap, 1, 1)), cv_mul(cat_entry(CatalogGate::Sqswap, 1, 2), cat_entry(CatalogGate::Sqswap, 2, 1)))).im.a == (((1) * (1) + 2 * ((0) * (0))) * ((2) * (2)) + ((1) * (1) + 2 * ((0) * (0))) * ((2) * (2))) * (((2) * (2)) * ((2) * (2))) + (((1) * (-1) + 2 * ((0) * (0))) * ((2) * (2)) + ((-1) * (1) + 2 * ((0) * (0))) * ((2) * (2))) * (((2) * (2)) * ((2) * (2))));
    assert(((((1) * (1) + 2 * ((0) * (0))) * ((2) * (2)) + ((1) * (1) + 2 * ((0) * (0))) * ((2) * (2))) * (((2) * (2)) * ((2) * (2))) + (((1) * (-1) + 2 * ((0) * (0))) * ((2) * (2)) + ((-1) * (1) + 2 * ((0) * (0))) * ((2) * (2))) * (((2) * (2)) * ((2) * (2)))) == 0) by (nonlinear_arith);
    assert((cv_add(cv_mul(cat_entry(CatalogGate::Sqswap, 1, 1), cat_entry(CatalogGate::Sqswap, 1, 1)), cv_mul(cat_entry(CatalogGate::Sqswap, 1, 2), cat_entry(CatalogGate::Sqswap, 2, 1)))).im.b == (((1) * (0) + (0) * (1)) * ((2) * (2)) + ((1) * (0) + (0) * (1)) * ((2) * (2))) * (((2) * (2)) * ((2) * (2))) + (((1) * (0) + (0) * (-1)) * ((2) * (2)) + ((-1) * (0) + (0) * (1)) * ((2) * (2))) * (((2) * (2)) * ((2) * (2))));
    assert(((((1) * (0) + (0) * (1)) * ((2) * (2)) + ((1) * (0) + (0) * (1)) * ((2) * (2))) * (((2) * (2)) * ((2) * (2))) + (((1) * (0) + (0) * (-1)) * ((2) * (2)) + ((-1) * (0) + (0) * (1)) * ((2) * (2))) * (((2) * (2)) * ((2) * (2)))) == 0) by (nonlinear_arith);
    assert((cv_add(cv_mul(cat_entry(CatalogGate::Sqswap, 1, 1), cat_entry(CatalogGate::Sqswap, 1, 1)), cv_mul(cat_entry(CatalogGate::Sqswap, 1, 2), cat_entry(CatalogGate::Sqswap, 2, 1)))).im.d == (((2) * (2)) * ((2) * (2))) * (((2) * (2)) * ((2) * (2))));
    assert(((((2) * (2)) * ((2) * (2))) * (((2) * (2)) * ((2) * (2)))) == 256) by (nonlinear_arith);
    assert((cv_add(cv_mul(cat_entry(CatalogGate::Sqswap, 1, 1), cat_entry(CatalogGate::Sqswap, 1, 1)), cv_mul(cat_entry(CatalogGate::Sqswap, 1, 2), cat_entry(CatalogGate::Sqswap, 2, 1)))).re.a * (swap_entry(1, 1)).re.d == (swap_entry(1, 1)).re.a * (cv_add(cv_mul(cat_entry(CatalogGate::Sqswap, 1, 1), cat_entry(CatalogGate::Sqswap, 1, 1)), cv_mul(cat_entry(CatalogGate::Sqswap, 1, 2), cat_entry(CatalogGate::Sqswap, 2, 1)))).re.d)
        by (nonlinear_arith)
        requires
            (cv_add(cv_mul(cat_entry(CatalogGate::Sqswap, 1, 1), cat_entry(CatalogGate::Sqswap, 1, 1)), cv_mul(cat_entry(CatalogGate::Sqswap, 1, 2), cat_entry(CatalogGate::Sqswap, 2, 1)))).re.a == 0,
            (cv_add(cv_mul(cat_entry(CatalogGate::Sqswap, 1, 1), cat_entry(CatalogGate::Sqswap, 1, 1)), cv_mul(cat_entry(CatalogGate::Sqswap, 1, 2), cat_entry(CatalogGate::Sqswap, 2, 1)))).re.d == 256,
            (swap_entry(1, 1)).re.a == 0,
            (swap_entry(1, 1)).re.d == 1;
    assert((cv_add(cv_mul(cat_entry(CatalogGate::Sqswap, 1, 1), cat_entry(CatalogGate::Sqswap, 1, 1)), cv_mul(cat_entry(CatalogGate::Sqswap, 1, 2), cat_entry(CatalogGate::Sqswap, 2, 1)))).re.b * (swap_entry(1, 1)).re.d == (swap_entry(1, 1)).re.b * (cv_add(cv_mul(cat_entry(CatalogGate::Sqswap, 1, 1), cat_entry(CatalogGate::Sqswap, 1, 1)), cv_mul(cat_entry(CatalogGate::Sqswap, 1, 2), cat_entry(CatalogGate::Sqswap, 2, 1)))).re.d)
        by (nonlinear_arith)
        requires
            (cv_add(cv_mul(cat_entry(CatalogGate::Sqswap, 1, 1), cat_entry(CatalogGate::Sqswap, 1, 1)), cv_mul(cat_entry(CatalogGate::Sqswap, 1, 2), cat_entry(CatalogGate::Sqswap, 2, 1)))).re.b == 0,
            (cv_add(cv_mul(cat_entry(CatalogGate::Sqswap, 1, 1), cat_entry(CatalogGate::Sqswap, 1, 1)), cv_mul(cat_entry(CatalogGate::Sqswap, 1, 2), cat_entry(CatalogGate::Sqswap, 2, 1)))).re.d == 256,
            (swap_entry(1, 1)).re.b == 0,
            (swap_entry(1, 1)).re.d == 1;
    assert((cv_add(cv_mul(cat_entry(CatalogGate::Sqswap, 1, 1), cat_entry(CatalogGate::Sqswap, 1, 1)), cv_mul(cat_entry(CatalogGate::Sqswap, 1, 2), cat_entry(CatalogGate::Sqswap, 2, 1)))).im.a * (swap_entry(1, 1)).im.d == (swap_entry(1, 1)).im.a * (cv_add(cv_mul(cat_entry(CatalogGate::Sqswap, 1, 1), cat_entry(CatalogGate::Sqswap, 1, 1)), cv_mul(cat_entry(CatalogGate::Sqswap, 1, 2), cat_entry(CatalogGate::Sqswap, 2, 1)))).im.d)
        by (nonlinear_arith)
        requires
            (cv_add(cv_mul(cat_entry(CatalogGate::Sqswap, 1, 1), cat_entry(CatalogGate::Sqswap, 1, 1)), cv_mul(cat_entry(CatalogGate::Sqswap, 1, 2), cat_entry(CatalogGate::Sqswap, 2, 1)))).im.a == 0,
            (cv_add(cv_mul(cat_entry(CatalogGate::Sqswap, 1, 1), cat_entry(CatalogGate::Sqswap, 1, 1)), cv_mul(cat_entry(CatalogGate::Sqswap, 1, 2), cat_entry(CatalogGate::Sqswap, 2, 1)))).im.d == 256,
            (swap_entry(1, 1)).im.a == 0,
            (swap_entry(1, 1)).im.d == 1;
    assert((cv_add(cv_mul(cat_entry(CatalogGate::Sqswap, 1, 1), cat_entry(CatalogGate::Sqswap, 1, 1)), cv_mul(cat_entry(CatalogGate::Sqswap, 1, 2), cat_entry(CatalogGate::Sqswap, 2, 1)))).im.b * (swap_entry(1, 1)).im.d == (swap_entry(1, 1)).im.b * (cv_add(cv_mul(cat_entry(CatalogGate::Sqswap, 1, 1), cat_entry(CatalogGate::Sqswap, 1, 1)), cv_mul(cat_entry(CatalogGate::Sqswap, 1, 2), cat_entry(CatalogGate::Sqswap, 2, 1)))).im.d)
        by (nonlinear_arith)
        requires
            (cv_add(cv_mul(cat_entry(CatalogGate::Sqswap, 1, 1), cat_entry(CatalogGate::Sqswap, 1, 1)), cv_mul(cat_entry(CatalogGate::Sqswap, 1, 2), cat_entry(CatalogGate::Sqswap, 2, 1)))).im.b == 0,
            (cv_add(cv_mul(cat_entry(CatalogGate::Sqswap, 1, 1), cat_entry(CatalogGate::Sqswap, 1, 1)), cv_mul(cat_entry(CatalogGate::Sqswap, 1, 2), cat_entry(CatalogGate::Sqswap, 2, 1)))).im.d == 256,
            (swap_entry(1, 1)).im.b == 0,
            (swap_entry(1, 1)).im.d == 1;
    assert(cv_eqv(cv_add(cv_mul(cat_entry(CatalogGate::Sqswap, 1, 1), cat_entry(CatalogGate::Sqswap, 1, 1)), cv_mul(cat_entry(CatalogGate::Sqswap, 1, 2), cat_entry(CatalogGate::Sqswap, 2, 1))), swap_entry(1, 1)));
    assert(cv_wf(swap_entry(1, 1)));
    lemma_eqv_trans(cat_mm(CatalogGate::Sqswap, CatalogGate::Sqswap, 1, 1, 4), cv_add(cv_mul(cat_entry(CatalogGate::Sqswap, 1, 1), cat_entry(CatalogGate::Sqswap, 1, 1)), cv_mul(cat_entry(CatalogGate::Sqswap, 1, 2), cat_entry(CatalogGate::Sqswap, 2, 1))), swap_entry(1, 1));
}

proof fn sqswap_mm_case_1_2()
    ensures
        cv_eqv(cat_mm(CatalogGate::Sqswap, CatalogGate::Sqswap, 1, 2, 4), swap_entry(1, 2)),
{
    reveal_with_fuel(cat_mm, 5);
    lemma_zero_zeroish();
    assert(cat_mm(CatalogGate::Sqswap, CatalogGate::Sqswap, 1, 2, 0) == cv_zero());
    assert(cv_zeroish(cat_mm(CatalogGate::Sqswap, CatalogGate::Sqswap, 1, 2, 0)));
    assert(cat_mm(CatalogGate::Sqswap, CatalogGate::Sqswap, 1, 2, 1) == cv_add(cat_mm(CatalogGate::Sqswap, CatalogGate::Sqswap, 1, 2, 0), cv_mul(cat_entry(CatalogGate::Sqswap, 1, 0), cat_entry(CatalogGate::Sqswap, 0, 2))));
    assert(cat_entry(CatalogGate::Sqswap, 1, 0) == cv_zero());
    assert(cv_zeroish(cat_entry(CatalogGate::Sqswap, 1, 0)));
    assert(cv_wf(cat_entry(CatalogGate::Sqswap, 0, 2)));
    lemma_mul_zeroish_left(cat_entry(CatalogGate::Sqswap, 1, 0), cat_entry(CatalogGate::Sqswap, 0, 2));
    assert(cv_zeroish(cv_mul(cat_entry(CatalogGate::Sqswap, 1, 0), cat_entry(CatalogGate::Sqswap, 0, 2))));
    lemma_add_zeroish_zeroish(cat_mm(CatalogGate::Sqswap, CatalogGate::Sqswap, 1, 2, 0), cv_mul(cat_entry(CatalogGate::Sqswap, 1, 0), cat_entry(CatalogGate::Sqswap, 0, 2)));
    assert(cv_zeroish(cat_mm(CatalogGate::Sqswap, CatalogGate::Sqswap, 1, 2, 1)));
    assert(cat_mm(CatalogGate::Sqswap, CatalogGate::Sqswap, 1, 2, 2) == cv_add(cat_mm(CatalogGate::Sqswap, CatalogGate::Sqswap, 1, 2, 1), cv_mul(cat_entry(CatalogGate::Sqswap, 1, 1), cat_entry(CatalogGate::Sqswap, 1, 2))));
    assert(cv_wf(cat_entry(CatalogGate::Sqswap, 1, 1)));
    assert(cv_wf(cat_entry(CatalogGate::Sqswap, 1, 2)));
    lemma_mul_wf(cat_entry(CatalogGate::Sqswap, 1, 1), cat_entry(CatalogGate::Sqswap, 1, 2));
    lemma_add_zeroish_left(cat_mm(CatalogGate::Sqswap, CatalogGate::Sqswap, 1, 2, 1), cv_mul(cat_entry(CatalogGate::Sqswap, 1, 1), cat_entry(CatalogGate::Sqswap, 1, 2)));
    assert(cat_mm(CatalogGate::Sqswap, CatalogGate::Sqswap, 1, 2, 3) == cv_add(cat_mm(CatalogGate::Sqswap, CatalogGate::Sqswap, 1, 2, 2), cv_mul(cat_entry(CatalogGate::Sqswap, 1, 2), cat_entry(CatalogGate::Sqswap, 2, 2))));
    assert(cv_wf(cat_entry(CatalogGate::Sqswap, 1, 2)));
    assert(cv_wf(cat_entry(CatalogGate::Sqswap, 2, 2)));
    lemma_mul_wf(cat_entry(CatalogGate::Sqswap, 1, 2), cat_entry(CatalogGate::Sqswap, 2, 2));
    lemma_add_eqv_left(cat_mm(CatalogGate::Sqswap, CatalogGate::Sqswap, 1, 2, 2), cv_mul(cat_entry(CatalogGate::Sqswap, 1, 1), cat_entry(CatalogGate::Sqswap, 1, 2)), cv_mul(cat_entry(CatalogGate::Sqswap, 1, 2), cat_entry(CatalogGate::Sqswap, 2, 2)));
    lemma_eqv_trans(cat_mm(CatalogGate::Sqswap, CatalogGate::Sqswap, 1, 2, 3), cv_add(cat_mm(CatalogGate::Sqswap, CatalogGate::Sqswap, 1, 2, 2), cv_mul(cat_entry(CatalogGate::Sqswap, 1, 2), cat_entry(CatalogGate::Sqswap, 2, 2))), cv_add(cv_mul(cat_entry(CatalogGate::Sqswap, 1, 1), cat_entry(CatalogGate::Sqswap, 1, 2)), cv_mul(cat_entry(CatalogGate::Sqswap, 1, 2), cat_entry(CatalogGate::Sqswap, 2, 2))));
    assert(cat_mm(CatalogGate::Sqswap, CatalogGate::Sqswap, 1, 2, 4) == cv_add(cat_mm(CatalogGate::Sqswap, CatalogGate::Sqswap, 1, 2, 3), cv_mul(cat_entry(CatalogGate::Sqswap, 1, 3), cat_entry(CatalogGate::Sqswap, 3, 2))));
    assert(cat_entry(CatalogGate::Sqswap, 1, 3) == cv_zero());
    assert(cv_zeroish(cat_entry(CatalogGate::Sqswap, 1, 3)));
    assert(cv_wf(cat_entry(CatalogGate::Sqswap, 3, 2)));
    lemma_mul_zeroish_left(cat_entry(CatalogGate::Sqswap, 1, 3), cat_entry(CatalogGate::Sqswap, 3, 2));
    assert(cv_zeroish(cv_mul(cat_entry(CatalogGate::Sqswap, 1, 3), cat_entry(CatalogGate::Sqswap, 3, 2))));
    lemma_add_zeroish_right(cat_mm(CatalogGate::Sqswap, CatalogGate::Sqswap, 1, 2, 3), cv_mul(cat_entry(CatalogGate::Sqswap, 1, 3), cat_entry(CatalogGate::Sqswap, 3, 2)));
    lemma_eqv_trans(cat_mm(CatalogGate::Sqswap, CatalogGate::Sqswap, 1, 2, 4), cat_mm(CatalogGate::Sqswap, CatalogGate::Sqswap, 1, 2, 3), cv_add(cv_mul(cat_entry(CatalogGate::Sqswap, 1, 1), cat_entry(CatalogGate::Sqswap, 1, 2)), cv_mul(cat_entry(CatalogGate::Sqswap, 1, 2), cat_entry(CatalogGate::Sqswap, 2, 2))));
    assert((cv_add(cv_mul(cat_entry(CatalogGate::Sqswap, 1, 1), cat_entry(CatalogGate::Sqswap, 1, 2)), cv_mul(cat_entry(CatalogGate::Sqswap, 1, 2), cat_entry(CatalogGate::Sqswap, 2, 2)))).re.a == (((1) * (1) + 2 * ((0) * (0))) * ((2) * (2)) + (-((1) * (-1) + 2 * ((0) * (0)))) * ((2) * (2))) * (((2) * (2)) * ((2) * (2))) + (((1) * (1) + 2 * ((0) * (0))) * ((2) * (2)) + (-((-1) * (1) + 2 * ((0) * (0)))) * ((2) * (2))) * (((2) * (2)) * ((2) * (2))));
    assert(((((1) * (1) + 2 * ((0) * (0))) * ((2) * (2)) + (-((1) * (-1) + 2 * ((0) * (0)))) * ((2) * (2))) * (((2) * (2)) * ((2) * (2))) + (((1) * (1) + 2 * ((0) * (0))) * ((2) * (2)) + (-((-1) * (1) + 2 * ((0) * (0)))) * ((2) * (2))) * (((2) * (2)) * ((2) * (2)))) == 256) by (nonlinear_arith);
    assert((cv_add(cv_mul(cat_entry(CatalogGate::Sqswap, 1, 1), cat_entry(CatalogGate::Sqswap, 1, 2)), cv_mul(cat_entry(CatalogGate::Sqswap, 1, 2), cat_entry(CatalogGate::Sqswap, 2, 2)))).re.b == (((1) * (0) + (0) * (1)) * ((2) * (2)) + (-((1) * (0) + (0) * (-1))) * ((2) * (2))) * (((2) * (2)) * ((2) * (2))) + (((1) * (0) + (0) * (1)) * ((2) * (2)) + (-((-1) * (0) + (0) * (1))) * ((2) * (2))) * (((2) * (2)) * ((2) * (2))));
    assert(((((1) * (0) + (0) * (1)) * ((2) * (2)) + (-((1) * (0) + (0) * (-1))) * ((2) * (2))) * (((2) * (2)) * ((2) * (2))) + (((1) * (0) + (0) * (1)) * ((2) * (2)) + (-((-1) * (0) + (0) * (1))) * ((2) * (2))) * (((2) * (2)) * ((2) * (2)))) == 0) by (nonlinear_arith);
    assert((cv_add(cv_mul(cat_entry(CatalogGate::Sqswap, 1, 1), cat_entry(CatalogGate::Sqswap, 1, 2)), cv_mul(cat_entry(CatalogGate::Sqswap, 1, 2), cat_entry(CatalogGate::Sqswap, 2, 2)))).re.d == (((2) * (2)) * ((2) * (2))) * (((2) * (2)) * ((2) * (2))));
    assert(((((2) * (2)) * ((2) * (2))) * (((2) * (2)) * ((2) * (2)))) == 256) by (nonlinear_arith);
    assert((cv_add(cv_mul(cat_entry(CatalogGate::Sqswap, 1, 1), cat_entry(CatalogGate::Sqswap, 1, 2)), cv_mul(cat_entry(CatalogGate::Sqswap, 1, 2), cat_entry(CatalogGate::Sqswap, 2, 2)))).im.a == (((1) * (-1) + 2 * ((0) * (0))) * ((2) * (2)) + ((1) * (1) + 2 * ((0) * (0))) * ((2) * (2))) * (((2) * (2)) * ((2) * (2))) + (((1) * (1) + 2 * ((0) * (0))) * ((2) * (2)) + ((-1) * (1) + 2 * ((0) * (0))) * ((2) * (2))) * (((2) * (2)) * ((2) * (2))));
    assert(((((1) * (-1) + 2 * ((0) * (0))) * ((2) * (2)) + ((1) * (1) + 2 * ((0) * (0))) * ((2) * (2))) * (((2) * (2)) * ((2) * (2))) + (((1) * (1) + 2 * ((0) * (0))) * ((2) * (2)) + ((-1) * (1) + 2 * ((0) * (0))) * ((2) * (2))) * (((2) * (2)) * ((2) * (2)))) == 0) by (nonlinear_arith);
    assert((cv_add(cv_mul(cat_entry(CatalogGate::Sqswap, 1, 1), cat_entry(CatalogGate::Sqswap, 1, 2)), cv_mul(cat_entry(CatalogGate::Sqswap, 1, 2), cat_entry(CatalogGate::Sqswap, 2, 2)))).im.b == (((1) * (0) + (0) * (-1)) * ((2) * (2)) + ((1) * (0) + (0) * (1)) * ((2) * (2))) * (((2) * (2)) * ((2) * (2))) + (((1) * (0) + (0) * (1)) * ((2) * (2)) + ((-1) * (0) + (0) * (1)) * ((2) * (2))) * (((2) * (2)) * ((2) * (2))));
    assert(((((1) * (0) + (0) * (-1)) * ((2) * (2)) + ((1) * (0) + (0) * (1)) * ((2) * (2))) * (((2) * (2)) * ((2) * (2))) + (((1) * (0) + (0) * (1)) * ((2) * (2)) + ((-1) * (0) + (0) * (1)) * ((2) * (2))) * (((2) * (2)) * ((2) * (2)))) == 0) by (nonlinear_arith);
    assert((cv_add(cv_mul(cat_entry(CatalogGate::Sqswap, 1, 1), cat_entry(CatalogGate::Sqswap, 1, 2)), cv_mul(cat_entry(CatalogGate::Sqswap, 1, 2), cat_entry(CatalogGate::Sqswap, 2, 2)))).im.d == (((2) * (2)) * ((2) * (2))) * (((2) * (2)) * ((2) * (2))));
    assert(((((2) * (2)) * ((2) * (2))) * (((2) * (2)) * ((2) * (2)))) == 256) by (nonlinear_arith);
    assert((cv_add(cv_mul(cat_entry(CatalogGate::Sqswap, 1, 1), cat_entry(CatalogGate::Sqswap, 1, 2)), cv_mul(cat_entry(CatalogGate::Sqswap, 1, 2), cat_entry(CatalogGate::Sqswap, 2, 2)))).re.a * (swap_entry(1, 2)).re.d == (swap_entry(1, 2)).re.a * (cv_add(cv_mul(cat_entry(CatalogGate::Sqswap, 1, 1), cat_entry(CatalogGate::Sqswap, 1, 2)), cv_mul(cat_entry(CatalogGate::Sqswap, 1, 2), cat_entry(CatalogGate::Sqswap, 2, 2)))).re.d)
        by (nonlinear_arith)
        requires
            (cv_add(cv_mul(cat_entry(CatalogGate::Sqswap, 1, 1), cat_entry(CatalogGate::Sqswap, 1, 2)), cv_mul(cat_entry(CatalogGate::Sqswap, 1, 2), cat_entry(CatalogGate::Sqswap, 2, 2)))).re.a == 256,
            (cv_add(cv_mul(cat_entry(CatalogGate::Sqswap, 1, 1), cat_entry(CatalogGate::Sqswap, 1, 2)), cv_mul(cat_entry(CatalogGate::Sqswap, 1, 2), cat_entry(CatalogGate::Sqswap, 2, 2)))).re.d == 256,
            (swap_entry(1, 2)).re.a == 1,
            (swap_entry(1, 2)).re.d == 1;
    assert((cv_add(cv_mul(cat_entry(CatalogGate::Sqswap, 1, 1), cat_entry(CatalogGate::Sqswap, 1, 2)), cv_mul(cat_entry(CatalogGate::Sqswap, 1, 2), cat_entry(CatalogGate::Sqswap, 2, 2)))).re.b * (swap_entry(1, 2)).re.d == (swap_entry(1, 2)).re.b * (cv_add(cv_mul(cat_entry(CatalogGate::Sqswap, 1, 1), cat_entry(CatalogGate::Sqswap, 1, 2)), cv_mul(cat_entry(CatalogGate::Sqswap, 1, 2), cat_entry(CatalogGate::Sqswap, 2, 2)))).re.d)
        by (nonlinear_arith)
        requires
            (cv_add(cv_mul(cat_entry(CatalogGate::Sqswap, 1, 1), cat_entry(CatalogGate::Sqswap, 1, 2)), cv_mul(cat_entry(CatalogGate::Sqswap, 1, 2), cat_entry(CatalogGate::Sqswap, 2, 2)))).re.b == 0,
            (cv_add(cv_mul(cat_entry(CatalogGate::Sqswap, 1, 1), cat_entry(CatalogGate::Sqswap, 1, 2)), cv_mul(cat_entry(CatalogGate::Sqswap, 1, 2), cat_entry(CatalogGate::Sqswap, 2, 2)))).re.d == 256,
            (swap_entry(1, 2)).re.b == 0,
            (swap_entry(1, 2)).re.d == 1;
    assert((cv_add(cv_mul(cat_entry(CatalogGate::Sqswap, 1, 1), cat_entry(CatalogGate::Sqswap, 1, 2)), cv_mul(cat_entry(CatalogGate::Sqswap, 1, 2), cat_entry(CatalogGate::Sqswap, 2, 2)))).im.a * (swap_entry(1, 2)).im.d == (swap_entry(1, 2)).im.a * (cv_add(cv_mul(cat_entry(CatalogGate::Sqswap, 1, 1), cat_entry(CatalogGate::Sqswap, 1, 2)), cv_mul(cat_entry(CatalogGate::Sqswap, 1, 2), cat_entry(CatalogGate::Sqswap, 2, 2)))).im.d)
        by (nonlinear_arith)
        requires
            (cv_add(cv_mul(cat_entry(CatalogGate::Sqswap, 1, 1), cat_entry(CatalogGate::Sqswap, 1, 2)), cv_mul(cat_entry(CatalogGate::Sqswap, 1, 2), cat_entry(CatalogGate::Sqswap, 2, 2)))).im.a == 0,
            (cv_add(cv_mul(cat_entry(CatalogGate::Sqswap, 1, 1), cat_entry(CatalogGate::Sqswap, 1, 2)), cv_mul(cat_entry(CatalogGate::Sqswap, 1, 2), cat_entry(CatalogGate::Sqswap, 2, 2)))).im.d == 256,
            (swap_entry(1, 2)).im.a == 0,
            (swap_entry(1, 2)).im.d == 1;
    assert((cv_add(cv_mul(cat_entry(CatalogGate::Sqswap, 1, 1), cat_entry(CatalogGate::Sqswap, 1, 2)), cv_mul(cat_entry(CatalogGate::Sqswap, 1, 2), cat_entry(CatalogGate::Sqswap, 2, 2)))).im.b * (swap_entry(1, 2)).im.d == (swap_entry(1, 2)).im.b * (cv_add(cv_mul(cat_entry(CatalogGate::Sqswap, 1, 1), cat_entry(CatalogGate::Sqswap, 1, 2)), cv_mul(cat_entry(CatalogGate::Sqswap, 1, 2), cat_entry(CatalogGate::Sqswap, 2, 2)))).im.d)
        by (nonlinear_arith)
        requires
            (cv_add(cv_mul(cat_entry(CatalogGate::Sqswap, 1, 1), cat_entry(CatalogGate::Sqswap, 1, 2)), cv_mul(cat_entry(CatalogGate::Sqswap, 1, 2), cat_entry(CatalogGate::Sqswap, 2, 2)))).im.b == 0,
            (cv_add(cv_mul(cat_entry(CatalogGate::Sqswap, 1, 1), cat_entry(CatalogGate::Sqswap, 1, 2)), cv_mul(cat_entry(CatalogGate::Sqswap, 1, 2), cat_entry(CatalogGate::Sqswap, 2, 2)))).im.d == 256,
            (swap_entry(1, 2)).im.b == 0,
            (swap_entry(1, 2)).im.d == 1;
    assert(cv_eqv(cv_add(cv_mul(cat_entry(CatalogGate::Sqswap, 1, 1), cat_entry(CatalogGate::Sqswap, 1, 2)), cv_mul(cat_entry(CatalogGate::Sqswap, 1, 2), cat_entry(CatalogGate::Sqswap, 2, 2))), swap_entry(1, 2)));
    assert(cv_wf(swap_entry(1, 2)));
    lemma_eqv_trans(cat_mm(CatalogGate::Sqswap, CatalogGate::Sqswap, 1, 2, 4), cv_add(cv_mul(cat_entry(CatalogGate::Sqswap, 1, 1), cat_entry(CatalogGate::Sqswap, 1, 2)), cv_mul(cat_entry(CatalogGate::Sqswap, 1, 2), cat_entry(CatalogGate::Sqswap, 2, 2))), swap_entry(1, 2));
}

proof fn sqswap_mm_case_1_3()
    ensures
        cv_eqv(cat_mm(CatalogGate::Sqswap, CatalogGate::Sqswap, 1, 3, 4), swap_entry(1, 3)),
{
    reveal_with_fuel(cat_mm, 5);
    lemma_zero_zeroish();
    assert(cat_mm(CatalogGate::Sqswap, CatalogGate::Sqswap, 1, 3, 0) == cv_zero());
    assert(cv_zeroish(cat_mm(CatalogGate::Sqswap, CatalogGate::Sqswap, 1, 3, 0)));
    assert(cat_mm(CatalogGate::Sqswap, CatalogGate::Sqswap, 1, 3, 1) == cv_add(cat_mm(CatalogGate::Sqswap, CatalogGate::Sqswap, 1, 3, 0), cv_mul(cat_entry(CatalogGate::Sqswap, 1, 0), cat_entry(CatalogGate::Sqswap, 0, 3))));
    assert(cat_entry(CatalogGate::Sqswap, 1, 0) == cv_zero());
    assert(cv_zeroish(cat_entry(CatalogGate::Sqswap, 1, 0)));
    assert(cv_wf(cat_entry(CatalogGate::Sqswap, 0, 3)));
    lemma_mul_zeroish_left(cat_entry(CatalogGate::Sqswap, 1, 0), cat_entry(CatalogGate::Sqswap, 0, 3));
    assert(cv_zeroish(cv_mul(cat_entry(CatalogGate::Sqswap, 1, 0), cat_entry(CatalogGate::Sqswap, 0, 3))));
    lemma_add_zeroish_zeroish(cat_mm(CatalogGate::Sqswap, CatalogGate::Sqswap, 1, 3, 0), cv_mul(cat_entry(CatalogGate::Sqswap, 1, 0), cat_entry(CatalogGate::Sqswap, 0, 3)));
    assert(cv_zeroish(cat_mm(CatalogGate::Sqswap, CatalogGate::Sqswap, 1, 3, 1)));
    assert(cat_mm(CatalogGate::Sqswap, CatalogGate::Sqswap, 1, 3, 2) == cv_add(cat_mm(CatalogGate::Sqswap, CatalogGate::Sqswap, 1, 3, 1), cv_mul(cat_entry(CatalogGate::Sqswap, 1, 1), cat_entry(CatalogGate::Sqswap, 1, 3))));
    assert(cat_entry(CatalogGate::Sqswap, 1, 3) == cv_zero());
    assert(cv_zeroish(cat_entry(CatalogGate::Sqswap, 1, 3)));
    assert(cv_wf(cat_entry(CatalogGate::Sqswap, 1, 1)));
    lemma_mul_zeroish_right(cat_entry(CatalogGate::Sqswap, 1, 1), cat_entry(CatalogGate::Sqswap, 1, 3));
    assert(cv_zeroish(cv_mul(cat_entry(CatalogGate::Sqswap, 1, 1), cat_entry(CatalogGate::Sqswap, 1, 3))));
    lemma_add_zeroish_zeroish(cat_mm(CatalogGate::Sqswap, CatalogGate::Sqswap, 1, 3, 1), cv_mul(cat_entry(CatalogGate::Sqswap, 1, 1), cat_entry(CatalogGate::Sqswap, 1, 3)));
    assert(cv_zeroish(cat_mm(CatalogGate::Sqswap, CatalogGate::Sqswap, 1, 3, 2)));
    assert(cat_mm(CatalogGate::Sqswap, CatalogGate::Sqswap, 1, 3, 3) == cv_add(cat_mm(CatalogGate::Sqswap, CatalogGate::Sqswap, 1, 3, 2), cv_mul(cat_entry(CatalogGate::Sqswap, 1, 2), cat_entry(CatalogGate::Sqswap, 2, 3))));
    assert(cat_entry(CatalogGate::Sqswap, 2, 3) == cv_zero());
    assert(cv_zeroish(cat_entry(CatalogGate::Sqswap, 2, 3)));
    assert(cv_wf(cat_entry(CatalogGate::Sqswap, 1, 2)));
    lemma_mul_zeroish_right(cat_entry(CatalogGate::Sqswap, 1, 2), cat_entry(CatalogGate::Sqswap, 2, 3));
    assert(cv_zeroish(cv_mul(cat_entry(CatalogGate::Sqswap, 1, 2), cat_entry(CatalogGate::Sqswap, 2, 3))));
    lemma_add_zeroish_zeroish(cat_mm(CatalogGate::Sqswap, CatalogGate::Sqswap, 1, 3, 2), cv_mul(cat_entry(CatalogGate::Sqswap, 1, 2), cat_entry(CatalogGate::Sqswap, 2, 3)));
    assert(cv_zeroish(cat_mm(CatalogGate::Sqswap, CatalogGate::Sqswap, 1, 3, 3)));
    assert(cat_mm(CatalogGate::Sqswap, CatalogGate::Sqswap, 1, 3, 4) == cv_add(cat_mm(CatalogGate::Sqswap, CatalogGate::Sqswap, 1, 3, 3), cv_mul(cat_entry(CatalogGate::Sqswap, 1, 3), cat_entry(CatalogGate::Sqswap, 3, 3))));
    assert(cat_entry(CatalogGate::Sqswap, 1, 3) == cv_zero());
    assert(cv_zeroish(cat_entry(CatalogGate::Sqswap, 1, 3)));
    assert(cv_wf(cat_entry(CatalogGate::Sqswap, 3, 3)));
    lemma_mul_zeroish_left(cat_entry(CatalogGate::Sqswap, 1, 3), cat_entry(CatalogGate::Sqswap, 3, 3));
    assert(cv_zeroish(cv_mul(cat_entry(CatalogGate::Sqswap, 1, 3), cat_entry(CatalogGate::Sqswap, 3, 3))));
    lemma_add_zeroish_zeroish(cat_mm(CatalogGate::Sqswap, CatalogGate::Sqswap, 1, 3, 3), cv_mul(cat_entry(CatalogGate::Sqswap, 1, 3), cat_entry(CatalogGate::Sqswap, 3, 3)));
    assert(cv_zeroish(cat_mm(CatalogGate::Sqswap, CatalogGate::Sqswap, 1, 3, 4)));
    lemma_zeroish_eqv_zero(cat_mm(CatalogGate::Sqswap, CatalogGate::Sqswap, 1, 3, 4));
    assert(cv_eqv(cat_mm(CatalogGate::Sqswap, CatalogGate::Sqswap, 1, 3, 4), swap_entry(1, 3)));
}

proof fn sqswap_mm_case_2_0()
    ensures
        cv_eqv(cat_mm(CatalogGate::Sqswap, CatalogGate::Sqswap, 2, 0, 4), swap_entry(2, 0)),
{
    reveal_with_fuel(cat_mm, 5);
    lemma_zero_zeroish();
    assert(cat_mm(CatalogGate::Sqswap, CatalogGate::Sqswap, 2, 0, 0) == cv_zero());
    assert(cv_zeroish(cat_mm(CatalogGate::Sqswap, CatalogGate::Sqswap, 2, 0, 0)));
    assert(cat_mm(CatalogGate::Sqswap, CatalogGate::Sqswap, 2, 0, 1) == cv_add(cat_mm(CatalogGate::Sqswap, CatalogGate::Sqswap, 2, 0, 0), cv_mul(cat_entry(CatalogGate::Sqswap, 2, 0), cat_entry(CatalogGate::Sqswap, 0, 0))));
    assert(cat_entry(CatalogGate::Sqswap, 2, 0) == cv_zero());
    assert(cv_zeroish(cat_entry(CatalogGate::Sqswap, 2, 0)));
    assert(cv_wf(cat_entry(CatalogGate::Sqswap, 0, 0)));
    lemma_mul_zeroish_left(cat_entry(CatalogGate::Sqswap, 2, 0), cat_entry(CatalogGate::Sqswap, 0, 0));
    assert(cv_zeroish(cv_mul(cat_entry(CatalogGate::Sqswap, 2, 0), cat_entry(CatalogGate::Sqswap, 0, 0))));
    lemma_add_zeroish_zeroish(cat_mm(CatalogGate::Sqswap, CatalogGate::Sqswap, 2, 0, 0), cv_mul(cat_entry(CatalogGate::Sqswap, 2, 0), cat_entry(CatalogGate::Sqswap, 0, 0)));
    assert(cv_zeroish(cat_mm(CatalogGate::Sqswap, CatalogGate::Sqswap, 2, 0, 1)));
    assert(cat_mm(CatalogGate::Sqswap, CatalogGate::Sqswap, 2, 0, 2) == cv_add(cat_mm(CatalogGate::Sqswap, CatalogGate::Sqswap, 2, 0, 1), cv_mul(cat_entry(CatalogGate::Sqswap, 2, 1), cat_entry(CatalogGate::Sqswap, 1, 0))));
    assert(cat_entry(CatalogGate::Sqswap, 1, 0) == cv_zero());
    assert(cv_zeroish(cat_entry(CatalogGate::Sqswap, 1, 0)));
    assert(cv_wf(cat_entry(CatalogGate::Sqswap, 2, 1)));
    lemma_mul_zeroish_right(cat_entry(CatalogGate::Sqswap, 2, 1), cat_entry(CatalogGate::Sqswap, 1, 0));
    assert(cv_zeroish(cv_mul(cat_entry(CatalogGate::Sqswap, 2, 1), cat_entry(CatalogGate::Sqswap, 1, 0))));
    lemma_add_zeroish_zeroish(cat_mm(CatalogGate::Sqswap, CatalogGate::Sqswap, 2, 0, 1), cv_mul(cat_entry(CatalogGate::Sqswap, 2, 1), cat_entry(CatalogGate::Sqswap, 1, 0)));
    assert(cv_zeroish(cat_mm(CatalogGate::Sqswap, CatalogGate::Sqswap, 2, 0, 2)));
    assert(cat_mm(CatalogGate::Sqswap, CatalogGate::Sqswap, 2, 0, 3) == cv_add(cat_mm(CatalogGate::Sqswap, CatalogGate::Sqswap, 2, 0, 2), cv_mul(cat_entry(CatalogGate::Sqswap, 2, 2), cat_entry(CatalogGate::Sqswap, 2, 0))));
    assert(cat_entry(CatalogGate::Sqswap, 2, 0) == cv_zero());
    assert(cv_zeroish(cat_entry(CatalogGate::Sqswap, 2, 0)));
    assert(cv_wf(cat_entry(CatalogGate::Sqswap, 2, 2)));
    lemma_mul_zeroish_right(cat_entry(CatalogGate::Sqswap, 2, 2), cat_entry(CatalogGate::Sqswap, 2, 0));
    assert(cv_zeroish(cv_mul(cat_entry(CatalogGate::Sqswap, 2, 2), cat_entry(CatalogGate::Sqswap, 2, 0))));
    lemma_add_zeroish_zeroish(cat_mm(CatalogGate::Sqswap, CatalogGate::Sqswap, 2, 0, 2), cv_mul(cat_entry(CatalogGate::Sqswap, 2, 2), cat_entry(CatalogGate::Sqswap, 2, 0)));
    assert(cv_zeroish(cat_mm(CatalogGate::Sqswap, CatalogGate::Sqswap, 2, 0, 3)));
    assert(cat_mm(CatalogGate::Sqswap, CatalogGate::Sqswap, 2, 0, 4) == cv_add(cat_mm(CatalogGate::Sqswap, CatalogGate::Sqswap, 2, 0, 3), cv_mul(cat_entry(CatalogGate::Sqswap, 2, 3), cat_entry(CatalogGate::Sqswap, 3, 0))));
    assert(cat_entry(CatalogGate::Sqswap, 2, 3) == cv_zero());
    assert(cv_zeroish(cat_entry(CatalogGate::Sqswap, 2, 3)));
    assert(cv_wf(cat_entry(CatalogGate::Sqswap, 3, 0)));
    lemma_mul_zeroish_left(cat_entry(CatalogGate::Sqswap, 2, 3), cat_entry(CatalogGate::Sqswap, 3, 0));
    assert(cv_zeroish(cv_mul(cat_entry(CatalogGate::Sqswap, 2, 3), cat_entry(CatalogGate::Sqswap, 3, 0))));
    lemma_add_zeroish_zeroish(cat_mm(CatalogGate::Sqswap, CatalogGate::Sqswap, 2, 0, 3), cv_mul(cat_entry(CatalogGate::Sqswap, 2, 3), cat_entry(CatalogGate::Sqswap, 3, 0)));
    assert(cv_zeroish(cat_mm(CatalogGate::Sqswap, CatalogGate::Sqswap, 2, 0, 4)));
    lemma_zeroish_eqv_zero(cat_mm(CatalogGate::Sqswap, CatalogGate::Sqswap, 2, 0, 4));
    assert(cv_eqv(cat_mm(CatalogGate::Sqswap, CatalogGate::Sqswap, 2, 0, 4), swap_entry(2, 0)));
}

proof fn sqswap_mm_case_2_1()
    ensures
        cv_eqv(cat_mm(CatalogGate::Sqswap, CatalogGate::Sqswap, 2, 1, 4), swap_entry(2, 1)),
{
    reveal_with_fuel(cat_mm, 5);
    lemma_zero_zeroish();
    assert(cat_mm(CatalogGate::Sqswap, CatalogGate::Sqswap, 2, 1, 0) == cv_zero());
    assert(cv_zeroish(cat_mm(CatalogGate::Sqswap, CatalogGate::Sqswap, 2, 1, 0)));
    assert(cat_mm(CatalogGate::Sqswap, CatalogGate::Sqswap, 2, 1, 1) == cv_add(cat_mm(CatalogGate::Sqswap, CatalogGate::Sqswap, 2, 1, 0), cv_mul(cat_entry(CatalogGate::Sqswap, 2, 0), cat_entry(CatalogGate::Sqswap, 0, 1))));
    assert(cat_entry(CatalogGate::Sqswap, 2, 0) == cv_zero());
    assert(cv_zeroish(cat_entry(CatalogGate::Sqswap, 2, 0)));
    assert(cv_wf(cat_entry(CatalogGate::Sqswap, 0, 1)));
    lemma_mul_zeroish_left(cat_entry(CatalogGate::Sqswap, 2, 0), cat_entry(CatalogGate::Sqswap, 0, 1));
    assert(cv_zeroish(cv_mul(cat_entry(CatalogGate::Sqswap, 2, 0), cat_entry(CatalogGate::Sqswap, 0, 1))));
    lemma_add_zeroish_zeroish(cat_mm(CatalogGate::Sqswap, CatalogGate::Sqswap, 2, 1, 0), cv_mul(cat_entry(CatalogGate::Sqswap, 2, 0), cat_entry(CatalogGate::Sqswap, 0, 1)));
    assert(cv_zeroish(cat_mm(CatalogGate::Sqswap, CatalogGate::Sqswap, 2, 1, 1)));
    assert(cat_mm(CatalogGate::Sqswap, CatalogGate::Sqswap, 2, 1, 2) == cv_add(cat_mm(CatalogGate::Sqswap, CatalogGate::Sqswap, 2, 1, 1), cv_mul(cat_entry(CatalogGate::Sqswap, 2, 1), cat_entry(CatalogGate::Sqswap, 1, 1))));
    assert(cv_wf(cat_entry(CatalogGate::Sqswap, 2, 1)));
    assert(cv_wf(cat_entry(CatalogGate::Sqswap, 1, 1)));
    lemma_mul_wf(cat_entry(CatalogGate::Sqswap, 2, 1), cat_entry(CatalogGate::Sqswap, 1, 1));
    lemma_add_zeroish_left(cat_mm(CatalogGate::Sqswap, CatalogGate::Sqswap, 2, 1, 1), cv_mul(cat_entry(CatalogGate::Sqswap, 2, 1), cat_entry(CatalogGate::Sqswap, 1, 1)));
    assert(cat_mm(CatalogGate::Sqswap, CatalogGate::Sqswap, 2, 1, 3) == cv_add(cat_mm(CatalogGate::Sqswap, CatalogGate::Sqswap, 2, 1, 2), cv_mul(cat_entry(CatalogGate::Sqswap, 2, 2), cat_entry(CatalogGate::Sqswap, 2, 1))));
    assert(cv_wf(cat_entry(CatalogGate::Sqswap, 2, 2)));
    assert(cv_wf(cat_entry(CatalogGate::Sqswap, 2, 1)));
    lemma_mul_wf(cat_entry(CatalogGate::Sqswap, 2, 2), cat_entry(CatalogGate::Sqswap, 2, 1));
    lemma_add_eqv_left(cat_mm(CatalogGate::Sqswap, CatalogGate::Sqswap, 2, 1, 2), cv_mul(cat_entry(CatalogGate::Sqswap, 2, 1), cat_entry(CatalogGate::Sqswap, 1, 1)), cv_mul(cat_entry(CatalogGate::Sqswap, 2, 2), cat_entry(CatalogGate::Sqswap, 2, 1)));
    lemma_eqv_trans(cat_mm(CatalogGate::Sqswap, CatalogGate::Sqswap, 2, 1, 3), cv_add(cat_mm(CatalogGate::Sqswap, CatalogGate::Sqswap, 2, 1, 2), cv_mul(cat_entry(CatalogGate::Sqswap, 2, 2), cat_entry(CatalogGate::Sqswap, 2, 1))), cv_add(cv_mul(cat_entry(CatalogGate::Sqswap, 2, 1), cat_entry(CatalogGate::Sqswap, 1, 1)), cv_mul(cat_entry(CatalogGate::Sqswap, 2, 2), cat_entry(CatalogGate::Sqswap, 2, 1))));
    assert(cat_mm(CatalogGate::Sqswap, CatalogGate::Sqswap, 2, 1, 4) == cv_add(cat_mm(CatalogGate::Sqswap, CatalogGate::Sqswap, 2, 1, 3), cv_mul(cat_entry(CatalogGate::Sqswap, 2, 3), cat_entry(CatalogGate::Sqswap, 3, 1))));
    assert(cat_entry(CatalogGate::Sqswap, 2, 3) == cv_zero());
    assert(cv_zeroish(cat_entry(CatalogGate::Sqswap, 2, 3)));
    assert(cv_wf(cat_entry(CatalogGate::Sqswap, 3, 1)));
    lemma_mul_zeroish_left(cat_entry(CatalogGate::Sqswap, 2, 3), cat_entry(CatalogGate::Sqswap, 3, 1));
    assert(cv_zeroish(cv_mul(cat_entry(CatalogGate::Sqswap, 2, 3), cat_entry(CatalogGate::Sqswap, 3, 1))));
    lemma_add_zeroish_right(cat_mm(CatalogGate::Sqswap, CatalogGate::Sqswap, 2, 1, 3), cv_mul(cat_entry(CatalogGate::Sqswap, 2, 3), cat_entry(CatalogGate::Sqswap, 3, 1)));
    lemma_eqv_trans(cat_mm(CatalogGate::Sqswap, CatalogGate::Sqswap, 2, 1, 4), cat_mm(CatalogGate::Sqswap, CatalogGate::Sqswap, 2, 1, 3), cv_add(cv_mul(cat_entry(CatalogGate::Sqswap, 2, 1), cat_entry(CatalogGate::Sqswap, 1, 1)), cv_mul(cat_entry(CatalogGate::Sqswap, 2, 2), cat_entry(CatalogGate::Sqswap, 2, 1))));
    assert((cv_add(cv_mul(cat_entry(CatalogGate::Sqswap, 2, 1), cat_entry(CatalogGate::Sqswap, 1, 1)), cv_mul(cat_entry(CatalogGate::Sqswap, 2, 2), cat_entry(CatalogGate::Sqswap, 2, 1)))).re.a == (((1) * (1) + 2 * ((0) * (0))) * ((2) * (2)) + (-((-1) * (1) + 2 * ((0) * (0)))) * ((2) * (2))) * (((2) * (2)) * ((2) * (2))) + (((1) * (1) + 2 * ((0) * (0))) * ((2) * (2)) + (-((1) * (-1) + 2 * ((0) * (0)))) * ((2) * (2))) * (((2) * (2)) * ((2) * (2))));
    assert(((((1) * (1) + 2 * ((0) * (0))) * ((2) * (2)) + (-((-1) * (1) + 2 * ((0) * (0)))) * ((2) * (2))) * (((2) * (2)) * ((2) * (2))) + (((1) * (1) + 2 * ((0) * (0))) * ((2) * (2)) + (-((1) * (-1) + 2 * ((0) * (0)))) * ((2) * (2))) * (((2) * (2)) * ((2) * (2)))) == 256) by (nonlinear_arith);
    assert((cv_add(cv_mul(cat_entry(CatalogGate::Sqswap, 2, 1), cat_entry(CatalogGate::Sqswap, 1, 1)), cv_mul(cat_entry(CatalogGate::Sqswap, 2, 2), cat_entry(CatalogGate::Sqswap, 2, 1)))).re.b == (((1) * (0) + (0) * (1)) * ((2) * (2)) + (-((-1) * (0) + (0) * (1))) * ((2) * (2))) * (((2) * (2)) * ((2) * (2))) + (((1) * (0) + (0) * (1)) * ((2) * (2)) + (-((1) * (0) + (0) * (-1))) * ((2) * (2))) * (((2) * (2)) * ((2) * (2))));
    assert(((((1) * (0) + (0) * (1)) * ((2) * (2)) + (-((-1) * (0) + (0) * (1))) * ((2) * (2))) * (((2) * (2)) * ((2) * (2))) + (((1) * (0) + (0) * (1)) * ((2) * (2)) + (-((1) * (0) + (0) * (-1))) * ((2) * (2))) * (((2) * (2)) * ((2) * (2)))) == 0) by (nonlinear_arith);
    assert((cv_add(cv_mul(cat_entry(CatalogGate::Sqswap, 2, 1), cat_entry(CatalogGate::Sqswap, 1, 1)), cv_mul(cat_entry(CatalogGate::Sqswap, 2, 2), cat_entry(CatalogGate::Sqswap, 2, 1)))).re.d == (((2) * (2)) * ((2) * (2))) * (((2) * (2)) * ((2) * (2))));
    assert(((((2) * (2)) * ((2) * (2))) * (((2) * (2)) * ((2) * (2)))) == 256) by (nonlinear_arith);
    assert((cv_add(cv_mul(cat_entry(CatalogGate::Sqswap, 2, 1), cat_entry(CatalogGate::Sqswap, 1, 1)), cv_mul(cat_entry(CatalogGate::Sqswap, 2, 2), cat_entry(CatalogGate::Sqswap, 2, 1)))).im.a == (((1) * (1) + 2 * ((0) * (0))) * ((2) * (2)) + ((-1) * (1) + 2 * ((0) * (0))) * ((2) * (2))) * (((2) * (2)) * ((2) * (2))) + (((1) * (-1) + 2 * ((0) * (0))) * ((2) * (2)) + ((1) * (1) + 2 * ((0) * (0))) * ((2) * (2))) * (((2) * (2)) * ((2) * (2))));
    assert(((((1) * (1) + 2 * ((0) * (0))) * ((2) * (2)) + ((-1) * (1) + 2 * ((0) * (0))) * ((2) * (2))) * (((2) * (2)) * ((2) * (2))) + (((1) * (-1) + 2 * ((0) * (0))) * ((2) * (2)) + ((1) * (1) + 2 * ((0) * (0))) * ((2) * (2))) * (((2) * (2)) * ((2) * (2)))) == 0) by (nonlinear_arith);
    assert((cv_add(cv_mul(cat_entry(CatalogGate::Sqswap, 2, 1), cat_entry(CatalogGate::Sqswap, 1, 1)), cv_mul(cat_entry(CatalogGate::Sqswap, 2, 2), cat_entry(CatalogGate::Sqswap, 2, 1)))).im.b == (((1) * (0) + (0) * (1)) * ((2) * (2)) + ((-1) * (0) + (0) * (1)) * ((2) * (2))) * (((2) * (2)) * ((2) * (2))) + (((1) * (0) + (0) * (-1)) * ((2) * (2)) + ((1) * (0) + (0) * (1)) * ((2) * (2))) * (((2) * (2)) * ((2) * (2))));
    assert(((((1) * (0) + (0) * (1)) * ((2) * (2)) + ((-1) * (0) + (0) * (1)) * ((2) * (2))) * (((2) * (2)) * ((2) * (2))) + (((1) * (0) + (0) * (-1)) * ((2) * (2)) + ((1) * (0) + (0) * (1)) * ((2) * (2))) * (((2) * (2)) * ((2) * (2)))) == 0) by (nonlinear_arith);
    assert((cv_add(cv_mul(cat_entry(CatalogGate::Sqswap, 2, 1), cat_entry(CatalogGate::Sqswap, 1, 1)), cv_mul(cat_entry(CatalogGate::Sqswap, 2, 2), cat_entry(CatalogGate::Sqswap, 2, 1)))).im.d == (((2) * (2)) * ((2) * (2))) * (((2) * (2)) * ((2) * (2))));
    assert(((((2) * (2)) * ((2) * (2))) * (((2) * (2)) * ((2) * (2)))) == 256) by (nonlinear_arith);
    assert((cv_add(cv_mul(cat_entry(CatalogGate::Sqswap, 2, 1), cat_entry(CatalogGate::Sqswap, 1, 1)), cv_mul(cat_entry(CatalogGate::Sqswap, 2, 2), cat_entry(CatalogGate::Sqswap, 2, 1)))).re.a * (swap_entry(2, 1)).re.d == (swap_entry(2, 1)).re.a * (cv_add(cv_mul(cat_entry(CatalogGate::Sqswap, 2, 1), cat_entry(CatalogGate::Sqswap, 1, 1)), cv_mul(cat_entry(CatalogGate::Sqswap, 2, 2), cat_entry(CatalogGate::Sqswap, 2, 1)))).re.d)
        by (nonlinear_arith)
        requires
            (cv_add(cv_mul(cat_entry(CatalogGate::Sqswap, 2, 1), cat_entry(CatalogGate::Sqswap, 1, 1)), cv_mul(cat_entry(CatalogGate::Sqswap, 2, 2), cat_entry(CatalogGate::Sqswap, 2, 1)))).re.a == 256,
            (cv_add(cv_mul(cat_entry(CatalogGate::Sqswap, 2, 1), cat_entry(CatalogGate::Sqswap, 1, 1)), cv_mul(cat_entry(CatalogGate::Sqswap, 2, 2), cat_entry(CatalogGate::Sqswap, 2, 1)))).re.d == 256,
            (swap_entry(2, 1)).re.a == 1,
            (swap_entry(2, 1)).re.d == 1;
    assert((cv_add(cv_mul(cat_entry(CatalogGate::Sqswap, 2, 1), cat_entry(CatalogGate::Sqswap, 1, 1)), cv_mul(cat_entry(CatalogGate::Sqswap, 2, 2), cat_entry(CatalogGate::Sqswap, 2, 1)))).re.b * (swap_entry(2, 1)).re.d == (swap_entry(2, 1)).re.b * (cv_add(cv_mul(cat_entry(CatalogGate::Sqswap, 2, 1), cat_entry(CatalogGate::Sqswap, 1, 1)), cv_mul(cat_entry(CatalogGate::Sqswap, 2, 2), cat_entry(CatalogGate::Sqswap, 2, 1)))).re.d)
        by (nonlinear_arith)
        requires
            (cv_add(cv_mul(cat_entry(CatalogGate::Sqswap, 2, 1), cat_entry(CatalogGate::Sqswap, 1, 1)), cv_mul(cat_entry(CatalogGate::Sqswap, 2, 2), cat_entry(CatalogGate::Sqswap, 2, 1)))).re.b == 0,
            (cv_add(cv_mul(cat_entry(CatalogGate::Sqswap, 2, 1), cat_entry(CatalogGate::Sqswap, 1, 1)), cv_mul(cat_entry(CatalogGate::Sqswap, 2, 2), cat_entry(CatalogGate::Sqswap, 2, 1)))).re.d == 256,
            (swap_entry(2, 1)).re.b == 0,
            (swap_entry(2, 1)).re.d == 1;
    assert((cv_add(cv_mul(cat_entry(CatalogGate::Sqswap, 2, 1), cat_entry(CatalogGate::Sqswap, 1, 1)), cv_mul(cat_entry(CatalogGate::Sqswap, 2, 2), cat_entry(CatalogGate::Sqswap, 2, 1)))).im.a * (swap_entry(2, 1)).im.d == (swap_entry(2, 1)).im.a * (cv_add(cv_mul(cat_entry(CatalogGate::Sqswap, 2, 1), cat_entry(CatalogGate::Sqswap, 1, 1)), cv_mul(cat_entry(CatalogGate::Sqswap, 2, 2), cat_entry(CatalogGate::Sqswap, 2, 1)))).im.d)
        by (nonlinear_arith)
        requires
            (cv_add(cv_mul(cat_entry(CatalogGate::Sqswap, 2, 1), cat_entry(CatalogGate::Sqswap, 1, 1)), cv_mul(cat_entry(CatalogGate::Sqswap, 2, 2), cat_entry(CatalogGate::Sqswap, 2, 1)))).im.a == 0,
            (cv_add(cv_mul(cat_entry(CatalogGate::Sqswap, 2, 1), cat_entry(CatalogGate::Sqswap, 1, 1)), cv_mul(cat_entry(CatalogGate::Sqswap, 2, 2), cat_entry(CatalogGate::Sqswap, 2, 1)))).im.d == 256,
            (swap_entry(2, 1)).im.a == 0,
            (swap_entry(2, 1)).im.d == 1;
    assert((cv_add(cv_mul(cat_entry(CatalogGate::Sqswap, 2, 1), cat_entry(CatalogGate::Sqswap, 1, 1)), cv_mul(cat_entry(CatalogGate::Sqswap, 2, 2), cat_entry(CatalogGate::Sqswap, 2, 1)))).im.b * (swap_entry(2, 1)).im.d == (swap_entry(2, 1)).im.b * (cv_add(cv_mul(cat_entry(CatalogGate::Sqswap, 2, 1), cat_entry(CatalogGate::Sqswap, 1, 1)), cv_mul(cat_entry(CatalogGate::Sqswap, 2, 2), cat_entry(CatalogGate::Sqswap, 2, 1)))).im.d)
        by (nonlinear_arith)
        requires
            (cv_add(cv_mul(cat_entry(CatalogGate::Sqswap, 2, 1), cat_entry(CatalogGate::Sqswap, 1, 1)), cv_mul(cat_entry(CatalogGate::Sqswap, 2, 2), cat_entry(CatalogGate::Sqswap, 2, 1)))).im.b == 0,
            (cv_add(cv_mul(cat_entry(CatalogGate::Sqswap, 2, 1), cat_entry(CatalogGate::Sqswap, 1, 1)), cv_mul(cat_entry(CatalogGate::Sqswap, 2, 2), cat_entry(CatalogGate::Sqswap, 2, 1)))).im.d == 256,
            (swap_entry(2, 1)).im.b == 0,
            (swap_entry(2, 1)).im.d == 1;
    assert(cv_eqv(cv_add(cv_mul(cat_entry(CatalogGate::Sqswap, 2, 1), cat_entry(CatalogGate::Sqswap, 1, 1)), cv_mul(cat_entry(CatalogGate::Sqswap, 2, 2), cat_entry(CatalogGate::Sqswap, 2, 1))), swap_entry(2, 1)));
    assert(cv_wf(swap_entry(2, 1)));
    lemma_eqv_trans(cat_mm(CatalogGate::Sqswap, CatalogGate::Sqswap, 2, 1, 4), cv_add(cv_mul(cat_entry(CatalogGate::Sqswap, 2, 1), cat_entry(CatalogGate::Sqswap, 1, 1)), cv_mul(cat_entry(CatalogGate::Sqswap, 2, 2), cat_entry(CatalogGate::Sqswap, 2, 1))), swap_entry(2, 1));
}

proof fn sqswap_mm_case_2_2()
    ensures
        cv_eqv(cat_mm(CatalogGate::Sqswap, CatalogGate::Sqswap, 2, 2, 4), swap_entry(2, 2)),
{
    reveal_with_fuel(cat_mm, 5);
    lemma_zero_zeroish();
    assert(cat_mm(CatalogGate::Sqswap, CatalogGate::Sqswap, 2, 2, 0) == cv_zero());
    assert(cv_zeroish(cat_mm(CatalogGate::Sqswap, CatalogGate::Sqswap, 2, 2, 0)));
    assert(cat_mm(CatalogGate::Sqswap, CatalogGate::Sqswap, 2, 2, 1) == cv_add(cat_mm(CatalogGate::Sqswap, CatalogGate::Sqswap, 2, 2, 0), cv_mul(cat_entry(CatalogGate::Sqswap, 2, 0), cat_entry(CatalogGate::Sqswap, 0, 2))));
    assert(cat_entry(CatalogGate::Sqswap, 2, 0) == cv_zero());
    assert(cv_zeroish(cat_entry(CatalogGate::Sqswap, 2, 0)));
    assert(cv_wf(cat_entry(CatalogGate::Sqswap, 0, 2)));
    lemma_mul_zeroish_left(cat_entry(CatalogGate::Sqswap, 2, 0), cat_entry(CatalogGate::Sqswap, 0, 2));
    assert(cv_zeroish(cv_mul(cat_entry(CatalogGate::Sqswap, 2, 0), cat_entry(CatalogGate::Sqswap, 0, 2))));
    lemma_add_zeroish_zeroish(cat_mm(CatalogGate::Sqswap, CatalogGate::Sqswap, 2, 2, 0), cv_mul(cat_entry(CatalogGate::Sqswap, 2, 0), cat_entry(CatalogGate::Sqswap, 0, 2)));
    assert(cv_zeroish(cat_mm(CatalogGate::Sqswap, CatalogGate::Sqswap, 2, 2, 1)));
    assert(cat_mm(CatalogGate::Sqswap, CatalogGate::Sqswap, 2, 2, 2) == cv_add(cat_mm(CatalogGate::Sqswap, CatalogGate::Sqswap, 2, 2, 1), cv_mul(cat_entry(CatalogGate::Sqswap, 2, 1), cat_entry(CatalogGate::Sqswap, 1, 2))));
    assert(cv_wf(cat_entry(CatalogGate::Sqswap, 2, 1)));
    assert(cv_wf(cat_entry(CatalogGate::Sqswap, 1, 2)));
    lemma_mul_wf(cat_entry(CatalogGate::Sqswap, 2, 1), cat_entry(CatalogGate::Sqswap, 1, 2));
    lemma_add_zeroish_left(cat_mm(CatalogGate::Sqswap, CatalogGate::Sqswap, 2, 2, 1), cv_mul(cat_entry(CatalogGate::Sqswap, 2, 1), cat_entry(CatalogGate::Sqswap, 1, 2)));
    assert(cat_mm(CatalogGate::Sqswap, CatalogGate::Sqswap, 2, 2, 3) == cv_add(cat_mm(CatalogGate::Sqswap, CatalogGate::Sqswap, 2, 2, 2), cv_mul(cat_entry(CatalogGate::Sqswap, 2, 2), cat_entry(CatalogGate::Sqswap, 2, 2))));
    assert(cv_wf(cat_entry(CatalogGate::Sqswap, 2, 2)));
    assert(cv_wf(cat_entry(CatalogGate::Sqswap, 2, 2)));
    lemma_mul_wf(cat_entry(CatalogGate::Sqswap, 2, 2), cat_entry(CatalogGate::Sqswap, 2, 2));
    lemma_add_eqv_left(cat_mm(CatalogGate::Sqswap, CatalogGate::Sqswap, 2, 2, 2), cv_mul(cat_entry(CatalogGate::Sqswap, 2, 1), cat_entry(CatalogGate::Sqswap, 1, 2)), cv_mul(cat_entry(CatalogGate::Sqswap, 2, 2), cat_entry(CatalogGate::Sqswap, 2, 2)));
    lemma_eqv_trans(cat_mm(CatalogGate::Sqswap, CatalogGate::Sqswap, 2, 2, 3), cv_add(cat_mm(CatalogGate::Sqswap, CatalogGate::Sqswap, 2, 2, 2), cv_mul(cat_entry(CatalogGate::Sqswap, 2, 2), cat_entry(CatalogGate::Sqswap, 2, 2))), cv_add(cv_mul(cat_entry(CatalogGate::Sqswap, 2, 1), cat_entry(CatalogGate::Sqswap, 1, 2)), cv_mul(cat_entry(CatalogGate::Sqswap, 2, 2), cat_entry(CatalogGate::Sqswap, 2, 2))));
    assert(cat_mm(CatalogGate::Sqswap, CatalogGate::Sqswap, 2, 2, 4) == cv_add(cat_mm(CatalogGate::Sqswap, CatalogGate::Sqswap, 2, 2, 3), cv_mul(cat_entry(CatalogGate::Sqswap, 2, 3), cat_entry(CatalogGate::Sqswap, 3, 2))));
    assert(cat_entry(CatalogGate::Sqswap, 2, 3) == cv_zero());
    assert(cv_zeroish(cat_entry(CatalogGate::Sqswap, 2, 3)));
    assert(cv_wf(cat_entry(CatalogGate::Sqswap, 3, 2)));
    lemma_mul_zeroish_left(cat_entry(CatalogGate::Sqswap, 2, 3), cat_entry(CatalogGate::Sqswap, 3, 2));
    assert(cv_zeroish(cv_mul(cat_entry(CatalogGate::Sqswap, 2, 3), cat_entry(CatalogGate::Sqswap, 3, 2))));
    lemma_add_zeroish_right(cat_mm(CatalogGate::Sqswap, CatalogGate::Sqswap, 2, 2, 3), cv_mul(cat_entry(CatalogGate::Sqswap, 2, 3), cat_entry(CatalogGate::Sqswap, 3, 2)));
    lemma_eqv_trans(cat_mm(CatalogGate::Sqswap, CatalogGate::Sqswap, 2, 2, 4), cat_mm(CatalogGate::Sqswap, CatalogGate::Sqswap, 2, 2, 3), cv_add(cv_mul(cat_entry(CatalogGate::Sqswap, 2, 1), cat_entry(CatalogGate::Sqswap, 1, 2)), cv_mul(cat_entry(CatalogGate::Sqswap, 2, 2), cat_entry(CatalogGate::Sqswap, 2, 2))));
    assert((cv_add(cv_mul(cat_entry(CatalogGate::Sqswap, 2, 1), cat_entry(CatalogGate::Sqswap, 1, 2)), cv_mul(cat_entry(CatalogGate::Sqswap, 2, 2), cat_entry(CatalogGate::Sqswap, 2, 2)))).re.a == (((1) * (1) + 2 * ((0) * (0))) * ((2) * (2)) + (-((-1) * (-1) + 2 * ((0) * (0)))) * ((2) * (2))) * (((2) * (2)) * ((2) * (2))) + (((1) * (1) + 2 * ((0) * (0))) * ((2) * (2)) + (-((1) * (1) + 2 * ((0) * (0)))) * ((2) * (2))) * (((2) * (2)) * ((2) * (2))));
    assert(((((1) * (1) + 2 * ((0) * (0))) * ((2) * (2)) + (-((-1) * (-1) + 2 * ((0) * (0)))) * ((2) * (2))) * (((2) * (2)) * ((2) * (2))) + (((1) * (1) + 2 * ((0) * (0))) * ((2) * (2)) + (-((1) * (1) + 2 * ((0) * (0)))) * ((2) * (2))) * (((2) * (2)) * ((2) * (2)))) == 0) by (nonlinear_arith);
    assert((cv_add(cv_mul(cat_entry(CatalogGate::Sqswap, 2, 1), cat_entry(CatalogGate::Sqswap, 1, 2)), cv_mul(cat_entry(CatalogGate::Sqswap, 2, 2), cat_entry(CatalogGate::Sqswap, 2, 2)))).re.b == (((1) * (0) + (0) * (1)) * ((2) * (2)) + (-((-1) * (0) + (0) * (-1))) * ((2) * (2))) * (((2) * (2)) * ((2) * (2))) + (((1) * (0) + (0) * (1)) * ((2) * (2)) + (-((1) * (0) + (0) * (1))) * ((2) * (2))) * (((2) * (2)) * ((2) * (2))));
    assert(((((1) * (0) + (0) * (1)) * ((2) * (2)) + (-((-1) * (0) + (0) * (-1))) * ((2) * (2))) * (((2) * (2)) * ((2) * (2))) + (((1) * (0) + (0) * (1)) * ((2) * (2)) + (-((1) * (0) + (0) * (1))) * ((2) * (2))) * (((2) * (2)) * ((2) * (2)))) == 0) by (nonlinear_arith);
    assert((cv_add(cv_mul(cat_entry(CatalogGate::Sqswap, 2, 1), cat_entry(CatalogGate::Sqswap, 1, 2)), cv_mul(cat_entry(CatalogGate::Sqswap, 2, 2), cat_entry(CatalogGate::Sqswap, 2, 2)))).re.d == (((2) * (2)) * ((2) * (2))) * (((2) * (2)) * ((2) * (2))));
    assert(((((2) * (2)) * ((2) * (2))) * (((2) * (2)) * ((2) * (2)))) == 256) by (nonlinear_arith);
    assert((cv_add(cv_mul(cat_entry(CatalogGate::Sqswap, 2, 1), cat_entry(CatalogGate::Sqswap, 1, 2)), cv_mul(cat_entry(CatalogGate::Sqswap, 2, 2), cat_entry(CatalogGate::Sqswap, 2, 2)))).im.a == (((1) * (-1) + 2 * ((0) * (0))) * ((2) * (2)) + ((-1) * (1) + 2 * ((0) * (0))) * ((2) * (2))) * (((2) * (2)) * ((2) * (2))) + (((1) * (1) + 2 * ((0) * (0))) * ((2) * (2)) + ((1) * (1) + 2 * ((0) * (0))) * ((2) * (2))) * (((2) * (2)) * ((2) * (2))));
    assert(((((1) * (-1) + 2 * ((0) * (0))) * ((2) * (2)) + ((-1) * (1) + 2 * ((0) * (0))) * ((2) * (2))) * (((2) * (2)) * ((2) * (2))) + (((1) * (1) + 2 * ((0) * (0))) * ((2) * (2)) + ((1) * (1) + 2 * ((0) * (0))) * ((2) * (2))) * (((2) * (2)) * ((2) * (2)))) == 0) by (nonlinear_arith);
    assert((cv_add(cv_mul(cat_entry(CatalogGate::Sqswap, 2, 1), cat_entry(CatalogGate::Sqswap, 1, 2)), cv_mul(cat_entry(CatalogGate::Sqswap, 2, 2), cat_entry(CatalogGate::Sqswap, 2, 2)))).im.b == (((1) * (0) + (0) * (-1)) * ((2) * (2)) + ((-1) * (0) + (0) * (1)) * ((2) * (2))) * (((2) * (2)) * ((2) * (2))) + (((1) * (0) + (0) * (1)) * ((2) * (2)) + ((1) * (0) + (0) * (1)) * ((2) * (2))) * (((2) * (2)) * ((2) * (2))));
    assert(((((1) * (0) + (0) * (-1)) * ((2) * (2)) + ((-1) * (0) + (0) * (1)) * ((2) * (2))) * (((2) * (2)) * ((2) * (2))) + (((1) * (0) + (0) * (1)) * ((2) * (2)) + ((1) * (0) + (0) * (1)) * ((2) * (2))) * (((2) * (2)) * ((2) * (2)))) == 0) by (nonlinear_arith);
    assert((cv_add(cv_mul(cat_entry(CatalogGate::Sqswap, 2, 1), cat_entry(CatalogGate::Sqswap, 1, 2)), cv_mul(cat_entry(CatalogGate::Sqswap, 2, 2), cat_entry(CatalogGate::Sqswap, 2, 2)))).im.d == (((2) * (2)) * ((2) * (2))) * (((2) * (2)) * ((2) * (2))));
    assert(((((2) * (2)) * ((2) * (2))) * (((2) * (2)) * ((2) * (2)))) == 256) by (nonlinear_arith);
    assert((cv_add(cv_mul(cat_entry(CatalogGate::Sqswap, 2, 1), cat_entry(CatalogGate::Sqswap, 1, 2)), cv_mul(cat_entry(CatalogGate::Sqswap, 2, 2), cat_entry(CatalogGate::Sqswap, 2, 2)))).re.a * (swap_entry(2, 2)).re.d == (swap_entry(2, 2)).re.a * (cv_add(cv_mul(cat_entry(CatalogGate::Sqswap, 2, 1), cat_entry(CatalogGate::Sqswap, 1, 2)), cv_mul(cat_entry(CatalogGate::Sqswap, 2, 2), cat_entry(CatalogGate::Sqswap, 2, 2)))).re.d)
        by (nonlinear_arith)
        requires
            (cv_add(cv_mul(cat_entry(CatalogGate::Sqswap, 2, 1), cat_entry(CatalogGate::Sqswap, 1, 2)), cv_mul(cat_entry(CatalogGate::Sqswap, 2, 2), cat_entry(CatalogGate::Sqswap, 2, 2)))).re.a == 0,
            (cv_add(cv_mul(cat_entry(CatalogGate::Sqswap, 2, 1), cat_entry(CatalogGate::Sqswap, 1, 2)), cv_mul(cat_entry(CatalogGate::Sqswap, 2, 2), cat_entry(CatalogGate::Sqswap, 2, 2)))).re.d == 256,
            (swap_entry(2, 2)).re.a == 0,
            (swap_entry(2, 2)).re.d == 1;
    assert((cv_add(cv_mul(cat_entry(CatalogGate::Sqswap, 2, 1), cat_entry(CatalogGate::Sqswap, 1, 2)), cv_mul(cat_entry(CatalogGate::Sqswap, 2, 2), cat_entry(CatalogGate::Sqswap, 2, 2)))).re.b * (swap_entry(2, 2)).re.d == (swap_entry(2, 2)).re.b * (cv_add(cv_mul(cat_entry(CatalogGate::Sqswap, 2, 1), cat_entry(CatalogGate::Sqswap, 1, 2)), cv_mul(cat_entry(CatalogGate::Sqswap, 2, 2), cat_entry(CatalogGate::Sqswap, 2, 2)))).re.d)
        by (nonlinear_arith)
        requires
            (cv_add(cv_mul(cat_entry(CatalogGate::Sqswap, 2, 1), cat_entry(CatalogGate::Sqswap, 1, 2)), cv_mul(cat_entry(CatalogGate::Sqswap, 2, 2), cat_entry(CatalogGate::Sqswap, 2, 2)))).re.b == 0,
            (cv_add(cv_mul(cat_entry(CatalogGate::Sqswap, 2, 1), cat_entry(CatalogGate::Sqswap, 1, 2)), cv_mul(cat_entry(CatalogGate::Sqswap, 2, 2), cat_entry(CatalogGate::Sqswap, 2, 2)))).re.d == 256,
            (swap_entry(2, 2)).re.b == 0,
            (swap_entry(2, 2)).re.d == 1;
    assert((cv_add(cv_mul(cat_entry(CatalogGate::Sqswap, 2, 1), cat_entry(CatalogGate::Sqswap, 1, 2)), cv_mul(cat_entry(CatalogGate::Sqswap, 2, 2), cat_entry(CatalogGate::Sqswap, 2, 2)))).im.a * (swap_entry(2, 2)).im.d == (swap_entry(2, 2)).im.a * (cv_add(cv_mul(cat_entry(CatalogGate::Sqswap, 2, 1), cat_entry(CatalogGate::Sqswap, 1, 2)), cv_mul(cat_entry(CatalogGate::Sqswap, 2, 2), cat_entry(CatalogGate::Sqswap, 2, 2)))).im.d)
        by (nonlinear_arith)
        requires
            (cv_add(cv_mul(cat_entry(CatalogGate::Sqswap, 2, 1), cat_entry(CatalogGate::Sqswap, 1, 2)), cv_mul(cat_entry(CatalogGate::Sqswap, 2, 2), cat_entry(CatalogGate::Sqswap, 2, 2)))).im.a == 0,
            (cv_add(cv_mul(cat_entry(CatalogGate::Sqswap, 2, 1), cat_entry(CatalogGate::Sqswap, 1, 2)), cv_mul(cat_entry(CatalogGate::Sqswap, 2, 2), cat_entry(CatalogGate::Sqswap, 2, 2)))).im.d == 256,
            (swap_entry(2, 2)).im.a == 0,
            (swap_entry(2, 2)).im.d == 1;
    assert((cv_add(cv_mul(cat_entry(CatalogGate::Sqswap, 2, 1), cat_entry(CatalogGate::Sqswap, 1, 2)), cv_mul(cat_entry(CatalogGate::Sqswap, 2, 2), cat_entry(CatalogGate::Sqswap, 2, 2)))).im.b * (swap_entry(2, 2)).im.d == (swap_entry(2, 2)).im.b * (cv_add(cv_mul(cat_entry(CatalogGate::Sqswap, 2, 1), cat_entry(CatalogGate::Sqswap, 1, 2)), cv_mul(cat_entry(CatalogGate::Sqswap, 2, 2), cat_entry(CatalogGate::Sqswap, 2, 2)))).im.d)
        by (nonlinear_arith)
        requires
            (cv_add(cv_mul(cat_entry(CatalogGate::Sqswap, 2, 1), cat_entry(CatalogGate::Sqswap, 1, 2)), cv_mul(cat_entry(CatalogGate::Sqswap, 2, 2), cat_entry(CatalogGate::Sqswap, 2, 2)))).im.b == 0,
            (cv_add(cv_mul(cat_entry(CatalogGate::Sqswap, 2, 1), cat_entry(CatalogGate::Sqswap, 1, 2)), cv_mul(cat_entry(CatalogGate::Sqswap, 2, 2), cat_entry(CatalogGate::Sqswap, 2, 2)))).im.d == 256,
            (swap_entry(2, 2)).im.b == 0,
            (swap_entry(2, 2)).im.d == 1;
    assert(cv_eqv(cv_add(cv_mul(cat_entry(CatalogGate::Sqswap, 2, 1), cat_entry(CatalogGate::Sqswap, 1, 2)), cv_mul(cat_entry(CatalogGate::Sqswap, 2, 2), cat_entry(CatalogGate::Sqswap, 2, 2))), swap_entry(2, 2)));
    assert(cv_wf(swap_entry(2, 2)));
    lemma_eqv_trans(cat_mm(CatalogGate::Sqswap, CatalogGate::Sqswap, 2, 2, 4), cv_add(cv_mul(cat_entry(CatalogGate::Sqswap, 2, 1), cat_entry(CatalogGate::Sqswap, 1, 2)), cv_mul(cat_entry(CatalogGate::Sqswap, 2, 2), cat_entry(CatalogGate::Sqswap, 2, 2))), swap_entry(2, 2));
}

proof fn sqswap_mm_case_2_3()
    ensures
        cv_eqv(cat_mm(CatalogGate::Sqswap, CatalogGate::Sqswap, 2, 3, 4), swap_entry(2, 3)),
{
    reveal_with_fuel(cat_mm, 5);
    lemma_zero_zeroish();
    assert(cat_mm(CatalogGate::Sqswap, CatalogGate::Sqswap, 2, 3, 0) == cv_zero());
    assert(cv_zeroish(cat_mm(CatalogGate::Sqswap, CatalogGate::Sqswap, 2, 3, 0)));
    assert(cat_mm(CatalogGate::Sqswap, CatalogGate::Sqswap, 2, 3, 1) == cv_add(cat_mm(CatalogGate::Sqswap, CatalogGate::Sqswap, 2, 3, 0), cv_mul(cat_entry(CatalogGate::Sqswap, 2, 0), cat_entry(CatalogGate::Sqswap, 0, 3))));
    assert(cat_entry(CatalogGate::Sqswap, 2, 0) == cv_zero());
    assert(cv_zeroish(cat_entry(CatalogGate::Sqswap, 2, 0)));
    assert(cv_wf(cat_entry(CatalogGate::Sqswap, 0, 3)));
    lemma_mul_zeroish_left(cat_entry(CatalogGate::Sqswap, 2, 0), cat_entry(CatalogGate::Sqswap, 0, 3));
    assert(cv_zeroish(cv_mul(cat_entry(CatalogGate::Sqswap, 2, 0), cat_entry(CatalogGate::Sqswap, 0, 3))));
    lemma_add_zeroish_zeroish(cat_mm(CatalogGate::Sqswap, CatalogGate::Sqswap, 2, 3, 0), cv_mul(cat_entry(CatalogGate::Sqswap, 2, 0), cat_entry(CatalogGate::Sqswap, 0, 3)));
    assert(cv_zeroish(cat_mm(CatalogGate::Sqswap, CatalogGate::Sqswap, 2, 3, 1)));
    assert(cat_mm(CatalogGate::Sqswap, CatalogGate::Sqswap, 2, 3, 2) == cv_add(cat_mm(CatalogGate::Sqswap, CatalogGate::Sqswap, 2, 3, 1), cv_mul(cat_entry(CatalogGate::Sqswap, 2, 1), cat_entry(CatalogGate::Sqswap, 1, 3))));
    assert(cat_entry(CatalogGate::Sqswap, 1, 3) == cv_zero());
    assert(cv_zeroish(cat_entry(CatalogGate::Sqswap, 1, 3)));
    assert(cv_wf(cat_entry(CatalogGate::Sqswap, 2, 1)));
    lemma_mul_zeroish_right(cat_entry(CatalogGate::Sqswap, 2, 1), cat_entry(CatalogGate::Sqswap, 1, 3));
    assert(cv_zeroish(cv_mul(cat_entry(CatalogGate::Sqswap, 2, 1), cat_entry(CatalogGate::Sqswap, 1, 3))));
    lemma_add_zeroish_zeroish(cat_mm(CatalogGate::Sqswap, CatalogGate::Sqswap, 2, 3, 1), cv_mul(cat_entry(CatalogGate::Sqswap, 2, 1), cat_entry(CatalogGate::Sqswap, 1, 3)));
    assert(cv_zeroish(cat_mm(CatalogGate::Sqswap, CatalogGate::Sqswap, 2, 3, 2)));
    assert(cat_mm(CatalogGate::Sqswap, CatalogGate::Sqswap, 2, 3, 3) == cv_add(cat_mm(CatalogGate::Sqswap, CatalogGate::Sqswap, 2, 3, 2), cv_mul(cat_entry(CatalogGate::Sqswap, 2, 2), cat_entry(CatalogGate::Sqswap, 2, 3))));
    assert(cat_entry(CatalogGate::Sqswap, 2, 3) == cv_zero());
    assert(cv_zeroish(cat_entry(CatalogGate::Sqswap, 2, 3)));
    assert(cv_wf(cat_entry(CatalogGate::Sqswap, 2, 2)));
    lemma_mul_zeroish_right(cat_entry(CatalogGate::Sqswap, 2, 2), cat_entry(CatalogGate::Sqswap, 2, 3));
    assert(cv_zeroish(cv_mul(cat_entry(CatalogGate::Sqswap, 2, 2), cat_entry(CatalogGate::Sqswap, 2, 3))));
    lemma_add_zeroish_zeroish(cat_mm(CatalogGate::Sqswap, CatalogGate::Sqswap, 2, 3, 2), cv_mul(cat_entry(CatalogGate::Sqswap, 2, 2), cat_entry(CatalogGate::Sqswap, 2, 3)));
    assert(cv_zeroish(cat_mm(CatalogGate::Sqswap, CatalogGate::Sqswap, 2, 3, 3)));
    assert(cat_mm(CatalogGate::Sqswap, CatalogGate::Sqswap, 2, 3, 4) == cv_add(cat_mm(CatalogGate::Sqswap, CatalogGate::Sqswap, 2, 3, 3), cv_mul(cat_entry(CatalogGate::Sqswap, 2, 3), cat_entry(CatalogGate::Sqswap, 3, 3))));
    assert(cat_entry(CatalogGate::Sqswap, 2, 3) == cv_zero());
    assert(cv_zeroish(cat_entry(CatalogGate::Sqswap, 2, 3)));
    assert(cv_wf(cat_entry(CatalogGate::Sqswap, 3, 3)));
    lemma_mul_zeroish_left(cat_entry(CatalogGate::Sqswap, 2, 3), cat_entry(CatalogGate::Sqswap, 3, 3));
    assert(cv_zeroish(cv_mul(cat_entry(CatalogGate::Sqswap, 2, 3), cat_entry(CatalogGate::Sqswap, 3, 3))));
    lemma_add_zeroish_zeroish(cat_mm(CatalogGate::Sqswap, CatalogGate::Sqswap, 2, 3, 3), cv_mul(cat_entry(CatalogGate::Sqswap, 2, 3), cat_entry(CatalogGate::Sqswap, 3, 3)));
    assert(cv_zeroish(cat_mm(CatalogGate::Sqswap, CatalogGate::Sqswap, 2, 3, 4)));
    lemma_zeroish_eqv_zero(cat_mm(CatalogGate::Sqswap, CatalogGate::Sqswap, 2, 3, 4));
    assert(cv_eqv(cat_mm(CatalogGate::Sqswap, CatalogGate::Sqswap, 2, 3, 4), swap_entry(2, 3)));
}

proof fn sqswap_mm_case_3_0()
    ensures
        cv_eqv(cat_mm(CatalogGate::Sqswap, CatalogGate::Sqswap, 3, 0, 4), swap_entry(3, 0)),
{
    reveal_with_fuel(cat_mm, 5);
    lemma_zero_zeroish();
    assert(cat_mm(CatalogGate::Sqswap, CatalogGate::Sqswap, 3, 0, 0) == cv_zero());
    assert(cv_zeroish(cat_mm(CatalogGate::Sqswap, CatalogGate::Sqswap, 3, 0, 0)));
    assert(cat_mm(CatalogGate::Sqswap, CatalogGate::Sqswap, 3, 0, 1) == cv_add(cat_mm(CatalogGate::Sqswap, CatalogGate::Sqswap, 3, 0, 0), cv_mul(cat_entry(CatalogGate::Sqswap, 3, 0), cat_entry(CatalogGate::Sqswap, 0, 0))));
    assert(cat_entry(CatalogGate::Sqswap, 3, 0) == cv_zero());
    assert(cv_zeroish(cat_entry(CatalogGate::Sqswap, 3, 0)));
    assert(cv_wf(cat_entry(CatalogGate::Sqswap, 0, 0)));
    lemma_mul_zeroish_left(cat_entry(CatalogGate::Sqswap, 3, 0), cat_entry(CatalogGate::Sqswap, 0, 0));
    assert(cv_zeroish(cv_mul(cat_entry(CatalogGate::Sqswap, 3, 0), cat_entry(CatalogGate::Sqswap, 0, 0))));
    lemma_add_zeroish_zeroish(cat_mm(CatalogGate::Sqswap, CatalogGate::Sqswap, 3, 0, 0), cv_mul(cat_entry(CatalogGate::Sqswap, 3, 0), cat_entry(CatalogGate::Sqswap, 0, 0)));
    assert(cv_zeroish(cat_mm(CatalogGate::Sqswap, CatalogGate::Sqswap, 3, 0, 1)));
    assert(cat_mm(CatalogGate::Sqswap, CatalogGate::Sqswap, 3, 0, 2) == cv_add(cat_mm(CatalogGate::Sqswap, CatalogGate::Sqswap, 3, 0, 1), cv_mul(cat_entry(CatalogGate::Sqswap, 3, 1), cat_entry(CatalogGate::Sqswap, 1, 0))));
    assert(cat_entry(CatalogGate::Sqswap, 3, 1) == cv_zero());
    assert(cv_zeroish(cat_entry(CatalogGate::Sqswap, 3, 1)));
    assert(cv_wf(cat_entry(CatalogGate::Sqswap, 1, 0)));
    lemma_mul_zeroish_left(cat_entry(CatalogGate::Sqswap, 3, 1), cat_entry(CatalogGate::Sqswap, 1, 0));
    assert(cv_zeroish(cv_mul(cat_entry(CatalogGate::Sqswap, 3, 1), cat_entry(CatalogGate::Sqswap, 1, 0))));
    lemma_add_zeroish_zeroish(cat_mm(CatalogGate::Sqswap, CatalogGate::Sqswap, 3, 0, 1), cv_mul(cat_entry(CatalogGate::Sqswap, 3, 1), cat_entry(CatalogGate::Sqswap, 1, 0)));
    assert(cv_zeroish(cat_mm(CatalogGate::Sqswap, CatalogGate::Sqswap, 3, 0, 2)));
    assert(cat_mm(CatalogGate::Sqswap, CatalogGate::Sqswap, 3, 0, 3) == cv_add(cat_mm(CatalogGate::Sqswap, CatalogGate::Sqswap, 3, 0, 2), cv_mul(cat_entry(CatalogGate::Sqswap, 3, 2), cat_entry(CatalogGate::Sqswap, 2, 0))));
    assert(cat_entry(CatalogGate::Sqswap, 3, 2) == cv_zero());
    assert(cv_zeroish(cat_entry(CatalogGate::Sqswap, 3, 2)));
    assert(cv_wf(cat_entry(CatalogGate::Sqswap, 2, 0)));
    lemma_mul_zeroish_left(cat_entry(CatalogGate::Sqswap, 3, 2), cat_entry(CatalogGate::Sqswap, 2, 0));
    assert(cv_zeroish(cv_mul(cat_entry(CatalogGate::Sqswap, 3, 2), cat_entry(CatalogGate::Sqswap, 2, 0))));
    lemma_add_zeroish_zeroish(cat_mm(CatalogGate::Sqswap, CatalogGate::Sqswap, 3, 0, 2), cv_mul(cat_entry(CatalogGate::Sqswap, 3, 2), cat_entry(CatalogGate::Sqswap, 2, 0)));
    assert(cv_zeroish(cat_mm(CatalogGate::Sqswap, CatalogGate::Sqswap, 3, 0, 3)));
    assert(cat_mm(CatalogGate::Sqswap, CatalogGate::Sqswap, 3, 0, 4) == cv_add(cat_mm(CatalogGate::Sqswap, CatalogGate::Sqswap, 3, 0, 3), cv_mul(cat_entry(CatalogGate::Sqswap, 3, 3), cat_entry(CatalogGate::Sqswap, 3, 0))));
    assert(cat_entry(CatalogGate::Sqswap, 3, 0) == cv_zero());
    assert(cv_zeroish(cat_entry(CatalogGate::Sqswap, 3, 0)));
    assert(cv_wf(cat_entry(CatalogGate::Sqswap, 3, 3)));
    lemma_mul_zeroish_right(cat_entry(CatalogGate::Sqswap, 3, 3), cat_entry(CatalogGate::Sqswap, 3, 0));
    assert(cv_zeroish(cv_mul(cat_entry(CatalogGate::Sqswap, 3, 3), cat_entry(CatalogGate::Sqswap, 3, 0))));
    lemma_add_zeroish_zeroish(cat_mm(CatalogGate::Sqswap, CatalogGate::Sqswap, 3, 0, 3), cv_mul(cat_entry(CatalogGate::Sqswap, 3, 3), cat_entry(CatalogGate::Sqswap, 3, 0)));
    assert(cv_zeroish(cat_mm(CatalogGate::Sqswap, CatalogGate::Sqswap, 3, 0, 4)));
    lemma_zeroish_eqv_zero(cat_mm(CatalogGate::Sqswap, CatalogGate::Sqswap, 3, 0, 4));
    assert(cv_eqv(cat_mm(CatalogGate::Sqswap, CatalogGate::Sqswap, 3, 0, 4), swap_entry(3, 0)));
}

proof fn sqswap_mm_case_3_1()
    ensures
        cv_eqv(cat_mm(CatalogGate::Sqswap, CatalogGate::Sqswap, 3, 1, 4), swap_entry(3, 1)),
{
    reveal_with_fuel(cat_mm, 5);
    lemma_zero_zeroish();
    assert(cat_mm(CatalogGate::Sqswap, CatalogGate::Sqswap, 3, 1, 0) == cv_zero());
    assert(cv_zeroish(cat_mm(CatalogGate::Sqswap, CatalogGate::Sqswap, 3, 1, 0)));
    assert(cat_mm(CatalogGate::Sqswap, CatalogGate::Sqswap, 3, 1, 1) == cv_add(cat_mm(CatalogGate::Sqswap, CatalogGate::Sqswap, 3, 1, 0), cv_mul(cat_entry(CatalogGate::Sqswap, 3, 0), cat_entry(CatalogGate::Sqswap, 0, 1))));
    assert(cat_entry(CatalogGate::Sqswap, 3, 0) == cv_zero());
    assert(cv_zeroish(cat_entry(CatalogGate::Sqswap, 3, 0)));
    assert(cv_wf(cat_entry(CatalogGate::Sqswap, 0, 1)));
    lemma_mul_zeroish_left(cat_entry(CatalogGate::Sqswap, 3, 0), cat_entry(CatalogGate::Sqswap, 0, 1));
    assert(cv_zeroish(cv_mul(cat_entry(CatalogGate::Sqswap, 3, 0), cat_entry(CatalogGate::Sqswap, 0, 1))));
    lemma_add_zeroish_zeroish(cat_mm(CatalogGate::Sqswap, CatalogGate::Sqswap, 3, 1, 0), cv_mul(cat_entry(CatalogGate::Sqswap, 3, 0), cat_entry(CatalogGate::Sqswap, 0, 1)));
    assert(cv_zeroish(cat_mm(CatalogGate::Sqswap, CatalogGate::Sqswap, 3, 1, 1)));
    assert(cat_mm(CatalogGate::Sqswap, CatalogGate::Sqswap, 3, 1, 2) == cv_add(cat_mm(CatalogGate::Sqswap, CatalogGate::Sqswap, 3, 1, 1), cv_mul(cat_entry(CatalogGate::Sqswap, 3, 1), cat_entry(CatalogGate::Sqswap, 1, 1))));
    assert(cat_entry(CatalogGate::Sqswap, 3, 1) == cv_zero());
    assert(cv_zeroish(cat_entry(CatalogGate::Sqswap, 3, 1)));
    assert(cv_wf(cat_entry(CatalogGate::Sqswap, 1, 1)));
    lemma_mul_zeroish_left(cat_entry(CatalogGate::Sqswap, 3, 1), cat_entry(CatalogGate::Sqswap, 1, 1));
    assert(cv_zeroish(cv_mul(cat_entry(CatalogGate::Sqswap, 3, 1), cat_entry(CatalogGate::Sqswap, 1, 1))));
    lemma_add_zeroish_zeroish(cat_mm(CatalogGate::Sqswap, CatalogGate::Sqswap, 3, 1, 1), cv_mul(cat_entry(CatalogGate::Sqswap, 3, 1), cat_entry(CatalogGate::Sqswap, 1, 1)));
    assert(cv_zeroish(cat_mm(CatalogGate::Sqswap, CatalogGate::Sqswap, 3, 1, 2)));
    assert(cat_mm(CatalogGate::Sqswap, CatalogGate::Sqswap, 3, 1, 3) == cv_add(cat_mm(CatalogGate::Sqswap, CatalogGate::Sqswap, 3, 1, 2), cv_mul(cat_entry(CatalogGate::Sqswap, 3, 2), cat_entry(CatalogGate::Sqswap, 2, 1))));
    assert(cat_entry(CatalogGate::Sqswap, 3, 2) == cv_zero());
    assert(cv_zeroish(cat_entry(CatalogGate::Sqswap, 3, 2)));
    assert(cv_wf(cat_entry(CatalogGate::Sqswap, 2, 1)));
    lemma_mul_zeroish_left(cat_entry(CatalogGate::Sqswap, 3, 2), cat_entry(CatalogGate::Sqswap, 2, 1));
    assert(cv_zeroish(cv_mul(cat_entry(CatalogGate::Sqswap, 3, 2), cat_entry(CatalogGate::Sqswap, 2, 1))));
    lemma_add_zeroish_zeroish(cat_mm(CatalogGate::Sqswap, CatalogGate::Sqswap, 3, 1, 2), cv_mul(cat_entry(CatalogGate::Sqswap, 3, 2), cat_entry(CatalogGate::Sqswap, 2, 1)));
    assert(cv_zeroish(cat_mm(CatalogGate::Sqswap, CatalogGate::Sqswap, 3, 1, 3)));
    assert(cat_mm(CatalogGate::Sqswap, CatalogGate::Sqswap, 3, 1, 4) == cv_add(cat_mm(CatalogGate::Sqswap, CatalogGate::Sqswap, 3, 1, 3), cv_mul(cat_entry(CatalogGate::Sqswap, 3, 3), cat_entry(CatalogGate::Sqswap, 3, 1))));
    assert(cat_entry(CatalogGate::Sqswap, 3, 1) == cv_zero());
    assert(cv_zeroish(cat_entry(CatalogGate::Sqswap, 3, 1)));
    assert(cv_wf(cat_entry(CatalogGate::Sqswap, 3, 3)));
    lemma_mul_zeroish_right(cat_entry(CatalogGate::Sqswap, 3, 3), cat_entry(CatalogGate::Sqswap, 3, 1));
    assert(cv_zeroish(cv_mul(cat_entry(CatalogGate::Sqswap, 3, 3), cat_entry(CatalogGate::Sqswap, 3, 1))));
    lemma_add_zeroish_zeroish(cat_mm(CatalogGate::Sqswap, CatalogGate::Sqswap, 3, 1, 3), cv_mul(cat_entry(CatalogGate::Sqswap, 3, 3), cat_entry(CatalogGate::Sqswap, 3, 1)));
    assert(cv_zeroish(cat_mm(CatalogGate::Sqswap, CatalogGate::Sqswap, 3, 1, 4)));
    lemma_zeroish_eqv_zero(cat_mm(CatalogGate::Sqswap, CatalogGate::Sqswap, 3, 1, 4));
    assert(cv_eqv(cat_mm(CatalogGate::Sqswap, CatalogGate::Sqswap, 3, 1, 4), swap_entry(3, 1)));
}

proof fn sqswap_mm_case_3_2()
    ensures
        cv_eqv(cat_mm(CatalogGate::Sqswap, CatalogGate::Sqswap, 3, 2, 4), swap_entry(3, 2)),
{
    reveal_with_fuel(cat_mm, 5);
    lemma_zero_zeroish();
    assert(cat_mm(CatalogGate::Sqswap, CatalogGate::Sqswap, 3, 2, 0) == cv_zero());
    assert(cv_zeroish(cat_mm(CatalogGate::Sqswap, CatalogGate::Sqswap, 3, 2, 0)));
    assert(cat_mm(CatalogGate::Sqswap, CatalogGate::Sqswap, 3, 2, 1) == cv_add(cat_mm(CatalogGate::Sqswap, CatalogGate::Sqswap, 3, 2, 0), cv_mul(cat_entry(CatalogGate::Sqswap, 3, 0), cat_entry(CatalogGate::Sqswap, 0, 2))));
    assert(cat_entry(CatalogGate::Sqswap, 3, 0) == cv_zero());
    assert(cv_zeroish(cat_entry(CatalogGate::Sqswap, 3, 0)));
    assert(cv_wf(cat_entry(CatalogGate::Sqswap, 0, 2)));
    lemma_mul_zeroish_left(cat_entry(CatalogGate::Sqswap, 3, 0), cat_entry(CatalogGate::Sqswap, 0, 2));
    assert(cv_zeroish(cv_mul(cat_entry(CatalogGate::Sqswap, 3, 0), cat_entry(CatalogGate::Sqswap, 0, 2))));
    lemma_add_zeroish_zeroish(cat_mm(CatalogGate::Sqswap, CatalogGate::Sqswap, 3, 2, 0), cv_mul(cat_entry(CatalogGate::Sqswap, 3, 0), cat_entry(CatalogGate::Sqswap, 0, 2)));
    assert(cv_zeroish(cat_mm(CatalogGate::Sqswap, CatalogGate::Sqswap, 3, 2, 1)));
    assert(cat_mm(CatalogGate::Sqswap, CatalogGate::Sqswap, 3, 2, 2) == cv_add(cat_mm(CatalogGate::Sqswap, CatalogGate::Sqswap, 3, 2, 1), cv_mul(cat_entry(CatalogGate::Sqswap, 3, 1), cat_entry(CatalogGate::Sqswap, 1, 2))));
    assert(cat_entry(CatalogGate::Sqswap, 3, 1) == cv_zero());
    assert(cv_zeroish(cat_entry(CatalogGate::Sqswap, 3, 1)));
    assert(cv_wf(cat_entry(CatalogGate::Sqswap, 1, 2)));
    lemma_mul_zeroish_left(cat_entry(CatalogGate::Sqswap, 3, 1), cat_entry(CatalogGate::Sqswap, 1, 2));
    assert(cv_zeroish(cv_mul(cat_entry(CatalogGate::Sqswap, 3, 1), cat_entry(CatalogGate::Sqswap, 1, 2))));
    lemma_add_zeroish_zeroish(cat_mm(CatalogGate::Sqswap, CatalogGate::Sqswap, 3, 2, 1), cv_mul(cat_entry(CatalogGate::Sqswap, 3, 1), cat_entry(CatalogGate::Sqswap, 1, 2)));
    assert(cv_zeroish(cat_mm(CatalogGate::Sqswap, CatalogGate::Sqswap, 3, 2, 2)));
    assert(cat_mm(CatalogGate::Sqswap, CatalogGate::Sqswap, 3, 2, 3) == cv_add(cat_mm(CatalogGate::Sqswap, CatalogGate::Sqswap, 3, 2, 2), cv_mul(cat_entry(CatalogGate::Sqswap, 3, 2), cat_entry(CatalogGate::Sqswap, 2, 2))));
    assert(cat_entry(CatalogGate::Sqswap, 3, 2) == cv_zero());
    assert(cv_zeroish(cat_entry(CatalogGate::Sqswap, 3, 2)));
    assert(cv_wf(cat_entry(CatalogGate::Sqswap, 2, 2)));
    lemma_mul_zeroish_left(cat_entry(CatalogGate::Sqswap, 3, 2), cat_entry(CatalogGate::Sqswap, 2, 2));
    assert(cv_zeroish(cv_mul(cat_entry(CatalogGate::Sqswap, 3, 2), cat_entry(CatalogGate::Sqswap, 2, 2))));
    lemma_add_zeroish_zeroish(cat_mm(CatalogGate::Sqswap, CatalogGate::Sqswap, 3, 2, 2), cv_mul(cat_entry(CatalogGate::Sqswap, 3, 2), cat_entry(CatalogGate::Sqswap, 2, 2)));
    assert(cv_zeroish(cat_mm(CatalogGate::Sqswap, CatalogGate::Sqswap, 3, 2, 3)));
    assert(cat_mm(CatalogGate::Sqswap, CatalogGate::Sqswap, 3, 2, 4) == cv_add(cat_mm(CatalogGate::Sqswap, CatalogGate::Sqswap, 3, 2, 3), cv_mul(cat_entry(CatalogGate::Sqswap, 3, 3), cat_entry(CatalogGate::Sqswap, 3, 2))));
    assert(cat_entry(CatalogGate::Sqswap, 3, 2) == cv_zero());
    assert(cv_zeroish(cat_entry(CatalogGate::Sqswap, 3, 2)));
    assert(cv_wf(cat_entry(CatalogGate::Sqswap, 3, 3)));
    lemma_mul_zeroish_right(cat_entry(CatalogGate::Sqswap, 3, 3), cat_entry(CatalogGate::Sqswap, 3, 2));
    assert(cv_zeroish(cv_mul(cat_entry(CatalogGate::Sqswap, 3, 3), cat_entry(CatalogGate::Sqswap, 3, 2))));
    lemma_add_zeroish_zeroish(cat_mm(CatalogGate::Sqswap, CatalogGate::Sqswap, 3, 2, 3), cv_mul(cat_entry(CatalogGate::Sqswap, 3, 3), cat_entry(CatalogGate::Sqswap, 3, 2)));
    assert(cv_zeroish(cat_mm(CatalogGate::Sqswap, CatalogGate::Sqswap, 3, 2, 4)));
    lemma_zeroish_eqv_zero(cat_mm(CatalogGate::Sqswap, CatalogGate::Sqswap, 3, 2, 4));
    assert(cv_eqv(cat_mm(CatalogGate::Sqswap, CatalogGate::Sqswap, 3, 2, 4), swap_entry(3, 2)));
}

proof fn sqswap_mm_case_3_3()
    ensures
        cv_eqv(cat_mm(CatalogGate::Sqswap, CatalogGate::Sqswap, 3, 3, 4), swap_entry(3, 3)),
{
    reveal_with_fuel(cat_mm, 5);
    lemma_zero_zeroish();
    assert(cat_mm(CatalogGate::Sqswap, CatalogGate::Sqswap, 3, 3, 0) == cv_zero());
    assert(cv_zeroish(cat_mm(CatalogGate::Sqswap, CatalogGate::Sqswap, 3, 3, 0)));
    assert(cat_mm(CatalogGate::Sqswap, CatalogGate::Sqswap, 3, 3, 1) == cv_add(cat_mm(CatalogGate::Sqswap, CatalogGate::Sqswap, 3, 3, 0), cv_mul(cat_entry(CatalogGate::Sqswap, 3, 0), cat_entry(CatalogGate::Sqswap, 0, 3))));
    assert(cat_entry(CatalogGate::Sqswap, 3, 0) == cv_zero());
    assert(cv_zeroish(cat_entry(CatalogGate::Sqswap, 3, 0)));
    assert(cv_wf(cat_entry(CatalogGate::Sqswap, 0, 3)));
    lemma_mul_zeroish_left(cat_entry(CatalogGate::Sqswap, 3, 0), cat_entry(CatalogGate::Sqswap, 0, 3));
    assert(cv_zeroish(cv_mul(cat_entry(CatalogGate::Sqswap, 3, 0), cat_entry(CatalogGate::Sqswap, 0, 3))));
    lemma_add_zeroish_zeroish(cat_mm(CatalogGate::Sqswap, CatalogGate::Sqswap, 3, 3, 0), cv_mul(cat_entry(CatalogGate::Sqswap, 3, 0), cat_entry(CatalogGate::Sqswap, 0, 3)));
    assert(cv_zeroish(cat_mm(CatalogGate::Sqswap, CatalogGate::Sqswap, 3, 3, 1)));
    assert(cat_mm(CatalogGate::Sqswap, CatalogGate::Sqswap, 3, 3, 2) == cv_add(cat_mm(CatalogGate::Sqswap, CatalogGate::Sqswap, 3, 3, 1), cv_mul(cat_entry(CatalogGate::Sqswap, 3, 1), cat_entry(CatalogGate::Sqswap, 1, 3))));
    assert(cat_entry(CatalogGate::Sqswap, 3, 1) == cv_zero());
    assert(cv_zeroish(cat_entry(CatalogGate::Sqswap, 3, 1)));
    assert(cv_wf(cat_entry(CatalogGate::Sqswap, 1, 3)));
    lemma_mul_zeroish_left(cat_entry(CatalogGate::Sqswap, 3, 1), cat_entry(CatalogGate::Sqswap, 1, 3));
    assert(cv_zeroish(cv_mul(cat_entry(CatalogGate::Sqswap, 3, 1), cat_entry(CatalogGate::Sqswap, 1, 3))));
    lemma_add_zeroish_zeroish(cat_mm(CatalogGate::Sqswap, CatalogGate::Sqswap, 3, 3, 1), cv_mul(cat_entry(CatalogGate::Sqswap, 3, 1), cat_entry(CatalogGate::Sqswap, 1, 3)));
    assert(cv_zeroish(cat_mm(CatalogGate::Sqswap, CatalogGate::Sqswap, 3, 3, 2)));
    assert(cat_mm(CatalogGate::Sqswap, CatalogGate::Sqswap, 3, 3, 3) == cv_add(cat_mm(CatalogGate::Sqswap, CatalogGate::Sqswap, 3, 3, 2), cv_mul(cat_entry(CatalogGate::Sqswap, 3, 2), cat_entry(CatalogGate::Sqswap, 2, 3))));
    assert(cat_entry(CatalogGate::Sqswap, 3, 2) == cv_zero());
    assert(cv_zeroish(cat_entry(CatalogGate::Sqswap, 3, 2)));
    assert(cv_wf(cat_entry(CatalogGate::Sqswap, 2, 3)));
    lemma_mul_zeroish_left(cat_entry(CatalogGate::Sqswap, 3, 2), cat_entry(CatalogGate::Sqswap, 2, 3));
    assert(cv_zeroish(cv_mul(cat_entry(CatalogGate::Sqswap, 3, 2), cat_entry(CatalogGate::Sqswap, 2, 3))));
    lemma_add_zeroish_zeroish(cat_mm(CatalogGate::Sqswap, CatalogGate::Sqswap, 3, 3, 2), cv_mul(cat_entry(CatalogGate::Sqswap, 3, 2), cat_entry(CatalogGate::Sqswap, 2, 3)));
    assert(cv_zeroish(cat_mm(CatalogGate::Sqswap, CatalogGate::Sqswap, 3, 3, 3)));
    assert(cat_mm(CatalogGate::Sqswap, CatalogGate::Sqswap, 3, 3, 4) == cv_add(cat_mm(CatalogGate::Sqswap, CatalogGate::Sqswap, 3, 3, 3), cv_mul(cat_entry(CatalogGate::Sqswap, 3, 3), cat_entry(CatalogGate::Sqswap, 3, 3))));
    assert(cv_wf(cat_entry(CatalogGate::Sqswap, 3, 3)));
    assert(cv_wf(cat_entry(CatalogGate::Sqswap, 3, 3)));
    lemma_mul_wf(cat_entry(CatalogGate::Sqswap, 3, 3), cat_entry(CatalogGate::Sqswap, 3, 3));
    lemma_add_zeroish_left(cat_mm(CatalogGate::Sqswap, CatalogGate::Sqswap, 3, 3, 3), cv_mul(cat_entry(CatalogGate::Sqswap, 3, 3), cat_entry(CatalogGate::Sqswap, 3, 3)));
    assert((cv_mul(cat_entry(CatalogGate::Sqswap, 3, 3), cat_entry(CatalogGate::Sqswap, 3, 3))).re.a == ((1) * (1) + 2 * ((0) * (0))) * ((1) * (1)) + (-((0) * (0) + 2 * ((0) * (0)))) * ((1) * (1)));
    assert((((1) * (1) + 2 * ((0) * (0))) * ((1) * (1)) + (-((0) * (0) + 2 * ((0) * (0)))) * ((1) * (1))) == 1) by (nonlinear_arith);
    assert((cv_mul(cat_entry(CatalogGate::Sqswap, 3, 3), cat_entry(CatalogGate::Sqswap, 3, 3))).re.b == ((1) * (0) + (0) * (1)) * ((1) * (1)) + (-((0) * (0) + (0) * (0))) * ((1) * (1)));
    assert((((1) * (0) + (0) * (1)) * ((1) * (1)) + (-((0) * (0) + (0) * (0))) * ((1) * (1))) == 0) by (nonlinear_arith);
    assert((cv_mul(cat_entry(CatalogGate::Sqswap, 3, 3), cat_entry(CatalogGate::Sqswap, 3, 3))).re.d == ((1) * (1)) * ((1) * (1)));
    assert((((1) * (1)) * ((1) * (1))) == 1) by (nonlinear_arith);
    assert((cv_mul(cat_entry(CatalogGate::Sqswap, 3, 3), cat_entry(CatalogGate::Sqswap, 3, 3))).im.a == ((1) * (0) + 2 * ((0) * (0))) * ((1) * (1)) + ((0) * (1) + 2 * ((0) * (0))) * ((1) * (1)));
    assert((((1) * (0) + 2 * ((0) * (0))) * ((1) * (1)) + ((0) * (1) + 2 * ((0) * (0))) * ((1) * (1))) == 0) by (nonlinear_arith);
    assert((cv_mul(cat_entry(CatalogGate::Sqswap, 3, 3), cat_entry(CatalogGate::Sqswap, 3, 3))).im.b == ((1) * (0) + (0) * (0)) * ((1) * (1)) + ((0) * (0) + (0) * (1)) * ((1) * (1)));
    assert((((1) * (0) + (0) * (0)) * ((1) * (1)) + ((0) * (0) + (0) * (1)) * ((1) * (1))) == 0) by (nonlinear_arith);
    assert((cv_mul(cat_entry(CatalogGate::Sqswap, 3, 3), cat_entry(CatalogGate::Sqswap, 3, 3))).im.d == ((1) * (1)) * ((1) * (1)));
    assert((((1) * (1)) * ((1) * (1))) == 1) by (nonlinear_arith);
    assert((cv_mul(cat_entry(CatalogGate::Sqswap, 3, 3), cat_entry(CatalogGate::Sqswap, 3, 3))).re.a * (swap_entry(3, 3)).re.d == (swap_entry(3, 3)).re.a * (cv_mul(cat_entry(CatalogGate::Sqswap, 3, 3), cat_entry(CatalogGate::Sqswap, 3, 3))).re.d)
        by (nonlinear_arith)
        requires
            (cv_mul(cat_entry(CatalogGate::Sqswap, 3, 3), cat_entry(CatalogGate::Sqswap, 3, 3))).re.a == 1,
            (cv_mul(cat_entry(CatalogGate::Sqswap, 3, 3), cat_entry(CatalogGate::Sqswap, 3, 3))).re.d == 1,
            (swap_entry(3, 3)).re.a == 1,
            (swap_entry(3, 3)).re.d == 1;
    assert((cv_mul(cat_entry(CatalogGate::Sqswap, 3, 3), cat_entry(CatalogGate::Sqswap, 3, 3))).re.b * (swap_entry(3, 3)).re.d == (swap_entry(3, 3)).re.b * (cv_mul(cat_entry(CatalogGate::Sqswap, 3, 3), cat_entry(CatalogGate::Sqswap, 3, 3))).re.d)
        by (nonlinear_arith)
        requires
            (cv_mul(cat_entry(CatalogGate::Sqswap, 3, 3), cat_entry(CatalogGate::Sqswap, 3, 3))).re.b == 0,
            (cv_mul(cat_entry(CatalogGate::Sqswap, 3, 3), cat_entry(CatalogGate::Sqswap, 3, 3))).re.d == 1,
            (swap_entry(3, 3)).re.b == 0,
            (swap_entry(3, 3)).re.d == 1;
    assert((cv_mul(cat_entry(CatalogGate::Sqswap, 3, 3), cat_entry(CatalogGate::Sqswap, 3, 3))).im.a * (swap_entry(3, 3)).im.d == (swap_entry(3, 3)).im.a * (cv_mul(cat_entry(CatalogGate::Sqswap, 3, 3), cat_entry(CatalogGate::Sqswap, 3, 3))).im.d)
        by (nonlinear_arith)
        requires
            (cv_mul(cat_entry(CatalogGate::Sqswap, 3, 3), cat_entry(CatalogGate::Sqswap, 3, 3))).im.a == 0,
            (cv_mul(cat_entry(CatalogGate::Sqswap, 3, 3), cat_entry(CatalogGate::Sqswap, 3, 3))).im.d == 1,
            (swap_entry(3, 3)).im.a == 0,
            (swap_entry(3, 3)).im.d == 1;
    assert((cv_mul(cat_entry(CatalogGate::Sqswap, 3, 3), cat_entry(CatalogGate::Sqswap, 3, 3))).im.b * (swap_entry(3, 3)).im.d == (swap_entry(3, 3)).im.b * (cv_mul(cat_entry(CatalogGate::Sqswap, 3, 3), cat_entry(CatalogGate::Sqswap, 3, 3))).im.d)
        by (nonlinear_arith)
        requires
            (cv_mul(cat_entry(CatalogGate::Sqswap, 3, 3), cat_entry(CatalogGate::Sqswap, 3, 3))).im.b == 0,
            (cv_mul(cat_entry(CatalogGate::Sqswap, 3, 3), cat_entry(CatalogGate::Sqswap, 3, 3))).im.d == 1,
            (swap_entry(3, 3)).im.b == 0,
            (swap_entry(3, 3)).im.d == 1;
    assert(cv_eqv(cv_mul(cat_entry(CatalogGate::Sqswap, 3, 3), cat_entry(CatalogGate::Sqswap, 3, 3)), swap_entry(3, 3)));
    assert(cv_wf(swap_entry(3, 3)));
    lemma_eqv_trans(cat_mm(CatalogGate::Sqswap, CatalogGate::Sqswap, 3, 3, 4), cv_mul(cat_entry(CatalogGate::Sqswap, 3, 3), cat_entry(CatalogGate::Sqswap, 3, 3)), swap_entry(3, 3));
}

proof fn gram_vals_sqswap(i: int, j: int)
    requires
        0 <= i < 4,
        0 <= j < 4,
    ensures
        cv_eqv(cat_gram(CatalogGate::Sqswap, i, j, 4), ident_entry(i, j)),
{
    if i == 0 {
        if j == 0 {
            sqswap_gram_case_0_0();
        } else if j == 1 {
            sqswap_gram_case_0_1();
        } else if j == 2 {
            sqswap_gram_case_0_2();
        } else {
            sqswap_gram_case_0_3();
        }
    } else if i == 1 {
        if j == 0 {
            sqswap_gram_case_1_0();
        } else if j == 1 {
            sqswap_gram_case_1_1();
        } else if j == 2 {
            sqswap_gram_case_1_2();
        } else {
            sqswap_gram_case_1_3();
        }
    } else if i == 2 {
        if j == 0 {
            sqswap_gram_case_2_0();
        } else if j == 1 {
            sqswap_gram_case_2_1();
        } else if j == 2 {
            sqswap_gram_case_2_2();
        } else {
            sqswap_gram_case_2_3();
        }
    } else {
        if j == 0 {
            sqswap_gram_case_3_0();
        } else if j == 1 {
            sqswap_gram_case_3_1();
        } else if j == 2 {
            sqswap_gram_case_3_2();
        } else {
            sqswap_gram_case_3_3();
        }
    }
}

proof fn mm_vals_sqswap(i: int, j: int)
    requires
        0 <= i < 4,
        0 <= j < 4,
    ensures
        cv_eqv(cat_mm(CatalogGate::Sqswap, CatalogGate::Sqswap, i, j, 4), swap_entry(i, j)),
{
    if i == 0 {
        if j == 0 {
            sqswap_mm_case_0_0();
        } else if j == 1 {
            sqswap_mm_case_0_1();
        } else if j == 2 {
            sqswap_mm_case_0_2();
        } else {
            sqswap_mm_case_0_3();
        }
    } else if i == 1 {
        if j == 0 {
            sqswap_mm_case_1_0();
        } else if j == 1 {
            sqswap_mm_case_1_1();
        } else if j == 2 {
            sqswap_mm_case_1_2();
        } else {
            sqswap_mm_case_1_3();
        }
    } else if i == 2 {
        if j == 0 {
            sqswap_mm_case_2_0();
        } else if j == 1 {
            sqswap_mm_case_2_1();
        } else if j == 2 {
            sqswap_mm_case_2_2();
        } else {
            sqswap_mm_case_2_3();
        }
    } else {
        if j == 0 {
            sqswap_mm_case_3_0();
        } else if j == 1 {
            sqswap_mm_case_3_1();
        } else if j == 2 {
            sqswap_mm_case_3_2();
        } else {
            sqswap_mm_case_3_3();
        }
    }
}

/// The CNOT matrix is unitary.
pub proof fn lemma_cnot_unitary()
    ensures
        unitary(cnot_v(), 4),
{
    lemma_zero_zeroish();
    lemma_one_unit();
    let p: spec_fn(int) -> int = |r: int| cnot_p(r);
    let u: spec_fn(int) -> CplxV = |r: int| cv_one();
    assert(perm_shape(CatalogGate::Cnot, p, u)) by {
        assert forall|r: int, c: int|
            0 <= r < 4 && 0 <= c < 4 implies #[trigger] cat_entry(CatalogGate::Cnot, r, c) == (if c == p(
            r,
        ) {
            u(r)
        } else {
            cv_zero()
        }) by {}
    }
    assert(perm_ok(CatalogGate::Cnot, p, u)) by {
        assert forall|r: int| 0 <= r < 4 implies 0 <= #[trigger] p(r) < 4 by {}
        assert forall|r: int, r2: int|
            #![trigger p(r), p(r2)]
            0 <= r < 4 && 0 <= r2 < 4 && p(r) == p(r2) implies r == r2 by {}
        assert forall|r: int| 0 <= r < 4 implies cv_wf(#[trigger] u(r)) by {
            assert(u(r) == cv_one());
        }
        assert forall|r: int|
            0 <= r < 4 implies cv_eqv(#[trigger] cv_mul(u(r), cv_conj(u(r))), cv_one()) by {
            assert(u(r) == cv_one());
        }
    }
    assert(mat_wf(cnot_v(), 4));
    assert forall|i: int, j: int| 0 <= i < 4 && 0 <= j < 4 implies cv_eqv(
        #[trigger] gram_sum(cnot_v(), i, j, 4),
        ident_entry(i, j),
    ) by {
        lemma_perm_gram(CatalogGate::Cnot, p, u, i, j, 4);
        lemma_gram_bridge(cnot_v(), CatalogGate::Cnot, i, j, 4);
        if i != j {
            lemma_zeroish_eqv_zero(cat_gram(CatalogGate::Cnot, i, j, 4));
        }
    }
}


/// The SWAP matrix is unitary.
pub proof fn lemma_swap_unitary()
    ensures
        unitary(swap_v(), 4),
{
    lemma_zero_zeroish();
    lemma_one_unit();
    let p: spec_fn(int) -> int = |r: int| swap_p(r);
    let u: spec_fn(int) -> CplxV = |r: int| cv_one();
    assert(perm_shape(CatalogGate::Swap, p, u)) by {
        assert forall|r: int, c: int|
            0 <= r < 4 && 0 <= c < 4 implies #[trigger] cat_entry(CatalogGate::Swap, r, c) == (if c == p(
            r,
        ) {
            u(r)
        } else {
            cv_zero()
        }) by {}
    }
    assert(perm_ok(CatalogGate::Swap, p, u)) by {
        assert forall|r: int| 0 <= r < 4 implies 0 <= #[trigger] p(r) < 4 by {}
        assert forall|r: int, r2: int|
            #![trigger p(r), p(r2)]
            0 <= r < 4 && 0 <= r2 < 4 && p(r) == p(r2) implies r == r2 by {}
        assert forall|r: int| 0 <= r < 4 implies cv_wf(#[trigger] u(r)) by {
            assert(u(r) == cv_one());
        }
        assert forall|r: int|
            0 <= r < 4 implies cv_eqv(#[trigger] cv_mul(u(r), cv_conj(u(r))), cv_one()) by {
            assert(u(r) == cv_one());
        }
    }
    assert(mat_wf(swap_v(), 4));
    assert forall|i: int, j: int| 0 <= i < 4 && 0 <= j < 4 implies cv_eqv(
        #[trigger] gram_sum(swap_v(), i, j, 4),
        ident_entry(i, j),
    ) by {
        lemma_perm_gram(CatalogGate::Swap, p, u, i, j, 4);
        lemma_gram_bridge(swap_v(), CatalogGate::Swap, i, j, 4);
        if i != j {
            lemma_zeroish_eqv_zero(cat_gram(CatalogGate::Swap, i, j, 4));
        }
    }
}


/// SWAP is its own inverse: `SWAP * SWAP == I` exactly.
pub proof fn lemma_swap_squared_identity()
    ensures
        mat_mul_is(swap_v(), swap_v(), identity_v(4), 4),
{
    lemma_zero_zeroish();
    lemma_one_unit();
    let p: spec_fn(int) -> int = |r: int| swap_p(r);
    assert forall|r: int, c: int|
        0 <= r < 4 && 0 <= c < 4 implies #[trigger] cat_entry(CatalogGate::Swap, r, c) == (if c == p(r) {
        cv_one()
    } else {
        cv_zero()
    }) by {}
    assert forall|r: int| 0 <= r < 4 implies 0 <= #[trigger] p(r) < 4 by {}
    assert forall|r: int| 0 <= r < 4 implies p(#[trigger] p(r)) == r by {}
    assert forall|i: int, j: int| 0 <= i < 4 && 0 <= j < 4 implies cv_eqv(
        #[trigger] mm_sum(swap_v(), swap_v(), i, j, 4),
        identity_v(4)[i][j],
    ) by {
        lemma_perm_mm(CatalogGate::Swap, p, i, j, 4);
        lemma_mm_bridge(swap_v(), swap_v(), CatalogGate::Swap, CatalogGate::Swap, i, j, 4);
        if i != j {
            lemma_zeroish_eqv_zero(cat_mm(CatalogGate::Swap, CatalogGate::Swap, i, j, 4));
        }
        assert(identity_v(4)[i][j] == ident_entry(i, j));
    }
}


/// The SQSWAP matrix is unitary.
pub proof fn lemma_sqswap_unitary()
    ensures
        unitary(sqswap_v(), 4),
{
    assert(mat_wf(sqswap_v(), 4));
    assert forall|i: int, j: int| 0 <= i < 4 && 0 <= j < 4 implies cv_eqv(
        #[trigger] gram_sum(sqswap_v(), i, j, 4),
        ident_entry(i, j),
    ) by {
        gram_vals_sqswap(i, j);
        lemma_gram_bridge(sqswap_v(), CatalogGate::Sqswap, i, j, 4);
    }
}

/// SQSWAP is a square root of SWAP: `SQSWAP * SQSWAP == SWAP` exactly.
pub proof fn lemma_sqswap_squared_swap()
    ensures
        mat_mul_is(sqswap_v(), sqswap_v(), swap_v(), 4),
{
    assert forall|i: int, j: int| 0 <= i < 4 && 0 <= j < 4 implies cv_eqv(
        #[trigger] mm_sum(sqswap_v(), sqswap_v(), i, j, 4),
        swap_v()[i][j],
    ) by {
        mm_vals_sqswap(i, j);
        lemma_mm_bridge(sqswap_v(), sqswap_v(), CatalogGate::Sqswap, CatalogGate::Sqswap, i, j, 4);
        assert(swap_v()[i][j] == swap_entry(i, j));
    }
}

/// Rows 2 (10) and 3 (11) of CNOT are the identity's rows exchanged, and
/// every other row matches the identity.
pub proof fn lemma_cnot_rows_vs_identity()
    ensures
        forall|j: int| 0 <= j < 4 ==> cnot_v()[2][j] == identity_v(4)[3][j],
        forall|j: int| 0 <= j < 4 ==> cnot_v()[3][j] == identity_v(4)[2][j],
        forall|i: int, j: int|
            0 <= i < 2 && 0 <= j < 4 ==> #[trigger] cnot_v()[i][j] == identity_v(4)[i][j],
{
}

} // verus!
