//! The three-qubit gate catalog: 8x8 matrices indexed by the joint state of
//! (qubit1, qubit2, qubit3) read as a 3-bit value with qubit1 as the highest
//! bit.
use vstd::prelude::*;

use crate::Qubit;
use crate::catalog::{
    CatalogGate, cat_entry, cat_gram, cat_mm, lemma_gram_bridge, lemma_mm_bridge, lemma_perm_gram,
    lemma_perm_mm, perm_ok, perm_shape,
};
use crate::complex::{
    Complex, CplxV, Scalar, cv_conj, cv_eqv, cv_mul, cv_one, cv_wf, cv_zero, lemma_one_unit,
    lemma_zero_zeroish, lemma_zeroish_eqv_zero,
};
use crate::matrix::{
    gram_sum, ident_entry, identity_v, mat_mul_is, mat_view, mat_wf, mm_sum, unitary,
};

verus! {

/// A quantum gate on three qubits, as its 8x8 matrix.
pub struct TripleGate {
    pub matrix: Vec<Vec<Complex>>,
}

/// The capability an external state representation offers: apply an 8x8
/// unitary to the joint subspace of the three named qubits, `qubit1` giving
/// the highest index bit and `qubit3` the lowest. The contract prescribes
/// only the matrix shape and that ordering convention.
pub trait TripleGateApplicator {
    fn apply_triple(
        &mut self,
        matrix: &Vec<Vec<Complex>>,
        qubit1: &Qubit,
        qubit2: &Qubit,
        qubit3: &Qubit,
    )
        requires
            mat_wf(mat_view(*matrix), 8),
    ;
}

/// The basis permutation of CCNOT (Toffoli): states 6 (110) and 7 (111)
/// trade places; every other state stays.
pub open spec fn ccnot_p(i: int) -> int {
    if i == 6 {
        7
    } else if i == 7 {
        6
    } else {
        i
    }
}

/// Entry `(i, j)` of CCNOT: row `i` of the identity with rows 6 and 7 exchanged.
pub open spec fn ccnot_entry(i: int, j: int) -> CplxV {
    ident_entry(ccnot_p(i), j)
}

pub open spec fn ccnot_v() -> Seq<Seq<CplxV>> {
    Seq::new(8, |i: int| Seq::new(8, |j: int| ccnot_entry(i, j)))
}

/// The basis permutation of CSWAP (Fredkin): states 5 (101) and 6 (110)
/// trade places; every other state stays.
pub open spec fn cswap_p(i: int) -> int {
    if i == 5 {
        6
    } else if i == 6 {
        5
    } else {
        i
    }
}

/// Entry `(i, j)` of CSWAP: row `i` of the identity with rows 5 and 6 exchanged.
pub open spec fn cswap_entry(i: int, j: int) -> CplxV {
    ident_entry(cswap_p(i), j)
}

pub open spec fn cswap_v() -> Seq<Seq<CplxV>> {
    Seq::new(8, |i: int| Seq::new(8, |j: int| cswap_entry(i, j)))
}

impl TripleGate {
    /// The CCNOT (Toffoli) gate: the identity except that states 6 (110) and
    /// 7 (111) trade places — the third qubit flips exactly when the first
    /// two are both set.
    pub fn ccnot() -> (g: TripleGate)
        ensures
            mat_view(g.matrix) == ccnot_v(),
    {
        let zr = Scalar::new(0, 0, 1);
        let z0 = Complex::new(zr, zr);
        let o = Complex::new(Scalar::new(1, 0, 1), zr);
        let mut m: Vec<Vec<Complex>> = Vec::new();
        let mut i: usize = 0;
        while i < 8
            invariant
                i <= 8,
                m@.len() == i,
                forall|r: int| 0 <= r < i ==> (#[trigger] m@[r])@.len() == 8,
                forall|r: int, c: int|
                    0 <= r < i && 0 <= c < 8 ==> (#[trigger] m@[r]@[c])@ == ccnot_entry(r, c),
                z0@ == cv_zero(),
                o@ == cv_one(),
            decreases 8 - i,
        {
            let mut row: Vec<Complex> = Vec::new();
            let mut j: usize = 0;
            while j < 8
                invariant
                    j <= 8,
                    i < 8,
                    row@.len() == j,
                    forall|c: int| 0 <= c < j ==> (#[trigger] row@[c])@ == ccnot_entry(i as int, c),
                    z0@ == cv_zero(),
                    o@ == cv_one(),
                decreases 8 - j,
            {
                let e = if (i == 6 && j == 7) || (i == 7 && j == 6) {
                    o
                } else if i == j && i != 6 && i != 7 {
                    o
                } else {
                    z0
                };
                row.push(e);
                j += 1;
            }
            m.push(row);
            i += 1;
        }
        proof {
            assert(mat_view(m) =~~= ccnot_v());
        }
        TripleGate { matrix: m }
    }

    /// The CSWAP (Fredkin) gate: the identity except that states 5 (101) and
    /// 6 (110) trade places — the second and third qubits swap exactly when
    /// the first is set.
    pub fn cswap() -> (g: TripleGate)
        ensures
            mat_view(g.matrix) == cswap_v(),
    {
        let zr = Scalar::new(0, 0, 1);
        let z0 = Complex::new(zr, zr);
        let o = Complex::new(Scalar::new(1, 0, 1), zr);
        let mut m: Vec<Vec<Complex>> = Vec::new();
        let mut i: usize = 0;
        while i < 8
            invariant
                i <= 8,
                m@.len() == i,
                forall|r: int| 0 <= r < i ==> (#[trigger] m@[r])@.len() == 8,
                forall|r: int, c: int|
                    0 <= r < i && 0 <= c < 8 ==> (#[trigger] m@[r]@[c])@ == cswap_entry(r, c),
                z0@ == cv_zero(),
                o@ == cv_one(),
            decreases 8 - i,
        {
            let mut row: Vec<Complex> = Vec::new();
            let mut j: usize = 0;
            while j < 8
                invariant
                    j <= 8,
                    i < 8,
                    row@.len() == j,
                    forall|c: int| 0 <= c < j ==> (#[trigger] row@[c])@ == cswap_entry(i as int, c),
                    z0@ == cv_zero(),
                    o@ == cv_one(),
                decreases 8 - j,
            {
                let e = if (i == 5 && j == 6) || (i == 6 && j == 5) {
                    o
                } else if i == j && i != 5 && i != 6 {
                    o
                } else {
                    z0
                };
                row.push(e);
                j += 1;
            }
            m.push(row);
            i += 1;
        }
        proof {
            assert(mat_view(m) =~~= cswap_v());
        }
        TripleGate { matrix: m }
    }
}

/// The CCNOT matrix is unitary.
pub proof fn lemma_ccnot_unitary()
    ensures
        unitary(ccnot_v(), 8),
{
    lemma_zero_zeroish();
    lemma_one_unit();
    let p: spec_fn(int) -> int = |r: int| ccnot_p(r);
    let u: spec_fn(int) -> CplxV = |r: int| cv_one();
    assert(perm_shape(CatalogGate::Ccnot, p, u)) by {
        assert forall|r: int, c: int|
            0 <= r < 8 && 0 <= c < 8 implies #[trigger] cat_entry(CatalogGate::Ccnot, r, c) == (if c == p(
            r,
        ) {
            u(r)
        } else {
            cv_zero()
        }) by {}
    }
    assert(perm_ok(CatalogGate::Ccnot, p, u)) by {
        assert forall|r: int| 0 <= r < 8 implies 0 <= #[trigger] p(r) < 8 by {}
        assert forall|r: int, r2: int|
            #![trigger p(r), p(r2)]
            0 <= r < 8 && 0 <= r2 < 8 && p(r) == p(r2) implies r == r2 by {}
        assert forall|r: int| 0 <= r < 8 implies cv_wf(#[trigger] u(r)) by {
            assert(u(r) == cv_one());
        }
        assert forall|r: int|
            0 <= r < 8 implies cv_eqv(#[trigger] cv_mul(u(r), cv_conj(u(r))), cv_one()) by {
            assert(u(r) == cv_one());
        }
    }
    assert(mat_wf(ccnot_v(), 8));
    assert forall|i: int, j: int| 0 <= i < 8 && 0 <= j < 8 implies cv_eqv(
        #[trigger] gram_sum(ccnot_v(), i, j, 8),
        ident_entry(i, j),
    ) by {
        lemma_perm_gram(CatalogGate::Ccnot, p, u, i, j, 8);
        lemma_gram_bridge(ccnot_v(), CatalogGate::Ccnot, i, j, 8);
        if i != j {
            lemma_zeroish_eqv_zero(cat_gram(CatalogGate::Ccnot, i, j, 8));
        }
    }
}


/// The CSWAP matrix is unitary.
pub proof fn lemma_cswap_unitary()
    ensures
        unitary(cswap_v(), 8),
{
    lemma_zero_zeroish();
    lemma_one_unit();
    let p: spec_fn(int) -> int = |r: int| cswap_p(r);
    let u: spec_fn(int) -> CplxV = |r: int| cv_one();
    assert(perm_shape(CatalogGate::Cswap, p, u)) by {
        assert forall|r: int, c: int|
            0 <= r < 8 && 0 <= c < 8 implies #[trigger] cat_entry(CatalogGate::Cswap, r, c) == (if c == p(
            r,
        ) {
            u(r)
        } else {
            cv_zero()
        }) by {}
    }
    assert(perm_ok(CatalogGate::Cswap, p, u)) by {
        assert forall|r: int| 0 <= r < 8 implies 0 <= #[trigger] p(r) < 8 by {}
        assert forall|r: int, r2: int|
            #![trigger p(r), p(r2)]
            0 <= r < 8 && 0 <= r2 < 8 && p(r) == p(r2) implies r == r2 by {}
        assert forall|r: int| 0 <= r < 8 implies cv_wf(#[trigger] u(r)) by {
            assert(u(r) == cv_one());
        }
        assert forall|r: int|
            0 <= r < 8 implies cv_eqv(#[trigger] cv_mul(u(r), cv_conj(u(r))), cv_one()) by {
            assert(u(r) == cv_one());
        }
    }
    assert(mat_wf(cswap_v(), 8));
    assert forall|i: int, j: int| 0 <= i < 8 && 0 <= j < 8 implies cv_eqv(
        #[trigger] gram_sum(cswap_v(), i, j, 8),
        ident_entry(i, j),
    ) by {
        lemma_perm_gram(CatalogGate::Cswap, p, u, i, j, 8);
        lemma_gram_bridge(cswap_v(), CatalogGate::Cswap, i, j, 8);
        if i != j {
            lemma_zeroish_eqv_zero(cat_gram(CatalogGate::Cswap, i, j, 8));
        }
    }
}


/// CCNOT is its own inverse: `CCNOT * CCNOT == I` exactly.
pub proof fn lemma_ccnot_squared_identity()
    ensures
        mat_mul_is(ccnot_v(), ccnot_v(), identity_v(8), 8),
{
    lemma_zero_zeroish();
    lemma_one_unit();
    let p: spec_fn(int) -> int = |r: int| ccnot_p(r);
    assert forall|r: int, c: int|
        0 <= r < 8 && 0 <= c < 8 implies #[trigger] cat_entry(CatalogGate::Ccnot, r, c) == (if c == p(r) {
        cv_one()
    } else {
        cv_zero()
    }) by {}
    assert forall|r: int| 0 <= r < 8 implies 0 <= #[trigger] p(r) < 8 by {}
    assert forall|r: int| 0 <= r < 8 implies p(#[trigger] p(r)) == r by {}
    assert forall|i: int, j: int| 0 <= i < 8 && 0 <= j < 8 implies cv_eqv(
        #[trigger] mm_sum(ccnot_v(), ccnot_v(), i, j, 8),
        identity_v(8)[i][j],
    ) by {
        lemma_perm_mm(CatalogGate::Ccnot, p, i, j, 8);
        lemma_mm_bridge(ccnot_v(), ccnot_v(), CatalogGate::Ccnot, CatalogGate::Ccnot, i, j, 8);
        if i != j {
            lemma_zeroish_eqv_zero(cat_mm(CatalogGate::Ccnot, CatalogGate::Ccnot, i, j, 8));
        }
        assert(identity_v(8)[i][j] == ident_entry(i, j));
    }
}


/// CSWAP is its own inverse: `CSWAP * CSWAP == I` exactly.
pub proof fn lemma_cswap_squared_identity()
    ensures
        mat_mul_is(cswap_v(), cswap_v(), identity_v(8), 8),
{
    lemma_zero_zeroish();
    lemma_one_unit();
    let p: spec_fn(int) -> int = |r: int| cswap_p(r);
    assert forall|r: int, c: int|
        0 <= r < 8 && 0 <= c < 8 implies #[trigger] cat_entry(CatalogGate::Cswap, r, c) == (if c == p(r) {
        cv_one()
    } else {
        cv_zero()
    }) by {}
    assert forall|r: int| 0 <= r < 8 implies 0 <= #[trigger] p(r) < 8 by {}
    assert forall|r: int| 0 <= r < 8 implies p(#[trigger] p(r)) == r by {}
    assert forall|i: int, j: int| 0 <= i < 8 && 0 <= j < 8 implies cv_eqv(
        #[trigger] mm_sum(cswap_v(), cswap_v(), i, j, 8),
        identity_v(8)[i][j],
    ) by {
        lemma_perm_mm(CatalogGate::Cswap, p, i, j, 8);
        lemma_mm_bridge(cswap_v(), cswap_v(), CatalogGate::Cswap, CatalogGate::Cswap, i, j, 8);
        if i != j {
            lemma_zeroish_eqv_zero(cat_mm(CatalogGate::Cswap, CatalogGate::Cswap, i, j, 8));
        }
        assert(identity_v(8)[i][j] == ident_entry(i, j));
    }
}


} // verus!
