//! A single index of every fixed matrix in this crate: a name for each, its
//! entries as a function of row and column, and recursive entry sums for
//! `M * conj(M^T)` and for matrix products, free of sequences. The concrete
//! complex arithmetic of each gate is handled over these sums, and the bridge
//! lemmas below carry the outcome to the `Seq`-level matrices by congruence
//! alone.
use vstd::prelude::*;

use crate::complex::{
    CplxV, cv_add, cv_conj, cv_eqv, cv_mul, cv_one, cv_wf, cv_zero, cv_zeroish,
    lemma_add_zeroish_left, lemma_add_zeroish_right, lemma_add_zeroish_zeroish, lemma_conj_wf,
    lemma_eqv_trans, lemma_mul_wf, lemma_mul_zeroish_left, lemma_mul_zeroish_right, lemma_one_unit,
    lemma_zero_zeroish,
};
use crate::double::{cnot_entry, sqswap_entry, swap_entry};
use crate::matrix::{gram_sum, ident_entry, mm_sum};
use crate::single::{h_entry, phase_entry, sqnot_entry, x_entry, y_entry, z_entry};
use crate::triple::{ccnot_entry, cswap_entry};

verus! {

/// One tag per catalog matrix; the phase-shift tag carries its parameter.
pub ghost enum CatalogGate {
    Identity1,
    PauliX,
    PauliY,
    PauliZ,
    Hadamard,
    Sqnot,
    PhaseShift(CplxV),
    Cnot,
    Swap,
    Sqswap,
    Ccnot,
    Cswap,
}

/// The dimension of the tagged matrix: 2, 4 or 8.
pub open spec fn cat_dim(g: CatalogGate) -> nat {
    match g {
        CatalogGate::Cnot | CatalogGate::Swap | CatalogGate::Sqswap => 4,
        CatalogGate::Ccnot | CatalogGate::Cswap => 8,
        _ => 2,
    }
}

/// Entry `(i, j)` of the tagged matrix.
pub open spec fn cat_entry(g: CatalogGate, i: int, j: int) -> CplxV {
    match g {
        CatalogGate::Identity1 => ident_entry(i, j),
        CatalogGate::PauliX => x_entry(i, j),
        CatalogGate::PauliY => y_entry(i, j),
        CatalogGate::PauliZ => z_entry(i, j),
        CatalogGate::Hadamard => h_entry(i, j),
        CatalogGate::Sqnot => sqnot_entry(i, j),
        CatalogGate::PhaseShift(z) => phase_entry(z, i, j),
        CatalogGate::Cnot => cnot_entry(i, j),
        CatalogGate::Swap => swap_entry(i, j),
        CatalogGate::Sqswap => sqswap_entry(i, j),
        CatalogGate::Ccnot => ccnot_entry(i, j),
        CatalogGate::Cswap => cswap_entry(i, j),
    }
}

/// Entry `(i, j)` of `G * conj(G^T)` summed over the first `t` columns, with
/// the entries taken from the entry function of the tag.
pub open spec fn cat_gram(g: CatalogGate, i: int, j: int, t: nat) -> CplxV
    decreases t,
{
    if t == 0 {
        cv_zero()
    } else {
        cv_add(
            cat_gram(g, i, j, (t - 1) as nat),
            cv_mul(cat_entry(g, i, t - 1), cv_conj(cat_entry(g, j, t - 1))),
        )
    }
}

/// Entry `(i, j)` of the product `G1 * G2` summed over the first `t` terms,
/// with the entries taken from the entry functions of the tags.
pub open spec fn cat_mm(g1: CatalogGate, g2: CatalogGate, i: int, j: int, t: nat) -> CplxV
    decreases t,
{
    if t == 0 {
        cv_zero()
    } else {
        cv_add(
            cat_mm(g1, g2, i, j, (t - 1) as nat),
            cv_mul(cat_entry(g1, i, t - 1), cat_entry(g2, t - 1, j)),
        )
    }
}

/// On a matrix whose rows `i` and `j` hold the tagged gate's entries, the
/// `Seq`-level Gram sum agrees with the entry-function Gram sum. By induction
/// on `t`; no arithmetic takes part.
pub proof fn lemma_gram_bridge(m: Seq<Seq<CplxV>>, g: CatalogGate, i: int, j: int, t: nat)
    requires
        forall|c: int| 0 <= c < t ==> #[trigger] m[i][c] == cat_entry(g, i, c),
        forall|c: int| 0 <= c < t ==> #[trigger] m[j][c] == cat_entry(g, j, c),
    ensures
        gram_sum(m, i, j, t) == cat_gram(g, i, j, t),
    decreases t,
{
    if t > 0 {
        lemma_gram_bridge(m, g, i, j, (t - 1) as nat);
    }
}

/// On matrices whose row `i` and column `j` hold the tagged gates' entries,
/// the `Seq`-level product sum agrees with the entry-function product sum.
pub proof fn lemma_mm_bridge(
    m1: Seq<Seq<CplxV>>,
    m2: Seq<Seq<CplxV>>,
    g1: CatalogGate,
    g2: CatalogGate,
    i: int,
    j: int,
    t: nat,
)
    requires
        forall|c: int| 0 <= c < t ==> #[trigger] m1[i][c] == cat_entry(g1, i, c),
        forall|c: int| 0 <= c < t ==> #[trigger] m2[c][j] == cat_entry(g2, c, j),
    ensures
        mm_sum(m1, m2, i, j, t) == cat_mm(g1, g2, i, j, t),
    decreases t,
{
    if t > 0 {
        lemma_mm_bridge(m1, m2, g1, g2, i, j, (t - 1) as nat);
    }
}

/// The tagged matrix is a generalized permutation: row `r` holds the unit
/// `u(r)` in column `p(r)` and zeros everywhere else.
pub open spec fn perm_shape(g: CatalogGate, p: spec_fn(int) -> int, u: spec_fn(int) -> CplxV) -> bool {
    forall|r: int, c: int|
        0 <= r < cat_dim(g) && 0 <= c < cat_dim(g) ==> #[trigger] cat_entry(g, r, c) == (if c == p(
            r,
        ) {
            u(r)
        } else {
            cv_zero()
        })
}

/// The permutation stays in range and is injective, and every row's unit has
/// unit modulus.
pub open spec fn perm_ok(g: CatalogGate, p: spec_fn(int) -> int, u: spec_fn(int) -> CplxV) -> bool {
    &&& forall|r: int| 0 <= r < cat_dim(g) ==> 0 <= #[trigger] p(r) < cat_dim(g)
    &&& forall|r: int, r2: int|
        #![trigger p(r), p(r2)]
        0 <= r < cat_dim(g) && 0 <= r2 < cat_dim(g) && p(r) == p(r2) ==> r == r2
    &&& forall|r: int| 0 <= r < cat_dim(g) ==> cv_wf(#[trigger] u(r))
    &&& forall|r: int|
        0 <= r < cat_dim(g) ==> cv_eqv(#[trigger] cv_mul(u(r), cv_conj(u(r))), cv_one())
}

/// Row `i` of a generalized permutation matrix is orthonormal to row `j`:
/// the Gram entry over the first `t` columns denotes one exactly when the
/// rows coincide and their unit column has been passed, and zero otherwise.
pub proof fn lemma_perm_gram(
    g: CatalogGate,
    p: spec_fn(int) -> int,
    u: spec_fn(int) -> CplxV,
    i: int,
    j: int,
    t: nat,
)
    requires
        perm_shape(g, p, u),
        perm_ok(g, p, u),
        0 <= i < cat_dim(g),
        0 <= j < cat_dim(g),
        t <= cat_dim(g),
    ensures
        i == j && p(i) < t ==> cv_eqv(cat_gram(g, i, j, t), cv_one()),
        !(i == j && p(i) < t) ==> cv_zeroish(cat_gram(g, i, j, t)),
        cv_wf(cat_gram(g, i, j, t)),
    decreases t,
{
    lemma_zero_zeroish();
    if t == 0 {
    } else {
        let tm1 = (t - 1) as nat;
        lemma_perm_gram(g, p, u, i, j, tm1);
        let prev = cat_gram(g, i, j, tm1);
        let ei = cat_entry(g, i, t - 1);
        let ej = cat_entry(g, j, t - 1);
        let term = cv_mul(ei, cv_conj(ej));
        assert(cat_gram(g, i, j, t) == cv_add(prev, term));
        if i == j && p(i) == t - 1 {
            assert(ei == u(i));
            assert(ej == u(i));
            assert(cv_zeroish(prev));
            lemma_conj_wf(u(i));
            lemma_mul_wf(u(i), cv_conj(u(i)));
            lemma_add_zeroish_left(prev, term);
            lemma_eqv_trans(cv_add(prev, term), term, cv_one());
        } else {
            if p(i) != t - 1 {
                assert(ei == cv_zero());
                if p(j) == t - 1 {
                    assert(ej == u(j));
                } else {
                    assert(ej == cv_zero());
                }
                lemma_conj_wf(ej);
                lemma_mul_zeroish_left(ei, cv_conj(ej));
            } else {
                assert(p(j) != t - 1);
                assert(ej == cv_zero());
                assert(cv_conj(ej) == cv_zero());
                assert(ei == u(i));
                lemma_mul_zeroish_right(ei, cv_conj(ej));
            }
            assert(cv_zeroish(term));
            if i == j && p(i) < t {
                lemma_add_zeroish_right(prev, term);
                lemma_eqv_trans(cv_add(prev, term), prev, cv_one());
            } else {
                assert(cv_zeroish(prev));
                lemma_add_zeroish_zeroish(prev, term);
            }
        }
    }
}

/// A real permutation matrix that is its own inverse (`p(p(r)) == r`, with
/// every unit equal to one) squares to the identity: the product entry over
/// the first `t` terms denotes one exactly on the diagonal once the hit
/// column has been passed, and zero otherwise.
pub proof fn lemma_perm_mm(g: CatalogGate, p: spec_fn(int) -> int, i: int, j: int, t: nat)
    requires
        forall|r: int, c: int|
            0 <= r < cat_dim(g) && 0 <= c < cat_dim(g) ==> #[trigger] cat_entry(g, r, c) == (if c
                == p(r) {
                cv_one()
            } else {
                cv_zero()
            }),
        forall|r: int| 0 <= r < cat_dim(g) ==> 0 <= #[trigger] p(r) < cat_dim(g),
        forall|r: int| 0 <= r < cat_dim(g) ==> p(#[trigger] p(r)) == r,
        0 <= i < cat_dim(g),
        0 <= j < cat_dim(g),
        t <= cat_dim(g),
    ensures
        i == j && p(i) < t ==> cv_eqv(cat_mm(g, g, i, j, t), cv_one()),
        !(i == j && p(i) < t) ==> cv_zeroish(cat_mm(g, g, i, j, t)),
        cv_wf(cat_mm(g, g, i, j, t)),
    decreases t,
{
    lemma_zero_zeroish();
    if t == 0 {
    } else {
        let tm1 = (t - 1) as nat;
        lemma_perm_mm(g, p, i, j, tm1);
        let prev = cat_mm(g, g, i, j, tm1);
        let ei = cat_entry(g, i, t - 1);
        let ej = cat_entry(g, t - 1, j);
        let term = cv_mul(ei, ej);
        assert(cat_mm(g, g, i, j, t) == cv_add(prev, term));
        if i == j && p(i) == t - 1 {
            assert(ei == cv_one());
            assert(p(t - 1) == i);
            assert(ej == cv_one());
            assert(cv_zeroish(prev));
            lemma_one_unit();
            assert(cv_conj(cv_one()) == cv_one());
            assert(cv_eqv(term, cv_one()));
            assert(cv_wf(term));
            lemma_add_zeroish_left(prev, term);
            lemma_eqv_trans(cv_add(prev, term), term, cv_one());
        } else {
            if p(i) != t - 1 {
                assert(ei == cv_zero());
                if p(t - 1) == j {
                    assert(ej == cv_one());
                } else {
                    assert(ej == cv_zero());
                }
                lemma_mul_zeroish_left(ei, ej);
            } else {
                assert(p(t - 1) == i);
                assert(p(t - 1) != j);
                assert(ej == cv_zero());
                assert(ei == cv_one());
                lemma_mul_zeroish_right(ei, ej);
            }
            assert(cv_zeroish(term));
            if i == j && p(i) < t {
                lemma_add_zeroish_right(prev, term);
                lemma_eqv_trans(cv_add(prev, term), prev, cv_one());
            } else {
                assert(cv_zeroish(prev));
                lemma_add_zeroish_zeroish(prev, term);
            }
        }
    }
}

} // verus!
