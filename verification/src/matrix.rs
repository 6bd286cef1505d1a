//! Gate matrices as mathematical objects: well-formedness, the identity,
//! entry sums for matrix products, and the unitarity statement
//! `M * conj(M^T) == I` over exact complex values.
use vstd::prelude::*;

use crate::complex::{Complex, CplxV, cv_add, cv_conj, cv_eqv, cv_mul, cv_one, cv_wf, cv_zero};

verus! {

/// Entry `(i, j)` of the identity matrix.
pub open spec fn ident_entry(i: int, j: int) -> CplxV {
    if i == j {
        cv_one()
    } else {
        cv_zero()
    }
}

/// The `n x n` identity matrix.
pub open spec fn identity_v(n: nat) -> Seq<Seq<CplxV>> {
    Seq::new(n, |i: int| Seq::new(n, |j: int| ident_entry(i, j)))
}

/// The mathematical value of an executable matrix: every entry viewed exactly.
pub open spec fn mat_view(m: Vec<Vec<Complex>>) -> Seq<Seq<CplxV>> {
    m@.map_values(|r: Vec<Complex>| r@.map_values(|c: Complex| c@))
}

/// A square matrix of dimension `n` whose entries are all well formed.
pub open spec fn mat_wf(m: Seq<Seq<CplxV>>, n: nat) -> bool {
    &&& m.len() == n
    &&& forall|i: int| 0 <= i < n ==> (#[trigger] m[i]).len() == n
    &&& forall|i: int, j: int| 0 <= i < n && 0 <= j < n ==> cv_wf(#[trigger] m[i][j])
}

/// Entry `(i, j)` of `M * conj(M^T)`, summed over the first `t` columns:
/// the Hermitian inner product of rows `i` and `j` of `M`.
pub open spec fn gram_sum(m: Seq<Seq<CplxV>>, i: int, j: int, t: nat) -> CplxV
    decreases t,
{
    if t == 0 {
        cv_zero()
    } else {
        cv_add(gram_sum(m, i, j, (t - 1) as nat), cv_mul(m[i][t - 1], cv_conj(m[j][t - 1])))
    }
}

/// `M` is unitary: `M * conj(M^T)` equals the identity of dimension `n`,
/// entry by entry, as exact complex values.
pub open spec fn unitary(m: Seq<Seq<CplxV>>, n: nat) -> bool {
    &&& mat_wf(m, n)
    &&& forall|i: int, j: int|
        0 <= i < n && 0 <= j < n ==> cv_eqv(#[trigger] gram_sum(m, i, j, n), ident_entry(i, j))
}

/// Entry `(i, j)` of the matrix product `m1 * m2`, summed over the first `t` terms.
pub open spec fn mm_sum(m1: Seq<Seq<CplxV>>, m2: Seq<Seq<CplxV>>, i: int, j: int, t: nat) -> CplxV
    decreases t,
{
    if t == 0 {
        cv_zero()
    } else {
        cv_add(mm_sum(m1, m2, i, j, (t - 1) as nat), cv_mul(m1[i][t - 1], m2[t - 1][j]))
    }
}

/// The matrix product `m1 * m2` equals `r`, entry by entry, as exact complex
/// values, over dimension `n`.
pub open spec fn mat_mul_is(
    m1: Seq<Seq<CplxV>>,
    m2: Seq<Seq<CplxV>>,
    r: Seq<Seq<CplxV>>,
    n: nat,
) -> bool {
    forall|i: int, j: int|
        0 <= i < n && 0 <= j < n ==> cv_eqv(#[trigger] mm_sum(m1, m2, i, j, n), r[i][j])
}

} // verus!
