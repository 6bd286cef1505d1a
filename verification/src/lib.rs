//! Algebraic building blocks for simulating small quantum circuits: an exact
//! complex-scalar type, catalogs of fixed unitary gate matrices for one, two
//! and three qubits, and the applicator contracts through which an external
//! state-vector component consumes those matrices.
//!
//! Every scalar is kept exactly, as a value `(a + b*sqrt(2)) / d` with integer
//! parts, so unitarity, the self-inverse identities and
//! `SQSWAP * SQSWAP == SWAP` are proved over the exact complex field rather
//! than over rounded approximations.
use vstd::prelude::*;

pub mod catalog;
pub mod complex;
pub mod matrix;
pub mod single;
pub mod double;
pub mod triple;

verus! {

/// An opaque reference to one addressable two-level system inside an external
/// register. This crate never inspects it; it is handed through to the
/// applicator that owns the state.
#[derive(Clone, Copy, Debug, PartialEq, Eq, Structural)]
pub struct Qubit {
    pub index: usize,
}

} // verus!
