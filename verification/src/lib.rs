//! A typed representation and validation layer for quantum-circuit gate
//! descriptors.
//!
//! A raw property bag (gate name, qubit index lists, classical index list,
//! numeric parameters, Pauli-operator tags, optional unitary matrix) is
//! normalized into a strongly-typed gate value whose field shapes are
//! guaranteed consistent with its name by a static gate-kind table.
//! Validated gate values come with a canonical representation: structural
//! equality, a deterministic order-sensitive hash, a deterministic string
//! form, and a lossless decompose/recompose round trip.
//!
//! Floating-point parameters and complex matrix entries are held as their
//! IEEE-754 bit patterns (`u64` per component), which is also the exact
//! representation that equality and hashing are defined over.

pub mod display;
pub mod gate;
pub mod hashing;
pub mod kinds;
pub mod laws;
pub mod parametric;
pub mod property;
