//! A verified core for a signed-distance-field (SDF) scene viewer.
//!
//! The crate has two tightly coupled halves:
//!
//! * [`sdf`] — the scene expression compiler: text-emitting constructors for
//!   geometric primitives and boolean operators, and an accumulator
//!   ([`sdf::SDFBuilder`]) that folds a sequence of operator applications into
//!   one distance-field expression and assembles the final shader source.
//! * [`node_graph`] and [`eval`] — a typed dataflow graph of operator nodes
//!   and its evaluator: evaluating a designated node recursively resolves its
//!   inputs (stored constants or upstream outputs), caching every computed
//!   output so each node runs at most once per pass.
//!
//! Scalars are carried as exact fixed-point decimals ([`fixed::Fixed`]), so
//! every arithmetic step and every digit of the emitted shader text is pinned
//! down by the contracts.

pub mod eval;
pub mod fixed;
pub mod node_graph;
pub mod sdf;
pub mod vector;
