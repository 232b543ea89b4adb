//! Configuration and bookkeeping of a matrix-free finite-element operator
//! for the CEED benchmark problems.
//!
//! The library holds everything about such an operator that is a matter of
//! integers and names: the table of benchmark problems, the index map between
//! a process-local vector and the element buffers, the shapes of the bases and
//! of the quadrature data, the composition of the operators from their fields
//! and the order of the steps that one application of the operator takes. The
//! numerical kernels, the mesh and the distributed vectors belong to the
//! caller, who is told what to do with them.
use vstd::prelude::*;

pub mod context;
pub mod dm;
pub mod dofs;
pub mod error;
pub mod basis;
pub mod operator;
pub mod prelude;
pub mod problem;
pub mod restriction;
pub mod shell;

pub use crate::context::{Meles, MelesMatShellContext};
pub use crate::error::Error;

verus! {

/// What kind of problem a context is set up to solve.
#[derive(Clone, Copy, Debug, PartialEq, Eq, Structural)]
pub enum MethodType {
    /// One of the CEED benchmark problems.
    BenchmarkProblem,
}

} // verus!
