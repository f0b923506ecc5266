use vstd::prelude::*;

verus! {

/// Which problem a solver is set up for.
#[derive(Clone, Copy, PartialEq, Eq, Debug, Structural)]
pub enum SolverType {
    Steady,
    Transient,
}

impl Default for SolverType {
    /// A new solver solves the steady problem.
    fn default() -> (r: SolverType)
        ensures
            r == SolverType::Steady,
    {
        SolverType::Steady
    }
}

} // verus!
