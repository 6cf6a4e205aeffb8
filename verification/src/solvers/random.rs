//! A solver based on random search.
use vstd::prelude::*;
use crate::capability::{Capabilities, Capability};
use crate::solver::{SolverSpec, SolverSpecBuilder};
use crate::text::concat;

verus! {

/// Recipe of `RandomSolver`.
#[derive(Debug)]
pub struct RandomSolverRecipe {}

/// Factory of `RandomSolver`.
#[derive(Debug)]
pub struct RandomSolverFactory {}

impl RandomSolverRecipe {
    /// Creates the solver factory.
    pub fn create_factory(&self) -> (res: RandomSolverFactory) {
        RandomSolverFactory {}
    }
}

impl RandomSolverFactory {
    /// The specification of the random solver, built by a crate of the given version:
    /// it is named `Random`, carries the attribute `version` = `kurobako=<version>`
    /// and is capable of everything.
    pub fn specification(&self, crate_version: &str) -> (res: SolverSpec)
        ensures
            res.name@ == "Random"@,
            res.attrs@ == Map::<Seq<char>, Seq<char>>::empty().insert(
                "version"@,
                "kurobako="@ + crate_version@,
            ),
            res.capabilities@ == Set::<Capability>::full(),
    {
        let version = concat("kurobako=", crate_version);
        let spec = SolverSpecBuilder::new("Random").attr("version", version.as_str()).capabilities(
            Capabilities::all(),
        );
        spec.finish()
    }
}

} // verus!
