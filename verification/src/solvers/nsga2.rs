//! A solver based on NSGA-II.
use vstd::prelude::*;
use crate::capability::{Capabilities, Capability};
use crate::solver::{SolverSpec, SolverSpecBuilder};
use crate::text::concat;

verus! {

/// The specification of the NSGA-II solver built by a crate of the given version:
/// it is named `NSGA-II`, carries the attribute `version` = `kurobako_solvers=<version>`,
/// and is capable of everything but conditional search spaces.
pub fn nsga2_specification(crate_version: &str) -> (res: SolverSpec)
    ensures
        res.name@ == "NSGA-II"@,
        res.attrs@ == Map::<Seq<char>, Seq<char>>::empty().insert(
            "version"@,
            "kurobako_solvers="@ + crate_version@,
        ),
        res.capabilities@ == Set::<Capability>::full().remove(Capability::Conditional),
{
    let version = concat("kurobako_solvers=", crate_version);
    let mut caps = Capabilities::all();
    caps.remove_capability(Capability::Conditional);
    SolverSpecBuilder::new("NSGA-II").attr("version", version.as_str()).capabilities(caps).finish()
}

} // verus!
