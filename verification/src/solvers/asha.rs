//! A solver based on the asynchronous successive halving algorithm (ASHA) over a base
//! solver: its specification, the steps it tells the base solver, and the observation
//! identifiers it gives to the base solver's trials.
use vstd::prelude::*;
use std::collections::HashMap;
use crate::capability::Capability;
use crate::solver::{SolverSpec, SolverSpecBuilder};
use crate::text::concat;
use crate::trial::{generate_step, IdGen, TrialId};

verus! {

broadcast use vstd::std_specs::hash::group_hash_axioms;

/// The specification of the ASHA solver over a base solver, built by a crate of the given
/// version: it is named `ASHA with <base name>`, carries the attributes `version` and
/// `paper`, and has the capabilities of the base solver but multi-objective.
pub fn asha_specification(base: SolverSpec, crate_version: &str) -> (res: SolverSpec)
    ensures
        res.name@ == "ASHA with "@ + base.name@,
        res.attrs@ == Map::<Seq<char>, Seq<char>>::empty().insert(
            "version"@,
            "kurobako_solvers="@ + crate_version@,
        ).insert(
            "paper"@,
            "Li, Liam, et al. \"Massively parallel hyperparameter tuning.\" arXiv preprint arXiv:1810.05934 (2018)."@,
        ),
        res.capabilities@ == base.capabilities@.remove(Capability::MultiObjective),
{
    let SolverSpec { name, attrs: _, mut capabilities } = base;
    capabilities.remove_capability(Capability::MultiObjective);
    let version = concat("kurobako_solvers=", crate_version);
    let name = concat("ASHA with ", name.as_str());
    SolverSpecBuilder::new(name.as_str())
        .attr("version", version.as_str())
        .attr(
            "paper",
            "Li, Liam, et al. \"Massively parallel hyperparameter tuning.\" arXiv preprint arXiv:1810.05934 (2018).",
        )
        .capabilities(capabilities)
        .finish()
}

/// The step a base solver is told for an observation of the given rank in a bracket whose
/// largest budget is `max_budget`.
pub fn asha_current_step(max_budget: u64, rank: u64) -> (res: u64)
    requires
        rank <= max_budget,
    ensures
        res == max_budget - rank,
{
    max_budget - rank
}

/// Every observation identifier in `m` was handed out before `next`, and no two trials
/// share one.
pub open spec fn ids_fresh_and_distinct(m: Map<u64, u64>, next: u64) -> bool {
    &&& forall|k: u64| #[trigger] m.contains_key(k) ==> m[k] < next
    &&& forall|k1: u64, k2: u64|
        #[trigger] m.contains_key(k1) && #[trigger] m.contains_key(k2) && k1 != k2 ==> m[k1] != m[k2]
}

/// One call of `ObsIdMap::obs_id` for the trial `trial`: a known trial keeps its
/// observation identifier, and a new one gets the generator's next identifier.
pub open spec fn obs_id_step(
    before: Map<u64, u64>,
    idg_before: IdGen,
    trial: u64,
    id: u64,
    after: Map<u64, u64>,
    idg_after: IdGen,
) -> bool {
    if before.contains_key(trial) {
        id == before[trial] && after == before && idg_after.next_value() == idg_before.next_value()
    } else {
        generate_step(idg_before, TrialId(id), idg_after) && after == before.insert(trial, id)
    }
}

/// The observation identifiers given to the trials of the base solver.
#[derive(Debug)]
pub struct ObsIdMap {
    ids: HashMap<u64, u64>,
}

impl View for ObsIdMap {
    type V = Map<u64, u64>;

    closed spec fn view(&self) -> Map<u64, u64> {
        self.ids@
    }
}

impl ObsIdMap {
    /// Makes a map that knows no trial.
    pub fn new() -> (res: Self)
        ensures
            res@ == Map::<u64, u64>::empty(),
    {
        ObsIdMap { ids: HashMap::new() }
    }

    /// The observation identifier of the trial `trial`: the one it was given before, or,
    /// for a trial not seen yet, a new one from `idg`.
    pub fn obs_id(&mut self, trial: TrialId, idg: &mut IdGen) -> (res: u64)
        requires
            old(idg).next_value() < u64::MAX,
        ensures
            obs_id_step(old(self)@, *old(idg), trial.0, res, final(self)@, *final(idg)),
    {
        match self.ids.get(&trial.0) {
            Some(id) => *id,
            None => {
                let id = idg.generate().get();
                self.ids.insert(trial.0, id);
                id
            },
        }
    }
}

/// Observation identifiers stay distinct: when every identifier in the map was handed out
/// before the generator's next one and no two trials share one, the same holds after any
/// call of `obs_id`, since a new trial gets an identifier that was never handed out.
pub proof fn lemma_obs_ids_stay_distinct(
    before: Map<u64, u64>,
    idg_before: IdGen,
    trial: u64,
    id: u64,
    after: Map<u64, u64>,
    idg_after: IdGen,
)
    requires
        ids_fresh_and_distinct(before, idg_before.next_value()),
        obs_id_step(before, idg_before, trial, id, after, idg_after),
    ensures
        ids_fresh_and_distinct(after, idg_after.next_value()),
        after.contains_key(trial) && after[trial] == id,
{
    if !before.contains_key(trial) {
        assert forall|k: u64| #[trigger] after.contains_key(k) implies after[k] < idg_after.next_value() by {
            if k != trial {
                assert(before.contains_key(k));
            }
        }
        assert forall|k1: u64, k2: u64|
            #[trigger] after.contains_key(k1) && #[trigger] after.contains_key(k2) && k1 != k2
            implies after[k1] != after[k2] by {
            if k1 != trial && k2 != trial {
                assert(before.contains_key(k1) && before.contains_key(k2));
            } else if k1 == trial {
                assert(before.contains_key(k2));
            } else {
                assert(before.contains_key(k1));
            }
        }
    }
}

} // verus!
