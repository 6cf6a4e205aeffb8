//! Synthetic test functions.
use vstd::prelude::*;
use crate::error::ErrorKind;
use crate::problems::mfb::{mfb, MfbEvaluator, MfbProblem, MfbProblemRecipe};

verus! {

/// Recipe of a synthetic problem.
#[derive(Debug)]
pub enum SyntheticProblemRecipe {
    Mfb(MfbProblemRecipe),
}

/// Synthetic problem.
#[derive(Debug)]
pub enum SyntheticProblem {
    Mfb(MfbProblem),
}

/// Evaluator of a synthetic problem.
#[derive(Debug)]
pub enum SyntheticEvaluator {
    Mfb(MfbEvaluator),
}

impl SyntheticProblemRecipe {
    /// Creates the problem of the recipe; fails as the inner recipe does.
    pub fn create_problem(&self) -> (res: Result<SyntheticProblem, ErrorKind>)
        ensures
            match (self, res) {
                (SyntheticProblemRecipe::Mfb(r), Ok(SyntheticProblem::Mfb(p))) => 1 <= r.problem_number <= 13
                    && 1 <= r.fidelity_levels <= 10_000 && r.dimensions >= 1
                    && p.fidelity_levels == r.fidelity_levels && p.mfb == mfb(r.dimensions, r.problem_number),
                (SyntheticProblemRecipe::Mfb(r), Err(e)) => e == ErrorKind::InvalidInput && !(1 <= r.problem_number <= 13
                    && 1 <= r.fidelity_levels <= 10_000 && r.dimensions >= 1),
            },
    {
        match self {
            SyntheticProblemRecipe::Mfb(r) => match r.create_problem() {
                Ok(p) => Ok(SyntheticProblem::Mfb(p)),
                Err(e) => Err(e),
            },
        }
    }
}

impl SyntheticProblem {
    /// Creates an evaluator of the problem.
    pub fn create_evaluator(&self) -> (res: SyntheticEvaluator)
        ensures
            match (self, res) {
                (SyntheticProblem::Mfb(p), SyntheticEvaluator::Mfb(e)) => e.mfb == p.mfb && e.fidelity_levels == p.fidelity_levels,
            },
    {
        match self {
            SyntheticProblem::Mfb(p) => SyntheticEvaluator::Mfb(p.create_evaluator()),
        }
    }
}

} // verus!
