//! A solver based on the Nelder-Mead method.
use vstd::prelude::*;

verus! {

/// Recipe of the Nelder-Mead solver.
#[derive(Debug)]
pub struct NelderMeadSolverRecipe {}

} // verus!
