//! Many-objective test problems (MaF).
use vstd::prelude::*;
use vstd::string::StringExecFns;
use crate::text::{concat, decimal, indexed_name, indexed_name_of, u64_to_string};
use crate::domain::{domain_valid, is_continuous_var, lemma_indexed_vars_distinct, variable_valid, Distribution, RangeSpec, VariableSpec};
use crate::error::ErrorKind;
use crate::problem::{ProblemSpec, ProblemSpecBuilder};

verus! {

/// MaF functions.
#[derive(Debug, Clone, Copy, PartialEq, Eq, Structural)]
pub enum Maf {
    /// Modified inverted DTLZ1.
    Maf1,
    /// DTLZ2BZ.
    Maf2,
    /// Convex DTLZ3.
    Maf3,
    Maf4,
    Maf5,
    Maf6,
    Maf7,
    Maf8,
    Maf9,
    Maf10,
    Maf11,
    Maf12,
    Maf13,
    Maf14,
    Maf15,
}

/// Recipe of `MafProblem`.
#[derive(Debug, Clone, Copy)]
pub struct MafProblemRecipe {
    pub maf: Maf,
    pub objectives: usize,
}

/// Factory of `MafProblem`.
#[derive(Debug, Clone, Copy)]
pub struct MafProblemFactory {
    pub maf: Maf,
    pub objectives: usize,
}

/// MaF problem.
#[derive(Debug, Clone, Copy)]
pub struct MafProblem {
    pub maf: Maf,
    pub objectives: usize,
}

/// The functions whose name is known.
pub open spec fn is_named(m: Maf) -> bool {
    m == Maf::Maf1 || m == Maf::Maf2
}

/// The functions whose number of decision variables is known.
pub open spec fn has_dimensions(m: Maf) -> bool {
    m == Maf::Maf1 || m == Maf::Maf2 || m == Maf::Maf3
}

pub open spec fn maf_name(m: Maf) -> Seq<char> {
    if m == Maf::Maf1 {
        "MaF1 (modified inverted DTLZ1)"@
    } else {
        "MaF2 (DTLZ2BZ)"@
    }
}

impl Maf {
    /// The name of the function.
    pub fn name(&self) -> (res: &'static str)
        requires
            is_named(*self),
        ensures
            res@ == maf_name(*self),
    {
        match self {
            Maf::Maf1 => "MaF1 (modified inverted DTLZ1)",
            _ => "MaF2 (DTLZ2BZ)",
        }
    }

    /// The number of decision variables for the given number of objectives.
    pub fn decision_variables(&self, objectives: usize) -> (res: usize)
        requires
            has_dimensions(*self),
            objectives + 9 <= usize::MAX,
        ensures
            res == objectives + 9,
    {
        objectives + 9
    }
}

impl MafProblemRecipe {
    /// Creates the factory of the recipe's function and number of objectives.
    pub fn create_factory(&self) -> (res: MafProblemFactory)
        ensures
            res.maf == self.maf,
            res.objectives == self.objectives,
    {
        MafProblemFactory { maf: self.maf, objectives: self.objectives }
    }
}

impl MafProblemFactory {
    /// Creates a problem of the factory's function and number of objectives.
    pub fn create_problem(&self) -> (res: MafProblem)
        ensures
            res.maf == self.maf,
            res.objectives == self.objectives,
    {
        MafProblem { maf: self.maf, objectives: self.objectives }
    }

    /// The problem name: the function name followed by the number of objectives.
    pub fn problem_name(&self) -> (res: String)
        requires
            is_named(self.maf),
        ensures
            res@ == maf_name(self.maf) + " [objectives="@ + decimal(self.objectives as nat) + "]"@,
    {
        let mut res = self.maf.name().to_owned();
        res.append(" [objectives=");
        res.append(u64_to_string(self.objectives as u64).as_str());
        res.append("]");
        res
    }
}

/// `n` continuous variables named `prefix` followed by their position, with the shape that
/// both `[0, 1)` and an unbounded range have (the low bound below the high one, and not
/// positive).
pub open spec fn unit_vars(vars: Seq<VariableSpec>, prefix: Seq<char>, n: nat) -> bool {
    &&& vars.len() == n
    &&& forall|i: int| 0 <= i < n ==> is_continuous_var(#[trigger] vars[i], indexed_name(prefix, i as nat), true, false, Distribution::Uniform)
}

fn indexed_vars(prefix: &str, n: usize) -> (res: Vec<VariableSpec>)
    ensures
        unit_vars(res@, prefix@, n as nat),
        forall|i: int| 0 <= i < n ==> variable_valid(#[trigger] res@[i]),
        domain_valid(res@) <==> n > 0,
{
    let mut vars: Vec<VariableSpec> = Vec::new();
    let mut i: usize = 0;
    while i < n
        invariant
            i <= n,
            vars@.len() == i,
            forall|k: int| 0 <= k < i ==> is_continuous_var(#[trigger] vars@[k], indexed_name(prefix@, k as nat), true, false, Distribution::Uniform),
            forall|k: int| 0 <= k < i ==> variable_valid(#[trigger] vars@[k]),
        decreases n - i,
    {
        let name = indexed_name_of(prefix, i as u64);
        vars.push(VariableSpec {
            name,
            range: RangeSpec::Continuous { low_below_high: true, low_positive: false },
            distribution: Distribution::Uniform,
            constrained: false,
        });
        i = i + 1;
    }
    proof {
        assert forall|k: int| 0 <= k < vars@.len() implies (#[trigger] vars@[k]).name@ == indexed_name(prefix@, k as nat) by {
            assert(is_continuous_var(vars@[k], indexed_name(prefix@, k as nat), true, false, Distribution::Uniform));
        }
        lemma_indexed_vars_distinct(vars@, prefix@);
    }
    vars
}

impl MafProblemFactory {
    /// The specification of the problem, built by a crate of the given version, as the
    /// problem declares it: named as `problem_name` gives, with its attributes, the decision
    /// variables `x0`, `x1`, ... in `[0, 1)` followed by one unbounded parameter
    /// `objective0`, `objective1`, ... per objective, and no value variable at all.
    ///
    /// The objectives are declared among the parameters, so the value domain stays empty and
    /// the specification is always refused with `InvalidInput`, whatever the function and the
    /// number of objectives.
    pub fn specification(&self, crate_version: &str) -> (res: Result<ProblemSpec, ErrorKind>)
        requires
            is_named(self.maf),
            self.objectives + 9 <= usize::MAX,
        ensures
            res == Err::<ProblemSpec, ErrorKind>(ErrorKind::InvalidInput),
    {
        let name = self.problem_name();
        let version = concat("kurobako_problems=", crate_version);
        let mut params = indexed_vars("x", self.maf.decision_variables(self.objectives));
        let mut objectives = indexed_vars("objective", self.objectives);
        params.append(&mut objectives);
        let builder = ProblemSpecBuilder::new(name.as_str())
            .attr("version", version.as_str())
            .attr(
                "paper",
                "Cheng, Ran, et al. \"A benchmark test suite for evolutionary many-objective optimization.\" Complex & Intelligent Systems 3.1 (2017): 67-81.",
            )
            .params(params);
        proof {
            assert(!domain_valid(builder.spec_values()));
        }
        builder.finish()
    }
}

} // verus!
