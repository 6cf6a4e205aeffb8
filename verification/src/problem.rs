//! Problem specifications: their builder, their evaluable steps, and the capabilities a
//! problem requires of a solver.
use vstd::prelude::*;
use crate::capability::{Capabilities, Capability};
use crate::error::ErrorKind;
use crate::attributes::Attributes;
use crate::domain::{check_domain, domain_valid, shape_of, Distribution, RangeKind, RangeSpec, VariableShape, VariableSpec};

verus! {

/// `s` is a valid list of evaluation steps: non-empty, positive and strictly increasing.
pub open spec fn valid_steps(s: Seq<u64>) -> bool {
    &&& s.len() > 0
    &&& s[0] > 0
    &&& forall|i: int, j: int| 0 <= i < j < s.len() ==> s[i] < s[j]
}

/// Which step lists are valid: an empty one is not, nor one whose first step is 0, nor one
/// in which a step is not below the next; `1, 2, ..., n` is, for any positive `n`; and in a
/// valid list the `i`-th step is at least `i + 1`, so the steps are positive.
pub proof fn lemma_step_validity(s: Seq<u64>, n: u64, i: int)
    ensures
        s.len() == 0 ==> !valid_steps(s),
        s.len() > 0 && s[0] == 0 ==> !valid_steps(s),
        0 <= i && i + 1 < s.len() && s[i] >= s[i + 1] ==> !valid_steps(s),
        n > 0 ==> valid_steps(steps_up_to(n)),
        valid_steps(s) && 0 <= i < s.len() ==> s[i] >= i + 1,
{
    if valid_steps(s) && 0 <= i < s.len() {
        lemma_steps_grow(s, i);
    }
}

proof fn lemma_steps_grow(s: Seq<u64>, i: int)
    requires
        valid_steps(s),
        0 <= i < s.len(),
    ensures
        s[i] >= i + 1,
    decreases i,
{
    if i > 0 {
        lemma_steps_grow(s, i - 1);
        assert(s[i - 1] < s[i]);
    }
}

/// The steps `1, 2, ..., n`.
pub open spec fn steps_up_to(n: u64) -> Seq<u64> {
    Seq::new(n as nat, |i: int| (i + 1) as u64)
}

#[derive(Debug)]
enum EvaluableStepsInner {
    Max(u64),
    Steps(Vec<u64>),
}

/// Evaluable steps of a problem.
#[derive(Debug)]
pub struct EvaluableSteps(EvaluableStepsInner);

impl View for EvaluableSteps {
    type V = Seq<u64>;

    closed spec fn view(&self) -> Seq<u64> {
        match self.0 {
            EvaluableStepsInner::Max(n) => steps_up_to(n),
            EvaluableStepsInner::Steps(v) => v@,
        }
    }
}

proof fn lemma_steps_gap(s: Seq<u64>, i: int, j: int)
    requires
        forall|a: int| 0 <= a < s.len() - 1 ==> #[trigger] s[a] < s[a + 1],
        0 <= i <= j < s.len(),
    ensures
        s[j] - s[i] >= j - i,
    decreases j - i,
{
    if i < j {
        lemma_steps_gap(s, i, j - 1);
        assert(s[j - 1] < s[j]);
    }
}

/// A valid step list whose last element is its length is `1, 2, ..., n`.
proof fn lemma_dense_steps(s: Seq<u64>)
    requires
        valid_steps(s),
        s.last() == s.len(),
    ensures
        s == steps_up_to(s.last()),
{
    let n = s.len() as int;
    assert forall|a: int| 0 <= a < s.len() - 1 implies #[trigger] s[a] < s[a + 1] by {
        assert(s[a] < s[a + 1]);
    }
    assert forall|i: int| 0 <= i < n implies s[i] == i + 1 by {
        lemma_steps_gap(s, 0, i);
        lemma_steps_gap(s, i, n - 1);
    }
    assert(s =~= steps_up_to(s.last()));
}

impl EvaluableSteps {
    #[verifier::type_invariant]
    closed spec fn wf(self) -> bool {
        match self.0 {
            EvaluableStepsInner::Max(n) => n >= 1,
            EvaluableStepsInner::Steps(v) => valid_steps(v@),
        }
    }

    /// Makes a new `EvaluableSteps` instance.
    ///
    /// Fails with `InvalidInput` unless `steps` is non-empty, starts above zero and is strictly increasing.
    pub fn new(steps: Vec<u64>) -> (res: Result<Self, ErrorKind>)
        ensures
            match res {
                Ok(s) => valid_steps(steps@) && s@ == steps@,
                Err(e) => !valid_steps(steps@) && e == ErrorKind::InvalidInput,
            },
    {
        if steps.len() == 0 {
            return Err(ErrorKind::InvalidInput);
        }
        if steps[0] == 0 {
            return Err(ErrorKind::InvalidInput);
        }
        let mut i: usize = 1;
        while i < steps.len()
            invariant
                1 <= i <= steps@.len(),
                forall|a: int, b: int| 0 <= a < b < i ==> steps@[a] < steps@[b],
            decreases steps.len() - i,
        {
            if !(steps[i - 1] < steps[i]) {
                return Err(ErrorKind::InvalidInput);
            }
            i = i + 1;
        }
        let last = steps[steps.len() - 1];
        if last == steps.len() as u64 {
            proof {
                lemma_dense_steps(steps@);
            }
            Ok(EvaluableSteps(EvaluableStepsInner::Max(last)))
        } else {
            Ok(EvaluableSteps(EvaluableStepsInner::Steps(steps)))
        }
    }

    /// Returns the last evaluation step.
    pub fn last(&self) -> (res: u64)
        ensures
            valid_steps(self@),
            res == self@.last(),
    {
        proof {
            use_type_invariant(self);
        }
        match &self.0 {
            EvaluableStepsInner::Max(n) => *n,
            EvaluableStepsInner::Steps(ns) => ns[ns.len() - 1],
        }
    }

    /// Returns all the steps in increasing order.
    pub fn iter(&self) -> (res: Vec<u64>)
        ensures
            res@ == self@,
            valid_steps(res@),
    {
        proof {
            use_type_invariant(self);
        }
        match &self.0 {
            EvaluableStepsInner::Max(n) => {
                let mut res: Vec<u64> = Vec::new();
                let mut i: u64 = 0;
                while i < *n
                    invariant
                        i <= *n,
                        res@ == steps_up_to(i),
                    decreases *n - i,
                {
                    i = i + 1;
                    res.push(i);
                    assert(res@ =~= steps_up_to(i));
                }
                res
            },
            EvaluableStepsInner::Steps(ns) => ns.clone(),
        }
    }
}

/// Of valid steps, as `iter` lists them, the one that `last` returns is the largest, and it
/// is at least the number of steps.
pub proof fn lemma_last_step_is_largest(s: Seq<u64>)
    requires
        valid_steps(s),
    ensures
        forall|i: int| 0 <= i < s.len() ==> s[i] <= s.last(),
        s.last() >= s.len(),
{
    assert forall|a: int| 0 <= a < s.len() - 1 implies #[trigger] s[a] < s[a + 1] by {
        assert(s[a] < s[a + 1]);
    }
    assert forall|i: int| 0 <= i < s.len() implies s[i] <= s.last() by {
        if i < s.len() - 1 {
            assert(s[i] < s[s.len() - 1]);
        }
    }
    lemma_steps_gap(s, 0, s.len() - 1);
}

/// The capability a solver needs to handle a parameter of the given shape.
pub open spec fn shape_capability(v: VariableShape) -> Capability {
    match (v.range, v.distribution) {
        (RangeKind::Continuous, Distribution::Uniform) => Capability::UniformContinuous,
        (RangeKind::Continuous, Distribution::LogUniform) => Capability::LogUniformContinuous,
        (RangeKind::Discrete, Distribution::Uniform) => Capability::UniformDiscrete,
        (RangeKind::Discrete, Distribution::LogUniform) => Capability::LogUniformDiscrete,
        (RangeKind::Categorical, _) => Capability::Categorical,
    }
}

/// The capabilities a solver needs for a problem with `values` objectives and the given parameters:
/// multi-objective when there is more than one objective, conditional when some parameter is
/// constrained, and the range capability of each parameter.
pub open spec fn required_capabilities(values: nat, params: Seq<VariableShape>) -> Set<Capability> {
    Set::new(|c: Capability|
        (c == Capability::MultiObjective && values > 1)
        || (c == Capability::Conditional && exists|i: int| 0 <= i < params.len() && (#[trigger] params[i]).constrained)
        || exists|i: int| 0 <= i < params.len() && shape_capability(#[trigger] params[i]) == c)
}

/// Adding a parameter to a problem never drops a requirement: a solver that cannot handle
/// a problem cannot handle it with more parameters either.
pub proof fn lemma_requirements_grow(values: nat, params: Seq<VariableShape>, v: VariableShape)
    ensures
        required_capabilities(values, params).subset_of(required_capabilities(values, params.push(v))),
        required_capabilities(values, params.push(v)).contains(shape_capability(v)),
{
    let next = params.push(v);
    assert forall|d: Capability| required_capabilities(values, params).contains(d)
        implies required_capabilities(values, next).contains(d) by {
        if d == Capability::Conditional && exists|k: int| 0 <= k < params.len() && (#[trigger] params[k]).constrained {
            let k = choose|k: int| 0 <= k < params.len() && (#[trigger] params[k]).constrained;
            assert(next[k] == params[k]);
        }
        if exists|k: int| 0 <= k < params.len() && shape_capability(#[trigger] params[k]) == d {
            let k = choose|k: int| 0 <= k < params.len() && shape_capability(#[trigger] params[k]) == d;
            assert(next[k] == params[k]);
        }
    }
    assert(next[params.len() as int] == v);
}

/// The capability a solver needs to handle a parameter of the given shape.
pub fn capability_of(v: VariableShape) -> (res: Capability)
    ensures
        res == shape_capability(v),
{
    match (v.range, v.distribution) {
        (RangeKind::Continuous, Distribution::Uniform) => Capability::UniformContinuous,
        (RangeKind::Continuous, Distribution::LogUniform) => Capability::LogUniformContinuous,
        (RangeKind::Discrete, Distribution::Uniform) => Capability::UniformDiscrete,
        (RangeKind::Discrete, Distribution::LogUniform) => Capability::LogUniformDiscrete,
        (RangeKind::Categorical, _) => Capability::Categorical,
    }
}

/// Returns the capabilities required of a solver to handle a problem that has `values`
/// objective values and parameters of the given shapes.
pub fn requirements(values: usize, params: &Vec<VariableShape>) -> (res: Capabilities)
    ensures
        res@ == required_capabilities(values as nat, params@),
{
    let mut c = Capabilities::empty();
    if values > 1 {
        c.add_capability(Capability::MultiObjective);
    }
    let ghost base = if values > 1 { set![Capability::MultiObjective] } else { Set::<Capability>::empty() };
    let mut i: usize = 0;
    while i < params.len()
        invariant
            i <= params@.len(),
            base == (if values > 1 { set![Capability::MultiObjective] } else { Set::<Capability>::empty() }),
            c@ == base.union(required_capabilities(0, params@.take(i as int))),
        decreases params.len() - i,
    {
        let v = params[i];
        let ghost prev = params@.take(i as int);
        let ghost next = params@.take(i + 1);
        if v.constrained {
            c.add_capability(Capability::Conditional);
        }
        c.add_capability(capability_of(v));
        proof {
            assert(next == prev.push(v));
            assert forall|d: Capability| #[trigger] required_capabilities(0, next).contains(d)
                == (required_capabilities(0, prev).contains(d)
                    || (d == Capability::Conditional && v.constrained)
                    || d == shape_capability(v)) by {
                if required_capabilities(0, prev).contains(d) {
                    if d == Capability::Conditional && exists|k: int| 0 <= k < prev.len() && (#[trigger] prev[k]).constrained {
                        let k = choose|k: int| 0 <= k < prev.len() && (#[trigger] prev[k]).constrained;
                        assert(next[k] == prev[k]);
                    }
                    if exists|k: int| 0 <= k < prev.len() && shape_capability(#[trigger] prev[k]) == d {
                        let k = choose|k: int| 0 <= k < prev.len() && shape_capability(#[trigger] prev[k]) == d;
                        assert(next[k] == prev[k]);
                    }
                }
                if d == Capability::Conditional && v.constrained {
                    assert(next[i as int] == v);
                }
                if d == shape_capability(v) {
                    assert(next[i as int] == v);
                }
                if required_capabilities(0, next).contains(d) {
                    if d == Capability::Conditional && exists|k: int| 0 <= k < next.len() && (#[trigger] next[k]).constrained {
                        let k = choose|k: int| 0 <= k < next.len() && (#[trigger] next[k]).constrained;
                        if k < i {
                            assert(prev[k] == next[k]);
                        }
                    }
                    if exists|k: int| 0 <= k < next.len() && shape_capability(#[trigger] next[k]) == d {
                        let k = choose|k: int| 0 <= k < next.len() && shape_capability(#[trigger] next[k]) == d;
                        if k < i {
                            assert(prev[k] == next[k]);
                        }
                    }
                }
            }
            assert(c@ =~= base.union(required_capabilities(0, next)));
        }
        i = i + 1;
    }
    proof {
        assert(params@.take(params@.len() as int) == params@);
        assert(c@ =~= required_capabilities(values as nat, params@));
    }
    c
}

/// The shape of a variable, as `shape_of` gives it.
pub open spec fn spec_shape(v: VariableSpec) -> VariableShape {
    VariableShape {
        range: match v.range {
            RangeSpec::Continuous { .. } => RangeKind::Continuous,
            RangeSpec::Discrete { .. } => RangeKind::Discrete,
            RangeSpec::Categorical { .. } => RangeKind::Categorical,
        },
        distribution: v.distribution,
        constrained: v.constrained,
    }
}

/// The shapes of the variables.
pub open spec fn shapes(vars: Seq<VariableSpec>) -> Seq<VariableShape> {
    vars.map_values(|v: VariableSpec| spec_shape(v))
}

/// Problem specification.
#[derive(Debug)]
pub struct ProblemSpec {
    /// Problem name.
    pub name: String,
    /// Problem attributes.
    pub attrs: Attributes,
    /// Domain of the parameters.
    pub params_domain: Vec<VariableSpec>,
    /// Domain of the objective values.
    pub values_domain: Vec<VariableSpec>,
    /// The steps at which the problem can evaluate a parameter set.
    pub steps: EvaluableSteps,
}

impl ProblemSpec {
    /// Returns the capabilities required of a solver to handle this problem.
    pub fn requirements(&self) -> (res: Capabilities)
        ensures
            res@ == required_capabilities(self.values_domain@.len(), shapes(self.params_domain@)),
    {
        let mut params: Vec<VariableShape> = Vec::new();
        let mut i: usize = 0;
        while i < self.params_domain.len()
            invariant
                i <= self.params_domain@.len(),
                params@ == shapes(self.params_domain@.take(i as int)),
            decreases self.params_domain.len() - i,
        {
            let v = shape_of(&self.params_domain[i]);
            params.push(v);
            proof {
                assert(self.params_domain@.take(i + 1) == self.params_domain@.take(i as int).push(self.params_domain@[i as int]));
                assert(params@ =~= shapes(self.params_domain@.take(i + 1)));
            }
            i = i + 1;
        }
        assert(self.params_domain@.take(self.params_domain@.len() as int) == self.params_domain@);
        requirements(self.values_domain.len(), &params)
    }
}

/// `ProblemSpec` builder.
#[derive(Debug)]
pub struct ProblemSpecBuilder {
    name: String,
    attrs: Attributes,
    params: Vec<VariableSpec>,
    values: Vec<VariableSpec>,
    steps: Vec<u64>,
}

impl ProblemSpecBuilder {
    /// The name given to the builder.
    pub closed spec fn spec_name(&self) -> Seq<char> {
        self.name@
    }

    /// The attributes given so far.
    pub closed spec fn spec_attrs(&self) -> Map<Seq<char>, Seq<char>> {
        self.attrs@
    }

    /// The parameter variables given so far.
    pub closed spec fn spec_params(&self) -> Seq<VariableSpec> {
        self.params@
    }

    /// The value variables given so far.
    pub closed spec fn spec_values(&self) -> Seq<VariableSpec> {
        self.values@
    }

    /// The evaluable steps given so far.
    pub closed spec fn spec_steps(&self) -> Seq<u64> {
        self.steps@
    }

    /// Makes a new builder with no attributes, no variables, and the single step 1.
    pub fn new(problem_name: &str) -> (res: Self)
        ensures
            res.spec_name() == problem_name@,
            res.spec_attrs() == Map::<Seq<char>, Seq<char>>::empty(),
            res.spec_params() == Seq::<VariableSpec>::empty(),
            res.spec_values() == Seq::<VariableSpec>::empty(),
            res.spec_steps() == seq![1u64],
    {
        let mut steps: Vec<u64> = Vec::new();
        steps.push(1);
        assert(steps@ =~= seq![1u64]);
        ProblemSpecBuilder {
            name: problem_name.to_owned(),
            attrs: Attributes::new(),
            params: Vec::new(),
            values: Vec::new(),
            steps,
        }
    }

    /// Sets an attribute of this problem, replacing any earlier value under the same key.
    pub fn attr(self, key: &str, value: &str) -> (res: Self)
        ensures
            res.spec_name() == self.spec_name(),
            res.spec_attrs() == self.spec_attrs().insert(key@, value@),
            res.spec_params() == self.spec_params(),
            res.spec_values() == self.spec_values(),
            res.spec_steps() == self.spec_steps(),
    {
        let ProblemSpecBuilder { name, attrs, params, values, steps } = self;
        ProblemSpecBuilder { name, attrs: attrs.insert(key, value), params, values, steps }
    }

    /// Adds a variable to the parameter domain of this problem.
    pub fn param(self, var: VariableSpec) -> (res: Self)
        ensures
            res.spec_name() == self.spec_name(),
            res.spec_attrs() == self.spec_attrs(),
            res.spec_params() == self.spec_params().push(var),
            res.spec_values() == self.spec_values(),
            res.spec_steps() == self.spec_steps(),
    {
        let ProblemSpecBuilder { name, attrs, mut params, values, steps } = self;
        params.push(var);
        ProblemSpecBuilder { name, attrs, params, values, steps }
    }

    /// Sets the variables of the parameter domain of this problem.
    pub fn params(self, vars: Vec<VariableSpec>) -> (res: Self)
        ensures
            res.spec_name() == self.spec_name(),
            res.spec_attrs() == self.spec_attrs(),
            res.spec_params() == vars@,
            res.spec_values() == self.spec_values(),
            res.spec_steps() == self.spec_steps(),
    {
        let ProblemSpecBuilder { name, attrs, params: _, values, steps } = self;
        ProblemSpecBuilder { name, attrs, params: vars, values, steps }
    }

    /// Adds a variable to the value domain of this problem.
    pub fn value(self, var: VariableSpec) -> (res: Self)
        ensures
            res.spec_name() == self.spec_name(),
            res.spec_attrs() == self.spec_attrs(),
            res.spec_params() == self.spec_params(),
            res.spec_values() == self.spec_values().push(var),
            res.spec_steps() == self.spec_steps(),
    {
        let ProblemSpecBuilder { name, attrs, params, mut values, steps } = self;
        values.push(var);
        ProblemSpecBuilder { name, attrs, params, values, steps }
    }

    /// Sets the variables of the value domain of this problem.
    pub fn values(self, vars: Vec<VariableSpec>) -> (res: Self)
        ensures
            res.spec_name() == self.spec_name(),
            res.spec_attrs() == self.spec_attrs(),
            res.spec_params() == self.spec_params(),
            res.spec_values() == vars@,
            res.spec_steps() == self.spec_steps(),
    {
        let ProblemSpecBuilder { name, attrs, params, values: _, steps } = self;
        ProblemSpecBuilder { name, attrs, params, values: vars, steps }
    }

    /// Sets the evaluable steps of this problem.
    pub fn steps(self, steps: Vec<u64>) -> (res: Self)
        ensures
            res.spec_name() == self.spec_name(),
            res.spec_attrs() == self.spec_attrs(),
            res.spec_params() == self.spec_params(),
            res.spec_values() == self.spec_values(),
            res.spec_steps() == steps@,
    {
        let ProblemSpecBuilder { name, attrs, params, values, steps: _ } = self;
        ProblemSpecBuilder { name, attrs, params, values, steps }
    }

    /// Builds a `ProblemSpec` with the given settings.
    ///
    /// Fails with `InvalidInput` unless both domains are valid and the steps are valid.
    pub fn finish(self) -> (res: Result<ProblemSpec, ErrorKind>)
        ensures
            match res {
                Ok(spec) => domain_valid(self.spec_params()) && domain_valid(self.spec_values())
                    && valid_steps(self.spec_steps())
                    && spec.name@ == self.spec_name() && spec.attrs@ == self.spec_attrs()
                    && spec.params_domain@ == self.spec_params()
                    && spec.values_domain@ == self.spec_values()
                    && spec.steps@ == self.spec_steps(),
                Err(e) => e == ErrorKind::InvalidInput && !(domain_valid(self.spec_params())
                    && domain_valid(self.spec_values()) && valid_steps(self.spec_steps())),
            },
    {
        let ProblemSpecBuilder { name, attrs, params, values, steps } = self;
        match check_domain(&params) {
            Ok(()) => {},
            Err(e) => return Err(e),
        }
        match check_domain(&values) {
            Ok(()) => {},
            Err(e) => return Err(e),
        }
        match EvaluableSteps::new(steps) {
            Ok(steps) => Ok(ProblemSpec { name, attrs, params_domain: params, values_domain: values, steps }),
            Err(e) => Err(e),
        }
    }
}

} // verus!
