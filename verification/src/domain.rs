//! Domain of parameter and objective values: the shape of each variable and the checks that
//! a variable and a domain must pass.
use vstd::prelude::*;
use crate::error::ErrorKind;
use crate::text::{indexed_name, lemma_indexed_names_distinct};

verus! {

/// Prior distribution of a variable.
#[derive(Debug, Clone, Copy, PartialEq, Eq, Structural, Hash)]
pub enum Distribution {
    Uniform,
    LogUniform,
}

/// The kind of a variable's range: the range without its numeric bounds.
#[derive(Debug, Clone, Copy, PartialEq, Eq, Structural, Hash)]
pub enum RangeKind {
    /// Continuous numerical range `[low..high)`.
    Continuous,
    /// Discrete numerical range `[low..high)`.
    Discrete,
    /// Categorical range.
    Categorical,
}

/// What the capability requirements of a problem read of one of its parameters.
#[derive(Debug, Clone, Copy, PartialEq, Eq, Structural, Hash)]
pub struct VariableShape {
    /// The kind of the parameter's range.
    pub range: RangeKind,
    /// The prior distribution of the parameter.
    pub distribution: Distribution,
    /// Whether the parameter carries an evaluation constraint.
    pub constrained: bool,
}

/// Evaluation constraint.
#[derive(Debug)]
pub struct Constraint {
    lua_script: String,
}

impl Constraint {
    /// The Lua code of this constraint.
    pub closed spec fn spec_lua_script(&self) -> Seq<char> {
        self.lua_script@
    }

    /// Makes a new `Constraint` instance.
    ///
    /// `lua_script` is the Lua script code that represents the constraint.
    /// In this script, you can access the variables that are located before
    /// the constrainted variable as global variables.
    /// This script must return a boolean value.
    pub fn new(lua_script: &str) -> (res: Self)
        ensures
            res.spec_lua_script() == lua_script@,
    {
        Constraint { lua_script: lua_script.to_owned() }
    }

    /// Returns the Lua code of this constraint.
    pub fn lua_script(&self) -> (res: &str)
        ensures
            res@ == self.spec_lua_script(),
    {
        self.lua_script.as_str()
    }
}

/// No two elements of `names` are equal.
pub open spec fn distinct_names(names: Seq<Seq<char>>) -> bool {
    forall|i: int, j: int| 0 <= i < j < names.len() ==> names[i] != names[j]
}

/// Returns `true` if no two of the given variable names are equal.
///
/// A domain refuses a variable whose name an earlier variable already has.
pub fn names_are_distinct(names: &Vec<String>) -> (res: bool)
    ensures
        res == distinct_names(names@.map_values(|s: String| s@)),
{
    let ghost view = names@.map_values(|s: String| s@);
    let mut j: usize = 0;
    while j < names.len()
        invariant
            j <= names@.len(),
            view == names@.map_values(|s: String| s@),
            forall|a: int, b: int| 0 <= a < b < j ==> view[a] != view[b],
        decreases names.len() - j,
    {
        let mut i: usize = 0;
        while i < j
            invariant
                i <= j < names@.len(),
                view == names@.map_values(|s: String| s@),
                view.len() == names@.len(),
                forall|a: int| 0 <= a < i ==> view[a] != view[j as int],
            decreases j - i,
        {
            if names[i].eq(&names[j]) {
                assert(view[i as int] == view[j as int]);
                assert(!distinct_names(view));
                return false;
            }
            i = i + 1;
        }
        j = j + 1;
    }
    true
}

/// The range of a variable as far as its validity depends on it.
///
/// For a continuous range, whose bounds are floating-point numbers, the two comparisons
/// that the checks make of the bounds are held: `low < high` and `0 < low`.
#[derive(Debug)]
pub enum RangeSpec {
    /// Continuous numerical range `[low..high)`.
    Continuous { low_below_high: bool, low_positive: bool },
    /// Discrete numerical range `[low..high)`.
    Discrete { low: i64, high: i64 },
    /// Categorical range.
    Categorical { choices: Vec<String> },
}

/// A variable as its builder describes it.
#[derive(Debug)]
pub struct VariableSpec {
    /// The name of the variable.
    pub name: String,
    /// The range of the variable.
    pub range: RangeSpec,
    /// The prior distribution of the variable.
    pub distribution: Distribution,
    /// Whether the variable carries an evaluation constraint.
    pub constrained: bool,
}

/// A variable is valid when its range is not empty (`low < high`, or at least one
/// choice) and, when its distribution is log-uniform, its range is numerical with a
/// positive lower bound.
pub open spec fn variable_valid(v: VariableSpec) -> bool {
    &&& match v.range {
        RangeSpec::Continuous { low_below_high, .. } => low_below_high,
        RangeSpec::Discrete { low, high } => low < high,
        RangeSpec::Categorical { choices } => choices@.len() > 0,
    }
    &&& v.distribution == Distribution::LogUniform ==> match v.range {
        RangeSpec::Continuous { low_positive, .. } => low_positive,
        RangeSpec::Discrete { low, .. } => 0 < low,
        RangeSpec::Categorical { .. } => false,
    }
}

/// The names of the variables.
pub open spec fn variable_names(vars: Seq<VariableSpec>) -> Seq<Seq<char>> {
    vars.map_values(|v: VariableSpec| v.name@)
}

/// A domain is valid when it has a variable, every variable is valid, and no two
/// variables share a name.
pub open spec fn domain_valid(vars: Seq<VariableSpec>) -> bool {
    &&& vars.len() > 0
    &&& forall|i: int| 0 <= i < vars.len() ==> variable_valid(#[trigger] vars[i])
    &&& distinct_names(variable_names(vars))
}

/// The range holds no value: a continuous one whose low bound is not below the high one,
/// a discrete one with `high <= low`, or a categorical one without choices.
pub open spec fn range_empty(r: RangeSpec) -> bool {
    match r {
        RangeSpec::Continuous { low_below_high, .. } => !low_below_high,
        RangeSpec::Discrete { low, high } => high <= low,
        RangeSpec::Categorical { choices } => choices@.len() == 0,
    }
}

/// The range is numerical with a positive lower bound.
pub open spec fn positive_numeric(r: RangeSpec) -> bool {
    match r {
        RangeSpec::Continuous { low_positive, .. } => low_positive,
        RangeSpec::Discrete { low, .. } => low > 0,
        RangeSpec::Categorical { .. } => false,
    }
}

/// Which variables are valid: none with an empty range; no log-uniform one unless its range
/// is numerical with a positive lower bound (so a continuous one whose low bound is 0 or
/// below is refused even when the range is not empty); and every other one.
pub proof fn lemma_variable_validity(v: VariableSpec)
    ensures
        range_empty(v.range) ==> !variable_valid(v),
        v.distribution == Distribution::LogUniform && !positive_numeric(v.range) ==> !variable_valid(v),
        v.distribution == Distribution::LogUniform ==> ((v.range matches RangeSpec::Continuous { low_positive, .. } && !low_positive)
            ==> !variable_valid(v)),
        (v.distribution == Distribution::LogUniform && v.range is Categorical) ==> !variable_valid(v),
        !range_empty(v.range) && (v.distribution == Distribution::Uniform || positive_numeric(v.range)) ==> variable_valid(v),
{
}

/// A domain with a variable that is not valid is not valid.
pub proof fn lemma_domain_needs_valid_variables(vars: Seq<VariableSpec>, i: int)
    requires
        0 <= i < vars.len(),
        range_empty(vars[i].range) || (vars[i].distribution == Distribution::LogUniform && !positive_numeric(vars[i].range)),
    ensures
        !domain_valid(vars),
{
    lemma_variable_validity(vars[i]);
}

/// The choices of a categorical variable, as text (none for another range).
pub open spec fn choice_texts(v: VariableSpec) -> Seq<Seq<char>> {
    match v.range {
        RangeSpec::Categorical { choices } => choices@.map_values(|c: String| c@),
        _ => Seq::empty(),
    }
}

/// Which domains are valid: an empty one is not, nor one in which two variables share a
/// name; one that has a variable, whose variables are all valid and whose names are all
/// different, is.
pub proof fn lemma_domain_validity(vars: Seq<VariableSpec>, i: int, j: int)
    ensures
        vars.len() == 0 ==> !domain_valid(vars),
        0 <= i < j < vars.len() && vars[i].name@ == vars[j].name@ ==> !domain_valid(vars),
        vars.len() > 0 && (forall|k: int| 0 <= k < vars.len() ==> variable_valid(#[trigger] vars[k]))
            && (forall|k: int, l: int| 0 <= k < l < vars.len() ==> vars[k].name@ != vars[l].name@)
            ==> domain_valid(vars),
{
    if 0 <= i < j < vars.len() && vars[i].name@ == vars[j].name@ {
        assert(variable_names(vars)[i] == vars[i].name@);
        assert(variable_names(vars)[j] == vars[j].name@);
    }
    if vars.len() > 0 && (forall|k: int| 0 <= k < vars.len() ==> variable_valid(#[trigger] vars[k]))
        && (forall|k: int, l: int| 0 <= k < l < vars.len() ==> vars[k].name@ != vars[l].name@) {
        assert forall|k: int, l: int| 0 <= k < l < variable_names(vars).len()
            implies variable_names(vars)[k] != variable_names(vars)[l] by {
            assert(variable_names(vars)[k] == vars[k].name@);
            assert(variable_names(vars)[l] == vars[l].name@);
        }
    }
}

/// Checks a variable as its builder's `finish` does: refused with `InvalidInput` unless
/// it is valid.
pub fn check_variable(v: &VariableSpec) -> (res: Result<(), ErrorKind>)
    ensures
        res is Ok <==> variable_valid(*v),
        res is Err ==> res == Err::<(), ErrorKind>(ErrorKind::InvalidInput),
        range_empty(v.range) ==> res == Err::<(), ErrorKind>(ErrorKind::InvalidInput),
        v.distribution == Distribution::LogUniform && !positive_numeric(v.range)
            ==> res == Err::<(), ErrorKind>(ErrorKind::InvalidInput),
        !range_empty(v.range) && (v.distribution == Distribution::Uniform || positive_numeric(v.range))
            ==> res == Ok::<(), ErrorKind>(()),
{
    let nonempty = match &v.range {
        RangeSpec::Continuous { low_below_high, .. } => *low_below_high,
        RangeSpec::Discrete { low, high } => *low < *high,
        RangeSpec::Categorical { choices } => choices.len() > 0,
    };
    if !nonempty {
        return Err(ErrorKind::InvalidInput);
    }
    if v.distribution == Distribution::LogUniform {
        let positive = match &v.range {
            RangeSpec::Continuous { low_positive, .. } => *low_positive,
            RangeSpec::Discrete { low, .. } => 0 < *low,
            RangeSpec::Categorical { .. } => false,
        };
        if !positive {
            return Err(ErrorKind::InvalidInput);
        }
    }
    Ok(())
}

/// The shape of a variable: the kind of its range, its distribution, and whether it is
/// constrained.
pub fn shape_of(v: &VariableSpec) -> (res: VariableShape)
    ensures
        res.range == match v.range {
            RangeSpec::Continuous { .. } => RangeKind::Continuous,
            RangeSpec::Discrete { .. } => RangeKind::Discrete,
            RangeSpec::Categorical { .. } => RangeKind::Categorical,
        },
        res.distribution == v.distribution,
        res.constrained == v.constrained,
{
    let range = match &v.range {
        RangeSpec::Continuous { .. } => RangeKind::Continuous,
        RangeSpec::Discrete { .. } => RangeKind::Discrete,
        RangeSpec::Categorical { .. } => RangeKind::Categorical,
    };
    VariableShape { range, distribution: v.distribution, constrained: v.constrained }
}

/// Checks the variables of a domain as `Domain::new` does: refused with `InvalidInput`
/// when there is none, when a variable is not valid, or when a variable's name is taken
/// by an earlier one.
pub fn check_domain(vars: &Vec<VariableSpec>) -> (res: Result<(), ErrorKind>)
    ensures
        res is Ok <==> domain_valid(vars@),
        res is Err ==> res == Err::<(), ErrorKind>(ErrorKind::InvalidInput),
{
    if vars.len() == 0 {
        return Err(ErrorKind::InvalidInput);
    }
    let mut names: Vec<String> = Vec::new();
    let mut i: usize = 0;
    while i < vars.len()
        invariant
            i <= vars@.len(),
            forall|k: int| 0 <= k < i ==> variable_valid(#[trigger] vars@[k]),
            names@.len() == i,
            names@.map_values(|s: String| s@) == variable_names(vars@.take(i as int)),
        decreases vars.len() - i,
    {
        match check_variable(&vars[i]) {
            Ok(()) => {},
            Err(e) => return Err(e),
        }
        let ghost before = names@.map_values(|s: String| s@);
        let name = vars[i].name.clone();
        names.push(name);
        proof {
            let next = vars@.take(i + 1);
            assert(next == vars@.take(i as int).push(vars@[i as int]));
            assert forall|k: int| 0 <= k < i + 1 implies names@.map_values(|s: String| s@)[k] == variable_names(next)[k] by {
                if k < i {
                    assert(before[k] == variable_names(vars@.take(i as int))[k]);
                }
            }
            assert(names@.map_values(|s: String| s@) =~= variable_names(next));
        }
        i = i + 1;
    }
    assert(vars@.take(vars@.len() as int) == vars@);
    if names_are_distinct(&names) {
        Ok(())
    } else {
        Err(ErrorKind::InvalidInput)
    }
}

/// `v` is an unconstrained, uniform, categorical variable named `name` with the choices
/// `choices`, in that order.
pub open spec fn is_categorical_var(v: VariableSpec, name: Seq<char>, choices: Seq<Seq<char>>) -> bool {
    &&& v.name@ == name
    &&& v.distribution == Distribution::Uniform
    &&& !v.constrained
    &&& match v.range {
        RangeSpec::Categorical { choices: c } => c@.map_values(|s: String| s@) == choices,
        _ => false,
    }
}

/// `v` is an unconstrained variable named `name` with the distribution `distribution` and
/// the discrete range `[low, high)`.
pub open spec fn is_discrete_var(v: VariableSpec, name: Seq<char>, low: i64, high: i64, distribution: Distribution) -> bool {
    &&& v.name@ == name
    &&& v.distribution == distribution
    &&& !v.constrained
    &&& v.range == (RangeSpec::Discrete { low, high })
}

/// `v` is an unconstrained variable named `name` with the distribution `distribution` and
/// a continuous range whose bounds compare as `low_below_high` and `low_positive` say.
pub open spec fn is_continuous_var(
    v: VariableSpec,
    name: Seq<char>,
    low_below_high: bool,
    low_positive: bool,
    distribution: Distribution,
) -> bool {
    &&& v.name@ == name
    &&& v.distribution == distribution
    &&& !v.constrained
    &&& v.range == (RangeSpec::Continuous { low_below_high, low_positive })
}

/// `v` with its constraint taken off: what a conditional parameter is when it is active.
pub open spec fn without_constraint(v: VariableSpec) -> VariableSpec {
    VariableSpec { name: v.name, range: v.range, distribution: v.distribution, constrained: false }
}

/// An unconstrained variable named `name` with the given distribution and a continuous range
/// whose bounds compare as `low_below_high` and `low_positive` say.
pub(crate) fn continuous_var(name: &str, low_below_high: bool, low_positive: bool, distribution: Distribution) -> (res: VariableSpec)
    ensures
        is_continuous_var(res, name@, low_below_high, low_positive, distribution),
{
    VariableSpec {
        name: name.to_owned(),
        range: RangeSpec::Continuous { low_below_high, low_positive },
        distribution,
        constrained: false,
    }
}

/// An unconstrained, uniform variable named `name` with the discrete range `[low, high)`.
pub(crate) fn discrete_var(name: &str, low: i64, high: i64) -> (res: VariableSpec)
    ensures
        is_discrete_var(res, name@, low, high, Distribution::Uniform),
{
    VariableSpec { name: name.to_owned(), range: RangeSpec::Discrete { low, high }, distribution: Distribution::Uniform, constrained: false }
}

/// An unconstrained, uniform, categorical variable named `name` with the given choices, in
/// order.
pub(crate) fn choices_var(name: &str, items: Vec<&str>) -> (res: VariableSpec)
    ensures
        is_categorical_var(res, name@, items@.map_values(|s: &str| s@)),
{
    let mut choices: Vec<String> = Vec::new();
    let mut i: usize = 0;
    while i < items.len()
        invariant
            i <= items@.len(),
            choices@.len() == i,
            forall|k: int| 0 <= k < i ==> #[trigger] choices@[k]@ == items@[k]@,
        decreases items.len() - i,
    {
        let item = items[i].to_owned();
        choices.push(item);
        i = i + 1;
    }
    assert(choices@.map_values(|s: String| s@) =~= items@.map_values(|s: &str| s@));
    VariableSpec { name: name.to_owned(), range: RangeSpec::Categorical { choices }, distribution: Distribution::Uniform, constrained: false }
}

/// The categorical variable named `name` with the choices `false` and `true`.
pub(crate) fn boolean_var(name: &str) -> (res: VariableSpec)
    ensures
        is_categorical_var(res, name@, seq!["false"@, "true"@]),
{
    let items: Vec<&str> = vec!["false", "true"];
    assert(items@.map_values(|s: &str| s@) =~= seq!["false"@, "true"@]);
    choices_var(name, items)
}

/// `v` made conditional: active only under a condition, which marks it constrained.
pub(crate) fn conditional_var(v: VariableSpec) -> (res: VariableSpec)
    ensures
        res.constrained,
        without_constraint(res) == without_constraint(v),
{
    VariableSpec { name: v.name, range: v.range, distribution: v.distribution, constrained: true }
}

/// Variables named `prefix` followed by their position have distinct names.
pub proof fn lemma_indexed_vars_distinct(vars: Seq<VariableSpec>, prefix: Seq<char>)
    requires
        forall|k: int| 0 <= k < vars.len() ==> (#[trigger] vars[k]).name@ == indexed_name(prefix, k as nat),
    ensures
        distinct_names(variable_names(vars)),
{
    assert forall|i: int, j: int| 0 <= i < j < variable_names(vars).len() implies variable_names(vars)[i] != variable_names(vars)[j] by {
        assert(vars[i].name@ == indexed_name(prefix, i as nat));
        assert(vars[j].name@ == indexed_name(prefix, j as nat));
        lemma_indexed_names_distinct(prefix, i as nat, j as nat);
    }
}

} // verus!
