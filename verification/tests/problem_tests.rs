use kurobako::capability::Capability;
use kurobako::domain::{check_domain, check_variable, Distribution, RangeKind, RangeSpec, VariableShape, VariableSpec};
use kurobako::error::ErrorKind;
use kurobako::problem::{capability_of, requirements, EvaluableSteps, ProblemSpecBuilder};

#[test]
fn steps_refused_when_invalid() {
    assert_eq!(EvaluableSteps::new(vec![]).err(), Some(ErrorKind::InvalidInput));
    assert_eq!(EvaluableSteps::new(vec![0, 1]).err(), Some(ErrorKind::InvalidInput));
    assert_eq!(EvaluableSteps::new(vec![2, 2]).err(), Some(ErrorKind::InvalidInput));
    assert_eq!(EvaluableSteps::new(vec![3, 2]).err(), Some(ErrorKind::InvalidInput));
}

#[test]
fn dense_steps_are_listed_from_one() {
    let s = EvaluableSteps::new(vec![1, 2, 3]).unwrap();
    assert_eq!(s.last(), 3);
    assert_eq!(s.iter(), vec![1, 2, 3]);
}

#[test]
fn sparse_steps_are_kept() {
    let s = EvaluableSteps::new(vec![2, 5, 9]).unwrap();
    assert_eq!(s.last(), 9);
    assert_eq!(s.iter(), vec![2, 5, 9]);
    let again = EvaluableSteps::new(s.iter()).unwrap();
    assert_eq!(again.iter(), vec![2, 5, 9]);
}

fn shape(range: RangeKind, distribution: Distribution, constrained: bool) -> VariableShape {
    VariableShape { range, distribution, constrained }
}

#[test]
fn requirements_of_a_problem() {
    let params = vec![
        shape(RangeKind::Continuous, Distribution::LogUniform, false),
        shape(RangeKind::Categorical, Distribution::Uniform, true),
    ];
    let r = requirements(2, &params);
    assert_eq!(
        r.iter(),
        vec![
            Capability::LogUniformContinuous,
            Capability::Categorical,
            Capability::Conditional,
            Capability::MultiObjective
        ]
    );
    let single = requirements(1, &vec![shape(RangeKind::Discrete, Distribution::Uniform, false)]);
    assert_eq!(single.iter(), vec![Capability::UniformDiscrete]);
    assert!(requirements(1, &vec![]).is_empty());
}

#[test]
fn capability_of_each_shape() {
    assert_eq!(
        capability_of(shape(RangeKind::Continuous, Distribution::Uniform, false)),
        Capability::UniformContinuous
    );
    assert_eq!(
        capability_of(shape(RangeKind::Discrete, Distribution::LogUniform, false)),
        Capability::LogUniformDiscrete
    );
    assert_eq!(
        capability_of(shape(RangeKind::Categorical, Distribution::LogUniform, false)),
        Capability::Categorical
    );
}

fn var(name: &str, range: RangeSpec, distribution: Distribution) -> VariableSpec {
    VariableSpec { name: name.to_owned(), range, distribution, constrained: false }
}

#[test]
fn variable_checks() {
    let ok = var("x", RangeSpec::Discrete { low: 1, high: 10 }, Distribution::LogUniform);
    assert_eq!(check_variable(&ok), Ok(()));
    let empty = var("x", RangeSpec::Discrete { low: 3, high: 3 }, Distribution::Uniform);
    assert_eq!(check_variable(&empty), Err(ErrorKind::InvalidInput));
    let log_from_zero = var("x", RangeSpec::Discrete { low: 0, high: 3 }, Distribution::LogUniform);
    assert_eq!(check_variable(&log_from_zero), Err(ErrorKind::InvalidInput));
    let log_categorical = var("c", RangeSpec::Categorical { choices: vec!["a".to_owned()] }, Distribution::LogUniform);
    assert_eq!(check_variable(&log_categorical), Err(ErrorKind::InvalidInput));
    let no_choices = var("c", RangeSpec::Categorical { choices: vec![] }, Distribution::Uniform);
    assert_eq!(check_variable(&no_choices), Err(ErrorKind::InvalidInput));
    let continuous = var("y", RangeSpec::Continuous { low_below_high: true, low_positive: false }, Distribution::Uniform);
    assert_eq!(check_variable(&continuous), Ok(()));
}

#[test]
fn domain_checks() {
    assert_eq!(check_domain(&vec![]), Err(ErrorKind::InvalidInput));
    let dup = vec![
        var("x", RangeSpec::Discrete { low: 0, high: 2 }, Distribution::Uniform),
        var("x", RangeSpec::Discrete { low: 0, high: 3 }, Distribution::Uniform),
    ];
    assert_eq!(check_domain(&dup), Err(ErrorKind::InvalidInput));
    let fine = vec![
        var("x", RangeSpec::Discrete { low: 0, high: 2 }, Distribution::Uniform),
        var("y", RangeSpec::Categorical { choices: vec!["a".to_owned(), "b".to_owned()] }, Distribution::Uniform),
    ];
    assert_eq!(check_domain(&fine), Ok(()));
}

#[test]
fn problem_spec_builder() {
    let spec = ProblemSpecBuilder::new("test")
        .attr("version", "1")
        .param(var("x", RangeSpec::Continuous { low_below_high: true, low_positive: true }, Distribution::LogUniform))
        .param(var("c", RangeSpec::Categorical { choices: vec!["a".to_owned()] }, Distribution::Uniform))
        .value(var("v", RangeSpec::Continuous { low_below_high: true, low_positive: false }, Distribution::Uniform))
        .steps(vec![1, 2, 3])
        .finish()
        .ok()
        .unwrap();
    assert_eq!(spec.name, "test");
    assert_eq!(spec.steps.last(), 3);
    assert_eq!(spec.params_domain.len(), 2);
    assert_eq!(
        spec.requirements().iter(),
        vec![Capability::LogUniformContinuous, Capability::Categorical]
    );
    let no_values = ProblemSpecBuilder::new("bad")
        .param(var("x", RangeSpec::Discrete { low: 0, high: 2 }, Distribution::Uniform))
        .finish();
    assert_eq!(no_values.err(), Some(ErrorKind::InvalidInput));
    let bad_steps = ProblemSpecBuilder::new("bad")
        .param(var("x", RangeSpec::Discrete { low: 0, high: 2 }, Distribution::Uniform))
        .value(var("v", RangeSpec::Discrete { low: 0, high: 2 }, Distribution::Uniform))
        .steps(vec![0])
        .finish();
    assert_eq!(bad_steps.err(), Some(ErrorKind::InvalidInput));
}
