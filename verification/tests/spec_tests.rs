use kurobako::capability::{Capabilities, Capability};
use kurobako::domain::{check_domain, Distribution, RangeSpec, VariableSpec};
use kurobako::problem::ProblemSpecBuilder;
use kurobako::problems::deepobs::{DeepobsProblemRecipe, TestProblem};
use kurobako::problems::ffmpeg::ffmpeg_params_domain;
use kurobako::error::ErrorKind;
use kurobako::problems::maf::{Maf, MafProblemRecipe};
use kurobako::problems::sigopt::{Name, SigoptProblemFactory};
use kurobako::problems::zdt::{Zdt, ZdtProblemRecipe};

#[test]
fn zdt_specifications() {
    let spec = ZdtProblemRecipe { zdt: Zdt::Function1 }.create_factory().specification("1.0").ok().unwrap();
    assert_eq!(spec.name, "ZDT1");
    assert_eq!(spec.params_domain.len(), 30);
    assert_eq!(spec.params_domain[0].name, "x0");
    assert_eq!(spec.params_domain[29].name, "x29");
    let values: Vec<&str> = spec.values_domain.iter().map(|v| v.name.as_str()).collect();
    assert_eq!(values, vec!["f1", "f2"]);
    assert_eq!(spec.steps.iter(), vec![1]);
    assert_eq!(spec.attrs.get("version"), Some("kurobako_problems=1.0".to_owned()));
    let zdt5 = ZdtProblemRecipe { zdt: Zdt::Function5 }.create_factory().specification("1.0").ok().unwrap();
    assert_eq!(zdt5.params_domain.len(), 11);
    match &zdt5.params_domain[0].range {
        RangeSpec::Discrete { low, high } => assert_eq!((*low, *high), (0, (1 << 30) - 1)),
        _ => panic!("ZDT5 parameters are discrete"),
    }
    match &zdt5.params_domain[10].range {
        RangeSpec::Discrete { low, high } => assert_eq!((*low, *high), (0, 31)),
        _ => panic!("ZDT5 parameters are discrete"),
    }
    assert_eq!(zdt5.requirements().iter(), vec![Capability::UniformDiscrete, Capability::MultiObjective]);
}

#[test]
fn maf_specifications() {
    let factory = MafProblemRecipe { maf: Maf::Maf2, objectives: 3 }.create_factory();
    assert_eq!(factory.specification("1.0").err(), Some(ErrorKind::InvalidInput));
    let one = MafProblemRecipe { maf: Maf::Maf1, objectives: 1 }.create_factory();
    assert_eq!(one.specification("1.0").err(), Some(ErrorKind::InvalidInput));
    let none = MafProblemRecipe { maf: Maf::Maf1, objectives: 0 }.create_factory();
    assert_eq!(none.specification("1.0").err(), Some(ErrorKind::InvalidInput));
}

#[test]
fn sigopt_specifications() {
    let f = SigoptProblemFactory { name: Name::Ackley, dim: 3, res: None, int: vec![1] };
    let spec = f.specification("1.0").ok().unwrap();
    assert_eq!(spec.name, "sigopt/evalset/Ackley(dim=3)");
    assert_eq!(spec.attrs.get("github"), Some("https://github.com/sigopt/evalset".to_owned()));
    match &spec.params_domain[1].range {
        RangeSpec::Discrete { low, high } => assert_eq!((*low, *high), (-10, 30)),
        _ => panic!("p1 is an integer dimension"),
    }
    match &spec.params_domain[0].range {
        RangeSpec::Continuous { .. } => {}
        _ => panic!("p0 is continuous"),
    }
    assert_eq!(spec.values_domain[0].name, "Objective Value");
    let with_res = SigoptProblemFactory { name: Name::Ackley, dim: 2, res: Some("0.5".to_owned()), int: vec![] };
    assert_eq!(with_res.specification("1.0").ok().unwrap().name, "sigopt/evalset/Ackley(dim=2, res=0.5)");
    let empty = SigoptProblemFactory { name: Name::Ackley, dim: 0, res: None, int: vec![] };
    assert_eq!(empty.specification("1.0").err(), Some(ErrorKind::InvalidInput));
}

#[test]
fn capabilities_default_and_clone() {
    let d = Capabilities::default();
    assert!(d.is_empty());
    let c = Capabilities::new(vec![Capability::Categorical]);
    let copy = c.clone();
    assert_eq!(copy.iter(), vec![Capability::Categorical]);
}

#[test]
fn deepobs_parameter_domain() {
    let recipe = DeepobsProblemRecipe { data_dir: "data".to_owned(), problem: TestProblem::Mnist_2c2d, epochs: 1 };
    let domain = recipe.params_domain();
    assert_eq!(domain.len(), 26);
    assert_eq!(check_domain(&domain), Ok(()));
    match &domain[0].range {
        RangeSpec::Categorical { choices } => {
            assert_eq!(choices.len(), 9);
            assert_eq!(choices[0], "adadelta");
            assert_eq!(choices[8], "rms-prop");
        }
        _ => panic!("the optimizer is a choice"),
    }
    assert_eq!(domain[1].name, "learning-rate");
    assert_eq!(domain[1].distribution, Distribution::LogUniform);
    assert!(!domain[1].constrained);
    match &domain[3].range {
        RangeSpec::Discrete { low, high } => assert_eq!((*low, *high), (1, 1024)),
        _ => panic!("the batch size is discrete"),
    }
    assert_eq!(domain[10].name, "ftrl.learning_rate_power");
    assert!(domain[10].constrained);
    match &domain[10].range {
        RangeSpec::Continuous { low_below_high, low_positive } => assert_eq!((*low_below_high, *low_positive), (true, false)),
        _ => panic!("the learning rate power is continuous"),
    }
    assert_eq!(domain[25].name, "rms-prop.centered");
    assert!(domain[25].constrained);
    let requirements = ProblemSpecBuilder::new("deepobs").params(domain).value(accuracy()).finish().ok().unwrap().requirements();
    assert!(requirements.iter().contains(&Capability::Conditional));
    assert!(requirements.iter().contains(&Capability::LogUniformContinuous));
}

fn accuracy() -> VariableSpec {
    VariableSpec {
        name: "accuracy".to_owned(),
        range: RangeSpec::Continuous { low_below_high: true, low_positive: false },
        distribution: Distribution::Uniform,
        constrained: false,
    }
}

#[test]
fn ffmpeg_parameter_domain() {
    let domain = ffmpeg_params_domain();
    assert_eq!(domain.len(), 31);
    assert_eq!(check_domain(&domain), Ok(()));
    assert_eq!(domain[0].name, "refs");
    match &domain[19].range {
        RangeSpec::Discrete { low, high } => assert_eq!((*low, *high), (-6, 6)),
        _ => panic!("deblockalpha is discrete"),
    }
    match &domain[16].range {
        RangeSpec::Categorical { choices } => assert_eq!(choices, &vec!["dia".to_owned(), "hex".to_owned(), "umh".to_owned(), "esa".to_owned()]),
        _ => panic!("me is a choice"),
    }
    assert_eq!(domain[30].name, "nr");
    assert!(domain.iter().all(|v| !v.constrained));
}
