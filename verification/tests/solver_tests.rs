use kurobako::capability::{Capabilities, Capability};
use kurobako::solver::SolverSpecBuilder;
use kurobako::solvers::asha::{asha_current_step, asha_specification, ObsIdMap};
use kurobako::solvers::nsga2::nsga2_specification;
use kurobako::trial::{IdGen, TrialId};
use kurobako::solvers::optuna::{add_arg, default_loglevel, is_default_loglevel, is_false, OptunaSolverRecipe};
use kurobako::solvers::random::RandomSolverRecipe;

fn strings(xs: &[&str]) -> Vec<String> {
    xs.iter().map(|s| s.to_string()).collect()
}

#[test]
fn optuna_default_args() {
    let r = OptunaSolverRecipe {
        loglevel: default_loglevel(),
        sampler: None,
        sampler_kwargs: None,
        pruner: None,
        pruner_kwargs: None,
        maximize: false,
        use_discrete_uniform: false,
    };
    assert_eq!(r.build_args(), strings(&["--loglevel", "warning"]));
    assert!(is_default_loglevel(&r.loglevel));
    assert!(!is_default_loglevel(&"debug".to_owned()));
}

#[test]
fn optuna_full_args() {
    let r = OptunaSolverRecipe {
        loglevel: "debug".to_owned(),
        sampler: Some("TPESampler".to_owned()),
        sampler_kwargs: Some("{\"seed\": 10}".to_owned()),
        pruner: Some("MedianPruner".to_owned()),
        pruner_kwargs: None,
        maximize: true,
        use_discrete_uniform: true,
    };
    assert_eq!(
        r.build_args(),
        strings(&[
            "--loglevel",
            "debug",
            "--sampler",
            "TPESampler",
            "--sampler-kwargs",
            "{\"seed\": 10}",
            "--pruner",
            "MedianPruner",
            "--direction",
            "maximize",
            "--use-discrete-uniform",
        ])
    );
}

#[test]
fn optuna_helpers() {
    let mut args = Vec::new();
    add_arg(&mut args, "--a", "1");
    assert_eq!(args, strings(&["--a", "1"]));
    assert!(is_false(&false));
    assert!(!is_false(&true));
}

#[test]
fn random_solver_specification() {
    let spec = RandomSolverRecipe {}.create_factory().specification("0.1.2");
    assert_eq!(spec.name, "Random");
    assert_eq!(spec.attrs.get("version"), Some("kurobako=0.1.2".to_owned()));
    assert_eq!(spec.capabilities.iter().len(), 8);
}

#[test]
fn nsga2_specification_lacks_conditional() {
    let spec = nsga2_specification("0.2.0");
    assert_eq!(spec.name, "NSGA-II");
    assert_eq!(spec.attrs.get("version"), Some("kurobako_solvers=0.2.0".to_owned()));
    assert!(!spec.capabilities.is_capable(Capability::Conditional));
    assert_eq!(spec.capabilities.iter().len(), 7);
}

#[test]
fn asha_specification_drops_multi_objective() {
    let mut caps = Capabilities::empty();
    caps.add_capability(Capability::MultiObjective).add_capability(Capability::Concurrent);
    let base = SolverSpecBuilder::new("Random").capabilities(caps).finish();
    let spec = asha_specification(base, "0.2.0");
    assert_eq!(spec.name, "ASHA with Random");
    assert_eq!(spec.capabilities.iter(), vec![Capability::Concurrent]);
    assert!(spec.attrs.get("paper").is_some());
    assert_eq!(spec.attrs.len(), 2);
    assert_eq!(asha_current_step(10, 3), 7);
}

#[test]
fn asha_observation_ids() {
    let mut map = ObsIdMap::new();
    let mut idg = IdGen::new();
    idg.generate();
    assert_eq!(map.obs_id(TrialId::new(10), &mut idg), 1);
    assert_eq!(map.obs_id(TrialId::new(20), &mut idg), 2);
    assert_eq!(map.obs_id(TrialId::new(10), &mut idg), 1);
    assert_eq!(idg.peek_id().get(), 3);
}

#[test]
fn optuna_embedded_recipe() {
    let r = OptunaSolverRecipe {
        loglevel: "info".to_owned(),
        sampler: None,
        sampler_kwargs: None,
        pruner: None,
        pruner_kwargs: None,
        maximize: true,
        use_discrete_uniform: false,
    };
    let e = r.embedded_recipe("import optuna");
    assert_eq!(e.script, "import optuna");
    assert_eq!(e.args, strings(&["--loglevel", "info", "--direction", "maximize"]));
}
