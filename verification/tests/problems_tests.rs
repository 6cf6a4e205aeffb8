use kurobako::domain::RangeSpec;
use kurobako::error::ErrorKind;
use kurobako::problems::command::next_eval_id;
use kurobako::problems::deepobs::{optimizer_args, optimizer_name, DeepobsProblemRecipe, TestProblem};
use kurobako::problems::hpobench::{config_key_text, hpobench_specification, problem_name, valid_mse_key};
use kurobako::capability::Capability;
use kurobako::problems::lightgbm::{LightgbmProblemRecipe, Metric};
use kurobako::problems::maf::{Maf, MafProblemRecipe};
use kurobako::problems::nasbench::{adjacency_matrix, edges_a, edges_b, edges_c, epoch_for_step, ops, sample_position, Encoding, Op};
use kurobako::problems::sigopt::{check_dimension, problem_dimension, Ackley, Adjiman, Hartmann3, McCourt01, Name};
use kurobako::problems::surrogate::{is_false, SurrogateProblemRecipe};
use kurobako::problems::zdt::{count_ones, Zdt, ZdtProblemRecipe};

fn strings(xs: &[&str]) -> Vec<String> {
    xs.iter().map(|s| s.to_string()).collect()
}

#[test]
fn hpobench_names_and_keys() {
    assert_eq!(problem_name("fcnet_naval_propulsion_data"), "HPO-Bench-Naval");
    assert_eq!(problem_name("fcnet_slice_localization_data"), "HPO-Bench-Slice");
    assert_eq!(problem_name("other"), "other");
    let p = [1usize, 0, 3, 2, 0, 5, 0, 4, 1];
    let key = "{\"activation_fn_1\": \"relu\", \"activation_fn_2\": \"tanh\", \"batch_size\": 64, \"dropout_1\": 0.6, \"dropout_2\": 0.0, \"init_lr\": 0.1, \"lr_schedule\": \"cosine\", \"n_units_1\": 256, \"n_units_2\": 32}";
    assert_eq!(config_key_text(&p), key);
    assert_eq!(valid_mse_key(&p), format!("/{}/valid_mse", key));
}

#[test]
fn lightgbm_arguments() {
    let mut r = LightgbmProblemRecipe {
        training_data_path: "train.csv".to_owned(),
        validation_data_path: "valid.csv".to_owned(),
        num_boost_round: None,
        metric: Metric::default_metric(),
    };
    assert_eq!(r.script_args(), strings(&["train.csv", "valid.csv"]));
    r.num_boost_round = Some(100);
    assert_eq!(r.script_args(), strings(&["train.csv", "valid.csv", "--num-boost-round", "100"]));
    assert!(r.metric.is_default());
    assert_eq!(Metric::parse("auc"), Ok(Metric::Auc));
    assert_eq!(Metric::parse("rmse"), Err(ErrorKind::InvalidInput));
}

#[test]
fn maf_names_and_variables() {
    assert_eq!(Maf::Maf1.name(), "MaF1 (modified inverted DTLZ1)");
    assert_eq!(Maf::Maf2.name(), "MaF2 (DTLZ2BZ)");
    assert_eq!(Maf::Maf3.decision_variables(3), 12);
    let factory = MafProblemRecipe { maf: Maf::Maf1, objectives: 5 }.create_factory();
    assert_eq!(factory.problem_name(), "MaF1 (modified inverted DTLZ1) [objectives=5]");
    assert_eq!(factory.create_problem().objectives, 5);
}

#[test]
fn zdt_shapes() {
    assert_eq!(Zdt::Function1.name(), "ZDT1");
    assert_eq!(Zdt::Function6.name(), "ZDT6");
    assert_eq!(Zdt::Function1.dimensions(), 30);
    assert_eq!(Zdt::Function4.dimensions(), 10);
    assert_eq!(Zdt::Function5.dimensions(), 11);
    let ranges = Zdt::discrete_ranges();
    assert_eq!(ranges.len(), 11);
    assert_eq!(ranges[0], (0, (1 << 30) - 1));
    assert_eq!(ranges[10], (0, 31));
    assert_eq!(ZdtProblemRecipe { zdt: Zdt::Function3 }.create_factory().create_problem().zdt, Zdt::Function3);
}

#[test]
fn zdt5_integer_terms() {
    assert_eq!(count_ones(0), 0);
    assert_eq!(count_ones(0b1011), 3);
    assert_eq!(count_ones(-1), 64);
    assert_eq!(Zdt::zdt5_terms(&[0b111, 0, 31, 0b1111]), (4, 2 + 1 + 6));
    assert_eq!(Zdt::zdt5_terms(&[0]), (1, 0));
}

#[test]
fn nasbench_encodings() {
    assert_eq!(Encoding::parse("A"), Ok(Encoding::A));
    assert_eq!(Encoding::parse("C"), Ok(Encoding::C));
    assert_eq!(Encoding::parse("D"), Err(ErrorKind::InvalidInput));
    assert_eq!(Encoding::default_encoding(), Encoding::A);
    assert_eq!(
        ops(&[0, 1, 2, 0, 1]),
        Ok(vec![Op::Input, Op::Conv1x1, Op::Conv3x3, Op::MaxPool3x3, Op::Conv1x1, Op::Conv3x3, Op::Output])
    );
    assert_eq!(ops(&[0, 3, 0, 0, 0]), Err(ErrorKind::InvalidInput));
}

#[test]
fn nasbench_edges() {
    let mut flags = vec![false; 21];
    flags[0] = true;
    flags[20] = true;
    let a = edges_a(&flags);
    assert_eq!(a, flags);
    let b = edges_b(&[0, 20, 0]);
    assert_eq!(b, flags);
    let keys: Vec<u64> = (0..21).map(|i| if i == 20 { 100 } else if i == 0 { 90 } else { 1 }).collect();
    assert_eq!(edges_c(2, &keys), flags);
    let tied = vec![5u64; 21];
    let top = edges_c(1, &tied);
    assert!(top[20]);
    assert_eq!(top.iter().filter(|b| **b).count(), 1);
    assert_eq!(edges_c(0, &keys), vec![false; 21]);
    let m = adjacency_matrix(&flags);
    assert!(m[0][1]);
    assert!(m[5][6]);
    assert!(!m[1][0]);
    assert_eq!(m.iter().map(|r| r.iter().filter(|b| **b).count()).sum::<usize>(), 2);
}

#[test]
fn deepobs_problem_and_arguments() {
    assert_eq!(TestProblem::Mnist_mlp.name(), "mnist_mlp");
    assert_eq!(TestProblem::Two_d_beale.to_display_string(), "\"two_d_beale\"");
    assert_eq!(optimizer_name(2), "adam");
    let r = DeepobsProblemRecipe { data_dir: "data".to_owned(), problem: TestProblem::Cifar10_3c3d, epochs: 0 };
    assert_eq!(r.validate(), Err(ErrorKind::InvalidInput));
    let names = strings(&["adam.learning_rate", "momentum.momentum", "adam.beta1", "adam.flag"]);
    let values = vec![Some("0.01".to_owned()), Some("0.9".to_owned()), Some("0.8".to_owned()), None];
    assert_eq!(
        optimizer_args("adam", &names, &values),
        Ok(strings(&["--learning_rate", "0.01", "--beta1", "0.8"]))
    );
    let bad_names = strings(&["adam"]);
    assert_eq!(optimizer_args("adam", &bad_names, &vec![Some("1".to_owned())]), Err(ErrorKind::Other));
}

#[test]
fn surrogate_paths() {
    let r = SurrogateProblemRecipe { model: "models/a".to_owned(), disable_cache: false };
    assert_eq!(r.spec_path(), "models/a/spec.json");
    assert_eq!(r.model_path(), "models/a/model.bin");
    let r = SurrogateProblemRecipe { model: "models/".to_owned(), disable_cache: true };
    assert_eq!(r.spec_path(), "models/spec.json");
    assert!(is_false(&r.disable_cache) == false);
}

#[test]
fn sigopt_dimensions() {
    assert!(Name::Ackley.is_implemented());
    assert!(!Name::Adjiman.is_implemented());
    assert_eq!(check_dimension(&Ackley, 10), Ok(()));
    assert_eq!(check_dimension(&Adjiman, 2), Ok(()));
    assert_eq!(check_dimension(&Adjiman, 3), Err(ErrorKind::InvalidInput));
    assert_eq!(check_dimension(&Hartmann3, 3), Ok(()));
    assert_eq!(check_dimension(&McCourt01, 6), Err(ErrorKind::InvalidInput));
    assert_eq!(problem_dimension(&Ackley, None), 2);
    assert_eq!(problem_dimension(&Ackley, Some(5)), 5);
    assert_eq!(problem_dimension(&McCourt01, None), 7);
}

#[test]
fn command_evaluation_ids() {
    let mut counter = 0u32;
    assert_eq!(next_eval_id(&mut counter), 0);
    assert_eq!(next_eval_id(&mut counter), 1);
    assert_eq!(counter, 2);
}

#[test]
fn deepobs_evaluation_command_line() {
    let r = DeepobsProblemRecipe { data_dir: "data".to_owned(), problem: TestProblem::Mnist_mlp, epochs: 10 };
    let names = strings(&["learning-rate", "adam.beta1", "momentum.momentum"]);
    let values = vec![Some("0.001".to_owned()), Some("0.9".to_owned()), Some("0.5".to_owned())];
    assert_eq!(
        r.evaluation_args(2, "out", 7, 3, &names, &values),
        Ok(strings(&[
            "adam",
            "\"mnist_mlp\"",
            "--data_dir",
            "data",
            "--output_dir",
            "out",
            "--random_seed",
            "7",
            "--num_epochs",
            "3",
            "--beta1",
            "0.9",
        ]))
    );
}

#[test]
fn lightgbm_embedded_recipe() {
    let r = LightgbmProblemRecipe {
        training_data_path: "t".to_owned(),
        validation_data_path: "v".to_owned(),
        num_boost_round: Some(5),
        metric: Metric::Auc,
    };
    let e = r.embedded_recipe("print()");
    assert_eq!(e.script, "print()");
    assert_eq!(e.args, strings(&["t", "v", "--num-boost-round", "5"]));
}

#[test]
fn nasbench_epochs_and_samples() {
    let epochs = vec![4u8, 12, 36, 108];
    assert_eq!(epoch_for_step(&epochs, 4), Some(0));
    assert_eq!(epoch_for_step(&epochs, 5), Some(1));
    assert_eq!(epoch_for_step(&epochs, 108), Some(3));
    assert_eq!(epoch_for_step(&epochs, 109), None);
    assert_eq!(epoch_for_step(&epochs, 256 + 4), Some(0));
    assert_eq!(sample_position(7, 3), 1);
}

#[test]
fn nasbench_problem_names() {
    assert_eq!(Encoding::A.problem_name(), "NASBench (A)");
    assert_eq!(Encoding::C.problem_name(), "NASBench (C)");
}

#[test]
fn hpobench_problem_specification() {
    let spec = hpobench_specification("HPO-Bench-Naval", "2.0.0").ok().unwrap();
    assert_eq!(spec.name, "HPO-Bench-Naval");
    assert_eq!(spec.attrs.get("version"), Some("kurobako_problems=2.0.0".to_owned()));
    assert_eq!(spec.attrs.get("github"), Some("https://github.com/automl/nas_benchmarks".to_owned()));
    assert_eq!(spec.attrs.len(), 3);
    let names: Vec<&str> = spec.params_domain.iter().map(|v| v.name.as_str()).collect();
    assert_eq!(names, vec!["activation_fn_1", "activation_fn_2", "batch_size", "dropout_1", "dropout_2", "init_lr", "lr_schedule", "n_units_1", "n_units_2"]);
    assert_eq!(spec.steps.last(), 100);
    assert_eq!(spec.steps.iter().len(), 100);
    assert_eq!(spec.requirements().iter(), vec![Capability::UniformDiscrete, Capability::Categorical]);
}

#[test]
fn hpobench_ranges() {
    let spec = hpobench_specification("x", "1").ok().unwrap();
    match &spec.params_domain[2].range {
        RangeSpec::Discrete { low, high } => assert_eq!((*low, *high), (0, 4)),
        _ => panic!("batch_size is discrete"),
    }
    match &spec.params_domain[6].range {
        RangeSpec::Categorical { choices } => assert_eq!(choices, &strings(&["cosine", "const"])),
        _ => panic!("lr_schedule is categorical"),
    }
    match &spec.values_domain[0].range {
        RangeSpec::Continuous { low_below_high, low_positive } => assert_eq!((*low_below_high, *low_positive), (true, false)),
        _ => panic!("the MSE is continuous"),
    }
}
