//! Deep learning optimizer benchmarks (DeepOBS) run by an external script: the test
//! problems and the command line options of the chosen optimizer.
use vstd::prelude::*;
use vstd::string::StringExecFns;
use crate::error::ErrorKind;
use crate::domain::{boolean_var, choices_var, conditional_var, continuous_var, discrete_var, is_categorical_var, is_continuous_var, is_discrete_var, variable_valid, without_constraint, Distribution, RangeSpec, VariableSpec};
use crate::text::{concat, decimal, split_once, u64_to_string, views};

verus! {

/// The optimizers and their parameters.
pub open spec fn optimizers() -> Seq<Seq<char>> {
    seq![
        "adadelta"@,
        "adagrad"@,
        "adam"@,
        "ftrl"@,
        "gradient-descent"@,
        "momentum"@,
        "proximal-adagrad"@,
        "proximal-gradient-descent"@,
        "rms-prop"@,
    ]
}

/// The name of the `i`-th optimizer.
pub fn optimizer_name(i: usize) -> (res: &'static str)
    requires
        i < 9,
    ensures
        res@ == optimizers()[i as int],
{
    if i == 0 { "adadelta" }
    else if i == 1 { "adagrad" }
    else if i == 2 { "adam" }
    else if i == 3 { "ftrl" }
    else if i == 4 { "gradient-descent" }
    else if i == 5 { "momentum" }
    else if i == 6 { "proximal-adagrad" }
    else if i == 7 { "proximal-gradient-descent" }
    else { "rms-prop" }
}

/// DeepOBS test problems.
#[derive(Debug, Clone, Copy, PartialEq, Eq, Structural)]
#[allow(non_camel_case_types)]
pub enum TestProblem {
    Cifar10_3c3d,
    Cifar10_vgg16,
    Cifar10_vgg19,
    Cifar100_3c3d,
    Cifar100_allcnnc,
    Cifar100_vgg16,
    Cifar100_vgg19,
    Cifar100_wrn404,
    Fmnist_2c2d,
    Fmnist_logreg,
    Fmnist_mlp,
    Fmnist_vae,
    Imagenet_inception_v3,
    Imagenet_vgg16,
    Imagenet_vgg19,
    Mnist_2c2d,
    Mnist_logreg,
    Mnist_mlp,
    Mnist_vae,
    Quadratic_deep,
    Svhn_3c3d,
    Svhn_wrn164,
    Tolstoi_char_rnn,
    Two_d_beale,
    Two_d_branin,
    Two_d_rosenbrock,
}

pub open spec fn test_problem_name(p: TestProblem) -> Seq<char> {
    match p {
        TestProblem::Cifar10_3c3d => "cifar10_3c3d"@,
        TestProblem::Cifar10_vgg16 => "cifar10_vgg16"@,
        TestProblem::Cifar10_vgg19 => "cifar10_vgg19"@,
        TestProblem::Cifar100_3c3d => "cifar100_3c3d"@,
        TestProblem::Cifar100_allcnnc => "cifar100_allcnnc"@,
        TestProblem::Cifar100_vgg16 => "cifar100_vgg16"@,
        TestProblem::Cifar100_vgg19 => "cifar100_vgg19"@,
        TestProblem::Cifar100_wrn404 => "cifar100_wrn404"@,
        TestProblem::Fmnist_2c2d => "fmnist_2c2d"@,
        TestProblem::Fmnist_logreg => "fmnist_logreg"@,
        TestProblem::Fmnist_mlp => "fmnist_mlp"@,
        TestProblem::Fmnist_vae => "fmnist_vae"@,
        TestProblem::Imagenet_inception_v3 => "imagenet_inception_v3"@,
        TestProblem::Imagenet_vgg16 => "imagenet_vgg16"@,
        TestProblem::Imagenet_vgg19 => "imagenet_vgg19"@,
        TestProblem::Mnist_2c2d => "mnist_2c2d"@,
        TestProblem::Mnist_logreg => "mnist_logreg"@,
        TestProblem::Mnist_mlp => "mnist_mlp"@,
        TestProblem::Mnist_vae => "mnist_vae"@,
        TestProblem::Quadratic_deep => "quadratic_deep"@,
        TestProblem::Svhn_3c3d => "svhn_3c3d"@,
        TestProblem::Svhn_wrn164 => "svhn_wrn164"@,
        TestProblem::Tolstoi_char_rnn => "tolstoi_char_rnn"@,
        TestProblem::Two_d_beale => "two_d_beale"@,
        TestProblem::Two_d_branin => "two_d_branin"@,
        TestProblem::Two_d_rosenbrock => "two_d_rosenbrock"@,
    }
}

impl TestProblem {
    /// The snake-case name of the test problem.
    pub fn name(&self) -> (res: &'static str)
        ensures
            res@ == test_problem_name(*self),
    {
        match self {
            TestProblem::Cifar10_3c3d => "cifar10_3c3d",
            TestProblem::Cifar10_vgg16 => "cifar10_vgg16",
            TestProblem::Cifar10_vgg19 => "cifar10_vgg19",
            TestProblem::Cifar100_3c3d => "cifar100_3c3d",
            TestProblem::Cifar100_allcnnc => "cifar100_allcnnc",
            TestProblem::Cifar100_vgg16 => "cifar100_vgg16",
            TestProblem::Cifar100_vgg19 => "cifar100_vgg19",
            TestProblem::Cifar100_wrn404 => "cifar100_wrn404",
            TestProblem::Fmnist_2c2d => "fmnist_2c2d",
            TestProblem::Fmnist_logreg => "fmnist_logreg",
            TestProblem::Fmnist_mlp => "fmnist_mlp",
            TestProblem::Fmnist_vae => "fmnist_vae",
            TestProblem::Imagenet_inception_v3 => "imagenet_inception_v3",
            TestProblem::Imagenet_vgg16 => "imagenet_vgg16",
            TestProblem::Imagenet_vgg19 => "imagenet_vgg19",
            TestProblem::Mnist_2c2d => "mnist_2c2d",
            TestProblem::Mnist_logreg => "mnist_logreg",
            TestProblem::Mnist_mlp => "mnist_mlp",
            TestProblem::Mnist_vae => "mnist_vae",
            TestProblem::Quadratic_deep => "quadratic_deep",
            TestProblem::Svhn_3c3d => "svhn_3c3d",
            TestProblem::Svhn_wrn164 => "svhn_wrn164",
            TestProblem::Tolstoi_char_rnn => "tolstoi_char_rnn",
            TestProblem::Two_d_beale => "two_d_beale",
            TestProblem::Two_d_branin => "two_d_branin",
            TestProblem::Two_d_rosenbrock => "two_d_rosenbrock",
        }
    }

    /// The display form of the test problem: its name as a JSON string, quotes included.
    pub fn to_display_string(&self) -> (res: String)
        ensures
            res@ == seq!['"'] + test_problem_name(*self) + seq!['"'],
    {
        let mut s = "\"".to_owned();
        s.append(self.name());
        s.append("\"");
        proof {
            reveal_strlit("\"");
            assert("\""@ =~= seq!['"']);
        }
        s
    }
}

/// Recipe of the DeepOBS problem.
#[derive(Debug)]
pub struct DeepobsProblemRecipe {
    pub data_dir: String,
    pub problem: TestProblem,
    pub epochs: u64,
}

impl DeepobsProblemRecipe {
    /// Checks the recipe: it is refused with `InvalidInput` when the number of epochs is zero.
    pub fn validate(&self) -> (res: Result<(), ErrorKind>)
        ensures
            res is Ok <==> self.epochs != 0,
            res is Err ==> res == Err::<(), ErrorKind>(ErrorKind::InvalidInput),
    {
        if self.epochs == 0 {
            Err(ErrorKind::InvalidInput)
        } else {
            Ok(())
        }
    }
}

/// The part of a parameter name before its first `.`, and the part after it.
pub open spec fn name_split(name: Seq<char>) -> (Seq<char>, Option<Seq<char>>) {
    if exists|k: int| 0 <= k < name.len() && name[k] == '.' {
        let k = choose|k: int| 0 <= k < name.len() && name[k] == '.' && forall|j: int| 0 <= j < k ==> name[j] != '.';
        (name.subrange(0, k), Some(name.subrange(k + 1, name.len() as int)))
    } else {
        (name, None)
    }
}

/// The options passed to the script for the chosen optimizer: for each parameter named
/// `<optimizer>.<key>` whose value is given as text, `--<key>` followed by that text.
/// It fails (`Other`) when a parameter named exactly as the optimizer has a value.
pub open spec fn optimizer_options(optimizer: Seq<char>, names: Seq<Seq<char>>, values: Seq<Option<Seq<char>>>, n: nat) -> Option<Seq<Seq<char>>>
    decreases n,
{
    if n == 0 {
        Some(Seq::empty())
    } else {
        match optimizer_options(optimizer, names, values, (n - 1) as nat) {
            None => None,
            Some(prev) => {
                let (head, tail) = name_split(names[n - 1]);
                if head != optimizer {
                    Some(prev)
                } else {
                    match values[n - 1] {
                        None => Some(prev),
                        Some(v) => match tail {
                            None => None,
                            Some(k) => Some(prev.push(seq!['-', '-'] + k).push(v)),
                        },
                    }
                }
            },
        }
    }
}

proof fn lemma_options_fail_stays(optimizer: Seq<char>, names: Seq<Seq<char>>, values: Seq<Option<Seq<char>>>, m: nat, n: nat)
    requires
        m <= n,
        optimizer_options(optimizer, names, values, m) is None,
    ensures
        optimizer_options(optimizer, names, values, n) is None,
    decreases n - m,
{
    if m < n {
        lemma_options_fail_stays(optimizer, names, values, m, (n - 1) as nat);
    }
}

/// The views of optional strings.
pub open spec fn opt_views(values: Seq<Option<String>>) -> Seq<Option<Seq<char>>> {
    values.map_values(|v: Option<String>| match v { Some(s) => Some(s@), None => None })
}

/// Builds the options of the chosen optimizer from the names of the parameters after the
/// first one and their values (the text of a numeric value, `None` for other values).
pub fn optimizer_args(optimizer: &str, names: &Vec<String>, values: &Vec<Option<String>>) -> (res: Result<Vec<String>, ErrorKind>)
    ensures
        match res {
            Ok(args) => optimizer_options(
                optimizer@,
                views(names@),
                opt_views(values@),
                if names@.len() < values@.len() { names@.len() } else { values@.len() },
            ) == Some(views(args@)),
            Err(e) => e == ErrorKind::Other && optimizer_options(
                optimizer@,
                views(names@),
                opt_views(values@),
                if names@.len() < values@.len() { names@.len() } else { values@.len() },
            ) is None,
        },
{
    let n = if names.len() < values.len() { names.len() } else { values.len() };
    let mut args: Vec<String> = Vec::new();
    let mut i: usize = 0;
    while i < n
        invariant
            i <= n,
            n == (if names@.len() < values@.len() { names@.len() } else { values@.len() }),
            optimizer_options(optimizer@, views(names@), opt_views(values@), i as nat) == Some(views(args@)),
        decreases n - i,
    {
        let (head, tail) = split_once(names[i].as_str(), '.');
        proof {
            let name = names@[i as int]@;
            assert(views(names@)[i as int] == name);
            let sp = name_split(name);
            match &tail {
                Some(t) => {
                    let k = choose|k: int| 0 <= k < name.len() && name[k] == '.' && (forall|j: int| 0 <= j < k ==> name[j] != '.') && head@ == name.subrange(0, k) && t@ == name.subrange(k + 1, name.len() as int);
                    let k2 = choose|k: int| 0 <= k < name.len() && name[k] == '.' && forall|j: int| 0 <= j < k ==> name[j] != '.';
                    assert(k == k2) by {
                        if k < k2 { assert(name[k] != '.'); }
                        if k2 < k { assert(name[k2] != '.'); }
                    }
                    assert(sp == (head@, Some(t@)));
                },
                None => {
                    assert(sp == (head@, None::<Seq<char>>));
                },
            }
        }
        if !crate::text::str_eq(head.as_str(), optimizer) {
            i = i + 1;
            continue;
        }
        match &values[i] {
            None => {},
            Some(v) => {
                match tail {
                    None => {
                        proof {
                            assert(opt_views(values@)[i as int] == Some(v@));
                            assert(optimizer_options(optimizer@, views(names@), opt_views(values@), (i + 1) as nat) is None);
                            lemma_options_fail_stays(optimizer@, views(names@), opt_views(values@), (i + 1) as nat, n as nat);
                        }
                        return Err(ErrorKind::Other);
                    },
                    Some(k) => {
                        args.push(concat("--", k.as_str()));
                        args.push(v.clone());
                        proof {
                            reveal_strlit("--");
                            assert("--"@ =~= seq!['-', '-']);
                        }
                    },
                }
            },
        }
        assert(opt_views(values@)[i as int] == match values@[i as int] { Some(s) => Some(s@), None => None::<Seq<char>> });
        i = i + 1;
    }
    Ok(args)
}

/// The command line arguments of the DeepOBS script for one evaluation.
pub open spec fn evaluation_command(
    optimizer: Seq<char>,
    problem: TestProblem,
    data_dir: Seq<char>,
    output_dir: Seq<char>,
    seed: u32,
    epochs: u64,
    options: Seq<Seq<char>>,
) -> Seq<Seq<char>> {
    seq![
        optimizer,
        seq!['"'] + test_problem_name(problem) + seq!['"'],
        "--data_dir"@,
        data_dir,
        "--output_dir"@,
        output_dir,
        "--random_seed"@,
        decimal(seed as nat),
        "--num_epochs"@,
        decimal(epochs as nat),
    ] + options
}

impl DeepobsProblemRecipe {
    /// The command line arguments of the script that trains with the optimizer chosen by
    /// `optimizer_index` for `epochs` epochs, writing to `output_dir`: the optimizer, the
    /// problem, the directories, the seed and the number of epochs, then the options of
    /// the chosen optimizer (see `optimizer_args`, whose failure this shares).
    pub fn evaluation_args(
        &self,
        optimizer_index: usize,
        output_dir: &str,
        seed: u32,
        epochs: u64,
        names: &Vec<String>,
        values: &Vec<Option<String>>,
    ) -> (res: Result<Vec<String>, ErrorKind>)
        requires
            optimizer_index < 9,
        ensures
            match optimizer_options(
                optimizers()[optimizer_index as int],
                views(names@),
                opt_views(values@),
                if names@.len() < values@.len() { names@.len() } else { values@.len() },
            ) {
                Some(options) => res is Ok && views(res->Ok_0@) == evaluation_command(
                    optimizers()[optimizer_index as int],
                    self.problem,
                    self.data_dir@,
                    output_dir@,
                    seed,
                    epochs,
                    options,
                ),
                None => res == Err::<Vec<String>, ErrorKind>(ErrorKind::Other),
            },
    {
        let optimizer = optimizer_name(optimizer_index);
        let options = match optimizer_args(optimizer, names, values) {
            Ok(o) => o,
            Err(e) => return Err(e),
        };
        let mut args: Vec<String> = Vec::new();
        args.push(optimizer.to_owned());
        args.push(self.problem.to_display_string());
        args.push("--data_dir".to_owned());
        args.push(self.data_dir.clone());
        args.push("--output_dir".to_owned());
        args.push(output_dir.to_owned());
        args.push("--random_seed".to_owned());
        args.push(u64_to_string(seed as u64));
        args.push("--num_epochs".to_owned());
        args.push(u64_to_string(epochs));
        let ghost head = views(args@);
        let mut i: usize = 0;
        while i < options.len()
            invariant
                i <= options@.len(),
                views(args@) == head + views(options@).take(i as int),
            decreases options.len() - i,
        {
            let ghost before = views(args@);
            let item = options[i].clone();
            args.push(item);
            assert(views(args@) =~= before.push(options@[i as int]@));
            assert(views(options@).take(i + 1) == views(options@).take(i as int).push(options@[i as int]@));
            assert(views(args@) =~= head + views(options@).take(i + 1));
            i = i + 1;
        }
        assert(views(options@).take(options@.len() as int) == views(options@));
        assert(views(args@) =~= evaluation_command(
            optimizers()[optimizer_index as int],
            self.problem,
            self.data_dir@,
            output_dir@,
            seed,
            epochs,
            views(options@),
        ));
        Ok(args)
    }
}

/// The parameter domain of the problem: the optimizer, chosen among `optimizers()`; the
/// learning rate (log-uniform), the weight decay and the batch size `[1, 1024)`, which every
/// optimizer takes; then the parameters of each optimizer, named after it, each active only
/// when that optimizer is chosen (which marks it constrained). The continuous bounds are
/// `[1e-7, 1)` for the learning rate and the weight decay, `[-1, 0)` for the FTRL learning
/// rate power, `[0, 1)` for the accumulator and regularization strengths that may be zero,
/// and `[1e-10, 1)` for the others: held here as whether the low bound is below the high
/// one (always) and positive.
pub open spec fn deepobs_params(vars: Seq<VariableSpec>) -> bool {
    &&& vars.len() == 26
    &&& is_categorical_var(vars[0], "optimizer"@, optimizers())
    &&& is_continuous_var(vars[1], "learning-rate"@, true, true, Distribution::LogUniform)
    &&& is_continuous_var(vars[2], "weight-decay"@, true, true, Distribution::Uniform)
    &&& is_discrete_var(vars[3], "batch-size"@, 1, 1024, Distribution::Uniform)
    &&& vars[4].constrained && is_continuous_var(without_constraint(vars[4]), "adadelta.rho"@, true, true, Distribution::Uniform)
    &&& vars[5].constrained && is_continuous_var(without_constraint(vars[5]), "adadelta.epsilon"@, true, true, Distribution::LogUniform)
    &&& vars[6].constrained && is_continuous_var(without_constraint(vars[6]), "adagrad.initial_accumulator_value"@, true, true, Distribution::Uniform)
    &&& vars[7].constrained && is_continuous_var(without_constraint(vars[7]), "adam.beta1"@, true, true, Distribution::Uniform)
    &&& vars[8].constrained && is_continuous_var(without_constraint(vars[8]), "adam.beta2"@, true, true, Distribution::Uniform)
    &&& vars[9].constrained && is_continuous_var(without_constraint(vars[9]), "adam.epsilon"@, true, true, Distribution::LogUniform)
    &&& vars[10].constrained && is_continuous_var(without_constraint(vars[10]), "ftrl.learning_rate_power"@, true, false, Distribution::Uniform)
    &&& vars[11].constrained && is_continuous_var(without_constraint(vars[11]), "ftrl.initial_accumulator_value"@, true, false, Distribution::Uniform)
    &&& vars[12].constrained && is_continuous_var(without_constraint(vars[12]), "ftrl.l1_regularization_strength"@, true, false, Distribution::Uniform)
    &&& vars[13].constrained && is_continuous_var(without_constraint(vars[13]), "ftrl.l2_regularization_strength"@, true, false, Distribution::Uniform)
    &&& vars[14].constrained && is_continuous_var(without_constraint(vars[14]), "ftrl.l2_shrinkage_regularization_strength"@, true, false, Distribution::Uniform)
    &&& vars[15].constrained && is_continuous_var(without_constraint(vars[15]), "momentum.momentum"@, true, true, Distribution::Uniform)
    &&& vars[16].constrained && is_categorical_var(without_constraint(vars[16]), "momentum.use_nesterov"@, seq!["false"@, "true"@])
    &&& vars[17].constrained && is_continuous_var(without_constraint(vars[17]), "proximal-adagrad.initial_accumulator_value"@, true, true, Distribution::Uniform)
    &&& vars[18].constrained && is_continuous_var(without_constraint(vars[18]), "proximal-adagrad.l1_regularization_strength"@, true, false, Distribution::Uniform)
    &&& vars[19].constrained && is_continuous_var(without_constraint(vars[19]), "proximal-adagrad.l2_regularization_strength"@, true, false, Distribution::Uniform)
    &&& vars[20].constrained && is_continuous_var(without_constraint(vars[20]), "proximal-gradient-descent.l1_regularization_strength"@, true, false, Distribution::Uniform)
    &&& vars[21].constrained && is_continuous_var(without_constraint(vars[21]), "proximal-gradient-descent.l2_regularization_strength"@, true, false, Distribution::Uniform)
    &&& vars[22].constrained && is_continuous_var(without_constraint(vars[22]), "rms-prop.decay"@, true, true, Distribution::Uniform)
    &&& vars[23].constrained && is_continuous_var(without_constraint(vars[23]), "rms-prop.momentum"@, true, true, Distribution::Uniform)
    &&& vars[24].constrained && is_continuous_var(without_constraint(vars[24]), "rms-prop.epsilon"@, true, true, Distribution::LogUniform)
    &&& vars[25].constrained && is_categorical_var(without_constraint(vars[25]), "rms-prop.centered"@, seq!["false"@, "true"@])
}

/// The optimizer names, as the optimizer parameter's choices.
fn optimizer_list() -> (res: Vec<&'static str>)
    ensures
        res@.map_values(|s: &str| s@) == optimizers(),
{
    let mut res: Vec<&'static str> = Vec::new();
    let mut i: usize = 0;
    while i < 9
        invariant
            i <= 9,
            res@.len() == i,
            forall|k: int| 0 <= k < i ==> #[trigger] res@[k]@ == optimizers()[k],
        decreases 9 - i,
    {
        res.push(optimizer_name(i));
        i = i + 1;
    }
    assert(res@.map_values(|s: &str| s@) =~= optimizers());
    res
}

impl DeepobsProblemRecipe {
    /// The parameter domain of the problem, as `deepobs_params` describes it; every
    /// variable of it is valid.
    pub fn params_domain(&self) -> (res: Vec<VariableSpec>)
        ensures
            deepobs_params(res@),
            forall|i: int| 0 <= i < res@.len() ==> variable_valid(#[trigger] res@[i]),
    {
        let p0 = choices_var("optimizer", optimizer_list());
        let p1 = continuous_var("learning-rate", true, true, Distribution::LogUniform);
        let p2 = continuous_var("weight-decay", true, true, Distribution::Uniform);
        let p3 = discrete_var("batch-size", 1, 1024);
        let p4 = conditional_var(continuous_var("adadelta.rho", true, true, Distribution::Uniform));
        let p5 = conditional_var(continuous_var("adadelta.epsilon", true, true, Distribution::LogUniform));
        let p6 = conditional_var(continuous_var("adagrad.initial_accumulator_value", true, true, Distribution::Uniform));
        let p7 = conditional_var(continuous_var("adam.beta1", true, true, Distribution::Uniform));
        let p8 = conditional_var(continuous_var("adam.beta2", true, true, Distribution::Uniform));
        let p9 = conditional_var(continuous_var("adam.epsilon", true, true, Distribution::LogUniform));
        let p10 = conditional_var(continuous_var("ftrl.learning_rate_power", true, false, Distribution::Uniform));
        let p11 = conditional_var(continuous_var("ftrl.initial_accumulator_value", true, false, Distribution::Uniform));
        let p12 = conditional_var(continuous_var("ftrl.l1_regularization_strength", true, false, Distribution::Uniform));
        let p13 = conditional_var(continuous_var("ftrl.l2_regularization_strength", true, false, Distribution::Uniform));
        let p14 = conditional_var(continuous_var("ftrl.l2_shrinkage_regularization_strength", true, false, Distribution::Uniform));
        let p15 = conditional_var(continuous_var("momentum.momentum", true, true, Distribution::Uniform));
        let p16 = conditional_var(boolean_var("momentum.use_nesterov"));
        let p17 = conditional_var(continuous_var("proximal-adagrad.initial_accumulator_value", true, true, Distribution::Uniform));
        let p18 = conditional_var(continuous_var("proximal-adagrad.l1_regularization_strength", true, false, Distribution::Uniform));
        let p19 = conditional_var(continuous_var("proximal-adagrad.l2_regularization_strength", true, false, Distribution::Uniform));
        let p20 = conditional_var(continuous_var("proximal-gradient-descent.l1_regularization_strength", true, false, Distribution::Uniform));
        let p21 = conditional_var(continuous_var("proximal-gradient-descent.l2_regularization_strength", true, false, Distribution::Uniform));
        let p22 = conditional_var(continuous_var("rms-prop.decay", true, true, Distribution::Uniform));
        let p23 = conditional_var(continuous_var("rms-prop.momentum", true, true, Distribution::Uniform));
        let p24 = conditional_var(continuous_var("rms-prop.epsilon", true, true, Distribution::LogUniform));
        let p25 = conditional_var(boolean_var("rms-prop.centered"));
        let res = vec![
            p0, p1, p2, p3, p4, p5, p6, p7, p8, p9, p10, p11, p12, p13, p14, p15, p16, p17, p18, p19, p20, p21, p22, p23, p24, p25,
        ];
        proof {
            assert(deepobs_params(res@));
            assert forall|i: int| 0 <= i < res@.len() implies variable_valid(#[trigger] res@[i]) by {
                let v = res@[i];
                assert(without_constraint(v).range == v.range && without_constraint(v).distribution == v.distribution);
                assert(optimizers().len() == 9);
                assert(seq!["false"@, "true"@].len() == 2);
                match v.range {
                    RangeSpec::Categorical { choices } => {
                        assert(choices@.map_values(|s: String| s@).len() == choices@.len());
                    },
                    _ => {},
                }
            }
        }
        res
    }
}

} // verus!
