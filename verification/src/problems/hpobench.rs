//! Tabular benchmarks for joint architecture and hyperparameter optimization (FC-Net):
//! the keys under which the dataset stores the results of each configuration.
use vstd::prelude::*;
use vstd::string::StringExecFns;
use crate::text::{concat, decimal, u64_to_string};
use crate::error::ErrorKind;
use crate::domain::{choice_texts, distinct_names, domain_valid, is_categorical_var, is_continuous_var, is_discrete_var, variable_names, variable_valid, Distribution, RangeSpec, VariableSpec};
use crate::problem::{steps_up_to, valid_steps, ProblemSpec, ProblemSpecBuilder};

verus! {

/// Recipe of the problem (HPO-Bench).
#[derive(Debug)]
pub struct HpobenchProblemRecipe {
    /// Path of the FC-Net dataset.
    pub dataset: String,
}

/// Recipe of the problem (older interface).
#[derive(Debug)]
pub struct FcNetProblemRecipe {
    pub dataset_path: String,
}

/// The display name of a dataset, given the stem of its file name.
pub open spec fn dataset_name(stem: Seq<char>) -> Seq<char> {
    if stem == "fcnet_naval_propulsion_data"@ {
        "HPO-Bench-Naval"@
    } else if stem == "fcnet_parkinsons_telemonitoring_data"@ {
        "HPO-Bench-Parkinson"@
    } else if stem == "fcnet_protein_structure_data"@ {
        "HPO-Bench-Protein"@
    } else if stem == "fcnet_slice_localization_data"@ {
        "HPO-Bench-Slice"@
    } else {
        stem
    }
}

/// The display name of a dataset, given the stem of its file name.
pub fn problem_name(stem: &str) -> (res: String)
    ensures
        res@ == dataset_name(stem@),
{
    if crate::text::str_eq(stem, "fcnet_naval_propulsion_data") {
        "HPO-Bench-Naval".to_owned()
    } else if crate::text::str_eq(stem, "fcnet_parkinsons_telemonitoring_data") {
        "HPO-Bench-Parkinson".to_owned()
    } else if crate::text::str_eq(stem, "fcnet_protein_structure_data") {
        "HPO-Bench-Protein".to_owned()
    } else if crate::text::str_eq(stem, "fcnet_slice_localization_data") {
        "HPO-Bench-Slice".to_owned()
    } else {
        stem.to_owned()
    }
}

/// The choices of each of the nine parameters, as the dataset writes them.
pub open spec fn activation(i: int) -> Seq<char> {
    if i == 0 { "\"tanh\""@ } else { "\"relu\""@ }
}

pub open spec fn batch_size(i: int) -> nat {
    if i == 0 { 8 } else if i == 1 { 16 } else if i == 2 { 32 } else { 64 }
}

pub open spec fn dropout(i: int) -> Seq<char> {
    if i == 0 { "0.0"@ } else if i == 1 { "0.3"@ } else { "0.6"@ }
}

pub open spec fn init_lr(i: int) -> Seq<char> {
    if i == 0 { "0.0005"@ }
    else if i == 1 { "0.001"@ }
    else if i == 2 { "0.005"@ }
    else if i == 3 { "0.01"@ }
    else if i == 4 { "0.05"@ }
    else { "0.1"@ }
}

pub open spec fn lr_schedule(i: int) -> Seq<char> {
    if i == 0 { "\"cosine\""@ } else { "\"const\""@ }
}

pub open spec fn units(i: int) -> nat {
    if i == 0 { 16 } else if i == 1 { 32 } else if i == 2 { 64 } else if i == 3 { 128 } else if i == 4 { 256 } else { 512 }
}

/// The number of choices of each parameter.
pub open spec fn choice_counts() -> Seq<usize> {
    seq![2usize, 2, 4, 3, 3, 6, 2, 6, 6]
}

/// Every choice index is within the choices of its parameter.
pub open spec fn valid_choices(p: Seq<usize>) -> bool {
    p.len() == 9 && forall|i: int| 0 <= i < 9 ==> #[trigger] p[i] < choice_counts()[i]
}

/// The JSON text that names a configuration in the dataset.
pub open spec fn config_key(p: Seq<usize>) -> Seq<char> {
    "{\"activation_fn_1\": "@ + activation(p[0] as int)
        + ", \"activation_fn_2\": "@ + activation(p[1] as int)
        + ", \"batch_size\": "@ + decimal(batch_size(p[2] as int))
        + ", \"dropout_1\": "@ + dropout(p[3] as int)
        + ", \"dropout_2\": "@ + dropout(p[4] as int)
        + ", \"init_lr\": "@ + init_lr(p[5] as int)
        + ", \"lr_schedule\": "@ + lr_schedule(p[6] as int)
        + ", \"n_units_1\": "@ + decimal(units(p[7] as int))
        + ", \"n_units_2\": "@ + decimal(units(p[8] as int)) + "}"@
}

/// The path of the validation MSE of a configuration in the dataset.
pub open spec fn valid_mse_path(p: Seq<usize>) -> Seq<char> {
    "/"@ + config_key(p) + "/valid_mse"@
}

fn activation_text(i: usize) -> (res: &'static str)
    ensures
        res@ == activation(i as int),
{
    if i == 0 { "\"tanh\"" } else { "\"relu\"" }
}

fn dropout_text(i: usize) -> (res: &'static str)
    ensures
        res@ == dropout(i as int),
{
    if i == 0 { "0.0" } else if i == 1 { "0.3" } else { "0.6" }
}

fn init_lr_text(i: usize) -> (res: &'static str)
    ensures
        res@ == init_lr(i as int),
{
    if i == 0 { "0.0005" }
    else if i == 1 { "0.001" }
    else if i == 2 { "0.005" }
    else if i == 3 { "0.01" }
    else if i == 4 { "0.05" }
    else { "0.1" }
}

fn lr_schedule_text(i: usize) -> (res: &'static str)
    ensures
        res@ == lr_schedule(i as int),
{
    if i == 0 { "\"cosine\"" } else { "\"const\"" }
}

fn batch_size_value(i: usize) -> (res: u64)
    ensures
        res == batch_size(i as int),
{
    if i == 0 { 8 } else if i == 1 { 16 } else if i == 2 { 32 } else { 64 }
}

fn units_value(i: usize) -> (res: u64)
    ensures
        res == units(i as int),
{
    if i == 0 { 16 } else if i == 1 { 32 } else if i == 2 { 64 } else if i == 3 { 128 } else if i == 4 { 256 } else { 512 }
}

/// The JSON text that names the configuration with the given choice indices.
pub fn config_key_text(p: &[usize]) -> (res: String)
    requires
        valid_choices(p@),
    ensures
        res@ == config_key(p@),
{
    let mut s = "{\"activation_fn_1\": ".to_owned();
    s.append(activation_text(p[0]));
    s.append(", \"activation_fn_2\": ");
    s.append(activation_text(p[1]));
    s.append(", \"batch_size\": ");
    s.append(u64_to_string(batch_size_value(p[2])).as_str());
    s.append(", \"dropout_1\": ");
    s.append(dropout_text(p[3]));
    s.append(", \"dropout_2\": ");
    s.append(dropout_text(p[4]));
    s.append(", \"init_lr\": ");
    s.append(init_lr_text(p[5]));
    s.append(", \"lr_schedule\": ");
    s.append(lr_schedule_text(p[6]));
    s.append(", \"n_units_1\": ");
    s.append(u64_to_string(units_value(p[7])).as_str());
    s.append(", \"n_units_2\": ");
    s.append(u64_to_string(units_value(p[8])).as_str());
    s.append("}");
    s
}

/// The path of the validation MSE of the configuration with the given choice indices.
pub fn valid_mse_key(p: &[usize]) -> (res: String)
    requires
        valid_choices(p@),
    ensures
        res@ == valid_mse_path(p@),
{
    let mut s = "/".to_owned();
    s.append(config_key_text(p).as_str());
    s.append("/valid_mse");
    s
}

/// The names of the nine parameters of the problem, in domain order.
pub open spec fn hpobench_param_names() -> Seq<Seq<char>> {
    seq![
        "activation_fn_1"@,
        "activation_fn_2"@,
        "batch_size"@,
        "dropout_1"@,
        "dropout_2"@,
        "init_lr"@,
        "lr_schedule"@,
        "n_units_1"@,
        "n_units_2"@,
    ]
}

/// The attributes of the problem built by a crate of the given version.
pub open spec fn hpobench_attrs(crate_version: Seq<char>) -> Map<Seq<char>, Seq<char>> {
    Map::<Seq<char>, Seq<char>>::empty()
        .insert("version"@, "kurobako_problems="@ + crate_version)
        .insert("paper"@, "Klein, Aaron, and Frank Hutter. \"Tabular Benchmarks for Joint Architecture and Hyperparameter Optimization.\" arXiv preprint arXiv:1905.04970 (2019)."@)
        .insert("github"@, "https://github.com/automl/nas_benchmarks"@)
}

proof fn lemma_param_names_distinct()
    ensures
        distinct_names(hpobench_param_names()),
{
    reveal_strlit("activation_fn_1");
    reveal_strlit("activation_fn_2");
    reveal_strlit("batch_size");
    reveal_strlit("dropout_1");
    reveal_strlit("dropout_2");
    reveal_strlit("init_lr");
    reveal_strlit("lr_schedule");
    reveal_strlit("n_units_1");
    reveal_strlit("n_units_2");
    let n = hpobench_param_names();
    assert(n[0][14] != n[1][14]);
    assert(n[0].len() != n[2].len());
    assert(n[0].len() != n[3].len());
    assert(n[0].len() != n[4].len());
    assert(n[0].len() != n[5].len());
    assert(n[0].len() != n[6].len());
    assert(n[0].len() != n[7].len());
    assert(n[0].len() != n[8].len());
    assert(n[1].len() != n[2].len());
    assert(n[1].len() != n[3].len());
    assert(n[1].len() != n[4].len());
    assert(n[1].len() != n[5].len());
    assert(n[1].len() != n[6].len());
    assert(n[1].len() != n[7].len());
    assert(n[1].len() != n[8].len());
    assert(n[2].len() != n[3].len());
    assert(n[2].len() != n[4].len());
    assert(n[2].len() != n[5].len());
    assert(n[2].len() != n[6].len());
    assert(n[2].len() != n[7].len());
    assert(n[2].len() != n[8].len());
    assert(n[3][8] != n[4][8]);
    assert(n[3].len() != n[5].len());
    assert(n[3].len() != n[6].len());
    assert(n[3][0] != n[7][0]);
    assert(n[3][0] != n[8][0]);
    assert(n[4].len() != n[5].len());
    assert(n[4].len() != n[6].len());
    assert(n[4][0] != n[7][0]);
    assert(n[4][0] != n[8][0]);
    assert(n[5].len() != n[6].len());
    assert(n[5].len() != n[7].len());
    assert(n[5].len() != n[8].len());
    assert(n[6].len() != n[7].len());
    assert(n[6].len() != n[8].len());
    assert(n[7][8] != n[8][8]);
    assert forall|i: int, j: int| 0 <= i < j < n.len() implies n[i] != n[j] by {
        assert(i == 0 || i == 1 || i == 2 || i == 3 || i == 4 || i == 5 || i == 6 || i == 7);
        assert(j == 1 || j == 2 || j == 3 || j == 4 || j == 5 || j == 6 || j == 7 || j == 8);
    }
}

fn categorical_var(name: &str, a: &str, b: &str) -> (res: VariableSpec)
    ensures
        variable_valid(res),
        is_categorical_var(res, name@, seq![a@, b@]),
{
    let mut choices: Vec<String> = Vec::new();
    choices.push(a.to_owned());
    choices.push(b.to_owned());
    assert(choices@.map_values(|s: String| s@) =~= seq![a@, b@]);
    VariableSpec {
        name: name.to_owned(),
        range: RangeSpec::Categorical { choices },
        distribution: Distribution::Uniform,
        constrained: false,
    }
}

fn index_var(name: &str, high: i64) -> (res: VariableSpec)
    requires
        high > 0,
    ensures
        variable_valid(res),
        is_discrete_var(res, name@, 0, high, Distribution::Uniform),
{
    VariableSpec {
        name: name.to_owned(),
        range: RangeSpec::Discrete { low: 0, high },
        distribution: Distribution::Uniform,
        constrained: false,
    }
}

/// The parameter domain of the problem: the two activations and the learning rate
/// schedule as two-way choices, and the batch size, the two dropouts, the initial learning
/// rate and the two layer widths as indices into their 4, 3, 3, 6, 6 and 6 choices.
pub open spec fn hpobench_params(vars: Seq<VariableSpec>) -> bool {
    &&& vars.len() == 9
    &&& is_categorical_var(vars[0], "activation_fn_1"@, seq!["tanh"@, "relu"@])
    &&& is_categorical_var(vars[1], "activation_fn_2"@, seq!["tanh"@, "relu"@])
    &&& is_discrete_var(vars[2], "batch_size"@, 0, 4, Distribution::Uniform)
    &&& is_discrete_var(vars[3], "dropout_1"@, 0, 3, Distribution::Uniform)
    &&& is_discrete_var(vars[4], "dropout_2"@, 0, 3, Distribution::Uniform)
    &&& is_discrete_var(vars[5], "init_lr"@, 0, 6, Distribution::Uniform)
    &&& is_categorical_var(vars[6], "lr_schedule"@, seq!["cosine"@, "const"@])
    &&& is_discrete_var(vars[7], "n_units_1"@, 0, 6, Distribution::Uniform)
    &&& is_discrete_var(vars[8], "n_units_2"@, 0, 6, Distribution::Uniform)
}

/// The value domain of the problem: the validation MSE, continuous from 0 upwards
/// (its bounds are 0 and infinity: the low one is below the high one, and not positive).
pub open spec fn hpobench_values(vars: Seq<VariableSpec>) -> bool {
    &&& vars.len() == 1
    &&& is_continuous_var(vars[0], "Validation MSE"@, true, false, Distribution::Uniform)
}

/// The dataset's choices follow the parameter domain: the activations and the learning
/// rate schedule are written as the quoted choices of the domain's categorical variables,
/// in the domain's order; every other parameter is an index whose count of choices is the
/// width of its discrete range; the batch sizes are 8, 16, 32 and 64 (doubling from 8)
/// and the layer widths 16 to 512 (doubling from 16); the dropouts are 0.0, 0.3 and 0.6.
pub proof fn lemma_key_values_follow_domain(vars: Seq<VariableSpec>)
    requires
        hpobench_params(vars),
    ensures
        forall|i: int| 0 <= i < 2 ==> #[trigger] activation(i) == "\""@ + choice_texts(vars[0])[i] + "\""@,
        forall|i: int| 0 <= i < 2 ==> #[trigger] activation(i) == "\""@ + choice_texts(vars[1])[i] + "\""@,
        forall|i: int| 0 <= i < 2 ==> #[trigger] lr_schedule(i) == "\""@ + choice_texts(vars[6])[i] + "\""@,
        choice_texts(vars[0]).len() == choice_counts()[0],
        choice_texts(vars[1]).len() == choice_counts()[1],
        choice_texts(vars[6]).len() == choice_counts()[6],
        forall|i: int| 2 <= i < 9 && i != 6 ==> (#[trigger] vars[i]).range == (RangeSpec::Discrete { low: 0, high: choice_counts()[i] as i64 }),
        batch_size(0) == 8,
        forall|i: int| 0 <= i < 3 ==> #[trigger] batch_size(i + 1) == 2 * batch_size(i),
        units(0) == 16,
        forall|i: int| 0 <= i < 5 ==> #[trigger] units(i + 1) == 2 * units(i),
        forall|i: int| 0 <= i < 3 ==> #[trigger] dropout(i) == "0."@ + decimal((3 * i) as nat),
        forall|i: int| 0 <= i < 3 ==> #[trigger] init_lr(2 * i) == "0."@ + Seq::new((3 - i) as nat, |k: int| '0') + seq!['5'],
        forall|i: int| 0 <= i < 3 ==> #[trigger] init_lr(2 * i + 1) == "0."@ + Seq::new((2 - i) as nat, |k: int| '0') + seq!['1'],
{
    reveal_strlit("0.0005");
    reveal_strlit("0.001");
    reveal_strlit("0.005");
    reveal_strlit("0.01");
    reveal_strlit("0.05");
    reveal_strlit("0.1");
    reveal_strlit("\"tanh\"");
    reveal_strlit("\"relu\"");
    reveal_strlit("\"cosine\"");
    reveal_strlit("\"const\"");
    reveal_strlit("tanh");
    reveal_strlit("relu");
    reveal_strlit("cosine");
    reveal_strlit("const");
    reveal_strlit("\"");
    reveal_strlit("0.0");
    reveal_strlit("0.3");
    reveal_strlit("0.6");
    reveal_strlit("0.");
    assert(choice_texts(vars[0]) =~= seq!["tanh"@, "relu"@]);
    assert(choice_texts(vars[1]) =~= seq!["tanh"@, "relu"@]);
    assert(choice_texts(vars[6]) =~= seq!["cosine"@, "const"@]);
    assert("\"tanh\""@ =~= "\""@ + "tanh"@ + "\""@);
    assert("\"relu\""@ =~= "\""@ + "relu"@ + "\""@);
    assert("\"cosine\""@ =~= "\""@ + "cosine"@ + "\""@);
    assert("\"const\""@ =~= "\""@ + "const"@ + "\""@);
    assert(decimal(0) == seq!['0']);
    assert(decimal(3) == seq!['3']);
    assert(decimal(6) == seq!['6']);
    assert("0.0"@ =~= "0."@ + seq!['0']);
    assert("0.3"@ =~= "0."@ + seq!['3']);
    assert("0.6"@ =~= "0."@ + seq!['6']);
    assert(init_lr(0) =~= "0."@ + Seq::new(3, |k: int| '0') + seq!['5']);
    assert(init_lr(1) =~= "0."@ + Seq::new(2, |k: int| '0') + seq!['1']);
    assert(init_lr(2) =~= "0."@ + Seq::new(2, |k: int| '0') + seq!['5']);
    assert(init_lr(3) =~= "0."@ + Seq::new(1, |k: int| '0') + seq!['1']);
    assert(init_lr(4) =~= "0."@ + Seq::new(1, |k: int| '0') + seq!['5']);
    assert(init_lr(5) =~= "0."@ + Seq::new(0, |k: int| '0') + seq!['1']);
}

/// The specification of the problem on the dataset named `name`, built by a crate of the
/// given version: its attributes, the nine parameters (the two activations and the
/// learning rate schedule as two-way choices, the other six as indices into their choices),
/// the validation MSE as the one objective, and the steps 1 to 100.
pub fn hpobench_specification(name: &str, crate_version: &str) -> (res: Result<ProblemSpec, ErrorKind>)
    ensures
        res is Ok,
        res->Ok_0.name@ == name@,
        res->Ok_0.attrs@ == hpobench_attrs(crate_version@),
        variable_names(res->Ok_0.params_domain@) == hpobench_param_names(),
        hpobench_params(res->Ok_0.params_domain@),
        hpobench_values(res->Ok_0.values_domain@),
        res->Ok_0.steps@ == steps_up_to(100),
{
    let version = concat("kurobako_problems=", crate_version);
    let mut steps: Vec<u64> = Vec::new();
    let mut i: u64 = 0;
    while i < 100
        invariant
            i <= 100,
            steps@ == steps_up_to(i),
        decreases 100 - i,
    {
        i = i + 1;
        steps.push(i);
        assert(steps@ =~= steps_up_to(i));
    }
    let p0 = categorical_var("activation_fn_1", "tanh", "relu");
    let p1 = categorical_var("activation_fn_2", "tanh", "relu");
    let p2 = index_var("batch_size", 4);
    let p3 = index_var("dropout_1", 3);
    let p4 = index_var("dropout_2", 3);
    let p5 = index_var("init_lr", 6);
    let p6 = categorical_var("lr_schedule", "cosine", "const");
    let p7 = index_var("n_units_1", 6);
    let p8 = index_var("n_units_2", 6);
    let ghost params = seq![p0, p1, p2, p3, p4, p5, p6, p7, p8];
    let value = VariableSpec {
        name: "Validation MSE".to_owned(),
        range: RangeSpec::Continuous { low_below_high: true, low_positive: false },
        distribution: Distribution::Uniform,
        constrained: false,
    };
    let ghost values = seq![value];
    let builder = ProblemSpecBuilder::new(name)
        .attr("version", version.as_str())
        .attr(
            "paper",
            "Klein, Aaron, and Frank Hutter. \"Tabular Benchmarks for Joint Architecture and Hyperparameter Optimization.\" arXiv preprint arXiv:1905.04970 (2019).",
        )
        .attr("github", "https://github.com/automl/nas_benchmarks")
        .param(p0)
        .param(p1)
        .param(p2)
        .param(p3)
        .param(p4)
        .param(p5)
        .param(p6)
        .param(p7)
        .param(p8)
        .value(value)
        .steps(steps);
    proof {
        assert(builder.spec_params() =~= params);
        assert(builder.spec_values() =~= values);
        assert(variable_names(params) =~= hpobench_param_names());
        lemma_param_names_distinct();
        assert(domain_valid(params));
        assert(domain_valid(values)) by {
            assert(variable_names(values) =~= seq![values[0].name@]);
        }
        assert(valid_steps(steps_up_to(100)));
    }
    builder.finish()
}

} // verus!
