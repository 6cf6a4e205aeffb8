//! A solver that runs Optuna in an external process.
use vstd::prelude::*;
use crate::text::views;
use crate::epi::EmbeddedScriptSolverRecipe;

verus! {

/// Pushes `key` then `val` onto `args`.
pub fn add_arg(args: &mut Vec<String>, key: &str, val: &str)
    ensures
        views(final(args)@) == views(old(args)@).push(key@).push(val@),
{
    args.push(key.to_owned());
    args.push(val.to_owned());
    assert(views(args@) =~= views(old(args)@).push(key@).push(val@));
}

/// Returns `true` if `b` is `false`.
pub fn is_false(b: &bool) -> (res: bool)
    ensures
        res == !*b,
{
    !*b
}

/// The default log level.
pub fn default_loglevel() -> (res: String)
    ensures
        res@ == "warning"@,
{
    "warning".to_owned()
}

/// Returns `true` if the log level is the default one.
pub fn is_default_loglevel(x: &String) -> (res: bool)
    ensures
        res == (x@ == "warning"@),
{
    x.eq(&default_loglevel())
}

/// Recipe of `OptunaSolver`.
#[derive(Debug)]
pub struct OptunaSolverRecipe {
    /// Log level.
    pub loglevel: String,
    /// Sampler class name (e.g., "TPESampler").
    pub sampler: Option<String>,
    /// Sampler arguments (e.g., "{\"seed\": 10}").
    pub sampler_kwargs: Option<String>,
    /// Pruner class name (e.g., "MedianPruner").
    pub pruner: Option<String>,
    /// Pruner arguments (e.g., "{\"n_warmup_steps\": 10}").
    pub pruner_kwargs: Option<String>,
    /// Sets optimization direction to "maximize".
    pub maximize: bool,
    /// Use `Trial.suggest_discrete_uniform()` for discrete parameters instead of `Trial.suggest_int()`.
    pub use_discrete_uniform: bool,
}

/// `key value` when the value is given, nothing otherwise.
pub open spec fn opt_arg(key: Seq<char>, value: Option<String>) -> Seq<Seq<char>> {
    match value {
        Some(v) => seq![key, v@],
        None => Seq::empty(),
    }
}

/// The command line arguments that a recipe passes to the Optuna solver script.
pub open spec fn optuna_args(r: OptunaSolverRecipe) -> Seq<Seq<char>> {
    seq!["--loglevel"@, r.loglevel@] + opt_arg("--sampler"@, r.sampler) + opt_arg(
        "--sampler-kwargs"@,
        r.sampler_kwargs,
    ) + opt_arg("--pruner"@, r.pruner) + opt_arg("--pruner-kwargs"@, r.pruner_kwargs) + (if r.maximize {
        seq!["--direction"@, "maximize"@]
    } else {
        Seq::empty()
    }) + (if r.use_discrete_uniform {
        seq!["--use-discrete-uniform"@]
    } else {
        Seq::empty()
    })
}

fn add_opt_arg(args: &mut Vec<String>, key: &str, val: &Option<String>)
    ensures
        views(final(args)@) == views(old(args)@) + opt_arg(key@, *val),
{
    if let Some(v) = val {
        add_arg(args, key, v.as_str());
    }
    assert(views(args@) =~= views(old(args)@) + opt_arg(key@, *val));
}

impl OptunaSolverRecipe {
    /// The command line arguments passed to the solver script.
    pub fn build_args(&self) -> (res: Vec<String>)
        ensures
            views(res@) == optuna_args(*self),
    {
        let mut args: Vec<String> = Vec::new();
        add_arg(&mut args, "--loglevel", self.loglevel.as_str());
        add_opt_arg(&mut args, "--sampler", &self.sampler);
        add_opt_arg(&mut args, "--sampler-kwargs", &self.sampler_kwargs);
        add_opt_arg(&mut args, "--pruner", &self.pruner);
        add_opt_arg(&mut args, "--pruner-kwargs", &self.pruner_kwargs);
        if self.maximize {
            add_arg(&mut args, "--direction", "maximize");
        }
        let ghost before = views(args@);
        if self.use_discrete_uniform {
            args.push("--use-discrete-uniform".to_owned());
            assert(views(args@) =~= before.push("--use-discrete-uniform"@));
        }
        assert(views(args@) =~= optuna_args(*self));
        args
    }
}

impl OptunaSolverRecipe {
    /// The embedded script recipe that runs the Optuna solver script with the arguments
    /// of `build_args`.
    pub fn embedded_recipe(&self, script: &str) -> (res: EmbeddedScriptSolverRecipe)
        ensures
            res.script@ == script@,
            views(res.args@) == optuna_args(*self),
    {
        EmbeddedScriptSolverRecipe { script: script.to_owned(), args: self.build_args() }
    }
}

} // verus!
