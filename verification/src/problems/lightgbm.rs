//! A problem that tunes LightGBM through an external script.
use vstd::prelude::*;
use crate::error::ErrorKind;
use crate::text::{decimal, u64_to_string, views};
use crate::epi::EmbeddedScriptProblemRecipe;

verus! {

/// Evaluation metric.
#[derive(Debug, Clone, Copy, PartialEq, Eq, Structural)]
pub enum Metric {
    Auc,
}

impl Metric {
    /// Returns `true` for the default metric, AUC.
    pub fn is_default(&self) -> (res: bool)
        ensures
            res == (*self == Metric::Auc),
    {
        match self {
            Metric::Auc => true,
        }
    }

    /// The default metric, AUC.
    pub fn default_metric() -> (res: Metric)
        ensures
            res == Metric::Auc,
    {
        Metric::Auc
    }

    /// Parses `auc`; any other text is refused with `InvalidInput`.
    pub fn parse(s: &str) -> (res: Result<Metric, ErrorKind>)
        ensures
            s@ == "auc"@ ==> res == Ok::<Metric, ErrorKind>(Metric::Auc),
            s@ != "auc"@ ==> res == Err::<Metric, ErrorKind>(ErrorKind::InvalidInput),
    {
        if crate::text::str_eq(s, "auc") {
            Ok(Metric::Auc)
        } else {
            Err(ErrorKind::InvalidInput)
        }
    }
}

/// Recipe of the LightGBM problem.
#[derive(Debug)]
pub struct LightgbmProblemRecipe {
    pub training_data_path: String,
    pub validation_data_path: String,
    pub num_boost_round: Option<usize>,
    pub metric: Metric,
}

/// The arguments passed to the LightGBM script.
pub open spec fn lightgbm_args(r: LightgbmProblemRecipe) -> Seq<Seq<char>> {
    seq![r.training_data_path@, r.validation_data_path@] + match r.num_boost_round {
        Some(n) => seq!["--num-boost-round"@, decimal(n as nat)],
        None => Seq::empty(),
    }
}

impl LightgbmProblemRecipe {
    /// The command line arguments passed to the script: the two data paths, then the
    /// number of boosting rounds when it is given.
    pub fn script_args(&self) -> (res: Vec<String>)
        ensures
            views(res@) == lightgbm_args(*self),
    {
        let mut args: Vec<String> = Vec::new();
        args.push(self.training_data_path.clone());
        args.push(self.validation_data_path.clone());
        if let Some(round) = self.num_boost_round {
            args.push("--num-boost-round".to_owned());
            args.push(u64_to_string(round as u64));
        }
        assert(views(args@) =~= lightgbm_args(*self));
        args
    }
}

impl LightgbmProblemRecipe {
    /// The embedded script recipe that runs the LightGBM script with the arguments of
    /// `script_args`.
    pub fn embedded_recipe(&self, script: &str) -> (res: EmbeddedScriptProblemRecipe)
        ensures
            res.script@ == script@,
            views(res.args@) == lightgbm_args(*self),
    {
        EmbeddedScriptProblemRecipe { script: script.to_owned(), args: self.script_args() }
    }
}

} // verus!
