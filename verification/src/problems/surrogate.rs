//! A problem that uses a random forest surrogate model to evaluate parameters.
use vstd::prelude::*;
use vstd::string::StringExecFns;
use vstd::string::StrSliceExecFns;

verus! {

/// Recipe of the surrogate problem.
#[derive(Debug)]
pub struct SurrogateProblemRecipe {
    /// Directory path where a problem spec and a surrogate model files exist.
    pub model: String,
    /// Disable the in-memory model cache to reduce memory usage.
    pub disable_cache: bool,
}

/// Returns `true` if `b` is `false`.
pub fn is_false(b: &bool) -> (res: bool)
    ensures
        res == !*b,
{
    !*b
}

/// The joining of a directory path and a file name with `/`, unless the directory is empty
/// or already ends with `/`.
pub open spec fn join_path(dir: Seq<char>, file: Seq<char>) -> Seq<char> {
    if dir.len() == 0 || dir.last() == '/' {
        dir + file
    } else {
        dir + seq!['/'] + file
    }
}

impl SurrogateProblemRecipe {
    /// The path of the problem specification file of the model.
    pub fn spec_path(&self) -> (res: String)
        ensures
            res@ == join_path(self.model@, "spec.json"@),
    {
        self.file_path("spec.json")
    }

    /// The path of the model file.
    pub fn model_path(&self) -> (res: String)
        ensures
            res@ == join_path(self.model@, "model.bin"@),
    {
        self.file_path("model.bin")
    }

    fn file_path(&self, file: &str) -> (res: String)
        ensures
            res@ == join_path(self.model@, file@),
    {
        let dir = self.model.as_str();
        let n = dir.unicode_len();
        let mut res = dir.to_owned();
        if n == 0 || dir.get_char(n - 1) == '/' {
            res.append(file);
        } else {
            res.append("/");
            proof {
                reveal_strlit("/");
                assert("/"@ =~= seq!['/']);
            }
            res.append(file);
        }
        res
    }
}

} // verus!
