//! Parameter conditions and categorical parameters.
use vstd::prelude::*;
use crate::error::ErrorKind;

verus! {

/// A categorical parameter.
#[derive(Debug)]
pub struct Categorical {
    /// The parameter name.
    pub name: String,
    /// The possible choices.
    pub choices: Vec<String>,
}

/// A condition under which a conditional parameter is active.
///
/// It can refer only to preceding parameters.
#[derive(Debug)]
pub enum Condition {
    /// The parameter `name` takes one of `choices`.
    Member { name: String, choices: Vec<String> },
}

/// The condition that the categorical parameter `name` takes the value `value`.
pub fn category_eq(name: &str, value: &str) -> (res: Condition)
    ensures
        match res {
            Condition::Member { name: n, choices } => n@ == name@ && choices@.len() == 1
                && choices@[0]@ == value@,
        },
{
    let mut choices: Vec<String> = Vec::new();
    choices.push(value.to_owned());
    Condition::Member { name: name.to_owned(), choices }
}

/// Prior distribution of a parameter.
#[derive(Debug, Clone, Copy, PartialEq, Eq, Structural, Hash)]
pub enum Distribution {
    Uniform,
    LogUniform,
}

impl Distribution {
    /// Returns `true` for the uniform distribution.
    pub fn is_uniform(&self) -> (res: bool)
        ensures
            res == (*self == Distribution::Uniform),
    {
        match self {
            Distribution::Uniform => true,
            Distribution::LogUniform => false,
        }
    }

    /// The default distribution, uniform.
    pub fn default_distribution() -> (res: Distribution)
        ensures
            res == Distribution::Uniform,
    {
        Distribution::Uniform
    }

    /// Parses `"uniform"` or `"loguniform"`; any other text is refused with `InvalidInput`.
    pub fn parse(s: &str) -> (res: Result<Distribution, ErrorKind>)
        ensures
            s@ == "uniform"@ ==> res == Ok::<Distribution, ErrorKind>(Distribution::Uniform),
            s@ == "loguniform"@ ==> res == Ok::<Distribution, ErrorKind>(Distribution::LogUniform),
            s@ != "uniform"@ && s@ != "loguniform"@ ==> res == Err::<Distribution, ErrorKind>(ErrorKind::InvalidInput),
    {
        proof {
            reveal_strlit("uniform");
            reveal_strlit("loguniform");
            assert("uniform"@.len() != "loguniform"@.len());
        }
        if crate::text::str_eq(s, "uniform") {
            Ok(Distribution::Uniform)
        } else if crate::text::str_eq(s, "loguniform") {
            Ok(Distribution::LogUniform)
        } else {
            Err(ErrorKind::InvalidInput)
        }
    }
}

} // verus!
