//! Error kinds.
use vstd::prelude::*;

verus! {

/// Possible error kinds.
#[derive(Debug, Clone, Copy, PartialEq, Eq, Structural, Hash)]
pub enum ErrorKind {
    /// Invalid input was given.
    InvalidInput,
    /// I/O error.
    IoError,
    /// Other error.
    Other,
}

#[verifier::external_type_specification]
#[verifier::external_body]
pub struct ExJsonError(serde_json::Error);

/// The category of a JSON error.
#[derive(Debug, Clone, Copy, PartialEq, Eq, Structural)]
pub enum JsonErrorCategory {
    /// Reading or writing bytes failed.
    Io,
    /// The input is not valid JSON.
    Syntax,
    /// The input does not fit the type that was read.
    Data,
    /// The input ended too early.
    Eof,
}

/// Calls `serde_json::Error::classify` and turns its `Category` into the category above,
/// variant for variant. Which category an error has depends on what is inside it, which
/// is not visible here, so nothing is stated of the result.
#[verifier::external_body]
fn json_error_category(e: &serde_json::Error) -> JsonErrorCategory {
    match e.classify() {
        serde_json::error::Category::Io => JsonErrorCategory::Io,
        serde_json::error::Category::Syntax => JsonErrorCategory::Syntax,
        serde_json::error::Category::Data => JsonErrorCategory::Data,
        serde_json::error::Category::Eof => JsonErrorCategory::Eof,
    }
}

/// The error kind of a JSON error of the given category: `IoError` for a failure to read
/// or write, `InvalidInput` for everything else.
pub fn kind_of_json_category(c: JsonErrorCategory) -> (res: ErrorKind)
    ensures
        res == (if c == JsonErrorCategory::Io { ErrorKind::IoError } else { ErrorKind::InvalidInput }),
{
    match c {
        JsonErrorCategory::Io => ErrorKind::IoError,
        _ => ErrorKind::InvalidInput,
    }
}

/// The error kind of a JSON error: `IoError` when `serde_json` classifies it as an I/O
/// failure, `InvalidInput` otherwise.
pub fn json_error_kind(e: &serde_json::Error) -> (res: ErrorKind)
    ensures
        res == ErrorKind::IoError || res == ErrorKind::InvalidInput,
{
    kind_of_json_category(json_error_category(e))
}

} // verus!
