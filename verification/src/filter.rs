//! Filters of problem specifications and observations.
use vstd::prelude::*;

verus! {

/// Specification of a filter.
#[derive(Debug)]
pub struct FilterSpec {
    /// The name of the filter.
    pub name: String,
}

} // verus!
