//! Verified core of a benchmarking tool for black-box optimization:
//! trial identifiers, solver capabilities and specifications, evaluable steps,
//! and the integer and string logic of the built-in problems and solvers.
pub mod error;
pub mod trial;
pub mod capability;
pub mod attributes;
pub mod solver;
pub mod problem;
pub mod domain;
pub mod parameter;
pub mod text;
pub mod problems;
pub mod solvers;
pub mod epi;
pub mod filter;
pub mod rng;
