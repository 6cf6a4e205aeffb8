//! Built-in solvers: their specifications and command lines.
pub mod optuna;
pub mod random;
pub mod nelder_mead;
pub mod nsga2;
pub mod asha;
