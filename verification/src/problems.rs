//! Built-in problems: the parts of their logic that are not floating-point arithmetic.
pub mod ffmpeg;
pub mod zdt;
pub mod maf;
pub mod mfb;
pub mod nasbench;
pub mod lightgbm;
pub mod hpobench;
pub mod deepobs;
pub mod sigopt;
pub mod synthetic;
pub mod surrogate;
pub mod command;
pub mod warm_starting;
