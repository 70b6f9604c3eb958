//! Core logic of `please`, a small build system for C and C++ projects driven
//! by a TOML manifest: which commands to run, with which arguments, in which order.

pub mod strings;
pub mod paths;
pub mod errors;
pub mod cli;
pub mod parse;
pub mod system;
pub mod app;
pub mod gen;
pub mod utils;
