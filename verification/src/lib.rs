//! The logic of a delegator program: it keeps one flag and the hash of another
//! program's code, and has that code run against its own storage on demand.
//!
//! The execution environment is not part of this crate. Every function here
//! works on plain values: it says what the environment is to be asked, and
//! takes the environment's answer as an argument.

pub mod code_hash;
pub mod delegate;
pub mod dependency;
pub mod flipper;
pub mod laws;
pub mod selector;
