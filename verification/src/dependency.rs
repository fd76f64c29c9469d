//! The lock on the code that a program depends on.
//!
//! A program may only delegate to code that cannot be removed under it. When
//! a program is constructed, the environment is asked to lock the delegate
//! target in its code registry; what it answers decides whether the program
//! comes to exist.

use vstd::prelude::*;

verus! {

/// The environment's answer to a request to lock a piece of code against
/// removal.
#[derive(Clone, Copy, Debug, PartialEq, Eq)]
pub enum LockOutcome {
    /// The lock is registered: the code stays while the program exists.
    Locked,
    /// The registry holds no code under the hash, so nothing was locked.
    CodeNotFound,
}

/// Why a construction yields no program.
#[derive(Clone, Copy, Debug, PartialEq, Eq)]
pub enum ConstructionError {
    /// The code that the program was to delegate to is not in the registry.
    CodeNotFound,
}

} // verus!
