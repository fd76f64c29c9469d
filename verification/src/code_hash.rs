//! References to code.

use vstd::prelude::*;

verus! {

/// Identifies a unit of executable code by its content: the 32 bytes under
/// which the environment's code registry holds it. It names code, not a
/// deployed instance; many instances may run the same code.
#[derive(Clone, Copy, Debug, PartialEq, Eq)]
pub struct CodeHash {
    pub bytes: [u8; 32],
}

} // verus!
