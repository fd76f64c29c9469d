//! Delegate invocation: running foreign code against the invoking program's
//! own storage.
//!
//! A [`DelegateCall`] is what the program hands to its environment, and a
//! [`DelegateOutcome`] is what the environment reports of the attempt.

use vstd::prelude::*;
use crate::code_hash::CodeHash;
use crate::selector::Selector;

verus! {

/// The flag word of a tail call: bit 2 set and no other. It tells the
/// environment that the caller has nothing left to do once the foreign code
/// is through.
pub open spec fn tail_call_flags() -> u32 {
    0b100
}

/// Reads `ink::env::CallFlags::TAIL_CALL` through `bits()`. Trusted: the word
/// that comes back is `0b100`, the constant's declared value.
#[verifier::external_body]
fn tail_call_bits() -> (bits: u32)
    ensures
        bits == tail_call_flags(),
{
    ink::env::CallFlags::TAIL_CALL.bits()
}

/// One delegate invocation, as the environment's primitive takes it: whose
/// code is to run, which of its entry points, on what argument bytes, under
/// which flags. The code runs with the invoking program's storage as its own.
#[derive(Debug, PartialEq, Eq)]
pub struct DelegateCall {
    pub code_hash: CodeHash,
    pub selector: Selector,
    pub args: Vec<u8>,
    pub flags: u32,
}

impl DelegateCall {
    /// A tail delegate call into `code_hash` at `selector`, with `args` as the
    /// encoded arguments.
    pub fn tail(code_hash: CodeHash, selector: Selector, args: Vec<u8>) -> (call: DelegateCall)
        ensures
            call.code_hash == code_hash,
            call.selector == selector,
            call.args@ == args@,
            call.flags == tail_call_flags(),
    {
        DelegateCall { code_hash, selector, args, flags: tail_call_bits() }
    }
}

/// Why a delegate invocation did not run to its end.
#[derive(Clone, Copy, Debug, PartialEq, Eq)]
pub enum DelegateFailure {
    /// The registry holds no code under the hash.
    CodeNotFound,
    /// The code has no entry point under the identifier.
    EntryPointNotFound,
    /// The entry point ran and gave up; the environment undid its writes.
    Reverted,
}

/// What the environment reports of one delegate invocation.
#[derive(Clone, Copy, Debug, PartialEq, Eq)]
pub enum DelegateOutcome {
    /// The foreign code ran to its end. `value` is what it left in the
    /// invoking program's flag.
    Completed { value: bool },
    /// The foreign code did not run to its end, and nothing was written.
    Failed(DelegateFailure),
}

} // verus!
