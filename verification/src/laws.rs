//! What holds of every program, whatever the environment answers.

use vstd::prelude::*;
use crate::code_hash::CodeHash;
use crate::delegate::DelegateFailure;
use crate::delegate::DelegateOutcome;
use crate::dependency::ConstructionError;
use crate::dependency::LockOutcome;
use crate::flipper::flipped;
use crate::flipper::PendingState;
use crate::flipper::ProgramState;
use crate::flipper::DELEGATE_TO_KEY;
use crate::flipper::VALUE_KEY;

verus! {

/// A program constructed over code that the environment has locked holds the
/// initial value as its flag, and that code as its delegate target.
pub proof fn constructed_program_holds_initial_value(init_value: bool, code_hash: CodeHash)
    ensures
        PendingState::begin(init_value, code_hash).finish(LockOutcome::Locked) == Ok::<
            ProgramState,
            ConstructionError,
        >(ProgramState { value: init_value, delegate_target: code_hash }),
{
}

/// Where the registry holds no code under the hash, construction yields no
/// program, whatever the initial value.
pub proof fn missing_code_yields_no_program(init_value: bool, code_hash: CodeHash)
    ensures
        PendingState::begin(init_value, code_hash).finish(LockOutcome::CodeNotFound) == Err::<
            ProgramState,
            ConstructionError,
        >(ConstructionError::CodeNotFound),
{
}

/// The lock comes first: a construction waits for the lock on the very code
/// it was begun with, and no answer but a granted lock turns it into a
/// program.
pub proof fn program_exists_only_after_lock(
    init_value: bool,
    code_hash: CodeHash,
    lock: LockOutcome,
)
    ensures
        PendingState::begin(init_value, code_hash).dependency() == code_hash,
        PendingState::begin(init_value, code_hash).finish(lock) is Ok ==> lock
            == LockOutcome::Locked,
{
}

/// One delegate invocation in which `flip` does its work negates the flag.
pub proof fn one_flip_negates(state: ProgramState)
    ensures
        state.absorb(flipped(state)).value == !state.value,
{
}

/// Two delegate invocations in which `flip` does its work leave the program
/// as it was.
pub proof fn two_flips_restore(state: ProgramState)
    ensures
        ({
            let once = state.absorb(flipped(state));
            once.absorb(flipped(once)) == state
        }),
{
}

/// After any number of delegate invocations in which `flip` does its work,
/// the flag is back at its start where the number is even, and negated where
/// it is odd; nothing else has changed.
pub proof fn flips_alternate(state: ProgramState, count: nat)
    ensures
        state.flip_times(count) == (ProgramState {
            value: if count % 2 == 0 {
                state.value
            } else {
                !state.value
            },
            ..state
        }),
    decreases count,
{
    if count > 0 {
        flips_alternate(state, (count - 1) as nat);
    }
}

/// A delegate invocation that fails, for whatever reason, leaves the program
/// as it was.
pub proof fn failed_invocation_changes_nothing(state: ProgramState, failure: DelegateFailure)
    ensures
        state.absorb(DelegateOutcome::Failed(failure)) == state,
{
}

/// The delegate target never changes: after any run of delegate invocations,
/// whatever their outcomes, it is what it was.
pub proof fn delegate_target_is_fixed(state: ProgramState, outcomes: Seq<DelegateOutcome>)
    ensures
        state.absorb_all(outcomes).delegate_target == state.delegate_target,
    decreases outcomes.len(),
{
    if outcomes.len() > 0 {
        delegate_target_is_fixed(state, outcomes.drop_last());
    }
}

/// The two storage cells lie under different keys.
pub proof fn storage_keys_are_distinct()
    ensures
        VALUE_KEY != DELEGATE_TO_KEY,
{
}

} // verus!
