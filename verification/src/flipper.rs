//! The delegator program: its two persisted fields, its construction, and
//! its messages.
//!
//! A program is made in two steps. [`CrossContractFlipper::new`] records the
//! delegate target and yields a [`Construction`], which names the code that
//! the environment must lock. [`Construction::finish`] takes the
//! environment's answer: only a granted lock turns the construction into a
//! program.
//!
//! A flip takes two steps as well. [`CrossContractFlipper::call_delegate_flip`]
//! gives the delegate invocation to issue, and
//! [`CrossContractFlipper::absorb`] takes in what the environment reports of
//! it.

use vstd::prelude::*;
use crate::code_hash::CodeHash;
use crate::delegate::tail_call_flags;
use crate::delegate::DelegateCall;
use crate::delegate::DelegateOutcome;
use crate::dependency::ConstructionError;
use crate::dependency::LockOutcome;
use crate::selector::flip_name;
use crate::selector::selector_of_name;
use crate::selector::Selector;

verus! {

/// Storage key of the flag: the root cell of the program's storage.
pub const VALUE_KEY: u32 = 0;

/// Storage key of the delegate target. It is assigned by hand, away from the
/// root cell, so that no field added later can come to lie on it.
pub const DELEGATE_TO_KEY: u32 = 0x6465_6c67;

/// What a program holds in its storage.
pub ghost struct ProgramState {
    /// The flag.
    pub value: bool,
    /// The code that the program delegates to.
    pub delegate_target: CodeHash,
}

impl ProgramState {
    /// The state after a delegate invocation with the given outcome. Foreign
    /// code that ran to its end has set the flag; a failed invocation has
    /// changed nothing. The delegate target stays in either case.
    pub open spec fn absorb(self, outcome: DelegateOutcome) -> ProgramState {
        match outcome {
            DelegateOutcome::Completed { value } => ProgramState { value, ..self },
            DelegateOutcome::Failed(_) => self,
        }
    }

    /// The state after a run of delegate invocations, taken in order.
    pub open spec fn absorb_all(self, outcomes: Seq<DelegateOutcome>) -> ProgramState
        decreases outcomes.len(),
    {
        if outcomes.len() == 0 {
            self
        } else {
            self.absorb_all(outcomes.drop_last()).absorb(outcomes.last())
        }
    }

    /// The state after `count` delegate invocations in each of which `flip`
    /// does its work.
    pub open spec fn flip_times(self, count: nat) -> ProgramState
        decreases count,
    {
        if count == 0 {
            self
        } else {
            let before = self.flip_times((count - 1) as nat);
            before.absorb(flipped(before))
        }
    }
}

/// What a `flip` entry point reports when it does its work on a program in
/// state `before`: it ran to its end and left the flag negated.
pub open spec fn flipped(before: ProgramState) -> DelegateOutcome {
    DelegateOutcome::Completed { value: !before.value }
}

/// What a construction in progress holds.
pub ghost struct PendingState {
    /// The value that the flag is to start with.
    pub init_value: bool,
    /// The delegate target, recorded already.
    pub code_hash: CodeHash,
}

impl PendingState {
    /// A construction that has just been begun.
    pub open spec fn begin(init_value: bool, code_hash: CodeHash) -> PendingState {
        PendingState { init_value, code_hash }
    }

    /// The code that the construction asks the environment to lock.
    pub open spec fn dependency(self) -> CodeHash {
        self.code_hash
    }

    /// The program that the construction becomes once the environment has
    /// answered the lock request, or the reason why there is none.
    pub open spec fn finish(self, lock: LockOutcome) -> Result<ProgramState, ConstructionError> {
        match lock {
            LockOutcome::Locked => Ok(
                ProgramState { value: self.init_value, delegate_target: self.code_hash },
            ),
            LockOutcome::CodeNotFound => Err(ConstructionError::CodeNotFound),
        }
    }
}

/// A construction in progress: the delegate target is recorded, the lock on
/// it is asked for, and the flag is not stored yet.
#[derive(Debug, PartialEq, Eq)]
pub struct Construction {
    init_value: bool,
    code_hash: CodeHash,
}

impl View for Construction {
    type V = PendingState;

    closed spec fn view(&self) -> PendingState {
        PendingState { init_value: self.init_value, code_hash: self.code_hash }
    }
}

impl Construction {
    /// The code that the environment is to lock before the construction can
    /// finish. It is the delegate target, and the construction asks for
    /// nothing else.
    pub fn dependency(&self) -> (code_hash: CodeHash)
        ensures
            code_hash == self@.dependency(),
    {
        self.code_hash
    }

    /// Ends the construction on the environment's answer to the lock request.
    /// A granted lock gives the program, with the initial value as its flag;
    /// a refused one gives no program at all.
    pub fn finish(self, lock: LockOutcome) -> (result: Result<
        CrossContractFlipper,
        ConstructionError,
    >)
        ensures
            result is Ok <==> lock == LockOutcome::Locked,
            match result {
                Ok(program) => self@.finish(lock) == Ok::<ProgramState, ConstructionError>(
                    program@,
                ),
                Err(error) => self@.finish(lock) == Err::<ProgramState, ConstructionError>(error),
            },
    {
        match lock {
            LockOutcome::Locked => Ok(
                CrossContractFlipper { value: self.init_value, delegate_to: self.code_hash },
            ),
            LockOutcome::CodeNotFound => Err(ConstructionError::CodeNotFound),
        }
    }
}

/// The delegator: a flag, and the hash of the code that may flip it. The
/// delegate target is set when the program is constructed and never changes.
#[derive(Debug, PartialEq, Eq)]
pub struct CrossContractFlipper {
    value: bool,
    delegate_to: CodeHash,
}

impl View for CrossContractFlipper {
    type V = ProgramState;

    closed spec fn view(&self) -> ProgramState {
        ProgramState { value: self.value, delegate_target: self.delegate_to }
    }
}

impl CrossContractFlipper {
    /// Begins the construction of a program that starts with `init_value` and
    /// delegates to the code under `code_hash`. The target is recorded first;
    /// the construction that comes back asks for the lock on it.
    pub fn new(init_value: bool, code_hash: CodeHash) -> (pending: Construction)
        ensures
            pending@ == PendingState::begin(init_value, code_hash),
    {
        Construction { init_value, code_hash }
    }

    /// The program that the two storage cells describe. `delegate_to` is what
    /// the cell of the delegate target was read as, `None` where it is empty.
    /// Construction fills that cell, so an empty one belongs to no program.
    pub fn from_storage(value: bool, delegate_to: Option<CodeHash>) -> (program: Option<Self>)
        ensures
            program is Some <==> delegate_to is Some,
            program matches Some(restored) ==> restored@ == (ProgramState {
                value,
                delegate_target: delegate_to.unwrap(),
            }),
    {
        match delegate_to {
            Some(code_hash) => Some(CrossContractFlipper { value, delegate_to: code_hash }),
            None => None,
        }
    }

    /// The delegate invocation that flips the flag: a tail call into the
    /// delegate target, at the entry point named `flip`, without arguments.
    /// The environment's report of it goes to [`Self::absorb`].
    pub fn call_delegate_flip(&self) -> (call: DelegateCall)
        ensures
            call.code_hash == self@.delegate_target,
            call.selector.bytes@ == selector_of_name(flip_name()),
            call.args@ == Seq::<u8>::empty(),
            call.flags == tail_call_flags(),
    {
        DelegateCall::tail(self.delegate_to(), Selector::flip(), Vec::new())
    }

    /// Takes in what the environment reports of a delegate invocation. It
    /// returns normally whatever the report: a failure is not passed on, and
    /// leaves the program as it was.
    pub fn absorb(&mut self, outcome: DelegateOutcome)
        ensures
            final(self)@ == old(self)@.absorb(outcome),
    {
        match outcome {
            DelegateOutcome::Completed { value } => {
                self.value = value;
            },
            DelegateOutcome::Failed(_) => {},
        }
    }

    /// The flag.
    pub fn get(&self) -> (value: bool)
        ensures
            value == self@.value,
    {
        self.value
    }

    /// The delegate target.
    fn delegate_to(&self) -> (code_hash: CodeHash)
        ensures
            code_hash == self@.delegate_target,
    {
        self.delegate_to
    }
}

} // verus!
