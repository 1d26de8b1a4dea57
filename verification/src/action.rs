//! What an instruction asks of the program counter, and the faults that end a session.

use vstd::prelude::*;

verus! {

/// The effect of one instruction on the program counter.
#[derive(Clone, Copy, Debug, PartialEq, Eq)]
pub enum PointerAction {
    /// Go on with the following instruction.
    Next,
    /// Pass over the following instruction.
    Skip,
    /// Go on at the given address.
    Jump(usize),
}

impl PointerAction {
    /// `Skip` where the condition holds, `Next` where it does not.
    pub open spec fn skip_or_next_of(condition: bool) -> PointerAction {
        if condition {
            PointerAction::Skip
        } else {
            PointerAction::Next
        }
    }

    /// `Skip` where the condition holds, `Next` where it does not.
    pub fn skip_or_next(condition: bool) -> (action: PointerAction)
        ensures
            action == PointerAction::skip_or_next_of(condition),
    {
        if condition {
            PointerAction::Skip
        } else {
            PointerAction::Next
        }
    }
}

/// A fault in the program image that ends the session.
#[derive(Clone, Copy, Debug, PartialEq, Eq)]
pub enum Fault {
    /// A call with all sixteen stack slots in use.
    StackOverflow,
    /// A return with no call to return from.
    StackUnderflow,
    /// A read of an instruction, a sprite or register contents past the end of memory.
    AddressOutOfRange,
}

} // verus!
