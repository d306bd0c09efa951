//! What the procedure asks of whoever drives it, and what it is told back.
//!
//! The procedure never touches the target. It names one access at a time, an
//! [`Action`]; the driver performs it on the target (or on its own clock) and
//! hands back an [`Event`] that says how it went.

use vstd::prelude::*;
use crate::registers::Register;

verus! {

/// One thing for the driver to do.
#[derive(Clone, Copy, Debug, PartialEq, Eq, Structural)]
pub enum Action {
    /// Read the 32-bit word of a register.
    Read(Register),
    /// Write a 32-bit word to a register.
    Write(Register, u32),
    /// Make sure that every write issued so far has reached the target.
    Flush,
    /// Take the monotonic clock: elapsed time is measured from here.
    StartClock,
    /// Tell how much time has passed since the clock was started.
    ReadClock,
}

/// How an [`Action`] went.
#[derive(Clone, Copy, Debug, PartialEq, Eq, Structural)]
pub enum Event {
    /// The read succeeded and gave this word.
    Value(u32),
    /// The write or the flush succeeded, or the clock is started.
    Done,
    /// This many nanoseconds have passed since the clock was started.
    Elapsed(u128),
    /// The read, write or flush failed.
    Failed,
}

impl Action {
    /// Whether the action writes to a register.
    pub open spec fn spec_is_write(self) -> bool {
        self is Write
    }

    /// Whether the action writes to a register.
    #[verifier::when_used_as_spec(spec_is_write)]
    pub fn is_write(self) -> (write: bool)
        ensures
            write == self.spec_is_write(),
    {
        match self {
            Action::Write(_, _) => true,
            _ => false,
        }
    }

    /// Whether the action is an access to the target, which can fail, and
    /// not a use of the driver's clock, which cannot.
    pub open spec fn spec_is_access(self) -> bool {
        self is Read || self is Write || self is Flush
    }

    /// Whether the action is an access to the target, which can fail, and
    /// not a use of the driver's clock, which cannot.
    #[verifier::when_used_as_spec(spec_is_access)]
    pub fn is_access(self) -> (access: bool)
        ensures
            access == self.spec_is_access(),
    {
        match self {
            Action::Read(_) | Action::Write(_, _) | Action::Flush => true,
            Action::StartClock | Action::ReadClock => false,
        }
    }

    /// Whether `event` is a possible outcome of this action: a word or a
    /// failure for a read, completion or a failure for a write or a flush,
    /// completion for starting the clock, a duration for reading it.
    pub open spec fn spec_answered_by(self, event: Event) -> bool {
        match self {
            Action::Read(_) => event is Value || event is Failed,
            Action::Write(_, _) | Action::Flush => event is Done || event is Failed,
            Action::StartClock => event is Done,
            Action::ReadClock => event is Elapsed,
        }
    }

    /// Whether `event` is a possible outcome of this action.
    #[verifier::when_used_as_spec(spec_answered_by)]
    pub fn answered_by(self, event: Event) -> (answered: bool)
        ensures
            answered == self.spec_answered_by(event),
    {
        match self {
            Action::Read(_) => match event {
                Event::Value(_) | Event::Failed => true,
                _ => false,
            },
            Action::Write(_, _) | Action::Flush => match event {
                Event::Done | Event::Failed => true,
                _ => false,
            },
            Action::StartClock => match event {
                Event::Done => true,
                _ => false,
            },
            Action::ReadClock => match event {
                Event::Elapsed(_) => true,
                _ => false,
            },
        }
    }
}

/// Where a part of the procedure stands once it has been told an event.
#[derive(Debug, PartialEq, Eq)]
pub enum Flow<S> {
    /// The part goes on from this state.
    Continue(S),
    /// The part is done, and the procedure goes on with what follows it.
    Complete,
    /// An access failed: the part, and the procedure with it, ends here.
    Abort,
}

} // verus!
