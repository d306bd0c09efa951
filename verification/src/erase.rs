//! Waiting for the mass erase that the option byte programming sets off.
//!
//! The clock is taken once, before the first poll. Each poll reads
//! `FLASH_SR` and then the clock. The wait ends with the first poll that
//! finds `BSY` clear, or with the first poll that finds it set after more
//! than [`ERASE_TIMEOUT_NANOS`].

use vstd::prelude::*;
use crate::access::{Action, Event};
use crate::registers::{is_busy, Register};

verus! {

/// How long `BSY` may stay set once the programming has been started, in
/// nanoseconds: 30 seconds.
pub const ERASE_TIMEOUT_NANOS: u128 = 30_000_000_000;

/// The wait, by what is pending.
#[derive(Clone, Copy, Debug, PartialEq, Eq, Structural)]
pub enum WaitErase {
    /// The clock is to be started.
    StartClock,
    /// `FLASH_SR` is to be read.
    ReadSr,
    /// `FLASH_SR` held this word, and the clock is to be read.
    ReadClock(u32),
}

/// Where the wait stands once it has been told an event.
#[derive(Clone, Copy, Debug, PartialEq, Eq, Structural)]
pub enum Waited {
    /// The wait goes on from this state.
    Continue(WaitErase),
    /// `BSY` was found clear, this many nanoseconds after the clock was
    /// started.
    Erased(u128),
    /// `BSY` was still set this many nanoseconds after the clock was
    /// started, which is more than the wait allows.
    TimedOut(u128),
    /// A read of `FLASH_SR` failed.
    Abort,
}

impl WaitErase {
    /// The pending action.
    pub open spec fn spec_action(self) -> Action {
        match self {
            WaitErase::StartClock => Action::StartClock,
            WaitErase::ReadSr => Action::Read(Register::Sr),
            WaitErase::ReadClock(_) => Action::ReadClock,
        }
    }

    /// What a poll that read `flash_sr` means when `elapsed` nanoseconds
    /// have passed: the erase is over if `BSY` is clear, however late; the
    /// wait has timed out if `BSY` is set and more than the limit has
    /// passed; else the wait goes on with another poll.
    pub open spec fn spec_poll(flash_sr: u32, elapsed: u128) -> Waited {
        if !is_busy(flash_sr) {
            Waited::Erased(elapsed)
        } else if elapsed > ERASE_TIMEOUT_NANOS {
            Waited::TimedOut(elapsed)
        } else {
            Waited::Continue(WaitErase::ReadSr)
        }
    }

    /// Where the wait stands after `event`. Once the clock runs,
    /// `FLASH_SR` is read; once it is read, the clock is; the two together
    /// make a poll. A failed read ends the wait. An event that cannot answer
    /// the pending action changes nothing.
    pub open spec fn spec_advance(self, event: Event) -> Waited {
        match (self, event) {
            (WaitErase::StartClock, Event::Done) => Waited::Continue(WaitErase::ReadSr),
            (WaitErase::ReadSr, Event::Value(flash_sr)) => Waited::Continue(
                WaitErase::ReadClock(flash_sr),
            ),
            (WaitErase::ReadSr, Event::Failed) => Waited::Abort,
            (WaitErase::ReadClock(flash_sr), Event::Elapsed(elapsed)) => Self::spec_poll(
                flash_sr,
                elapsed,
            ),
            _ => Waited::Continue(self),
        }
    }

    /// The state in which the wait begins.
    pub fn start() -> (state: WaitErase)
        ensures
            state == WaitErase::StartClock,
    {
        WaitErase::StartClock
    }

    /// The action to take next.
    #[verifier::when_used_as_spec(spec_action)]
    pub fn action(self) -> (action: Action)
        ensures
            action == self.spec_action(),
    {
        match self {
            WaitErase::StartClock => Action::StartClock,
            WaitErase::ReadSr => Action::Read(Register::Sr),
            WaitErase::ReadClock(_) => Action::ReadClock,
        }
    }

    /// Judges one poll: `flash_sr` was read, and `elapsed` nanoseconds had
    /// passed when the read returned.
    #[verifier::when_used_as_spec(spec_poll)]
    pub fn poll(flash_sr: u32, elapsed: u128) -> (waited: Waited)
        ensures
            waited == Self::spec_poll(flash_sr, elapsed),
            waited is Erased <==> !is_busy(flash_sr),
            waited is TimedOut <==> is_busy(flash_sr) && elapsed > ERASE_TIMEOUT_NANOS,
            waited !is Abort,
    {
        if !is_busy(flash_sr) {
            Waited::Erased(elapsed)
        } else if elapsed > ERASE_TIMEOUT_NANOS {
            Waited::TimedOut(elapsed)
        } else {
            Waited::Continue(WaitErase::ReadSr)
        }
    }

    /// Takes in how the pending action went.
    #[verifier::when_used_as_spec(spec_advance)]
    pub fn advance(self, event: Event) -> (waited: Waited)
        ensures
            waited == self.spec_advance(event),
    {
        match self {
            WaitErase::StartClock => match event {
                Event::Done => Waited::Continue(WaitErase::ReadSr),
                _ => Waited::Continue(self),
            },
            WaitErase::ReadSr => match event {
                Event::Value(flash_sr) => Waited::Continue(WaitErase::ReadClock(flash_sr)),
                Event::Failed => Waited::Abort,
                _ => Waited::Continue(self),
            },
            WaitErase::ReadClock(flash_sr) => match event {
                Event::Elapsed(elapsed) => Self::poll(flash_sr, elapsed),
                _ => Waited::Continue(self),
            },
        }
    }
}

} // verus!
