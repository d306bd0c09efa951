//! Setting `OPTSTRT`, which starts the programming of the option bytes.

use vstd::prelude::*;
use crate::access::{Action, Event, Flow};
use crate::registers::{has_bits, set_bits, Register, OPTSTRT_MASK};

verus! {

/// Setting `OPTSTRT`, by the access that is pending.
#[derive(Clone, Copy, Debug, PartialEq, Eq, Structural)]
pub enum SetOptstrt {
    /// `FLASH_CR` is to be read.
    Read,
    /// This word is to be written to `FLASH_CR`.
    Write(u32),
    /// The write to `FLASH_CR` is to be flushed.
    Flush,
}

impl SetOptstrt {
    /// What holds of every state that the part reaches: the word that is to
    /// be written has `OPTSTRT` set.
    pub open spec fn well_formed(self) -> bool {
        self matches SetOptstrt::Write(word) ==> has_bits(word, OPTSTRT_MASK)
    }

    /// The pending access.
    pub open spec fn spec_action(self) -> Action {
        match self {
            SetOptstrt::Read => Action::Read(Register::Cr),
            SetOptstrt::Write(word) => Action::Write(Register::Cr, word),
            SetOptstrt::Flush => Action::Flush,
        }
    }

    /// Where the part stands after `event`. The word read is to be written
    /// back with `OPTSTRT` set and nothing else changed; the write is to be
    /// flushed; the flush completes the part. A failure ends it. An event
    /// that cannot answer the pending access changes nothing.
    pub open spec fn spec_advance(self, event: Event) -> Flow<SetOptstrt> {
        match (self, event) {
            (_, Event::Failed) => Flow::Abort,
            (SetOptstrt::Read, Event::Value(flash_cr)) => Flow::Continue(
                SetOptstrt::Write(set_bits(flash_cr, OPTSTRT_MASK)),
            ),
            (SetOptstrt::Write(_), Event::Done) => Flow::Continue(SetOptstrt::Flush),
            (SetOptstrt::Flush, Event::Done) => Flow::Complete,
            _ => Flow::Continue(self),
        }
    }

    /// What to say when the pending access has failed.
    pub open spec fn spec_failure(self) -> Seq<char> {
        match self {
            SetOptstrt::Read => "failed to read FLASH_CR"@,
            SetOptstrt::Write(_) => "failed to write FLASH_CR"@,
            SetOptstrt::Flush => "failed to flush"@,
        }
    }

    /// The state in which the part begins.
    pub fn start() -> (state: SetOptstrt)
        ensures
            state == SetOptstrt::Read,
            state.well_formed(),
    {
        SetOptstrt::Read
    }

    /// The access to make next.
    #[verifier::when_used_as_spec(spec_action)]
    pub fn action(self) -> (action: Action)
        ensures
            action == self.spec_action(),
    {
        match self {
            SetOptstrt::Read => Action::Read(Register::Cr),
            SetOptstrt::Write(word) => Action::Write(Register::Cr, word),
            SetOptstrt::Flush => Action::Flush,
        }
    }

    /// Takes in how the pending access went.
    #[verifier::when_used_as_spec(spec_advance)]
    pub fn advance(self, event: Event) -> (flow: Flow<SetOptstrt>)
        ensures
            flow == self.spec_advance(event),
            self.well_formed() ==> (flow matches Flow::Continue(next) ==> next.well_formed()),
    {
        match event {
            Event::Failed => Flow::Abort,
            Event::Value(flash_cr) => match self {
                SetOptstrt::Read => Flow::Continue(
                    SetOptstrt::Write(set_bits(flash_cr, OPTSTRT_MASK)),
                ),
                _ => Flow::Continue(self),
            },
            Event::Done => match self {
                SetOptstrt::Read => Flow::Continue(self),
                SetOptstrt::Write(_) => Flow::Continue(SetOptstrt::Flush),
                SetOptstrt::Flush => Flow::Complete,
            },
            Event::Elapsed(_) => Flow::Continue(self),
        }
    }

    /// What to say when the pending access has failed.
    pub fn failure(self) -> (text: &'static str)
        ensures
            text@ == self.spec_failure(),
    {
        match self {
            SetOptstrt::Read => "failed to read FLASH_CR",
            SetOptstrt::Write(_) => "failed to write FLASH_CR",
            SetOptstrt::Flush => "failed to flush",
        }
    }
}

/// The word that the part writes to `FLASH_CR` has `OPTSTRT` set and every
/// other bit as it was read.
pub proof fn lemma_set_optstrt_keeps_other_bits(flash_cr: u32)
    ensures
        SetOptstrt::Read.spec_advance(Event::Value(flash_cr)) matches Flow::Continue(
            SetOptstrt::Write(word),
        ) && word & OPTSTRT_MASK == OPTSTRT_MASK && word & !OPTSTRT_MASK == flash_cr
            & !OPTSTRT_MASK,
{
    crate::registers::lemma_set_bits_keeps_other_bits(flash_cr, OPTSTRT_MASK);
}

} // verus!
