//! Unlocking the flash control register and the option bytes.
//!
//! Each of the two is unlocked by two key words written in order to its key
//! register; the writes of each pair are followed by a flush.

use vstd::prelude::*;
use crate::access::{Action, Event, Flow};
use crate::registers::{Register, FLASH_KEY1, FLASH_KEY2, FLASH_OPTKEY1, FLASH_OPTKEY2};

verus! {

/// The unlock sequence, by the access that is pending.
#[derive(Clone, Copy, Debug, PartialEq, Eq, Structural)]
pub enum UnlockFlash {
    /// The first key is to be written to `FLASH_KEYR`.
    KeyrKey1,
    /// The second key is to be written to `FLASH_KEYR`.
    KeyrKey2,
    /// The writes to `FLASH_KEYR` are to be flushed.
    KeyrFlush,
    /// The first key is to be written to `FLASH_OPTKEYR`.
    OptkeyrKey1,
    /// The second key is to be written to `FLASH_OPTKEYR`.
    OptkeyrKey2,
    /// The writes to `FLASH_OPTKEYR` are to be flushed.
    OptkeyrFlush,
}

impl UnlockFlash {
    /// The accesses that unlock the flash, in the order in which they are
    /// made: four key writes, and a flush after each pair.
    pub open spec fn script() -> Seq<Action> {
        seq![
            Action::Write(Register::Keyr, FLASH_KEY1),
            Action::Write(Register::Keyr, FLASH_KEY2),
            Action::Flush,
            Action::Write(Register::Optkeyr, FLASH_OPTKEY1),
            Action::Write(Register::Optkeyr, FLASH_OPTKEY2),
            Action::Flush,
        ]
    }

    /// How many accesses of the script lie behind this state.
    pub open spec fn position(self) -> int {
        match self {
            UnlockFlash::KeyrKey1 => 0,
            UnlockFlash::KeyrKey2 => 1,
            UnlockFlash::KeyrFlush => 2,
            UnlockFlash::OptkeyrKey1 => 3,
            UnlockFlash::OptkeyrKey2 => 4,
            UnlockFlash::OptkeyrFlush => 5,
        }
    }

    /// The state with `position` accesses of the script behind it.
    pub open spec fn at(position: int) -> UnlockFlash
        recommends
            0 <= position < Self::script().len(),
    {
        if position == 0 {
            UnlockFlash::KeyrKey1
        } else if position == 1 {
            UnlockFlash::KeyrKey2
        } else if position == 2 {
            UnlockFlash::KeyrFlush
        } else if position == 3 {
            UnlockFlash::OptkeyrKey1
        } else if position == 4 {
            UnlockFlash::OptkeyrKey2
        } else {
            UnlockFlash::OptkeyrFlush
        }
    }

    /// The pending access: the one of the script at this state's position.
    pub open spec fn spec_action(self) -> Action {
        Self::script()[self.position()]
    }

    /// Where the sequence stands after `event`. A failure ends it. A
    /// completion moves it on by one access, and past the last access the
    /// sequence is complete. An event that cannot answer a write or a flush
    /// changes nothing.
    pub open spec fn spec_advance(self, event: Event) -> Flow<UnlockFlash> {
        match event {
            Event::Failed => Flow::Abort,
            Event::Done => if self.position() + 1 == Self::script().len() {
                Flow::Complete
            } else {
                Flow::Continue(Self::at(self.position() + 1))
            },
            _ => Flow::Continue(self),
        }
    }

    /// What to say when the pending access has failed.
    pub open spec fn spec_failure(self) -> Seq<char> {
        match self {
            UnlockFlash::KeyrKey1 => "failed to write key1 to FLASH_KEYR"@,
            UnlockFlash::KeyrKey2 => "failed to write key2 to FLASH_KEYR"@,
            UnlockFlash::KeyrFlush => "failed to flush"@,
            UnlockFlash::OptkeyrKey1 => "failed to write key1 to FLASH_OPTKEYR"@,
            UnlockFlash::OptkeyrKey2 => "failed to write key2 to FLASH_OPTKEYR"@,
            UnlockFlash::OptkeyrFlush => "failed to flush"@,
        }
    }

    /// The state in which the sequence begins.
    pub fn start() -> (state: UnlockFlash)
        ensures
            state == UnlockFlash::at(0),
    {
        UnlockFlash::KeyrKey1
    }

    /// The access to make next.
    #[verifier::when_used_as_spec(spec_action)]
    pub fn action(self) -> (action: Action)
        ensures
            action == self.spec_action(),
    {
        match self {
            UnlockFlash::KeyrKey1 => Action::Write(Register::Keyr, FLASH_KEY1),
            UnlockFlash::KeyrKey2 => Action::Write(Register::Keyr, FLASH_KEY2),
            UnlockFlash::KeyrFlush => Action::Flush,
            UnlockFlash::OptkeyrKey1 => Action::Write(Register::Optkeyr, FLASH_OPTKEY1),
            UnlockFlash::OptkeyrKey2 => Action::Write(Register::Optkeyr, FLASH_OPTKEY2),
            UnlockFlash::OptkeyrFlush => Action::Flush,
        }
    }

    /// Takes in how the pending access went.
    #[verifier::when_used_as_spec(spec_advance)]
    pub fn advance(self, event: Event) -> (flow: Flow<UnlockFlash>)
        ensures
            flow == self.spec_advance(event),
    {
        match event {
            Event::Failed => Flow::Abort,
            Event::Done => match self {
                UnlockFlash::KeyrKey1 => Flow::Continue(UnlockFlash::KeyrKey2),
                UnlockFlash::KeyrKey2 => Flow::Continue(UnlockFlash::KeyrFlush),
                UnlockFlash::KeyrFlush => Flow::Continue(UnlockFlash::OptkeyrKey1),
                UnlockFlash::OptkeyrKey1 => Flow::Continue(UnlockFlash::OptkeyrKey2),
                UnlockFlash::OptkeyrKey2 => Flow::Continue(UnlockFlash::OptkeyrFlush),
                UnlockFlash::OptkeyrFlush => Flow::Complete,
            },
            _ => Flow::Continue(self),
        }
    }

    /// What to say when the pending access has failed.
    pub fn failure(self) -> (text: &'static str)
        ensures
            text@ == self.spec_failure(),
    {
        match self {
            UnlockFlash::KeyrKey1 => "failed to write key1 to FLASH_KEYR",
            UnlockFlash::KeyrKey2 => "failed to write key2 to FLASH_KEYR",
            UnlockFlash::KeyrFlush => "failed to flush",
            UnlockFlash::OptkeyrKey1 => "failed to write key1 to FLASH_OPTKEYR",
            UnlockFlash::OptkeyrKey2 => "failed to write key2 to FLASH_OPTKEYR",
            UnlockFlash::OptkeyrFlush => "failed to flush",
        }
    }
}

} // verus!
