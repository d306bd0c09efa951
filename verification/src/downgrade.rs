//! The procedure that takes the readout protection from level 1 to level 0.
//!
//! [`Downgrade`] is the state of one run. It begins at
//! [`Downgrade::start`]. While [`Downgrade::action`] names an action, the
//! driver takes it and hands the outcome to [`Downgrade::advance`]. When no
//! action is left the run is over, and [`Downgrade::result`] tells how.

use vstd::prelude::*;
use crate::access::{Action, Event, Flow};
use crate::erase::{WaitErase, Waited};
use crate::optstrt::SetOptstrt;
use crate::pcrop::SetPcropRdp;
use crate::rdp::Rdp;
use crate::registers::{is_busy, is_suspended, with_rdp_lvl0, Register};
use crate::unlock::UnlockFlash;

verus! {

/// How a run ended well.
#[derive(Clone, Copy, Debug, PartialEq, Eq, Structural)]
pub enum Outcome {
    /// The protection was at level 0 already, and nothing was done.
    AlreadyUnlocked,
    /// The protection is now at level 0. The flash was erased, which took
    /// this many nanoseconds.
    Unlocked { erase_nanos: u128 },
}

/// Why a run ended badly.
#[derive(Clone, Copy, Debug, PartialEq, Eq, Structural)]
pub enum Error {
    /// The first read of `FLASH_OPTR` failed.
    ReadOptr,
    /// The protection is at level 2, which cannot be removed.
    Level2,
    /// This access of the unlock sequence failed.
    UnlockFlash(UnlockFlash),
    /// This access failed while `PCROP_RDP` was being set.
    SetPcropRdp(SetPcropRdp),
    /// The write of the new `RDP` byte to `FLASH_OPTR` failed.
    WriteOptr,
    /// The read of `FLASH_SR` before the programming is started failed.
    ReadSr,
    /// `BSY` was set before the programming was started.
    Busy,
    /// `PESD` was set before the programming was started.
    Suspended,
    /// This access failed while `OPTSTRT` was being set.
    SetOptstrt(SetOptstrt),
    /// A read of `FLASH_SR` failed during the wait for the erase.
    PollSr,
    /// `BSY` was still set after more than the wait allows.
    Timeout { elapsed_nanos: u128 },
}

impl Outcome {
    /// The protection level that the target has after the run.
    pub open spec fn spec_level(self) -> Rdp {
        Rdp::Lvl0
    }

    /// The protection level that the target has after the run.
    #[verifier::when_used_as_spec(spec_level)]
    pub fn level(self) -> (rdp: Rdp)
        ensures
            rdp == self.spec_level(),
    {
        Rdp::Lvl0
    }
}

impl Error {
    /// Whether the error is an access to the target that failed, rather
    /// than something that the target's registers said.
    pub open spec fn spec_is_access(self) -> bool {
        match self {
            Error::ReadOptr
            | Error::UnlockFlash(_)
            | Error::SetPcropRdp(_)
            | Error::WriteOptr
            | Error::ReadSr
            | Error::SetOptstrt(_)
            | Error::PollSr => true,
            Error::Level2 | Error::Busy | Error::Suspended | Error::Timeout { .. } => false,
        }
    }

    /// What went wrong, in words.
    pub open spec fn spec_message(self) -> Seq<char> {
        match self {
            Error::ReadOptr => "failed to read FLASH_OPTR"@,
            Error::Level2 => "RDP level 2 cannot be removed"@,
            Error::UnlockFlash(step) => step.spec_failure(),
            Error::SetPcropRdp(step) => step.spec_failure(),
            Error::WriteOptr => "failed to write FLASH_OPTR"@,
            Error::ReadSr => "failed to read FLASH_SR"@,
            Error::Busy => "flash is busy"@,
            Error::Suspended => "program erase suspend is set"@,
            Error::SetOptstrt(step) => step.spec_failure(),
            Error::PollSr => "failed to read FLASH_SR"@,
            Error::Timeout { .. } => "timeout during erase"@,
        }
    }

    /// The part of the procedure in which it went wrong, in words, where
    /// the error comes from one of the three parts that have a name.
    pub open spec fn spec_context(self) -> Option<Seq<char>> {
        match self {
            Error::UnlockFlash(_) => Some("failed to unlock flash"@),
            Error::SetPcropRdp(_) => Some("failed to set PCROP_RDP"@),
            Error::SetOptstrt(_) => Some("failed to set OPTSTRT"@),
            _ => None,
        }
    }

    /// Whether the error is an access to the target that failed, rather
    /// than something that the target's registers said.
    #[verifier::when_used_as_spec(spec_is_access)]
    pub fn is_access(self) -> (access: bool)
        ensures
            access == self.spec_is_access(),
    {
        match self {
            Error::ReadOptr
            | Error::UnlockFlash(_)
            | Error::SetPcropRdp(_)
            | Error::WriteOptr
            | Error::ReadSr
            | Error::SetOptstrt(_)
            | Error::PollSr => true,
            Error::Level2 | Error::Busy | Error::Suspended | Error::Timeout { .. } => false,
        }
    }

    /// What went wrong, in words.
    pub fn message(self) -> (text: &'static str)
        ensures
            text@ == self.spec_message(),
    {
        match self {
            Error::ReadOptr => "failed to read FLASH_OPTR",
            Error::Level2 => "RDP level 2 cannot be removed",
            Error::UnlockFlash(step) => step.failure(),
            Error::SetPcropRdp(step) => step.failure(),
            Error::WriteOptr => "failed to write FLASH_OPTR",
            Error::ReadSr => "failed to read FLASH_SR",
            Error::Busy => "flash is busy",
            Error::Suspended => "program erase suspend is set",
            Error::SetOptstrt(step) => step.failure(),
            Error::PollSr => "failed to read FLASH_SR",
            Error::Timeout { .. } => "timeout during erase",
        }
    }

    /// The part of the procedure in which it went wrong, in words, where
    /// the error comes from one of the three parts that have a name.
    pub fn context(self) -> (text: Option<&'static str>)
        ensures
            text is Some <==> self.spec_context() is Some,
            text matches Some(words) ==> self.spec_context() == Some(words@),
    {
        match self {
            Error::UnlockFlash(_) => Some("failed to unlock flash"),
            Error::SetPcropRdp(_) => Some("failed to set PCROP_RDP"),
            Error::SetOptstrt(_) => Some("failed to set OPTSTRT"),
            _ => None,
        }
    }
}

/// The state of one run of the procedure.
#[derive(Clone, Copy, Debug, PartialEq, Eq, Structural)]
pub enum Downgrade {
    /// `FLASH_OPTR` is to be read, to learn the protection level.
    ReadOptr,
    /// The level is 1 and the flash is being unlocked. `flash_optr` is what
    /// `FLASH_OPTR` held.
    Unlocking { flash_optr: u32, unlock: UnlockFlash },
    /// `PCROP_RDP` is being set.
    SettingPcropRdp { flash_optr: u32, set: SetPcropRdp },
    /// `FLASH_OPTR` is to be written: `flash_optr` with the `RDP` byte of
    /// level 0.
    WriteOptr { flash_optr: u32 },
    /// `FLASH_SR` is to be read, to see that the flash is ready.
    CheckSr,
    /// `OPTSTRT` is being set.
    SettingOptstrt(SetOptstrt),
    /// The programming is started and the erase is awaited.
    Erasing(WaitErase),
    /// The run is over and went well.
    Done(Outcome),
    /// The run is over and went badly.
    Failed(Error),
}

impl Downgrade {
    /// What holds of every state that a run reaches. While the value that
    /// `FLASH_OPTR` held is kept, it is one of level 1; and the part that is
    /// under way is in a state that it reaches.
    pub open spec fn well_formed(self) -> bool {
        match self {
            Downgrade::Unlocking { flash_optr, .. } => Rdp::of_optr(flash_optr) == Rdp::Lvl1,
            Downgrade::SettingPcropRdp { flash_optr, set } => Rdp::of_optr(flash_optr)
                == Rdp::Lvl1 && set.well_formed(),
            Downgrade::WriteOptr { flash_optr } => Rdp::of_optr(flash_optr) == Rdp::Lvl1,
            Downgrade::SettingOptstrt(set) => set.well_formed(),
            _ => true,
        }
    }

    /// The state in which a run begins.
    pub open spec fn spec_start() -> Downgrade {
        Downgrade::ReadOptr
    }

    /// The pending action, unless the run is over.
    pub open spec fn spec_action(self) -> Option<Action> {
        match self {
            Downgrade::ReadOptr => Some(Action::Read(Register::Optr)),
            Downgrade::Unlocking { unlock, .. } => Some(unlock.spec_action()),
            Downgrade::SettingPcropRdp { set, .. } => Some(set.spec_action()),
            Downgrade::WriteOptr { flash_optr } => Some(
                Action::Write(Register::Optr, with_rdp_lvl0(flash_optr)),
            ),
            Downgrade::CheckSr => Some(Action::Read(Register::Sr)),
            Downgrade::SettingOptstrt(step) => Some(step.spec_action()),
            Downgrade::Erasing(step) => Some(step.spec_action()),
            Downgrade::Done(_) | Downgrade::Failed(_) => None,
        }
    }

    /// What the first read of `FLASH_OPTR` leads to: nothing is to be done
    /// at level 0, nothing can be done at level 2, and at level 1 the
    /// procedure proper begins, with the unlock sequence.
    pub open spec fn spec_dispatch(flash_optr: u32) -> Downgrade {
        match Rdp::of_optr(flash_optr) {
            Rdp::Lvl0 => Downgrade::Done(Outcome::AlreadyUnlocked),
            Rdp::Lvl1 => Downgrade::Unlocking { flash_optr, unlock: UnlockFlash::at(0) },
            Rdp::Lvl2 => Downgrade::Failed(Error::Level2),
        }
    }

    /// What the read of `FLASH_SR` before the programming leads to: the run
    /// fails if `BSY` is set, or else if `PESD` is set; if neither is,
    /// `OPTSTRT` is set next.
    pub open spec fn spec_check(flash_sr: u32) -> Downgrade {
        if is_busy(flash_sr) {
            Downgrade::Failed(Error::Busy)
        } else if is_suspended(flash_sr) {
            Downgrade::Failed(Error::Suspended)
        } else {
            Downgrade::SettingOptstrt(SetOptstrt::Read)
        }
    }

    /// The state after `event`. The parts follow one another in a fixed
    /// order: unlock, set `PCROP_RDP`, write `FLASH_OPTR`, check `FLASH_SR`,
    /// set `OPTSTRT`, wait for the erase. A failed access ends the run with
    /// the error of the access. An event that cannot answer the pending
    /// action changes nothing, and neither does any event once the run is
    /// over.
    pub open spec fn spec_advance(self, event: Event) -> Downgrade {
        match self {
            Downgrade::ReadOptr => match event {
                Event::Value(flash_optr) => Self::spec_dispatch(flash_optr),
                Event::Failed => Downgrade::Failed(Error::ReadOptr),
                _ => self,
            },
            Downgrade::Unlocking { flash_optr, unlock } => match unlock.spec_advance(event) {
                Flow::Continue(next) => Downgrade::Unlocking { flash_optr, unlock: next },
                Flow::Complete => Downgrade::SettingPcropRdp {
                    flash_optr,
                    set: SetPcropRdp::Read,
                },
                Flow::Abort => Downgrade::Failed(Error::UnlockFlash(unlock)),
            },
            Downgrade::SettingPcropRdp { flash_optr, set } => match set.spec_advance(event) {
                Flow::Continue(next) => Downgrade::SettingPcropRdp { flash_optr, set: next },
                Flow::Complete => Downgrade::WriteOptr { flash_optr },
                Flow::Abort => Downgrade::Failed(Error::SetPcropRdp(set)),
            },
            Downgrade::WriteOptr { .. } => match event {
                Event::Done => Downgrade::CheckSr,
                Event::Failed => Downgrade::Failed(Error::WriteOptr),
                _ => self,
            },
            Downgrade::CheckSr => match event {
                Event::Value(flash_sr) => Self::spec_check(flash_sr),
                Event::Failed => Downgrade::Failed(Error::ReadSr),
                _ => self,
            },
            Downgrade::SettingOptstrt(step) => match step.spec_advance(event) {
                Flow::Continue(next) => Downgrade::SettingOptstrt(next),
                Flow::Complete => Downgrade::Erasing(WaitErase::StartClock),
                Flow::Abort => Downgrade::Failed(Error::SetOptstrt(step)),
            },
            Downgrade::Erasing(step) => match step.spec_advance(event) {
                Waited::Continue(next) => Downgrade::Erasing(next),
                Waited::Erased(erase_nanos) => Downgrade::Done(Outcome::Unlocked { erase_nanos }),
                Waited::TimedOut(elapsed_nanos) => Downgrade::Failed(
                    Error::Timeout { elapsed_nanos },
                ),
                Waited::Abort => Downgrade::Failed(Error::PollSr),
            },
            Downgrade::Done(_) | Downgrade::Failed(_) => self,
        }
    }

    /// How the run ended, once it is over.
    pub open spec fn spec_result(self) -> Option<Result<Outcome, Error>> {
        match self {
            Downgrade::Done(outcome) => Some(Ok(outcome)),
            Downgrade::Failed(error) => Some(Err(error)),
            _ => None,
        }
    }

    /// The state in which a run begins: nothing is known of the target, and
    /// `FLASH_OPTR` is to be read.
    #[verifier::when_used_as_spec(spec_start)]
    pub fn start() -> (state: Downgrade)
        ensures
            state == Downgrade::spec_start(),
            state.spec_action() == Some(Action::Read(Register::Optr)),
            state.well_formed(),
    {
        Downgrade::ReadOptr
    }

    /// The action to take next, or `None` when the run is over.
    #[verifier::when_used_as_spec(spec_action)]
    pub fn action(self) -> (action: Option<Action>)
        ensures
            action == self.spec_action(),
            action is None <==> self.spec_result() is Some,
    {
        match self {
            Downgrade::ReadOptr => Some(Action::Read(Register::Optr)),
            Downgrade::Unlocking { flash_optr: _, unlock } => Some(unlock.action()),
            Downgrade::SettingPcropRdp { flash_optr: _, set } => Some(set.action()),
            Downgrade::WriteOptr { flash_optr } => Some(
                Action::Write(Register::Optr, with_rdp_lvl0(flash_optr)),
            ),
            Downgrade::CheckSr => Some(Action::Read(Register::Sr)),
            Downgrade::SettingOptstrt(step) => Some(step.action()),
            Downgrade::Erasing(step) => Some(step.action()),
            Downgrade::Done(_) | Downgrade::Failed(_) => None,
        }
    }

    /// Decides what to do from the value of `FLASH_OPTR` that the first
    /// read gave.
    #[verifier::when_used_as_spec(spec_dispatch)]
    pub fn dispatch(flash_optr: u32) -> (state: Downgrade)
        ensures
            state == Self::spec_dispatch(flash_optr),
            state.well_formed(),
    {
        match Rdp::from_optr(flash_optr) {
            Rdp::Lvl0 => Downgrade::Done(Outcome::AlreadyUnlocked),
            Rdp::Lvl1 => Downgrade::Unlocking { flash_optr, unlock: UnlockFlash::start() },
            Rdp::Lvl2 => Downgrade::Failed(Error::Level2),
        }
    }

    /// Decides from a value of `FLASH_SR` whether the programming can be
    /// started.
    #[verifier::when_used_as_spec(spec_check)]
    pub fn check(flash_sr: u32) -> (state: Downgrade)
        ensures
            state == Self::spec_check(flash_sr),
            state.well_formed(),
    {
        if is_busy(flash_sr) {
            Downgrade::Failed(Error::Busy)
        } else if is_suspended(flash_sr) {
            Downgrade::Failed(Error::Suspended)
        } else {
            Downgrade::SettingOptstrt(SetOptstrt::start())
        }
    }

    /// Takes in how the pending action went, and gives the state that
    /// follows.
    #[verifier::when_used_as_spec(spec_advance)]
    pub fn advance(self, event: Event) -> (next: Downgrade)
        ensures
            next == self.spec_advance(event),
            self.well_formed() ==> next.well_formed(),
            self.spec_result() is Some ==> next == self,
            self.spec_action() matches Some(action) && !action.answered_by(event) ==> next
                == self,
            self.spec_action() matches Some(action) && action.is_access() && event is Failed
                ==> (next matches Downgrade::Failed(error) && error.is_access()),
    {
        match self {
            Downgrade::ReadOptr => match event {
                Event::Value(flash_optr) => Self::dispatch(flash_optr),
                Event::Failed => Downgrade::Failed(Error::ReadOptr),
                _ => self,
            },
            Downgrade::Unlocking { flash_optr, unlock } => match unlock.advance(event) {
                Flow::Continue(next) => Downgrade::Unlocking { flash_optr, unlock: next },
                Flow::Complete => Downgrade::SettingPcropRdp {
                    flash_optr,
                    set: SetPcropRdp::start(),
                },
                Flow::Abort => Downgrade::Failed(Error::UnlockFlash(unlock)),
            },
            Downgrade::SettingPcropRdp { flash_optr, set } => match set.advance(event) {
                Flow::Continue(next) => Downgrade::SettingPcropRdp { flash_optr, set: next },
                Flow::Complete => Downgrade::WriteOptr { flash_optr },
                Flow::Abort => Downgrade::Failed(Error::SetPcropRdp(set)),
            },
            Downgrade::WriteOptr { flash_optr: _ } => match event {
                Event::Done => Downgrade::CheckSr,
                Event::Failed => Downgrade::Failed(Error::WriteOptr),
                _ => self,
            },
            Downgrade::CheckSr => match event {
                Event::Value(flash_sr) => Self::check(flash_sr),
                Event::Failed => Downgrade::Failed(Error::ReadSr),
                _ => self,
            },
            Downgrade::SettingOptstrt(step) => match step.advance(event) {
                Flow::Continue(next) => Downgrade::SettingOptstrt(next),
                Flow::Complete => Downgrade::Erasing(WaitErase::start()),
                Flow::Abort => Downgrade::Failed(Error::SetOptstrt(step)),
            },
            Downgrade::Erasing(step) => match step.advance(event) {
                Waited::Continue(next) => Downgrade::Erasing(next),
                Waited::Erased(erase_nanos) => Downgrade::Done(Outcome::Unlocked { erase_nanos }),
                Waited::TimedOut(elapsed_nanos) => Downgrade::Failed(
                    Error::Timeout { elapsed_nanos },
                ),
                Waited::Abort => Downgrade::Failed(Error::PollSr),
            },
            Downgrade::Done(_) | Downgrade::Failed(_) => self,
        }
    }

    /// How the run ended, or `None` while it is not over.
    #[verifier::when_used_as_spec(spec_result)]
    pub fn result(self) -> (result: Option<Result<Outcome, Error>>)
        ensures
            result == self.spec_result(),
    {
        match self {
            Downgrade::Done(outcome) => Some(Ok(outcome)),
            Downgrade::Failed(error) => Some(Err(error)),
            _ => None,
        }
    }
}

} // verus!
