//! The course of a run in which every access succeeds: which actions are
//! taken, in which order, and how the wait for the erase ends.

use vstd::prelude::*;
use crate::access::{Action, Event};
use crate::downgrade::{Downgrade, Error, Outcome};
use crate::erase::{WaitErase, ERASE_TIMEOUT_NANOS};
use crate::pcrop::SetPcropRdp;
use crate::rdp::Rdp;
use crate::registers::{
    has_bits,
    is_busy,
    is_suspended,
    set_bits,
    with_rdp_lvl0,
    Register,
    OPTSTRT_MASK,
    PCROP_RDP_MASK,
};
use crate::trace::{
    lemma_first_read,
    lemma_over_is_final,
    lemma_run_in_two_parts,
    lemma_run_one_more,
    no_write,
};
use crate::unlock::UnlockFlash;

verus! {

/// The events of a run at level 1 in which every access succeeds, from the
/// first read up to the start of the clock. The registers hold `flash_optr`,
/// `pcrop1aer`, `flash_sr` and `flash_cr` when they are read.
pub open spec fn downgrade_events(
    flash_optr: u32,
    pcrop1aer: u32,
    flash_sr: u32,
    flash_cr: u32,
) -> Seq<Event> {
    seq![Event::Value(flash_optr)] + unlock_events() + pcrop_events(pcrop1aer) + start_events(
        flash_sr,
        flash_cr,
    )
}

/// The actions of a run at level 1 in which every access succeeds, from the
/// first read up to the start of the clock: `FLASH_OPTR` is read; the flash
/// is unlocked; `FLASH_PCROP1AER` is read, and written with `PCROP_RDP` set
/// unless the bit was set; `FLASH_OPTR` is written with the `RDP` byte of
/// level 0, over the value that was read at the beginning; `FLASH_SR` is
/// read; `FLASH_CR` is read, written with `OPTSTRT` set, and flushed; and the
/// clock is started.
pub open spec fn downgrade_actions(flash_optr: u32, pcrop1aer: u32, flash_cr: u32) -> Seq<
    Action,
> {
    seq![Action::Read(Register::Optr)] + UnlockFlash::script() + pcrop_actions(pcrop1aer)
        + start_actions(flash_optr, flash_cr)
}

/// The events of an unlock sequence in which every access succeeds.
pub open spec fn unlock_events() -> Seq<Event> {
    seq![Event::Done, Event::Done, Event::Done, Event::Done, Event::Done, Event::Done]
}

/// The events of setting `PCROP_RDP` when every access succeeds and the
/// register holds `pcrop1aer`: the read, and the write if there is one.
pub open spec fn pcrop_events(pcrop1aer: u32) -> Seq<Event> {
    if has_bits(pcrop1aer, PCROP_RDP_MASK) {
        seq![Event::Value(pcrop1aer)]
    } else {
        seq![Event::Value(pcrop1aer), Event::Done]
    }
}

/// The actions of setting `PCROP_RDP` on a register that holds `pcrop1aer`:
/// the read, and the write if the bit is not set.
pub open spec fn pcrop_actions(pcrop1aer: u32) -> Seq<Action> {
    if has_bits(pcrop1aer, PCROP_RDP_MASK) {
        seq![Action::Read(Register::Pcrop1aer)]
    } else {
        seq![
            Action::Read(Register::Pcrop1aer),
            Action::Write(Register::Pcrop1aer, set_bits(pcrop1aer, PCROP_RDP_MASK)),
        ]
    }
}

/// The events from the write of `FLASH_OPTR` to the start of the clock, when
/// every access succeeds and the registers hold `flash_sr` and `flash_cr`.
pub open spec fn start_events(flash_sr: u32, flash_cr: u32) -> Seq<Event> {
    seq![
        Event::Done,
        Event::Value(flash_sr),
        Event::Value(flash_cr),
        Event::Done,
        Event::Done,
        Event::Done,
    ]
}

/// The actions from the write of `FLASH_OPTR` to the start of the clock.
pub open spec fn start_actions(flash_optr: u32, flash_cr: u32) -> Seq<Action> {
    seq![
        Action::Write(Register::Optr, with_rdp_lvl0(flash_optr)),
        Action::Read(Register::Sr),
        Action::Read(Register::Cr),
        Action::Write(Register::Cr, set_bits(flash_cr, OPTSTRT_MASK)),
        Action::Flush,
        Action::StartClock,
    ]
}

/// The unlock sequence on a target that takes every access: the six
/// accesses of the script are made, in order, and `PCROP_RDP` is set next.
pub proof fn lemma_unlock_runs(flash_optr: u32)
    ensures
        (Downgrade::Unlocking { flash_optr, unlock: UnlockFlash::at(0) }).run(unlock_events())
            == (Downgrade::SettingPcropRdp { flash_optr, set: SetPcropRdp::Read }),
        (Downgrade::Unlocking { flash_optr, unlock: UnlockFlash::at(0) }).issued(unlock_events())
            == UnlockFlash::script(),
{
    let from = Downgrade::Unlocking { flash_optr, unlock: UnlockFlash::at(0) };
    let e0 = Seq::<Event>::empty();
    let e1 = e0.push(Event::Done);
    lemma_run_one_more(from, e0, Event::Done);
    let e2 = e1.push(Event::Done);
    lemma_run_one_more(from, e1, Event::Done);
    let e3 = e2.push(Event::Done);
    lemma_run_one_more(from, e2, Event::Done);
    let e4 = e3.push(Event::Done);
    lemma_run_one_more(from, e3, Event::Done);
    let e5 = e4.push(Event::Done);
    lemma_run_one_more(from, e4, Event::Done);
    let e6 = e5.push(Event::Done);
    lemma_run_one_more(from, e5, Event::Done);
    assert(e6 =~= unlock_events());
    assert(from.issued(e6) =~= UnlockFlash::script());
}

/// Setting `PCROP_RDP` on a target that takes every access: the register is
/// read, it is written only if the bit was clear, and `FLASH_OPTR` is
/// written next.
pub proof fn lemma_pcrop_runs(flash_optr: u32, pcrop1aer: u32)
    ensures
        (Downgrade::SettingPcropRdp { flash_optr, set: SetPcropRdp::Read }).run(
            pcrop_events(pcrop1aer),
        ) == (Downgrade::WriteOptr { flash_optr }),
        (Downgrade::SettingPcropRdp { flash_optr, set: SetPcropRdp::Read }).issued(
            pcrop_events(pcrop1aer),
        ) == pcrop_actions(pcrop1aer),
{
    let from = Downgrade::SettingPcropRdp { flash_optr, set: SetPcropRdp::Read };
    let e0 = Seq::<Event>::empty();
    let e1 = e0.push(Event::Value(pcrop1aer));
    lemma_run_one_more(from, e0, Event::Value(pcrop1aer));
    if has_bits(pcrop1aer, PCROP_RDP_MASK) {
        assert(e1 =~= pcrop_events(pcrop1aer));
        assert(from.issued(e1) =~= pcrop_actions(pcrop1aer));
    } else {
        let e2 = e1.push(Event::Done);
        lemma_run_one_more(from, e1, Event::Done);
        assert(e2 =~= pcrop_events(pcrop1aer));
        assert(from.issued(e2) =~= pcrop_actions(pcrop1aer));
    }
}

/// From the write of `FLASH_OPTR` to the start of the clock, on a target
/// that takes every access and is neither busy nor suspended.
pub proof fn lemma_start_runs(flash_optr: u32, flash_sr: u32, flash_cr: u32)
    requires
        !is_busy(flash_sr),
        !is_suspended(flash_sr),
    ensures
        (Downgrade::WriteOptr { flash_optr }).run(start_events(flash_sr, flash_cr))
            == Downgrade::Erasing(WaitErase::ReadSr),
        (Downgrade::WriteOptr { flash_optr }).issued(start_events(flash_sr, flash_cr))
            == start_actions(flash_optr, flash_cr),
{
    let from = Downgrade::WriteOptr { flash_optr };
    let e0 = Seq::<Event>::empty();
    let e1 = e0.push(Event::Done);
    lemma_run_one_more(from, e0, Event::Done);
    let e2 = e1.push(Event::Value(flash_sr));
    lemma_run_one_more(from, e1, Event::Value(flash_sr));
    let e3 = e2.push(Event::Value(flash_cr));
    lemma_run_one_more(from, e2, Event::Value(flash_cr));
    let e4 = e3.push(Event::Done);
    lemma_run_one_more(from, e3, Event::Done);
    let e5 = e4.push(Event::Done);
    lemma_run_one_more(from, e4, Event::Done);
    let e6 = e5.push(Event::Done);
    lemma_run_one_more(from, e5, Event::Done);
    assert(e6 =~= start_events(flash_sr, flash_cr));
    assert(from.issued(e6) =~= start_actions(flash_optr, flash_cr));
}

/// The downgrade, access by access. At level 1, with the flash neither busy
/// nor suspended and every access succeeding, the procedure takes exactly
/// the actions of [`downgrade_actions`], in that order, and then awaits the
/// erase.
pub proof fn lemma_downgrade_access_by_access(
    flash_optr: u32,
    pcrop1aer: u32,
    flash_sr: u32,
    flash_cr: u32,
)
    requires
        Rdp::of_optr(flash_optr) == Rdp::Lvl1,
        !is_busy(flash_sr),
        !is_suspended(flash_sr),
    ensures
        Downgrade::start().run(downgrade_events(flash_optr, pcrop1aer, flash_sr, flash_cr))
            == Downgrade::Erasing(WaitErase::ReadSr),
        Downgrade::start().issued(downgrade_events(flash_optr, pcrop1aer, flash_sr, flash_cr))
            == downgrade_actions(flash_optr, pcrop1aer, flash_cr),
{
    let start = Downgrade::start();
    let read = seq![Event::Value(flash_optr)];
    lemma_first_read(flash_optr);
    lemma_unlock_runs(flash_optr);
    lemma_run_in_two_parts(start, read, unlock_events());
    lemma_pcrop_runs(flash_optr, pcrop1aer);
    lemma_run_in_two_parts(start, read + unlock_events(), pcrop_events(pcrop1aer));
    lemma_start_runs(flash_optr, flash_sr, flash_cr);
    lemma_run_in_two_parts(
        start,
        read + unlock_events() + pcrop_events(pcrop1aer),
        start_events(flash_sr, flash_cr),
    );
}

/// One poll of the wait for the erase: what `FLASH_SR` held, and how many
/// nanoseconds had passed when it was read.
pub struct Poll {
    pub flash_sr: u32,
    pub elapsed_nanos: u128,
}

impl Poll {
    /// Whether the wait goes on after this poll: `BSY` is set, and no more
    /// time than the wait allows has passed.
    pub open spec fn goes_on(self) -> bool {
        is_busy(self.flash_sr) && self.elapsed_nanos <= ERASE_TIMEOUT_NANOS
    }

    /// The state that this poll leaves the run in, when it is the first
    /// after which the wait does not go on, or else the last so far.
    pub open spec fn leads_to(self) -> Downgrade {
        if !is_busy(self.flash_sr) {
            Downgrade::Done(Outcome::Unlocked { erase_nanos: self.elapsed_nanos })
        } else if self.elapsed_nanos > ERASE_TIMEOUT_NANOS {
            Downgrade::Failed(Error::Timeout { elapsed_nanos: self.elapsed_nanos })
        } else {
            Downgrade::Erasing(WaitErase::ReadSr)
        }
    }
}

/// The events that the polls make: for each poll the word read, then the
/// time passed.
pub open spec fn poll_events(polls: Seq<Poll>) -> Seq<Event>
    decreases polls.len(),
{
    if polls.len() == 0 {
        Seq::empty()
    } else {
        poll_events(polls.drop_last()).push(Event::Value(polls.last().flash_sr)).push(
            Event::Elapsed(polls.last().elapsed_nanos),
        )
    }
}

/// The actions of `count` polls: for each poll a read of `FLASH_SR`, then a
/// reading of the clock.
pub open spec fn poll_actions(count: nat) -> Seq<Action>
    decreases count,
{
    if count == 0 {
        Seq::empty()
    } else {
        poll_actions((count - 1) as nat).push(Action::Read(Register::Sr)).push(Action::ReadClock)
    }
}

/// The wait for the erase, poll by poll. As long as every poll but the last
/// leaves the wait going on, the last poll decides: the run has gone well if
/// it found `BSY` clear, with the time of that poll as the erase's duration;
/// it has timed out if it found `BSY` set after more than the limit; else
/// the wait goes on. Each poll is a read of `FLASH_SR` and a reading of the
/// clock, and nothing else is done.
pub proof fn lemma_wait_poll_by_poll(polls: Seq<Poll>)
    requires
        forall|i: int| 0 <= i < polls.len() - 1 ==> (#[trigger] polls[i]).goes_on(),
    ensures
        Downgrade::Erasing(WaitErase::ReadSr).run(poll_events(polls)) == if polls.len() == 0 {
            Downgrade::Erasing(WaitErase::ReadSr)
        } else {
            polls.last().leads_to()
        },
        Downgrade::Erasing(WaitErase::ReadSr).issued(poll_events(polls)) == poll_actions(
            polls.len(),
        ),
    decreases polls.len(),
{
    let waiting = Downgrade::Erasing(WaitErase::ReadSr);
    if polls.len() > 0 {
        let earlier = polls.drop_last();
        let last = polls.last();
        lemma_wait_poll_by_poll(earlier);
        if earlier.len() > 0 {
            assert(earlier.last() == polls[polls.len() - 2]);
            assert(earlier.last().goes_on());
        }
        assert(waiting.run(poll_events(earlier)) == waiting);
        let read = poll_events(earlier).push(Event::Value(last.flash_sr));
        lemma_run_one_more(waiting, poll_events(earlier), Event::Value(last.flash_sr));
        lemma_run_one_more(waiting, read, Event::Elapsed(last.elapsed_nanos));
    }
}

/// Polls write nothing.
proof fn lemma_polls_write_nothing(count: nat)
    ensures
        no_write(poll_actions(count)),
        poll_actions(count).len() == 2 * count,
    decreases count,
{
    if count > 0 {
        lemma_polls_write_nothing((count - 1) as nat);
    }
}

/// If `BSY` clears within the limit, the run goes well and reports an erase
/// that took no longer than the limit. The polls are taken with a clock that
/// does not run backwards; all but the last find `BSY` set, and the last
/// finds it clear, no later than the limit. The duration reported is the
/// time of that last poll. No register is written during the wait.
pub proof fn lemma_erase_within_limit(polls: Seq<Poll>)
    requires
        polls.len() > 0,
        forall|i: int, j: int|
            0 <= i <= j < polls.len() ==> polls[i].elapsed_nanos <= polls[j].elapsed_nanos,
        forall|i: int| 0 <= i < polls.len() - 1 ==> is_busy((#[trigger] polls[i]).flash_sr),
        !is_busy(polls.last().flash_sr),
        polls.last().elapsed_nanos <= ERASE_TIMEOUT_NANOS,
    ensures
        Downgrade::Erasing(WaitErase::ReadSr).run(poll_events(polls)) matches Downgrade::Done(
            Outcome::Unlocked { erase_nanos },
        ) && erase_nanos == polls.last().elapsed_nanos && erase_nanos <= ERASE_TIMEOUT_NANOS,
        no_write(Downgrade::Erasing(WaitErase::ReadSr).issued(poll_events(polls))),
{
    assert forall|i: int| 0 <= i < polls.len() - 1 implies (#[trigger] polls[i]).goes_on() by {
        assert(polls[i].elapsed_nanos <= polls[polls.len() - 1].elapsed_nanos);
    }
    lemma_wait_poll_by_poll(polls);
    lemma_polls_write_nothing(polls.len());
}

/// If `BSY` never clears, the run fails with a timeout at the first poll
/// that comes after more than the limit, and reports the time of that poll.
/// All polls find `BSY` set, and the last is the first to come later than
/// the limit. No register is written during the wait, and once the run has
/// timed out no action is taken at all, whatever events follow.
pub proof fn lemma_erase_times_out(polls: Seq<Poll>, more: Seq<Event>)
    requires
        polls.len() > 0,
        forall|i: int| 0 <= i < polls.len() ==> is_busy((#[trigger] polls[i]).flash_sr),
        forall|i: int|
            0 <= i < polls.len() - 1 ==> (#[trigger] polls[i]).elapsed_nanos
                <= ERASE_TIMEOUT_NANOS,
        polls.last().elapsed_nanos > ERASE_TIMEOUT_NANOS,
    ensures
        Downgrade::Erasing(WaitErase::ReadSr).run(poll_events(polls)) == Downgrade::Failed(
            Error::Timeout { elapsed_nanos: polls.last().elapsed_nanos },
        ),
        no_write(Downgrade::Erasing(WaitErase::ReadSr).issued(poll_events(polls))),
        Downgrade::Erasing(WaitErase::ReadSr).run(poll_events(polls) + more)
            == Downgrade::Erasing(WaitErase::ReadSr).run(poll_events(polls)),
        Downgrade::Erasing(WaitErase::ReadSr).issued(poll_events(polls) + more)
            == Downgrade::Erasing(WaitErase::ReadSr).issued(poll_events(polls)),
{
    let waiting = Downgrade::Erasing(WaitErase::ReadSr);
    lemma_wait_poll_by_poll(polls);
    lemma_polls_write_nothing(polls.len());
    lemma_run_in_two_parts(waiting, poll_events(polls), more);
    lemma_over_is_final(waiting.run(poll_events(polls)), more);
    assert(waiting.issued(poll_events(polls)) + Seq::<Action>::empty() =~= waiting.issued(
        poll_events(polls),
    ));
}

/// The downgrade from beginning to end. At level 1, with the flash neither
/// busy nor suspended and every access succeeding, and with polls of which
/// all but the last leave the wait going on: the actions taken are those of
/// [`downgrade_actions`] and then the polls, and the last poll decides how
/// the run ends.
pub proof fn lemma_downgrade_from_start(
    flash_optr: u32,
    pcrop1aer: u32,
    flash_sr: u32,
    flash_cr: u32,
    polls: Seq<Poll>,
)
    requires
        Rdp::of_optr(flash_optr) == Rdp::Lvl1,
        !is_busy(flash_sr),
        !is_suspended(flash_sr),
        polls.len() > 0,
        forall|i: int| 0 <= i < polls.len() - 1 ==> (#[trigger] polls[i]).goes_on(),
    ensures
        Downgrade::start().run(
            downgrade_events(flash_optr, pcrop1aer, flash_sr, flash_cr) + poll_events(polls),
        ) == polls.last().leads_to(),
        Downgrade::start().issued(
            downgrade_events(flash_optr, pcrop1aer, flash_sr, flash_cr) + poll_events(polls),
        ) == downgrade_actions(flash_optr, pcrop1aer, flash_cr) + poll_actions(polls.len()),
{
    lemma_downgrade_access_by_access(flash_optr, pcrop1aer, flash_sr, flash_cr);
    lemma_wait_poll_by_poll(polls);
    lemma_run_in_two_parts(
        Downgrade::start(),
        downgrade_events(flash_optr, pcrop1aer, flash_sr, flash_cr),
        poll_events(polls),
    );
}

} // verus!
