//! What holds of every run, whatever the target answers.

use vstd::prelude::*;
use crate::access::{Action, Event};
use crate::downgrade::{Downgrade, Error, Outcome};
use crate::erase::WaitErase;
use crate::optstrt::SetOptstrt;
use crate::pcrop::SetPcropRdp;
use crate::rdp::Rdp;
use crate::registers::{
    has_bits,
    lemma_set_bits_keeps_other_bits,
    lemma_with_rdp_lvl0_replaces_low_byte,
    set_bits,
    with_rdp_lvl0,
    Register,
    FLASH_KEY1,
    FLASH_KEY2,
    FLASH_OPTKEY1,
    FLASH_OPTKEY2,
    OPTSTRT_MASK,
    PCROP_RDP_MASK,
    RDP_LVL0,
    RDP_MASK,
};
use crate::trace::{
    lemma_action_among_events,
    lemma_first_read,
    lemma_over_is_final,
    lemma_run_in_two_parts,
    lemma_run_one_more,
    no_write,
};

verus! {

/// At level 0 the procedure touches nothing. When the first read gives a
/// value of `FLASH_OPTR` that holds level 0, the run is over with that read:
/// it has gone well, and the read is the only action ever taken, whatever
/// events follow. No register is written.
pub proof fn lemma_level0_writes_nothing(flash_optr: u32, more: Seq<Event>)
    requires
        Rdp::of_optr(flash_optr) == Rdp::Lvl0,
    ensures
        Downgrade::start().run(seq![Event::Value(flash_optr)] + more).spec_result() == Some(
            Ok::<Outcome, Error>(Outcome::AlreadyUnlocked),
        ),
        Downgrade::start().issued(seq![Event::Value(flash_optr)] + more) == seq![
            Action::Read(Register::Optr),
        ],
        no_write(Downgrade::start().issued(seq![Event::Value(flash_optr)] + more)),
{
    let first = seq![Event::Value(flash_optr)];
    lemma_first_read(flash_optr);
    lemma_run_in_two_parts(Downgrade::start(), first, more);
    lemma_over_is_final(Downgrade::start().run(first), more);
    assert(Downgrade::start().issued(first) + Seq::<Action>::empty() =~= Downgrade::start().issued(
        first,
    ));
}

/// At level 2 the procedure touches nothing. When the first read gives a
/// value of `FLASH_OPTR` that holds level 2, the run is over with that read:
/// it has failed because level 2 cannot be removed, and the read is the only
/// action ever taken, whatever events follow. No register is written.
pub proof fn lemma_level2_writes_nothing(flash_optr: u32, more: Seq<Event>)
    requires
        Rdp::of_optr(flash_optr) == Rdp::Lvl2,
    ensures
        Downgrade::start().run(seq![Event::Value(flash_optr)] + more).spec_result() == Some(
            Err::<Outcome, Error>(Error::Level2),
        ),
        Downgrade::start().issued(seq![Event::Value(flash_optr)] + more) == seq![
            Action::Read(Register::Optr),
        ],
        no_write(Downgrade::start().issued(seq![Event::Value(flash_optr)] + more)),
{
    let first = seq![Event::Value(flash_optr)];
    lemma_first_read(flash_optr);
    lemma_run_in_two_parts(Downgrade::start(), first, more);
    lemma_over_is_final(Downgrade::start().run(first), more);
    assert(Downgrade::start().issued(first) + Seq::<Action>::empty() =~= Downgrade::start().issued(
        first,
    ));
}

/// A failed access ends the run, and none is tried again. Whatever access
/// is pending, its failure leads to a state in which the run is over, with
/// an error that stands for a failed access.
pub proof fn lemma_failed_access_ends_run(state: Downgrade)
    requires
        state.spec_action() matches Some(action) && action.is_access(),
    ensures
        state.spec_advance(Event::Failed) matches Downgrade::Failed(error) && error.is_access(),
        state.spec_advance(Event::Failed).spec_action() is None,
{
}

/// An event that cannot answer the pending action changes nothing, and
/// neither does any event when no action is pending.
pub proof fn lemma_other_events_change_nothing(state: Downgrade, event: Event)
    requires
        state.spec_action() matches Some(action) ==> !action.answered_by(event),
    ensures
        state.spec_advance(event) == state,
{
}

/// One event leads from a state that a run reaches to another such state.
pub proof fn lemma_step_keeps_well_formed(state: Downgrade, event: Event)
    requires
        state.well_formed(),
    ensures
        state.spec_advance(event).well_formed(),
{
    if let Event::Value(word) = event {
        lemma_set_bits_keeps_other_bits(word, PCROP_RDP_MASK);
        lemma_set_bits_keeps_other_bits(word, OPTSTRT_MASK);
    }
}

/// Whatever the events, a run leads from a state that a run reaches to
/// another such state.
pub proof fn lemma_run_keeps_well_formed(state: Downgrade, events: Seq<Event>)
    requires
        state.well_formed(),
    ensures
        state.run(events).well_formed(),
    decreases events.len(),
{
    if events.len() > 0 {
        lemma_run_keeps_well_formed(state, events.drop_last());
        lemma_step_keeps_well_formed(state.run(events.drop_last()), events.last());
    }
}

/// Whether an action is one that the procedure can take at all: a read of
/// one of the four registers that it reads; a write of a key to its key
/// register, of a word with `PCROP_RDP` set to `FLASH_PCROP1AER`, of a word
/// with the `RDP` byte of level 0 to `FLASH_OPTR`, or of a word with
/// `OPTSTRT` set to `FLASH_CR`; a flush; or a use of the clock.
pub open spec fn of_the_procedure(action: Action) -> bool {
    match action {
        Action::Read(register) => register != Register::Keyr && register != Register::Optkeyr,
        Action::Write(Register::Keyr, word) => word == FLASH_KEY1 || word == FLASH_KEY2,
        Action::Write(Register::Optkeyr, word) => word == FLASH_OPTKEY1 || word == FLASH_OPTKEY2,
        Action::Write(Register::Pcrop1aer, word) => has_bits(word, PCROP_RDP_MASK),
        Action::Write(Register::Optr, word) => word & RDP_MASK == RDP_LVL0,
        Action::Write(Register::Cr, word) => has_bits(word, OPTSTRT_MASK),
        Action::Write(Register::Sr, _) => false,
        Action::Flush | Action::StartClock | Action::ReadClock => true,
    }
}

/// The pending action of a state that a run reaches is one of the
/// procedure.
pub proof fn lemma_pending_action_is_of_the_procedure(state: Downgrade)
    requires
        state.well_formed(),
    ensures
        state.spec_action() matches Some(action) ==> of_the_procedure(action),
{
    if let Downgrade::WriteOptr { flash_optr } = state {
        lemma_with_rdp_lvl0_replaces_low_byte(flash_optr);
    }
}

/// Whatever the target answers, a run takes no action that is not one of
/// the procedure. It writes nothing but the keys to the key registers, a
/// word with `PCROP_RDP` set to `FLASH_PCROP1AER`, a word with the `RDP`
/// byte of level 0 to `FLASH_OPTR`, and a word with `OPTSTRT` set to
/// `FLASH_CR`.
pub proof fn lemma_every_action_is_of_the_procedure(events: Seq<Event>)
    ensures
        forall|i: int|
            0 <= i < Downgrade::start().issued(events).len() ==> of_the_procedure(
                #[trigger] Downgrade::start().issued(events)[i],
            ),
    decreases events.len(),
{
    if events.len() > 0 {
        let start = Downgrade::start();
        let earlier = events.drop_last();
        lemma_every_action_is_of_the_procedure(earlier);
        lemma_run_keeps_well_formed(start, earlier);
        lemma_pending_action_is_of_the_procedure(start.run(earlier));
        assert forall|i: int| 0 <= i < start.issued(events).len() implies of_the_procedure(
            #[trigger] start.issued(events)[i],
        ) by {
            if i < start.issued(earlier).len() {
                assert(start.issued(events)[i] == start.issued(earlier)[i]);
            }
        }
    }
}

/// Whether the action at `i` goes by what was read before it. A word
/// written to `FLASH_OPTR` is the value that the first read of the run gave,
/// which held level 1, with the `RDP` byte replaced by that of level 0. A
/// word written to `FLASH_PCROP1AER` is the word that the action just before
/// it read there, in which `PCROP_RDP` was clear, with that bit set. A word
/// written to `FLASH_CR` is the word that the action just before it read
/// there, with `OPTSTRT` set.
pub open spec fn goes_by_what_was_read(issued: Seq<Action>, answers: Seq<Event>, i: int) -> bool {
    match issued[i] {
        Action::Write(Register::Optr, word) => {
            &&& issued[0] == Action::Read(Register::Optr)
            &&& answers[0] matches Event::Value(flash_optr)
            &&& Rdp::of_optr(flash_optr) == Rdp::Lvl1
            &&& word == with_rdp_lvl0(flash_optr)
        },
        Action::Write(Register::Pcrop1aer, word) => {
            &&& i >= 1
            &&& issued[i - 1] == Action::Read(Register::Pcrop1aer)
            &&& answers[i - 1] matches Event::Value(pcrop1aer)
            &&& !has_bits(pcrop1aer, PCROP_RDP_MASK)
            &&& word == set_bits(pcrop1aer, PCROP_RDP_MASK)
        },
        Action::Write(Register::Cr, word) => {
            &&& i >= 1
            &&& issued[i - 1] == Action::Read(Register::Cr)
            &&& answers[i - 1] matches Event::Value(flash_cr)
            &&& word == set_bits(flash_cr, OPTSTRT_MASK)
        },
        _ => true,
    }
}

/// Whether the first of the answers is a value of `FLASH_OPTR` that holds
/// level 1.
pub open spec fn found_level1(answers: Seq<Event>) -> bool {
    answers.len() > 0 && (answers[0] matches Event::Value(flash_optr) && Rdp::of_optr(flash_optr)
        == Rdp::Lvl1)
}

/// What a run from the start keeps true of its state, the actions taken and
/// their answers: the state remembers what the reads gave.
spec fn remembers(events: Seq<Event>) -> bool {
    let state = Downgrade::start().run(events);
    let issued = Downgrade::start().issued(events);
    let answers = Downgrade::start().answers(events);
    &&& issued.len() == answers.len()
    &&& state == Downgrade::ReadOptr ==> issued.len() == 0
    &&& state != Downgrade::ReadOptr ==> issued.len() > 0 && issued[0] == Action::Read(
        Register::Optr,
    )
    &&& (state != Downgrade::ReadOptr && state.spec_action() is Some) || issued.len() >= 2
        ==> found_level1(answers)
    &&& state matches Downgrade::Unlocking { flash_optr, .. } ==> answers[0] == Event::Value(
        flash_optr,
    )
    &&& state matches Downgrade::SettingPcropRdp { flash_optr, .. } ==> answers[0]
        == Event::Value(flash_optr)
    &&& state matches Downgrade::WriteOptr { flash_optr } ==> answers[0] == Event::Value(
        flash_optr,
    )
    &&& state matches Downgrade::SettingPcropRdp { set: SetPcropRdp::Write(word), .. } ==> {
        &&& issued.last() == Action::Read(Register::Pcrop1aer)
        &&& answers.last() matches Event::Value(pcrop1aer)
        &&& !has_bits(pcrop1aer, PCROP_RDP_MASK)
        &&& word == set_bits(pcrop1aer, PCROP_RDP_MASK)
    }
    &&& state matches Downgrade::SettingOptstrt(SetOptstrt::Write(word)) ==> {
        &&& issued.last() == Action::Read(Register::Cr)
        &&& answers.last() matches Event::Value(flash_cr)
        &&& word == set_bits(flash_cr, OPTSTRT_MASK)
    }
}

/// A run from the start remembers what the reads gave, and each of its
/// writes goes by what was read before it.
proof fn lemma_run_remembers(events: Seq<Event>)
    ensures
        remembers(events),
        Downgrade::start().run(events).well_formed(),
        forall|i: int|
            0 <= i < Downgrade::start().issued(events).len() ==> #[trigger] goes_by_what_was_read(
                Downgrade::start().issued(events),
                Downgrade::start().answers(events),
                i,
            ),
    decreases events.len(),
{
    let start = Downgrade::start();
    lemma_run_keeps_well_formed(start, events);
    if events.len() > 0 {
        let earlier = events.drop_last();
        lemma_run_remembers(earlier);
        let issued = start.issued(events);
        let answers = start.answers(events);
        assert forall|i: int| 0 <= i < issued.len() implies #[trigger] goes_by_what_was_read(
            issued,
            answers,
            i,
        ) by {
            if i < start.issued(earlier).len() {
                assert(goes_by_what_was_read(start.issued(earlier), start.answers(earlier), i));
            }
        }
    }
}

/// Nothing is written unless level 1 was found. Whatever the target answers,
/// a run that takes any action after its first, and so a run that writes
/// anything at all, began with a read of `FLASH_OPTR` that gave a value of
/// level 1. At level 0, at level 2, and when that read fails, the read is the
/// only action of the run.
pub proof fn lemma_nothing_is_written_unless_level1(events: Seq<Event>)
    ensures
        Downgrade::start().issued(events).len() > 0 ==> Downgrade::start().issued(events)[0]
            == Action::Read(Register::Optr),
        Downgrade::start().issued(events).len() >= 2 ==> found_level1(
            Downgrade::start().answers(events),
        ),
        !no_write(Downgrade::start().issued(events)) ==> found_level1(
            Downgrade::start().answers(events),
        ),
{
    lemma_run_remembers(events);
}

/// Every write goes by what was read. Whatever the target answers, a word
/// that a run writes to `FLASH_OPTR`, to `FLASH_PCROP1AER` or to `FLASH_CR`
/// is made from the word that the run read before, as
/// [`goes_by_what_was_read`] says: the write to `FLASH_OPTR` changes the
/// `RDP` byte of the value read at the beginning and nothing else, and the
/// other two set one bit in the word just read and change nothing else.
pub proof fn lemma_every_write_goes_by_what_was_read(events: Seq<Event>, i: int)
    requires
        0 <= i < Downgrade::start().issued(events).len(),
    ensures
        Downgrade::start().answers(events).len() == Downgrade::start().issued(events).len(),
        goes_by_what_was_read(
            Downgrade::start().issued(events),
            Downgrade::start().answers(events),
            i,
        ),
{
    lemma_run_remembers(events);
}

/// Once the write of `OPTSTRT` is behind it, a run writes nothing more. From
/// a state in which that write is to be flushed, in which the erase is
/// awaited, or in which the run is over, no sequence of events whatever
/// leads to a write, and none leads back to a state from which one could
/// follow.
pub proof fn lemma_no_write_once_started(state: Downgrade, events: Seq<Event>)
    requires
        state == Downgrade::SettingOptstrt(SetOptstrt::Flush) || state is Erasing
            || state.spec_result() is Some,
    ensures
        state.run(events) == Downgrade::SettingOptstrt(SetOptstrt::Flush) || state.run(
            events,
        ) is Erasing || state.run(events).spec_result() is Some,
        no_write(state.issued(events)),
    decreases events.len(),
{
    if events.len() > 0 {
        lemma_no_write_once_started(state, events.drop_last());
    }
}

/// The write that sets `OPTSTRT` is the last write of a run. Whatever the
/// target answers, once a word has been written to `FLASH_CR` no register is
/// written again: that one write starts the programming, and no other
/// follows it.
pub proof fn lemma_nothing_is_written_after_flash_cr(events: Seq<Event>, i: int, j: int)
    requires
        0 <= i < j < Downgrade::start().issued(events).len(),
        Downgrade::start().issued(events)[i] matches Action::Write(Register::Cr, _),
    ensures
        !Downgrade::start().issued(events)[j].is_write(),
{
    let start = Downgrade::start();
    let before = lemma_action_among_events(start, events, i);
    let written = start.run(events.take(before + 1));
    lemma_run_one_more(start, events.take(before), events[before]);
    assert(events.take(before).push(events[before]) =~= events.take(before + 1));
    lemma_no_write_once_started(written, events.skip(before + 1));
    assert(start.issued(events)[j] == written.issued(events.skip(before + 1))[j - (i + 1)]);
}

/// Once the clock runs, a run does nothing but poll: whatever events
/// follow, every action taken is a read of `FLASH_SR` or a reading of the
/// clock. In particular the clock is started once and never again.
pub proof fn lemma_only_polls_once_the_clock_runs(state: Downgrade, events: Seq<Event>)
    requires
        (state matches Downgrade::Erasing(wait) && wait != WaitErase::StartClock)
            || state.spec_result() is Some,
    ensures
        (state.run(events) matches Downgrade::Erasing(wait) && wait != WaitErase::StartClock)
            || state.run(events).spec_result() is Some,
        forall|i: int|
            0 <= i < state.issued(events).len() ==> {
                ||| #[trigger] state.issued(events)[i] == Action::Read(Register::Sr)
                ||| state.issued(events)[i] == Action::ReadClock
            },
    decreases events.len(),
{
    if events.len() > 0 {
        lemma_only_polls_once_the_clock_runs(state, events.drop_last());
    }
}

} // verus!
