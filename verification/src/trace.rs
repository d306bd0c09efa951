//! Whole runs of the procedure: the state that a sequence of events leads
//! to, the actions that were taken on the way, and the events that answered
//! them.

use vstd::prelude::*;
use crate::access::{Action, Event};
use crate::downgrade::Downgrade;
use crate::registers::Register;

verus! {

impl Downgrade {
    /// The state that the events lead to from this one, taken in order.
    pub open spec fn run(self, events: Seq<Event>) -> Downgrade
        decreases events.len(),
    {
        if events.len() == 0 {
            self
        } else {
            self.run(events.drop_last()).spec_advance(events.last())
        }
    }

    /// The actions that were taken while the events led on from this state,
    /// in order: each event that answers the action pending when it comes
    /// stands for one action taken, and an event that does not answer it
    /// stands for none.
    pub open spec fn issued(self, events: Seq<Event>) -> Seq<Action>
        decreases events.len(),
    {
        if events.len() == 0 {
            Seq::empty()
        } else {
            let earlier = self.issued(events.drop_last());
            match self.run(events.drop_last()).spec_action() {
                Some(action) => if action.answered_by(events.last()) {
                    earlier.push(action)
                } else {
                    earlier
                },
                None => earlier,
            }
        }
    }

    /// The events that answered the actions of [`Downgrade::issued`], in the
    /// same order: the answer to an action stands where the action stands.
    pub open spec fn answers(self, events: Seq<Event>) -> Seq<Event>
        decreases events.len(),
    {
        if events.len() == 0 {
            Seq::empty()
        } else {
            let earlier = self.answers(events.drop_last());
            match self.run(events.drop_last()).spec_action() {
                Some(action) => if action.answered_by(events.last()) {
                    earlier.push(events.last())
                } else {
                    earlier
                },
                None => earlier,
            }
        }
    }
}

/// Whether none of the actions writes to a register.
pub open spec fn no_write(actions: Seq<Action>) -> bool {
    forall|i: int| 0 <= i < actions.len() ==> !(#[trigger] actions[i]).is_write()
}

/// One event more: the state moves on by that event, and the pending action
/// counts as taken, with the event as its answer, if the event answers it.
pub proof fn lemma_run_one_more(state: Downgrade, events: Seq<Event>, event: Event)
    ensures
        state.run(events.push(event)) == state.run(events).spec_advance(event),
        state.issued(events.push(event)) == match state.run(events).spec_action() {
            Some(action) => if action.answered_by(event) {
                state.issued(events).push(action)
            } else {
                state.issued(events)
            },
            None => state.issued(events),
        },
        state.answers(events.push(event)) == match state.run(events).spec_action() {
            Some(action) => if action.answered_by(event) {
                state.answers(events).push(event)
            } else {
                state.answers(events)
            },
            None => state.answers(events),
        },
        state.answers(events.push(event)).len() == state.issued(events.push(event)).len(),
{
    lemma_as_many_answers_as_actions(state, events);
    assert(events.push(event).drop_last() =~= events);
}

/// A run can be cut in two: the events of the second part lead on from
/// where those of the first part led, and the actions taken are those of the
/// first part followed by those of the second, as are their answers.
pub proof fn lemma_run_in_two_parts(state: Downgrade, first: Seq<Event>, second: Seq<Event>)
    ensures
        state.run(first + second) == state.run(first).run(second),
        state.issued(first + second) == state.issued(first) + state.run(first).issued(second),
        state.answers(first + second) == state.answers(first) + state.run(first).answers(second),
    decreases second.len(),
{
    if second.len() == 0 {
        assert(first + second =~= first);
        assert(state.issued(first) + Seq::<Action>::empty() =~= state.issued(first));
        assert(state.answers(first) + Seq::<Event>::empty() =~= state.answers(first));
    } else {
        let shorter = second.drop_last();
        lemma_run_in_two_parts(state, first, shorter);
        assert((first + second).drop_last() =~= first + shorter);
    }
}

/// Each action taken has its answer.
pub proof fn lemma_as_many_answers_as_actions(state: Downgrade, events: Seq<Event>)
    ensures
        state.answers(events).len() == state.issued(events).len(),
        forall|i: int|
            0 <= i < state.issued(events).len() ==> (#[trigger] state.issued(
                events,
            )[i]).answered_by(state.answers(events)[i]),
    decreases events.len(),
{
    if events.len() > 0 {
        lemma_as_many_answers_as_actions(state, events.drop_last());
    }
}

/// A run that is over stays over: whatever events follow, the state stays
/// what it is and no action is taken.
pub proof fn lemma_over_is_final(state: Downgrade, events: Seq<Event>)
    requires
        state.spec_result() is Some,
    ensures
        state.run(events) == state,
        state.issued(events) == Seq::<Action>::empty(),
    decreases events.len(),
{
    if events.len() > 0 {
        lemma_over_is_final(state, events.drop_last());
    }
}

/// The first read: its value decides how the run goes on, and the read is
/// the one action taken so far.
pub proof fn lemma_first_read(flash_optr: u32)
    ensures
        Downgrade::start().run(seq![Event::Value(flash_optr)]) == Downgrade::spec_dispatch(
            flash_optr,
        ),
        Downgrade::start().issued(seq![Event::Value(flash_optr)]) == seq![
            Action::Read(Register::Optr),
        ],
{
    let none = Seq::<Event>::empty();
    lemma_run_one_more(Downgrade::start(), none, Event::Value(flash_optr));
    assert(none.push(Event::Value(flash_optr)) =~= seq![Event::Value(flash_optr)]);
    assert(Seq::<Action>::empty().push(Action::Read(Register::Optr)) =~= seq![
        Action::Read(Register::Optr),
    ]);
}

/// Where an action that was taken stands among the events: the number of
/// events that came before the one that answered it. The action was pending
/// after those events, the next event answered it, and it is the latest
/// action taken by then.
pub proof fn lemma_action_among_events(state: Downgrade, events: Seq<Event>, i: int) -> (before:
    int)
    requires
        0 <= i < state.issued(events).len(),
    ensures
        0 <= before < events.len(),
        state.run(events.take(before)).spec_action() == Some(state.issued(events)[i]),
        state.issued(events)[i].answered_by(events[before]),
        state.issued(events.take(before + 1)).len() == i + 1,
        state.issued(events) == state.issued(events.take(before + 1)) + state.run(
            events.take(before + 1),
        ).issued(events.skip(before + 1)),
    decreases events.len(),
{
    let earlier = events.drop_last();
    assert(events.take(events.len() - 1) =~= earlier);
    assert(events.take(events.len() as int) =~= events);
    if i < state.issued(earlier).len() {
        let before = lemma_action_among_events(state, earlier, i);
        assert(earlier.take(before) =~= events.take(before));
        assert(earlier.take(before + 1) =~= events.take(before + 1));
        assert(events =~= events.take(before + 1) + events.skip(before + 1));
        lemma_run_in_two_parts(state, events.take(before + 1), events.skip(before + 1));
        before
    } else {
        let before = events.len() - 1;
        assert(events.skip(before + 1) =~= Seq::<Event>::empty());
        assert(state.issued(events) + Seq::<Action>::empty() =~= state.issued(events));
        before
    }
}

} // verus!
