use stm32wl_unlock::access::{Action, Event};
use stm32wl_unlock::downgrade::{Downgrade, Error, Outcome};
use stm32wl_unlock::erase::WaitErase;
use stm32wl_unlock::optstrt::SetOptstrt;
use stm32wl_unlock::registers::Register;

/// A small generator of numbers that look random and are the same in every
/// run.
struct Numbers(u64);

impl Numbers {
    fn next(&mut self) -> u64 {
        self.0 = self.0.wrapping_mul(6364136223846793005).wrapping_add(1442695040888963407);
        self.0 >> 16
    }

    fn word(&mut self) -> u32 {
        let words = [
            0x0000_00AB,
            0x0000_0000,
            0x8000_0000,
            0x0001_0000,
            0x0008_0000,
            0x0002_0000,
            0x3FFF_F011,
            0xFFFF_FFFF,
            0x0000_00AA,
            0x0000_00CC,
        ];
        match self.next() % 12 {
            index @ 0..=9 => words[index as usize],
            _ => self.next() as u32,
        }
    }

    fn event(&mut self) -> Event {
        match self.next() % 4 {
            0 => Event::Value(self.word()),
            1 => Event::Done,
            2 => Event::Elapsed(u128::from(self.next() % 40_000_000_000)),
            _ => Event::Failed,
        }
    }

    /// An event for a state with this pending action: mostly one that says
    /// the action went well, sometimes any event at all.
    fn event_after(&mut self, action: Option<Action>) -> Event {
        if self.next() % 8 == 0 {
            return self.event();
        }
        match action {
            Some(Action::Read(Register::Optr)) => Event::Value(0x0000_0011 | (self.word() & !0xFF)),
            Some(Action::Read(Register::Sr)) => Event::Value(self.word() & !0x0009_0000),
            Some(Action::Read(_)) => Event::Value(self.word()),
            Some(Action::ReadClock) => Event::Elapsed(u128::from(self.next() % 40_000_000_000)),
            _ => Event::Done,
        }
    }
}

/// Feeds the events to a run, and gives back the state that they lead to
/// and the actions taken on the way: one for each event that answers the
/// action pending when it comes.
fn replay(from: Downgrade, events: &[Event]) -> (Downgrade, Vec<Action>) {
    let mut state = from;
    let mut taken = Vec::new();
    for event in events {
        if let Some(action) = state.action() {
            if action.answered_by(*event) {
                taken.push(action);
            }
        }
        state = state.advance(*event);
    }
    (state, taken)
}

fn some_runs() -> Vec<Vec<Event>> {
    let mut numbers = Numbers(0x5EED);
    let mut runs = Vec::new();
    for _ in 0..2000 {
        let mut state = Downgrade::start();
        let mut events = Vec::new();
        for _ in 0..(numbers.next() % 60) {
            let event = numbers.event_after(state.action());
            state = state.advance(event);
            events.push(event);
        }
        runs.push(events);
    }
    runs
}

fn of_the_procedure(action: Action) -> bool {
    match action {
        Action::Read(register) => register != Register::Keyr && register != Register::Optkeyr,
        Action::Write(Register::Keyr, word) => word == 0x4567_0123 || word == 0xCDEF_89AB,
        Action::Write(Register::Optkeyr, word) => word == 0x0819_2A3B || word == 0x4C5D_6E7F,
        Action::Write(Register::Pcrop1aer, word) => word & 0x8000_0000 != 0,
        Action::Write(Register::Optr, word) => word & 0xFF == 0xAA,
        Action::Write(Register::Cr, word) => word & 0x0002_0000 != 0,
        Action::Write(Register::Sr, _) => false,
        Action::Flush | Action::StartClock | Action::ReadClock => true,
    }
}

#[test]
fn generated_runs_go_deep() {
    let runs = some_runs();
    let ends: Vec<Downgrade> =
        runs.iter().map(|events| replay(Downgrade::start(), events).0).collect();
    assert!(ends.iter().any(|end| matches!(end, Downgrade::Done(Outcome::Unlocked { .. }))));
    assert!(ends.iter().any(|end| matches!(end, Downgrade::Failed(Error::Timeout { .. }))));
    assert!(ends.iter().any(|end| matches!(end, Downgrade::Failed(Error::PollSr))));
    assert!(ends.iter().any(|end| matches!(end, Downgrade::Erasing(_))));
    assert!(ends.iter().any(|end| matches!(end, Downgrade::SettingOptstrt(_))));
    assert!(ends.iter().any(|end| matches!(end, Downgrade::Unlocking { .. })));
}

#[test]
fn every_action_is_one_of_the_procedure() {
    for events in some_runs() {
        let (_, taken) = replay(Downgrade::start(), &events);
        for action in taken {
            assert!(of_the_procedure(action), "{action:?} after {events:?}");
        }
    }
}

#[test]
fn nothing_is_written_after_flash_cr() {
    let mut seen = 0;
    for events in some_runs() {
        let (_, taken) = replay(Downgrade::start(), &events);
        let written =
            taken.iter().position(|action| matches!(action, Action::Write(Register::Cr, _)));
        if let Some(index) = written {
            seen += 1;
            assert!(taken[index + 1..].iter().all(|action| !action.is_write()));
        }
    }
    assert!(seen > 100);
}

#[test]
fn clock_is_started_once_at_most() {
    let mut seen = 0;
    for events in some_runs() {
        let (_, taken) = replay(Downgrade::start(), &events);
        let starts = taken.iter().filter(|action| **action == Action::StartClock).count();
        assert!(starts <= 1);
        if let Some(index) = taken.iter().position(|action| *action == Action::StartClock) {
            seen += 1;
            for action in &taken[index + 1..] {
                assert!(*action == Action::Read(Register::Sr) || *action == Action::ReadClock);
            }
        }
    }
    assert!(seen > 100);
}

#[test]
fn a_run_can_be_cut_in_two() {
    for events in some_runs().into_iter().take(300) {
        let (end, taken) = replay(Downgrade::start(), &events);
        for cut in [0, events.len() / 3, events.len() / 2, events.len()] {
            let (middle, mut first) = replay(Downgrade::start(), &events[..cut]);
            let (last, second) = replay(middle, &events[cut..]);
            first.extend(second);
            assert_eq!(last, end);
            assert_eq!(first, taken);
        }
    }
}

#[test]
fn a_run_that_is_over_takes_no_action() {
    let mut numbers = Numbers(7);
    let over = [
        Downgrade::Done(Outcome::AlreadyUnlocked),
        Downgrade::Done(Outcome::Unlocked { erase_nanos: 12 }),
        Downgrade::Failed(Error::Level2),
        Downgrade::Failed(Error::Busy),
        Downgrade::Failed(Error::Timeout { elapsed_nanos: 31_000_000_000 }),
    ];
    for state in over {
        let events: Vec<Event> = (0..50).map(|_| numbers.event()).collect();
        let (end, taken) = replay(state, &events);
        assert_eq!(end, state);
        assert_eq!(taken, vec![]);
    }
}

#[test]
fn a_failed_access_ends_any_run() {
    for events in some_runs() {
        let (state, _) = replay(Downgrade::start(), &events);
        match state.action() {
            Some(action) if action.is_access() => {
                let next = state.advance(Event::Failed);
                assert!(matches!(next, Downgrade::Failed(error) if error.is_access()));
                assert_eq!(next.action(), None);
            }
            Some(_) => assert_eq!(state.advance(Event::Failed), state),
            None => assert_eq!(state.advance(Event::Failed), state),
        }
    }
}

#[test]
fn flush_of_flash_cr_is_followed_by_polls_only() {
    let mut numbers = Numbers(99);
    for _ in 0..200 {
        let events: Vec<Event> = (0..40).map(|_| numbers.event()).collect();
        let (end, taken) = replay(Downgrade::SettingOptstrt(SetOptstrt::Flush), &events);
        assert!(taken.iter().all(|action| !action.is_write()));
        assert!(matches!(
            end,
            Downgrade::SettingOptstrt(SetOptstrt::Flush)
                | Downgrade::Erasing(_)
                | Downgrade::Done(_)
                | Downgrade::Failed(_)
        ));
    }
}

#[test]
fn level_0_and_level_2_end_the_run_whatever_follows() {
    let mut numbers = Numbers(3);
    for _ in 0..100 {
        let high = numbers.word() & !0xFF;
        let more: Vec<Event> = (0..20).map(|_| numbers.event()).collect();

        let mut events = vec![Event::Value(high | 0xAA)];
        events.extend(more.iter().copied());
        let (end, taken) = replay(Downgrade::start(), &events);
        assert_eq!(end.result(), Some(Ok(Outcome::AlreadyUnlocked)));
        assert_eq!(taken, vec![Action::Read(Register::Optr)]);

        let mut events = vec![Event::Value(high | 0xCC)];
        events.extend(more.iter().copied());
        let (end, taken) = replay(Downgrade::start(), &events);
        assert_eq!(end.result(), Some(Err(Error::Level2)));
        assert_eq!(taken, vec![Action::Read(Register::Optr)]);
    }
}

#[test]
fn polls_decide_the_wait() {
    let waiting = Downgrade::Erasing(WaitErase::ReadSr);
    let busy = 0x0001_0000;
    // Three polls find BSY set within the limit, the fourth finds it clear.
    let events = [
        Event::Value(busy),
        Event::Elapsed(1_000),
        Event::Value(busy),
        Event::Elapsed(2_000),
        Event::Value(busy),
        Event::Elapsed(30_000_000_000),
        Event::Value(0),
        Event::Elapsed(30_000_000_000),
    ];
    let (end, taken) = replay(waiting, &events);
    assert_eq!(end, Downgrade::Done(Outcome::Unlocked { erase_nanos: 30_000_000_000 }));
    assert_eq!(taken.len(), 8);
    assert!(taken.iter().all(|action| !action.is_write()));
    // The same polls without the last leave the wait going on.
    let (end, _) = replay(waiting, &events[..6]);
    assert_eq!(end, waiting);
    // A poll that finds BSY set after the limit is a timeout, and ends the run.
    let late = [
        Event::Value(busy),
        Event::Elapsed(29_999_999_999),
        Event::Value(busy),
        Event::Elapsed(30_000_000_001),
        Event::Value(0),
        Event::Elapsed(30_000_000_002),
    ];
    let (end, taken) = replay(waiting, &late);
    assert_eq!(end, Downgrade::Failed(Error::Timeout { elapsed_nanos: 30_000_000_001 }));
    assert_eq!(
        taken,
        vec![
            Action::Read(Register::Sr),
            Action::ReadClock,
            Action::Read(Register::Sr),
            Action::ReadClock,
        ]
    );
}

/// The actions taken in a run from the start, each with the event that
/// answered it.
fn exchanges(events: &[Event]) -> Vec<(Action, Event)> {
    let mut state = Downgrade::start();
    let mut taken = Vec::new();
    for event in events {
        if let Some(action) = state.action() {
            if action.answered_by(*event) {
                taken.push((action, *event));
            }
        }
        state = state.advance(*event);
    }
    taken
}

#[test]
fn every_write_goes_by_what_was_read() {
    let mut to_optr = 0;
    let mut to_pcrop1aer = 0;
    let mut to_cr = 0;
    for events in some_runs() {
        let taken = exchanges(&events);
        for (index, (action, _)) in taken.iter().enumerate() {
            match *action {
                Action::Write(Register::Optr, word) => {
                    to_optr += 1;
                    let (first, answer) = taken[0];
                    assert_eq!(first, Action::Read(Register::Optr));
                    let Event::Value(flash_optr) = answer else {
                        panic!("the first read gave no value: {answer:?}");
                    };
                    assert!(flash_optr & 0xFF != 0xAA && flash_optr & 0xFF != 0xCC);
                    assert_eq!(word, (flash_optr & 0xFFFF_FF00) | 0xAA);
                }
                Action::Write(Register::Pcrop1aer, word) => {
                    to_pcrop1aer += 1;
                    let (read, answer) = taken[index - 1];
                    assert_eq!(read, Action::Read(Register::Pcrop1aer));
                    let Event::Value(pcrop1aer) = answer else {
                        panic!("the read gave no value: {answer:?}");
                    };
                    assert_eq!(pcrop1aer & 0x8000_0000, 0);
                    assert_eq!(word, pcrop1aer | 0x8000_0000);
                }
                Action::Write(Register::Cr, word) => {
                    to_cr += 1;
                    let (read, answer) = taken[index - 1];
                    assert_eq!(read, Action::Read(Register::Cr));
                    let Event::Value(flash_cr) = answer else {
                        panic!("the read gave no value: {answer:?}");
                    };
                    assert_eq!(word, flash_cr | 0x0002_0000);
                }
                _ => {}
            }
        }
    }
    assert!(to_optr > 100);
    assert!(to_pcrop1aer > 100);
    assert!(to_cr > 100);
}

#[test]
fn nothing_is_written_unless_level_1_was_found() {
    let mut numbers = Numbers(0xABCD);
    let mut with_writes = 0;
    for _ in 0..3000 {
        // Runs whose events are not made to suit the pending action.
        let events: Vec<Event> = (0..(numbers.next() % 30)).map(|_| numbers.event()).collect();
        let taken = exchanges(&events);
        if let Some((first, _)) = taken.first() {
            assert_eq!(*first, Action::Read(Register::Optr));
        }
        if taken.len() >= 2 || taken.iter().any(|(action, _)| action.is_write()) {
            let Event::Value(flash_optr) = taken[0].1 else {
                panic!("the first read gave no value: {:?}", taken[0].1);
            };
            assert!(flash_optr & 0xFF != 0xAA && flash_optr & 0xFF != 0xCC);
            with_writes += 1;
        }
    }
    assert!(with_writes > 100);
}

#[test]
fn each_action_taken_has_its_answer() {
    for events in some_runs().into_iter().take(500) {
        let (_, taken) = replay(Downgrade::start(), &events);
        let answered = exchanges(&events);
        assert_eq!(answered.len(), taken.len());
        for ((action, answer), issued) in answered.iter().zip(&taken) {
            assert_eq!(action, issued);
            assert!(action.answered_by(*answer));
        }
    }
}
