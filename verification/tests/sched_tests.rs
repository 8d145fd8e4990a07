use batstat::config::PollConfig;
use batstat::sched::{next_step, SchedAction, SchedState};

const ONCE: PollConfig = PollConfig { continuous: false, interval_secs: 1 };
const EVERY_TWO: PollConfig = PollConfig { continuous: true, interval_secs: 2 };

#[test]
fn a_run_starts_with_a_poll() {
    assert_eq!(next_step(SchedState::Idle, ONCE), (SchedState::Polling, SchedAction::Poll));
    assert_eq!(
        next_step(SchedState::Idle, EVERY_TWO),
        (SchedState::Polling, SchedAction::Poll)
    );
}

#[test]
fn a_single_shot_run_finishes_after_one_poll() {
    let (state, action) = next_step(SchedState::Idle, ONCE);
    assert_eq!(action, SchedAction::Poll);
    let (state, action) = next_step(state, ONCE);
    assert_eq!(action, SchedAction::Finish);
    assert_eq!(state, SchedState::Done);
    assert_eq!(next_step(state, ONCE), (SchedState::Done, SchedAction::Finish));
}

#[test]
fn a_continuous_run_alternates_polls_and_sleeps() {
    let mut state = SchedState::Idle;
    let mut polls = 0;
    let mut sleeps = 0;
    for tick in 0..9 {
        let (next, action) = next_step(state, EVERY_TWO);
        if tick % 2 == 0 {
            assert_eq!(action, SchedAction::Poll);
            polls += 1;
        } else {
            assert_eq!(action, SchedAction::Sleep { secs: 2 });
            sleeps += 1;
        }
        assert_ne!(action, SchedAction::Finish);
        assert_ne!(next, SchedState::Done);
        state = next;
    }
    assert_eq!(polls, 5);
    assert_eq!(sleeps, 4);
}

#[test]
fn the_sleep_carries_the_configured_interval() {
    let (_, action) = next_step(
        SchedState::Polling,
        PollConfig { continuous: true, interval_secs: 30 },
    );
    assert_eq!(action, SchedAction::Sleep { secs: 30 });
}
