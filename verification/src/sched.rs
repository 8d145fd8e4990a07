//! The polling cadence: a state machine that decides, from where the cycle
//! stands and the runtime configuration, what the driver does next. The
//! driver performs the action — rendering and printing a line, or pausing —
//! and steps the machine again; all outside work stays with the driver.
use vstd::prelude::*;

use crate::config::PollConfig;

verus! {

/// Where the poll cycle stands: before the first tick, about to poll, waiting
/// out the interval, or done after a single-shot poll.
#[derive(Clone, Copy, Debug, PartialEq, Eq, Structural)]
pub enum SchedState {
    Idle,
    Polling,
    Sleeping,
    Done,
}

/// What the driver is to do next: acquire and print one status line, pause
/// for the given number of seconds, or stop with success.
#[derive(Clone, Copy, Debug, PartialEq, Eq, Structural)]
pub enum SchedAction {
    Poll,
    Sleep { secs: u64 },
    Finish,
}

/// The cadence itself. A run starts with a poll. After a poll, a continuous
/// run sleeps for the configured interval and a single-shot run is done;
/// after a sleep the next poll follows at once. Every poll prints: nothing
/// here compares a tick with the one before.
pub open spec fn next_step_spec(state: SchedState, config: PollConfig) -> (SchedState, SchedAction) {
    match state {
        SchedState::Idle => (SchedState::Polling, SchedAction::Poll),
        SchedState::Polling => if config.continuous {
            (SchedState::Sleeping, SchedAction::Sleep { secs: config.interval_secs })
        } else {
            (SchedState::Done, SchedAction::Finish)
        },
        SchedState::Sleeping => (SchedState::Polling, SchedAction::Poll),
        SchedState::Done => (SchedState::Done, SchedAction::Finish),
    }
}

/// Decides the next state and action of the cadence.
pub fn next_step(state: SchedState, config: PollConfig) -> (r: (SchedState, SchedAction))
    ensures
        r == next_step_spec(state, config),
{
    match state {
        SchedState::Idle => (SchedState::Polling, SchedAction::Poll),
        SchedState::Polling => if config.continuous {
            (SchedState::Sleeping, SchedAction::Sleep { secs: config.interval_secs })
        } else {
            (SchedState::Done, SchedAction::Finish)
        },
        SchedState::Sleeping => (SchedState::Polling, SchedAction::Poll),
        SchedState::Done => (SchedState::Done, SchedAction::Finish),
    }
}

/// A continuous run never finishes on its own: from any live state the next
/// step is a poll or a sleep, never a stop, and the machine stays live.
pub proof fn lemma_continuous_never_finishes(state: SchedState, config: PollConfig)
    requires
        config.continuous,
        state != SchedState::Done,
    ensures
        next_step_spec(state, config).1 != SchedAction::Finish,
        next_step_spec(state, config).0 != SchedState::Done,
{
}

/// In a continuous run polls and sleeps alternate: each poll is followed by a
/// sleep of exactly the configured interval, and each sleep by the next poll.
/// Every tick prints unconditionally; there is no change detection.
pub proof fn lemma_continuous_alternates(config: PollConfig)
    requires
        config.continuous,
    ensures
        next_step_spec(SchedState::Polling, config) == (
            SchedState::Sleeping,
            SchedAction::Sleep { secs: config.interval_secs },
        ),
        next_step_spec(SchedState::Sleeping, config) == (SchedState::Polling, SchedAction::Poll),
{
}

/// A single-shot run polls exactly once: the first step is the poll, the step
/// after it stops, and a stopped machine stays stopped.
pub proof fn lemma_single_shot_polls_once(config: PollConfig)
    requires
        !config.continuous,
    ensures
        next_step_spec(SchedState::Idle, config) == (SchedState::Polling, SchedAction::Poll),
        next_step_spec(SchedState::Polling, config) == (SchedState::Done, SchedAction::Finish),
        next_step_spec(SchedState::Done, config) == (SchedState::Done, SchedAction::Finish),
{
}

} // verus!
