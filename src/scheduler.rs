use vstd::prelude::*;

use crate::delay::{delay_allowed, icon_delay};
use crate::error::BotError;

verus! {

/// Where the icon rotation loop stands.
#[derive(Clone, Copy, Debug, PartialEq, Eq, Structural)]
pub enum SchedulerState {
    /// Not started yet.
    Idle,
    /// A rotation is being applied.
    Applying,
    /// Waiting for the next rotation.
    Waiting,
    /// Ended for good.
    Stopped,
}

/// What the loop should do next.
#[derive(Clone, Copy, Debug, PartialEq, Eq, Structural)]
pub enum SchedulerAction {
    /// Apply one rotation, then report `RotationFinished`.
    ApplyRotation,
    /// Wait this many seconds, then report `WaitElapsed`.
    Wait { seconds: u64 },
    /// Rotation is disabled: end the loop.
    Stop,
    /// The delay could not be computed: end the loop and report why.
    Abort(BotError),
    /// The event does not fit the current state: nothing to do.
    Ignore,
}

/// What happened to the loop.
#[derive(Clone, Copy, Debug)]
pub enum SchedulerEvent {
    /// The client is ready.
    Activated,
    /// A rotation ended (whatever its outcome), and the delay before the
    /// next one was computed from the current bounds.
    RotationFinished { delay: Result<Option<u64>, BotError> },
    /// The wait is over.
    WaitElapsed,
}

#[derive(Clone, Copy, Debug)]
pub struct Scheduler {
    pub state: SchedulerState,
}

/// The state and action that follow `event` in `state`.
pub open spec fn scheduler_next(state: SchedulerState, event: SchedulerEvent) -> (SchedulerState, SchedulerAction) {
    match (state, event) {
        (SchedulerState::Idle, SchedulerEvent::Activated) => (SchedulerState::Applying, SchedulerAction::ApplyRotation),
        (SchedulerState::Applying, SchedulerEvent::RotationFinished { delay }) => match delay {
            Ok(Some(seconds)) => (SchedulerState::Waiting, SchedulerAction::Wait { seconds }),
            Ok(None) => (SchedulerState::Stopped, SchedulerAction::Stop),
            Err(e) => (SchedulerState::Stopped, SchedulerAction::Abort(e)),
        },
        (SchedulerState::Waiting, SchedulerEvent::WaitElapsed) => (SchedulerState::Applying, SchedulerAction::ApplyRotation),
        _ => (state, SchedulerAction::Ignore),
    }
}

impl Scheduler {
    pub fn new() -> (r: Scheduler)
        ensures
            r.state == SchedulerState::Idle,
    {
        Scheduler { state: SchedulerState::Idle }
    }

    /// Advances the loop by one event.
    pub fn step(&mut self, event: SchedulerEvent) -> (r: SchedulerAction)
        ensures
            (final(self).state, r) == scheduler_next(old(self).state, event),
    {
        let (state, action) = match (self.state, event) {
            (SchedulerState::Idle, SchedulerEvent::Activated) => (SchedulerState::Applying, SchedulerAction::ApplyRotation),
            (SchedulerState::Applying, SchedulerEvent::RotationFinished { delay }) => match delay {
                Ok(Some(seconds)) => (SchedulerState::Waiting, SchedulerAction::Wait { seconds }),
                Ok(None) => (SchedulerState::Stopped, SchedulerAction::Stop),
                Err(e) => (SchedulerState::Stopped, SchedulerAction::Abort(e)),
            },
            (SchedulerState::Waiting, SchedulerEvent::WaitElapsed) => (SchedulerState::Applying, SchedulerAction::ApplyRotation),
            _ => (self.state, SchedulerAction::Ignore),
        };
        self.state = state;
        action
    }

    /// Ends a rotation: computes the next delay from the bounds read fresh
    /// for this cycle and advances the loop with it.
    pub fn rotation_finished(&mut self, min_hours: u64, max_hours: u64) -> (r: SchedulerAction)
        ensures
            exists|delay: Result<Option<u64>, BotError>| #![trigger delay_allowed(min_hours, max_hours, delay)]
                delay_allowed(min_hours, max_hours, delay)
                && (final(self).state, r) == scheduler_next(old(self).state, SchedulerEvent::RotationFinished { delay }),
    {
        let delay = icon_delay(min_hours, max_hours);
        self.step(SchedulerEvent::RotationFinished { delay })
    }
}

/// Activation applies a rotation at once, whatever the delay bounds.
pub proof fn lemma_activation_rotates_at_once()
    ensures
        scheduler_next(SchedulerState::Idle, SchedulerEvent::Activated)
            == (SchedulerState::Applying, SchedulerAction::ApplyRotation),
{
}

/// Once stopped, the loop stays stopped and does nothing, whatever happens.
pub proof fn lemma_stopped_is_final(event: SchedulerEvent)
    ensures
        scheduler_next(SchedulerState::Stopped, event) == (SchedulerState::Stopped, SchedulerAction::Ignore),
{
}

/// A rotation's end is followed by a wait or by the end of the loop, and
/// only the delay decides which: a failed rotation does not end the loop.
pub proof fn lemma_only_delay_ends_loop(delay: Result<Option<u64>, BotError>)
    ensures
        ({
            let (state, action) = scheduler_next(SchedulerState::Applying, SchedulerEvent::RotationFinished { delay });
            &&& (delay is Ok && delay->Ok_0 is Some) ==> state == SchedulerState::Waiting
                && action == SchedulerAction::Wait { seconds: delay->Ok_0->Some_0 }
            &&& !(delay is Ok && delay->Ok_0 is Some) ==> state == SchedulerState::Stopped
        }),
{
}

} // verus!
