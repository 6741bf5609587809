//! Session controller state machine.
//!
//! One control thread polls the trigger at a fixed interval and drives the
//! capture engine. The decision logic is a pure step function from the
//! current phase and the latest trigger poll to the next phase and the
//! action the surrounding loop must perform; the loop itself (sleeping,
//! opening devices, calling collaborators) stays outside the library.

use vstd::prelude::*;

verus! {

/// Where the controller stands between two polls.
#[derive(Clone, Copy, Debug, PartialEq, Eq, Structural)]
pub enum Phase {
    /// Waiting for the trigger to be pressed.
    Idle,
    /// The capture engine is running; waiting for the trigger to be
    /// released.
    Recording,
}

/// What the surrounding loop must do after a step.
#[derive(Clone, Copy, Debug, PartialEq, Eq, Structural)]
pub enum SessionAction {
    /// Sleep one poll interval, then poll again.
    Sleep,
    /// Start the capture engine, then poll again.
    StartCapture,
    /// Stop the capture engine and dispatch the captured buffer to the
    /// collaborators, then poll again.
    StopAndDispatch,
    /// Stop the capture engine, discard the partial buffer, and terminate
    /// the run: the trigger went away mid-recording.
    StopAndTerminate,
    /// Terminate the run: the trigger went away while idle.
    Terminate,
}

impl SessionAction {
    /// Actions that end the run instead of returning to polling.
    pub open spec fn is_fatal(self) -> bool {
        self is StopAndTerminate || self is Terminate
    }
}

/// The transition function of the controller: from the phase and the latest
/// poll (`None` meaning the trigger source terminated) to the next phase and
/// the action to perform.
pub open spec fn step_spec(phase: Phase, poll: Option<bool>) -> (Phase, SessionAction) {
    match (phase, poll) {
        (Phase::Idle, None) => (Phase::Idle, SessionAction::Terminate),
        (Phase::Idle, Some(true)) => (Phase::Recording, SessionAction::StartCapture),
        (Phase::Idle, Some(false)) => (Phase::Idle, SessionAction::Sleep),
        (Phase::Recording, None) => (Phase::Idle, SessionAction::StopAndTerminate),
        (Phase::Recording, Some(true)) => (Phase::Recording, SessionAction::Sleep),
        (Phase::Recording, Some(false)) => (Phase::Idle, SessionAction::StopAndDispatch),
    }
}

/// One step of the session controller.
pub fn session_step(phase: Phase, poll: Option<bool>) -> (r: (Phase, SessionAction))
    ensures
        r == step_spec(phase, poll),
        // A recording is started exactly on a press seen while idle.
        r.1 is StartCapture <==> phase is Idle && poll == Some(true),
        // A dispatch happens exactly on a release seen while recording.
        r.1 is StopAndDispatch <==> phase is Recording && poll == Some(false),
        // A terminated trigger always ends the run, and nothing else does.
        r.1.is_fatal() <==> poll is None,
        // The controller records exactly while the trigger is held.
        r.0 is Recording <==> poll == Some(true),
{
    match (phase, poll) {
        (Phase::Idle, None) => (Phase::Idle, SessionAction::Terminate),
        (Phase::Idle, Some(true)) => (Phase::Recording, SessionAction::StartCapture),
        (Phase::Idle, Some(false)) => (Phase::Idle, SessionAction::Sleep),
        (Phase::Recording, None) => (Phase::Idle, SessionAction::StopAndTerminate),
        (Phase::Recording, Some(true)) => (Phase::Recording, SessionAction::Sleep),
        (Phase::Recording, Some(false)) => (Phase::Idle, SessionAction::StopAndDispatch),
    }
}

} // verus!
