//! The decisions of the polling loop: when a pass starts, and how it stops.
//! The loop itself (sleeping, fetching, notifying) runs outside the library.

use vstd::prelude::*;

verus! {

/// Where the polling loop stands.
#[derive(Clone, Copy, Debug, PartialEq, Eq, Structural)]
pub enum Phase {
    /// Waiting for the next timer.
    Idle,
    /// A pass is in progress.
    Evaluating,
    /// A pass is in progress and shutdown was asked for.
    Stopping,
    /// The loop has ended.
    Stopped,
}

/// What happened to the loop.
#[derive(Clone, Copy, Debug, PartialEq, Eq, Structural)]
pub enum LoopEvent {
    TimerFired,
    PassCompleted,
    ShutdownRequested,
}

/// What the loop does next.
#[derive(Clone, Copy, Debug, PartialEq, Eq, Structural)]
pub enum LoopAction {
    StartPass,
    Wait,
    Exit,
}

/// The transition table: a pass starts only from `Idle`, so passes never
/// overlap; shutdown during a pass lets that pass finish first.
pub open spec fn transition(phase: Phase, event: LoopEvent) -> (Phase, LoopAction) {
    match (phase, event) {
        (Phase::Idle, LoopEvent::TimerFired) => (Phase::Evaluating, LoopAction::StartPass),
        (Phase::Idle, LoopEvent::ShutdownRequested) => (Phase::Stopped, LoopAction::Exit),
        (Phase::Idle, LoopEvent::PassCompleted) => (Phase::Idle, LoopAction::Wait),
        (Phase::Evaluating, LoopEvent::PassCompleted) => (Phase::Idle, LoopAction::Wait),
        (Phase::Evaluating, LoopEvent::TimerFired) => (Phase::Evaluating, LoopAction::Wait),
        (Phase::Evaluating, LoopEvent::ShutdownRequested) => (Phase::Stopping, LoopAction::Wait),
        (Phase::Stopping, LoopEvent::PassCompleted) => (Phase::Stopped, LoopAction::Exit),
        (Phase::Stopping, _) => (Phase::Stopping, LoopAction::Wait),
        (Phase::Stopped, _) => (Phase::Stopped, LoopAction::Exit),
    }
}

/// The next phase and action of the loop.
pub fn next_step(phase: Phase, event: LoopEvent) -> (r: (Phase, LoopAction))
    ensures
        r == transition(phase, event),
        r.1 == LoopAction::StartPass ==> phase == Phase::Idle && r.0 == Phase::Evaluating,
        phase == Phase::Stopped ==> r == (Phase::Stopped, LoopAction::Exit),
{
    match (phase, event) {
        (Phase::Idle, LoopEvent::TimerFired) => (Phase::Evaluating, LoopAction::StartPass),
        (Phase::Idle, LoopEvent::ShutdownRequested) => (Phase::Stopped, LoopAction::Exit),
        (Phase::Idle, LoopEvent::PassCompleted) => (Phase::Idle, LoopAction::Wait),
        (Phase::Evaluating, LoopEvent::PassCompleted) => (Phase::Idle, LoopAction::Wait),
        (Phase::Evaluating, LoopEvent::TimerFired) => (Phase::Evaluating, LoopAction::Wait),
        (Phase::Evaluating, LoopEvent::ShutdownRequested) => (Phase::Stopping, LoopAction::Wait),
        (Phase::Stopping, LoopEvent::PassCompleted) => (Phase::Stopped, LoopAction::Exit),
        (Phase::Stopping, _) => (Phase::Stopping, LoopAction::Wait),
        (Phase::Stopped, _) => (Phase::Stopped, LoopAction::Exit),
    }
}

} // verus!
