//! The dispatch loop's state machine: two states and one transition.
//!
//! The loop blocks on platform events forever; a close request for the
//! window moves it to termination, and every other event leaves it waiting.

use vstd::prelude::*;

verus! {

/// A platform event, as far as the loop distinguishes them.
#[derive(Clone, Copy, Debug, PartialEq, Eq, Structural)]
pub enum UiEvent {
    /// The user asked the window to close.
    CloseRequested,
    /// The window was resized.
    Resized,
    /// The window was moved.
    Moved,
    /// The window gained or lost focus.
    Focused,
    /// The window asked to be redrawn.
    RedrawRequested,
    /// Anything else the platform delivers.
    Other,
}

/// The two states of the dispatch loop.
#[derive(Clone, Copy, Debug, PartialEq, Eq, Structural)]
pub enum LoopState {
    /// The loop waits for the next event.
    Running,
    /// The loop terminates.
    Exiting,
}

/// The one transition of the loop: a close request exits, and an exiting
/// loop stays exiting; every other event leaves the loop waiting.
pub open spec fn stepped(state: LoopState, event: UiEvent) -> LoopState {
    if state is Exiting || event is CloseRequested {
        LoopState::Exiting
    } else {
        LoopState::Running
    }
}

/// Advances the loop by one event, exactly as `stepped` says.
pub fn step(state: LoopState, event: UiEvent) -> (next: LoopState)
    ensures
        next == stepped(state, event),
{
    match state {
        LoopState::Exiting => LoopState::Exiting,
        LoopState::Running => match event {
            UiEvent::CloseRequested => LoopState::Exiting,
            _ => LoopState::Running,
        },
    }
}

/// A close request, and only a close request, moves the running loop to
/// termination; every other event leaves it running.
pub proof fn lemma_close_alone_exits(event: UiEvent)
    ensures
        stepped(LoopState::Running, event) is Exiting <==> event is CloseRequested,
{
}

} // verus!
