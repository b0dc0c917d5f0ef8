use vstd::prelude::*;

use crate::errors::MediaError;

verus! {

/// What the drawing loop does at the head of an iteration.
pub enum DrawDecision {
    /// The event thread has ended: leave the loop.
    Finish,
    /// There is no renderer: stop with this error.
    Fail(MediaError),
    /// Draw a frame, poll the events and wait.
    Draw,
}

/// The drawing loop's decision at the head of an iteration: leave once the
/// event thread has ended, fail without a renderer, draw otherwise.
pub fn drawing_step(event_thread_finished: bool, renderer_is_null: bool) -> (d: DrawDecision)
    ensures
        event_thread_finished ==> d is Finish,
        !event_thread_finished && renderer_is_null ==> (d matches DrawDecision::Fail(e)
            && e.0@ == "Could not initiate Renderer"@),
        !event_thread_finished && !renderer_is_null ==> d is Draw,
{
    if event_thread_finished {
        DrawDecision::Finish
    } else if renderer_is_null {
        DrawDecision::Fail(MediaError(String::from_str("Could not initiate Renderer")))
    } else {
        DrawDecision::Draw
    }
}

/// What the drawing loop does with the event thread once it has left the loop.
#[derive(Clone, Copy, Debug, PartialEq, Eq, Structural)]
pub enum ShutdownStep {
    /// The thread has ended already.
    Done,
    /// Send it a `Quit` and wait for it to end.
    SendQuitAndJoin,
    /// The thread runs but there is no way to reach it: a broken state.
    MissingSender,
}

/// The shutdown of the event thread: nothing when it has ended, otherwise a
/// `Quit` through its sender and a join, or the broken state without one.
pub fn shutdown_step(event_thread_finished: bool, has_sender: bool) -> (s: ShutdownStep)
    ensures
        s == (if event_thread_finished {
            ShutdownStep::Done
        } else if has_sender {
            ShutdownStep::SendQuitAndJoin
        } else {
            ShutdownStep::MissingSender
        }),
{
    if event_thread_finished {
        ShutdownStep::Done
    } else if has_sender {
        ShutdownStep::SendQuitAndJoin
    } else {
        ShutdownStep::MissingSender
    }
}

} // verus!
