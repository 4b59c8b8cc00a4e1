//! How the renderer's window event loop answers each event.
//!
//! The event loop itself lives with the windowing system; for every event it
//! receives it asks `main_loop_action` what to do, does it, and waits for the
//! next event.

use vstd::prelude::*;

verus! {

/// The events of the window event loop that the renderer tells apart.
#[derive(Clone, Copy, Debug, PartialEq, Eq, Structural)]
pub enum LoopEvent {
    /// The user asked to close the window.
    CloseRequested,
    /// Any other event of the window.
    OtherWindowEvent,
    /// All pending events were handled.
    MainEventsCleared,
    /// The window must be drawn again.
    RedrawRequested,
    /// The event loop is being torn down.
    LoopDestroyed,
    /// Any other event.
    Other,
}

/// What the renderer does in answer to an event.
#[derive(Clone, Copy, Debug, PartialEq, Eq, Structural)]
pub enum LoopAction {
    /// Stop the event loop.
    Exit,
    /// Ask the window for a redraw.
    RequestRedraw,
    /// Draw and present one frame.
    DrawFrame,
    /// Wait until the device has finished all submitted work.
    WaitIdle,
    /// Do nothing and wait for the next event.
    Continue,
}

/// The answer to each event: closing the window stops the loop, a cleared
/// event queue asks for a redraw, a redraw draws a frame, and tearing the loop
/// down waits for the device; every other event is ignored.
pub open spec fn action_for(event: LoopEvent) -> LoopAction {
    match event {
        LoopEvent::CloseRequested => LoopAction::Exit,
        LoopEvent::MainEventsCleared => LoopAction::RequestRedraw,
        LoopEvent::RedrawRequested => LoopAction::DrawFrame,
        LoopEvent::LoopDestroyed => LoopAction::WaitIdle,
        LoopEvent::OtherWindowEvent => LoopAction::Continue,
        LoopEvent::Other => LoopAction::Continue,
    }
}

/// Decides what the event loop does with `event`.
pub fn main_loop_action(event: LoopEvent) -> (action: LoopAction)
    ensures
        action == action_for(event),
        action is Exit <==> event is CloseRequested,
        action is DrawFrame <==> event is RedrawRequested,
        action is RequestRedraw <==> event is MainEventsCleared,
        action is WaitIdle <==> event is LoopDestroyed,
        action is Continue <==> (event is OtherWindowEvent || event is Other),
{
    match event {
        LoopEvent::CloseRequested => LoopAction::Exit,
        LoopEvent::MainEventsCleared => LoopAction::RequestRedraw,
        LoopEvent::RedrawRequested => LoopAction::DrawFrame,
        LoopEvent::LoopDestroyed => LoopAction::WaitIdle,
        LoopEvent::OtherWindowEvent => LoopAction::Continue,
        LoopEvent::Other => LoopAction::Continue,
    }
}

/// Each kind of event has its own answer: closing exits, a cleared queue asks
/// for a redraw, a redraw draws, teardown waits for the device, and nothing
/// else does anything.
pub proof fn lemma_action_for_each_event(event: LoopEvent)
    ensures
        action_for(event) is Exit <==> event is CloseRequested,
        action_for(event) is RequestRedraw <==> event is MainEventsCleared,
        action_for(event) is DrawFrame <==> event is RedrawRequested,
        action_for(event) is WaitIdle <==> event is LoopDestroyed,
        action_for(event) is Continue <==> (event is OtherWindowEvent || event is Other),
{
}

} // verus!
