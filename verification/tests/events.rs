use relsim::events::{main_loop_action, LoopAction, LoopEvent};

#[test]
fn closing_the_window_exits() {
    assert_eq!(main_loop_action(LoopEvent::CloseRequested), LoopAction::Exit);
}

#[test]
fn cleared_events_request_a_redraw() {
    assert_eq!(main_loop_action(LoopEvent::MainEventsCleared), LoopAction::RequestRedraw);
}

#[test]
fn redraw_draws_a_frame() {
    assert_eq!(main_loop_action(LoopEvent::RedrawRequested), LoopAction::DrawFrame);
}

#[test]
fn teardown_waits_for_the_device() {
    assert_eq!(main_loop_action(LoopEvent::LoopDestroyed), LoopAction::WaitIdle);
}

#[test]
fn other_events_are_ignored() {
    assert_eq!(main_loop_action(LoopEvent::OtherWindowEvent), LoopAction::Continue);
    assert_eq!(main_loop_action(LoopEvent::Other), LoopAction::Continue);
}
