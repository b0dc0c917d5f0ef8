use bhuiz::drawing::{drawing_step, shutdown_step, DrawDecision, ShutdownStep};

#[test]
fn drawing_step_finishes_when_thread_ended() {
    assert!(matches!(drawing_step(true, true), DrawDecision::Finish));
    assert!(matches!(drawing_step(true, false), DrawDecision::Finish));
}

#[test]
fn drawing_step_fails_without_renderer() {
    match drawing_step(false, true) {
        DrawDecision::Fail(e) => assert_eq!(e.0, "Could not initiate Renderer"),
        _ => panic!("expected a failure"),
    }
}

#[test]
fn drawing_step_draws() {
    assert!(matches!(drawing_step(false, false), DrawDecision::Draw));
}

#[test]
fn shutdown_steps() {
    assert_eq!(shutdown_step(true, true), ShutdownStep::Done);
    assert_eq!(shutdown_step(true, false), ShutdownStep::Done);
    assert_eq!(shutdown_step(false, true), ShutdownStep::SendQuitAndJoin);
    assert_eq!(shutdown_step(false, false), ShutdownStep::MissingSender);
}
