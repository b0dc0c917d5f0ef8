use bhuiz::event::{Event, WindowEvent};
use bhuiz::input::{
    capture_events, frame_delay_millis, process, PolledEvent, RunState, KEYDOWN, KEYUP, QUIT,
    WINDOW, WINDOW_MAXIMIZED, WINDOW_MINIMIZED, WINDOW_RESTORED,
};

#[test]
fn process_maps_codes() {
    assert_eq!(process(QUIT, 0), Event::Quit);
    assert_eq!(process(WINDOW, WINDOW_MINIMIZED), Event::Window(WindowEvent::Minimized));
    assert_eq!(process(WINDOW, WINDOW_MAXIMIZED), Event::Window(WindowEvent::Maximized));
    assert_eq!(process(WINDOW, WINDOW_RESTORED), Event::Window(WindowEvent::Restore));
    assert_eq!(process(WINDOW, 3), Event::Unknown);
    assert_eq!(process(KEYDOWN, 0), Event::Unknown);
    assert_eq!(process(KEYUP, 0), Event::Unknown);
    assert_eq!(process(0x400, 0), Event::Unknown);
}

#[test]
fn window_event_read_from_event_type_field_is_unknown() {
    // The window record's type field holds the event type itself.
    assert_eq!(process(WINDOW, WINDOW), Event::Unknown);
}

#[test]
fn capture_empty_queue() {
    assert_eq!(capture_events(None), Some(Vec::new()));
}

#[test]
fn capture_one_event() {
    let polled = PolledEvent { event_type: WINDOW, window_type: WINDOW_RESTORED };
    assert_eq!(capture_events(Some(polled)), Some(vec![Event::Window(WindowEvent::Restore)]));
    let key = PolledEvent { event_type: KEYUP, window_type: KEYUP };
    assert_eq!(capture_events(Some(key)), Some(vec![Event::Unknown]));
}

#[test]
fn capture_quit_is_none() {
    let polled = PolledEvent { event_type: QUIT, window_type: QUIT };
    assert_eq!(capture_events(Some(polled)), None);
}

#[test]
fn run_state_stops_on_quit() {
    let mut s = RunState::new();
    assert!(s.is_running());
    assert!(s.process_event(WINDOW));
    assert!(s.is_running());
    assert!(!s.process_event(QUIT));
    assert!(!s.is_running());
    assert!(s.process_event(KEYDOWN));
    assert!(!s.is_running());
}

#[test]
fn frame_delay_values() {
    assert_eq!(frame_delay_millis(0), 50);
    assert_eq!(frame_delay_millis(20), 30);
    assert_eq!(frame_delay_millis(50), 0);
    assert_eq!(frame_delay_millis(51), 1);
    assert_eq!(frame_delay_millis(1_000_000), 1);
}
