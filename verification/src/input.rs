use vstd::prelude::*;

use crate::event::{Event, WindowEvent};

verus! {

/// Event type code of a request to quit the application.
pub const QUIT: u32 = 0x100;

/// Event type code of a window state change.
pub const WINDOW: u32 = 0x200;

/// Event type code of a key going down.
pub const KEYDOWN: u32 = 0x300;

/// Event type code of a key going up.
pub const KEYUP: u32 = 0x301;

/// Window event code of a minimized window.
pub const WINDOW_MINIMIZED: u32 = 7;

/// Window event code of a maximized window.
pub const WINDOW_MAXIMIZED: u32 = 8;

/// Window event code of a restored window.
pub const WINDOW_RESTORED: u32 = 9;

/// The position value that lets the windowing system place the window.
pub const UNDEFINED_WINDOW_POSITION: u32 = 0x1FFF0000;

/// One polled event as two codes: the event's type, and the type field of
/// its window record as the handler reads it.
#[derive(Clone, Copy, Debug, PartialEq, Eq, Structural)]
pub struct PolledEvent {
    pub event_type: u32,
    pub window_type: u32,
}

/// The engine event a polled event stands for.
pub open spec fn event_of(event_type: u32, window_type: u32) -> Event {
    if event_type == QUIT {
        Event::Quit
    } else if event_type == WINDOW {
        if window_type == WINDOW_MAXIMIZED {
            Event::Window(WindowEvent::Maximized)
        } else if window_type == WINDOW_MINIMIZED {
            Event::Window(WindowEvent::Minimized)
        } else if window_type == WINDOW_RESTORED {
            Event::Window(WindowEvent::Restore)
        } else {
            Event::Unknown
        }
    } else {
        Event::Unknown
    }
}

/// How polled codes translate, over all codes: a quit request (0x100) is
/// `Quit` whatever its window field; a window event (0x200) is `Minimized`,
/// `Maximized` or `Restore` exactly for the window codes 7, 8 and 9; every
/// other code, keys included, is `Unknown`. No key or settings event comes
/// from a poll.
pub proof fn lemma_event_translation(event_type: u32, window_type: u32)
    ensures
        (event_of(event_type, window_type) is Quit) <==> event_type == 0x100,
        (event_of(event_type, window_type) == Event::Window(WindowEvent::Minimized)) <==> (
        event_type == 0x200 && window_type == 7),
        (event_of(event_type, window_type) == Event::Window(WindowEvent::Maximized)) <==> (
        event_type == 0x200 && window_type == 8),
        (event_of(event_type, window_type) == Event::Window(WindowEvent::Restore)) <==> (
        event_type == 0x200 && window_type == 9),
        (event_of(event_type, window_type) is Unknown) <==> !(event_type == 0x100 || (event_type
            == 0x200 && (window_type == 7 || window_type == 8 || window_type == 9))),
        !(event_of(event_type, window_type) is Key),
        !(event_of(event_type, window_type) is Settings),
{
}

/// Translates the codes of a polled event into an engine event; key presses
/// and everything not known here become `Unknown`.
pub fn process(event_type: u32, window_type: u32) -> (e: Event)
    ensures
        e == event_of(event_type, window_type),
        (e is Quit) <==> event_type == QUIT,
        (e == Event::Window(WindowEvent::Restore)) <==> (event_type == WINDOW && window_type
            == WINDOW_RESTORED),
{
    match event_type {
        QUIT => Event::Quit,
        WINDOW => {
            match window_type {
                WINDOW_MAXIMIZED => Event::Window(WindowEvent::Maximized),
                WINDOW_MINIMIZED => Event::Window(WindowEvent::Minimized),
                WINDOW_RESTORED => Event::Window(WindowEvent::Restore),
                _ => Event::Unknown,
            }
        },
        KEYDOWN => Event::Unknown,
        KEYUP => Event::Unknown,
        _ => Event::Unknown,
    }
}

/// The events of one poll of the event queue: `None` when the polled event
/// is a quit request, otherwise the translated event, or nothing when the
/// queue was empty.
pub fn capture_events(polled: Option<PolledEvent>) -> (r: Option<Vec<Event>>)
    ensures
        match polled {
            None => r matches Some(v) && v@ == Seq::<Event>::empty(),
            Some(p) => if event_of(p.event_type, p.window_type) is Quit {
                r is None
            } else {
                r matches Some(v) && v@ == seq![event_of(p.event_type, p.window_type)]
            },
        },
{
    let mut events: Vec<Event> = Vec::new();
    match polled {
        Some(p) => {
            let event = process(p.event_type, p.window_type);
            events.push(event);
            if event == Event::Quit {
                return None;
            }
        },
        None => {},
    }
    Some(events)
}

/// Whether the application keeps running, as driven by the polled events.
pub struct RunState {
    running: bool,
}

impl RunState {
    /// A running application.
    pub fn new() -> (s: RunState)
        ensures
            s.is_running_spec(),
    {
        RunState { running: true }
    }

    pub closed spec fn is_running_spec(&self) -> bool {
        self.running
    }

    /// Whether no quit request has been handled.
    pub fn is_running(&self) -> (r: bool)
        ensures
            r == self.is_running_spec(),
    {
        self.running
    }

    /// Handles one polled event type; a quit request stops the application
    /// and ends the polling. Returns whether polling goes on.
    pub fn process_event(&mut self, event_type: u32) -> (keep_polling: bool)
        ensures
            keep_polling == (event_type != QUIT),
            final(self).is_running_spec() == (old(self).is_running_spec() && event_type != QUIT),
    {
        if event_type == QUIT {
            self.running = false;
            false
        } else {
            true
        }
    }
}

/// Milliseconds to pause before the next frame, given the microseconds
/// measured since the last one: what is left of a budget of 50, or a
/// single millisecond once the budget is spent.
pub fn frame_delay_millis(elapsed_micros: u128) -> (r: u32)
    ensures
        r == (if elapsed_micros > 50 { 1 } else { 50 - elapsed_micros }),
        r <= 50,
{
    if elapsed_micros > 50 {
        1
    } else {
        (50 - elapsed_micros) as u32
    }
}

} // verus!
