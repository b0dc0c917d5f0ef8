use vstd::prelude::*;

use crate::duration::{Duration, NANOS_PER_MILLI, NANOS_PER_SEC};
use crate::event::{Event, SettingsEvent, WindowEvent};

verus! {

/// Milliseconds one frame takes while the window is minimized.
pub const HIDDEN_FRAME_MILLIS: u64 = 500;

/// Milliseconds the drawing loop waits between frames while the window is hidden.
pub const HIDDEN_WAIT_MILLIS: u32 = 1000;

/// The frame-pacing state shared by the event thread and the drawing loop,
/// with each span taken in nanoseconds.
pub struct PacingState {
    pub is_hidden: bool,
    pub frame_nanos: nat,
    pub current_frame_nanos: nat,
}

/// The frame length while minimized, in nanoseconds.
pub open spec fn hidden_frame_nanos() -> nat {
    (HIDDEN_FRAME_MILLIS * NANOS_PER_MILLI) as nat
}

/// The state after `event`. Only frame-time settings and the minimize and
/// restore window events change it.
pub open spec fn next_state(s: PacingState, event: Event) -> PacingState {
    match event {
        Event::Settings(SettingsEvent::FrameTime(target)) => PacingState {
            is_hidden: s.is_hidden,
            frame_nanos: target@,
            current_frame_nanos: if s.is_hidden {
                s.current_frame_nanos
            } else {
                target@
            },
        },
        Event::Window(WindowEvent::Minimized) => PacingState {
            is_hidden: true,
            frame_nanos: s.frame_nanos,
            current_frame_nanos: hidden_frame_nanos(),
        },
        Event::Window(WindowEvent::Restore) => PacingState {
            is_hidden: false,
            frame_nanos: s.frame_nanos,
            current_frame_nanos: s.frame_nanos,
        },
        _ => s,
    }
}

/// Handling `events` in order from `s`: the final state, and whether the
/// event thread keeps running. The first `Quit` stops it; nothing after it
/// is handled.
pub open spec fn run_events(s: PacingState, events: Seq<Event>) -> (PacingState, bool)
    decreases events.len(),
{
    if events.len() == 0 {
        (s, true)
    } else if events[0] is Quit {
        (s, false)
    } else {
        run_events(next_state(s, events[0]), events.drop_first())
    }
}

/// The state agrees with the window: shown, the current frame length is the
/// configured one; hidden, it is the minimized frame length.
pub open spec fn consistent(s: PacingState) -> bool {
    &&& !s.is_hidden ==> s.current_frame_nanos == s.frame_nanos
    &&& s.is_hidden ==> s.current_frame_nanos == hidden_frame_nanos()
}

/// Milliseconds to wait before the next frame: a hidden window waits a fixed
/// second; a shown one waits for what is left of the frame (its part below one
/// whole second, in whole milliseconds), or not at all once the frame is over.
pub open spec fn frame_wait_millis(elapsed: nat, frame: nat, is_hidden: bool) -> nat {
    if is_hidden {
        HIDDEN_WAIT_MILLIS as nat
    } else if frame > elapsed {
        ((frame - elapsed) as nat % (NANOS_PER_SEC as nat)) / (NANOS_PER_MILLI as nat)
    } else {
        0
    }
}

/// How long the drawing loop waits before the next frame, given the time
/// since the last one was drawn, the frame length and whether the window is
/// hidden. The wait never exceeds one second.
pub fn time_before_next_frame(
    time_since_last_draw: Duration,
    frame_duration: Duration,
    is_hidden: bool,
) -> (r: u32)
    ensures
        r == frame_wait_millis(time_since_last_draw@, frame_duration@, is_hidden),
        r <= HIDDEN_WAIT_MILLIS,
        is_hidden ==> r == HIDDEN_WAIT_MILLIS,
        !is_hidden && frame_duration@ > time_since_last_draw@ ==> r == ((frame_duration@
            - time_since_last_draw@) as nat % (NANOS_PER_SEC as nat)) / (NANOS_PER_MILLI as nat),
        !is_hidden && frame_duration@ <= time_since_last_draw@ ==> r == 0,
{
    if is_hidden {
        HIDDEN_WAIT_MILLIS
    } else if frame_duration.is_longer_than(&time_since_last_draw) {
        match frame_duration.checked_sub(&time_since_last_draw) {
            Some(left) => left.subsec_millis(),
            None => 0,
        }
    } else {
        0
    }
}

/// The wait, whatever the elapsed time (under a millisecond too): a hidden
/// window waits one second; a shown one waits the whole milliseconds, below
/// one second, of what is left of its frame, and nothing once it is over.
pub proof fn lemma_wait_is_rest_of_frame(elapsed: nat, frame: nat, is_hidden: bool)
    ensures
        is_hidden ==> frame_wait_millis(elapsed, frame, is_hidden) == 1000,
        !is_hidden && frame > elapsed ==> frame_wait_millis(elapsed, frame, is_hidden) == ((
        frame - elapsed) as nat % 1_000_000_000nat) / 1_000_000nat,
        !is_hidden && frame <= elapsed ==> frame_wait_millis(elapsed, frame, is_hidden) == 0,
        frame_wait_millis(elapsed, frame, is_hidden) < 1000 || is_hidden,
{
    if !is_hidden && frame > elapsed {
        let left = (frame - elapsed) as nat % 1_000_000_000nat;
        assert(left < 1_000_000_000nat);
        assert(left / 1_000_000nat < 1000) by (nonlinear_arith)
            requires
                left < 1_000_000_000nat,
        ;
    }
}

/// Only quit, frame-time settings, and the minimize and restore window events
/// touch the pacing state: unknown events, keys and maximizing leave every
/// state as it is, hidden or shown.
pub proof fn lemma_other_events_change_nothing(s: PacingState, event: Event)
    requires
        event is Unknown || event is Key || event == Event::Window(WindowEvent::Maximized)
            || event is Quit,
    ensures
        next_state(s, event) == s,
        run_events(s, seq![event]).0 == s,
{
    let one = seq![event];
    assert(one[0] == event);
    if !(event is Quit) {
        assert(one.drop_first() =~= Seq::<Event>::empty());
        assert(run_events(s, one) == run_events(next_state(s, event), one.drop_first()));
    }
}

/// Minimizing hides the window and slows it to 500 ms per frame; restoring
/// shows it and goes back to the configured frame length; a frame-time setting
/// always becomes the configured length and reaches the current one only on a
/// shown window. From every state.
pub proof fn lemma_window_and_settings_effects(s: PacingState, target: Duration)
    ensures
        next_state(s, Event::Window(WindowEvent::Minimized)) == (PacingState {
            is_hidden: true,
            frame_nanos: s.frame_nanos,
            current_frame_nanos: 500_000_000nat,
        }),
        next_state(s, Event::Window(WindowEvent::Restore)) == (PacingState {
            is_hidden: false,
            frame_nanos: s.frame_nanos,
            current_frame_nanos: s.frame_nanos,
        }),
        next_state(s, Event::Settings(SettingsEvent::FrameTime(target))).frame_nanos == target@,
        next_state(s, Event::Settings(SettingsEvent::FrameTime(target))).is_hidden == s.is_hidden,
        next_state(s, Event::Settings(SettingsEvent::FrameTime(target))).current_frame_nanos == (
        if s.is_hidden {
            s.current_frame_nanos
        } else {
            target@
        }),
{
}

/// Every event keeps the pacing state consistent with the window.
pub proof fn lemma_event_keeps_consistent(s: PacingState, event: Event)
    requires
        consistent(s),
    ensures
        consistent(next_state(s, event)),
{
}

/// Any sequence of events keeps the pacing state consistent with the window.
pub proof fn lemma_events_keep_consistent(s: PacingState, events: Seq<Event>)
    requires
        consistent(s),
    ensures
        consistent(run_events(s, events).0),
    decreases events.len(),
{
    if events.len() > 0 && !(events[0] is Quit) {
        lemma_event_keeps_consistent(s, events[0]);
        lemma_events_keep_consistent(next_state(s, events[0]), events.drop_first());
    }
}

/// Handling two batches one after the other is handling their concatenation:
/// once a batch has stopped the event thread, later events change nothing.
pub proof fn lemma_batches_compose(s: PacingState, first: Seq<Event>, second: Seq<Event>)
    ensures
        run_events(s, first + second) == (if run_events(s, first).1 {
            run_events(run_events(s, first).0, second)
        } else {
            run_events(s, first)
        }),
    decreases first.len(),
{
    if first.len() == 0 {
        assert(first + second =~= second);
    } else {
        assert((first + second)[0] == first[0]);
        if !(first[0] is Quit) {
            assert((first + second).drop_first() =~= first.drop_first() + second);
            lemma_batches_compose(next_state(s, first[0]), first.drop_first(), second);
        }
    }
}

/// A batch leaves the event thread running exactly when it holds no `Quit`.
pub proof fn lemma_batch_stops_iff_quit(s: PacingState, events: Seq<Event>)
    ensures
        run_events(s, events).1 <==> (forall|i: int| 0 <= i < events.len() ==> !(#[trigger] events[i] is Quit)),
    decreases events.len(),
{
    if events.len() > 0 && !(events[0] is Quit) {
        let rest = events.drop_first();
        lemma_batch_stops_iff_quit(next_state(s, events[0]), rest);
        if run_events(s, events).1 {
            assert forall|i: int| 0 <= i < events.len() implies !(#[trigger] events[i] is Quit) by {
                if i > 0 {
                    assert(events[i] == rest[i - 1]);
                }
            }
        } else {
            assert(!(forall|i: int| 0 <= i < rest.len() ==> !(#[trigger] rest[i] is Quit)));
            let j = choose|j: int| 0 <= j < rest.len() && rest[j] is Quit;
            assert(events[j + 1] == rest[j]);
        }
    }
}

/// Minimizing a shown window and restoring it gives back the state it had.
pub proof fn lemma_minimize_then_restore(s: PacingState)
    requires
        consistent(s),
        !s.is_hidden,
    ensures
        next_state(
            next_state(s, Event::Window(WindowEvent::Minimized)),
            Event::Window(WindowEvent::Restore),
        ) == s,
{
}

/// A frame time set while the window is hidden takes effect when it is
/// restored, not before.
pub proof fn lemma_frame_time_applies_on_restore(s: PacingState, target: Duration)
    requires
        s.is_hidden,
    ensures
        next_state(s, Event::Settings(SettingsEvent::FrameTime(target))).current_frame_nanos
            == s.current_frame_nanos,
        next_state(
            next_state(s, Event::Settings(SettingsEvent::FrameTime(target))),
            Event::Window(WindowEvent::Restore),
        ).current_frame_nanos == target@,
{
}

/// The flags the event thread keeps and the drawing loop reads.
pub struct MediaFlags {
    pub is_hidden: bool,
    pub frame_duration: Duration,
    pub current_frame_duration: Duration,
}

impl View for MediaFlags {
    type V = PacingState;

    open spec fn view(&self) -> PacingState {
        PacingState {
            is_hidden: self.is_hidden,
            frame_nanos: self.frame_duration@,
            current_frame_nanos: self.current_frame_duration@,
        }
    }
}

impl MediaFlags {
    /// The flags of a shown window drawing at `frame_rate`.
    pub fn new(frame_rate: Duration) -> (f: MediaFlags)
        ensures
            f@ == (PacingState {
                is_hidden: false,
                frame_nanos: frame_rate@,
                current_frame_nanos: frame_rate@,
            }),
            consistent(f@),
    {
        MediaFlags { is_hidden: false, frame_duration: frame_rate, current_frame_duration: frame_rate }
    }

    /// Handles one event; returns `false` for `Quit`, which stops the event
    /// thread.
    pub fn apply(&mut self, event: &Event) -> (keep_running: bool)
        ensures
            final(self)@ == next_state(old(self)@, *event),
            keep_running == !(*event is Quit),
            (*event is Unknown || *event is Key || *event == Event::Window(WindowEvent::Maximized)
                || *event is Quit) ==> final(self)@ == old(self)@,
    {
        match event {
            Event::Quit => false,
            Event::Settings(SettingsEvent::FrameTime(target)) => {
                self.frame_duration = *target;
                if !self.is_hidden {
                    self.current_frame_duration = *target;
                }
                true
            },
            Event::Window(window) => {
                match window {
                    WindowEvent::Minimized => {
                        self.is_hidden = true;
                        self.current_frame_duration = Duration::from_millis(HIDDEN_FRAME_MILLIS);
                    },
                    WindowEvent::Maximized => {},
                    WindowEvent::Restore => {
                        self.is_hidden = false;
                        self.current_frame_duration = self.frame_duration;
                    },
                }
                true
            },
            _ => true,
        }
    }

    /// Handles a batch of events in order, stopping at the first `Quit`;
    /// returns whether the event thread keeps running.
    pub fn apply_all(&mut self, events: &Vec<Event>) -> (keep_running: bool)
        ensures
            (final(self)@, keep_running) == run_events(old(self)@, events@),
    {
        let mut i: usize = 0;
        assert(events@.skip(0) =~= events@);
        while i < events.len()
            invariant
                0 <= i <= events@.len(),
                run_events(self@, events@.skip(i as int)) == run_events(
                    old(self)@,
                    events@,
                ),
            decreases events@.len() - i,
        {
            assert(events@.skip(i as int)[0] == events@[i as int]);
            assert(events@.skip(i as int).drop_first() =~= events@.skip(i + 1));
            if !self.apply(&events[i]) {
                return false;
            }
            i = i + 1;
        }
        assert(events@.skip(i as int).len() == 0);
        true
    }

    /// Milliseconds the drawing loop waits after a frame drawn `elapsed` ago.
    pub fn wait_millis(&self, elapsed: Duration) -> (r: u32)
        ensures
            r == frame_wait_millis(elapsed@, self.current_frame_duration@, self.is_hidden),
    {
        time_before_next_frame(elapsed, self.current_frame_duration, self.is_hidden)
    }
}

} // verus!
