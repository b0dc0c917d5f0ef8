use vstd::prelude::*;

use crate::duration::Duration;

verus! {

/// What the media layer reports to the parts of the engine that listen to it.
#[derive(PartialEq, Eq, Structural, Copy, Clone, Debug)]
pub enum Event {
    Unknown,
    Quit,
    Key(KeyEvent),
    Window(WindowEvent),
    Settings(SettingsEvent),
}

/// A key going down or up.
#[derive(PartialEq, Eq, Structural, Copy, Clone, Debug)]
pub enum KeyEvent {
    Up,
    Down,
}

/// A change of the window's state.
#[derive(PartialEq, Eq, Structural, Copy, Clone, Debug)]
pub enum WindowEvent {
    Minimized,
    Maximized,
    Restore,
}

/// A change of the engine's settings.
#[derive(PartialEq, Eq, Structural, Copy, Clone, Debug)]
pub enum SettingsEvent {
    /// The time one frame should take while the window is shown.
    FrameTime(Duration),
}

} // verus!
